//! A small service that counts how often it has been restarted, and hands the count over to its
//! successor.
use crate::error::IoFailure;
use crate::text::unsigned_text;
use vstd::prelude::*;
use vstd::string::*;

verus! {

/// Begins the state that is handed over.
pub const SERIALIZED_MAGIC_NUMBER: u32 = 0xCAFEF00D;

/// The last generation that has a successor.
pub const LAST_GENERATION: u32 = 4;

/// A number in four bytes, most significant byte first.
pub open spec fn big_endian(n: u32) -> Seq<u8> {
    seq![
        (n / 16777216) as u8,
        ((n / 65536) % 256) as u8,
        ((n / 256) % 256) as u8,
        (n % 256) as u8,
    ]
}

/// The number that four bytes of `data` from `at` on denote, most significant byte first.
pub open spec fn word_at(data: Seq<u8>, at: int) -> int {
    data[at] * 16777216 + data[at + 1] * 65536 + data[at + 2] * 256 + data[at + 3]
}

/// The service.
#[derive(Debug, Clone, Copy, PartialEq, Eq, Structural)]
pub struct AppData {
    pub restart_generation: u32,
}

/// Why the state of the old process is of no use.
#[derive(Debug, Clone, Copy, PartialEq, Eq, Structural)]
pub enum HandoverError {
    /// It does not begin with the magic number.
    NoMagicNumber,
    /// It ends too early.
    UnexpectedEnd,
}

impl HandoverError {
    /// How the error reads.
    pub open spec fn message(self) -> Seq<char> {
        match self {
            HandoverError::NoMagicNumber =>
                "Expected serialized data to begin with the magic number"@,
            HandoverError::UnexpectedEnd => "unexpected end of file"@,
        }
    }

    /// How the error reads.
    pub fn to_text(&self) -> (r: String)
        ensures
            r@ == self.message(),
    {
        match self {
            HandoverError::NoMagicNumber => String::from_str(
                "Expected serialized data to begin with the magic number",
            ),
            HandoverError::UnexpectedEnd => String::from_str("unexpected end of file"),
        }
    }
}

fn push_big_endian(data: &mut Vec<u8>, n: u32)
    ensures
        final(data)@ == old(data)@ + big_endian(n),
{
    data.push((n / 16777216) as u8);
    data.push(((n / 65536) % 256) as u8);
    data.push(((n / 256) % 256) as u8);
    data.push((n % 256) as u8);
}

fn read_word(data: &[u8], at: usize) -> (r: u32)
    requires
        at + 4 <= data@.len(),
    ensures
        r == word_at(data@, at as int),
{
    data[at] as u32 * 16777216 + data[at + 1] as u32 * 65536 + data[at + 2] as u32 * 256 + data[at
        + 3] as u32
}

/// What the service is after it took over the state of an old process, if there is any.
pub open spec fn started_from(handover: Option<Seq<u8>>) -> Result<AppData, HandoverError> {
    match handover {
        None => Ok(AppData { restart_generation: 0 }),
        Some(data) => if data.len() < 4 {
            Err(HandoverError::UnexpectedEnd)
        } else if word_at(data, 0) != SERIALIZED_MAGIC_NUMBER {
            Err(HandoverError::NoMagicNumber)
        } else if data.len() < 8 {
            Err(HandoverError::UnexpectedEnd)
        } else {
            Ok(AppData { restart_generation: (word_at(data, 4) + 1) as u32 })
        },
    }
}

impl AppData {
    /// The bytes that the service writes for its successor, and whether it then reports success:
    /// the magic number, and the generation if it has a successor.
    pub fn send_to_new_process(&self) -> (r: (Vec<u8>, Result<(), IoFailure>))
        ensures
            self.restart_generation <= LAST_GENERATION ==> {
                &&& r.0@ == big_endian(SERIALIZED_MAGIC_NUMBER) + big_endian(
                    self.restart_generation,
                )
                &&& r.1 is Ok
            },
            self.restart_generation > LAST_GENERATION ==> {
                &&& r.0@ == big_endian(SERIALIZED_MAGIC_NUMBER)
                &&& r.1 is Err
                &&& r.1->Err_0.message() == "The operation completed successfully"@
            },
    {
        let mut data: Vec<u8> = Vec::new();
        push_big_endian(&mut data, SERIALIZED_MAGIC_NUMBER);
        if self.restart_generation > LAST_GENERATION {
            return (
                data,
                Err(
                    IoFailure::Reported(String::from_str("The operation completed successfully")),
                ),
            );
        }
        push_big_endian(&mut data, self.restart_generation);
        (data, Ok(()))
    }

    /// Starts the service, with what it received from the old process, if there is one.
    pub fn start(handover: Option<&[u8]>) -> (r: Result<AppData, HandoverError>)
        requires
            handover matches Some(data) ==> data@.len() < 8 || word_at(data@, 0)
                != SERIALIZED_MAGIC_NUMBER || word_at(data@, 4) < u32::MAX,
        ensures
            r == started_from(
                match handover {
                    Some(data) => Some(data@),
                    None => None,
                },
            ),
    {
        match handover {
            None => Ok(AppData { restart_generation: 0 }),
            Some(data) => {
                if data.len() < 4 {
                    return Err(HandoverError::UnexpectedEnd);
                }
                if read_word(data, 0) != SERIALIZED_MAGIC_NUMBER {
                    return Err(HandoverError::NoMagicNumber);
                }
                if data.len() < 8 {
                    return Err(HandoverError::UnexpectedEnd);
                }
                Ok(AppData { restart_generation: read_word(data, 4) + 1 })
            },
        }
    }

    /// What the service prints once it has started.
    pub fn started_line(&self) -> (r: String)
        ensures
            r@ == "Started with generation "@ + crate::text::decimal(
                self.restart_generation as int,
            ),
    {
        String::from_str("Started with generation ").concat(
            unsigned_text(self.restart_generation).as_str(),
        )
    }
}

/// What the service prints when its restart task has resolved, successfully or to an error that
/// reads like this.
pub fn restart_task_line(resolution: &Result<(), String>) -> (r: String)
    ensures
        r@ == match resolution {
            Ok(_) => "Restart successful"@,
            Err(e) => "Restart task failed: "@ + e@,
        },
{
    match resolution {
        Ok(_) => String::from_str("Restart successful"),
        Err(e) => String::from_str("Restart task failed: ").concat(e.as_str()),
    }
}

/// What is printed when a restart of a running service was requested.
pub fn restart_request_line(result: &Result<u32, String>) -> (r: String)
    ensures
        r@ == match result {
            Ok(_) => "Restart request succeeded"@,
            Err(e) => "Restart request failed: "@ + e@,
        },
{
    match result {
        Ok(_) => String::from_str("Restart request succeeded"),
        Err(e) => String::from_str("Restart request failed: ").concat(e.as_str()),
    }
}

/// Every restart begins a new generation: the successor of a service is one generation further.
pub proof fn law_generation_grows(generation: u32)
    requires
        generation < u32::MAX,
    ensures
        started_from(Some(big_endian(SERIALIZED_MAGIC_NUMBER) + big_endian(generation))) == Ok::<
            AppData,
            HandoverError,
        >(AppData { restart_generation: (generation + 1) as u32 }),
{
    let magic = SERIALIZED_MAGIC_NUMBER;
    let data = big_endian(magic) + big_endian(generation);
    assert(word_at(data, 0) == magic) by {
        assert((magic / 16777216) * 16777216 + ((magic / 65536) % 256) * 65536 + ((magic / 256)
            % 256) * 256 + magic % 256 == magic);
    }
    assert(word_at(data, 4) == generation) by {
        let n = generation;
        assert((n / 16777216) * 16777216 + ((n / 65536) % 256) * 65536 + ((n / 256) % 256) * 256
            + n % 256 == n);
    }
}

/// The state that is handed over is the magic number, followed by the generation, most significant
/// byte first. After the last generation there is only the magic number, and a failure.
pub proof fn law_handed_over_state(service: &AppData, sent: (Vec<u8>, Result<(), IoFailure>))
    requires
        call_ensures(AppData::send_to_new_process, (service,), sent),
    ensures
        ({
            let bytes = sent.0@;
            &&& bytes.len() == if service.restart_generation <= 4 {
                8int
            } else {
                4
            }
            &&& bytes[0] == 0xca && bytes[1] == 0xfe && bytes[2] == 0xf0 && bytes[3] == 0x0d
            &&& service.restart_generation <= 4 ==> bytes[4] * 16777216 + bytes[5] * 65536
                + bytes[6] * 256 + bytes[7] == service.restart_generation
            &&& sent.1 is Ok <==> service.restart_generation <= 4
            &&& sent.1 is Err ==> sent.1->Err_0.message()
                == "The operation completed successfully"@
        }),
{
    let n = service.restart_generation;
    assert(big_endian(SERIALIZED_MAGIC_NUMBER) =~= seq![0xcau8, 0xfeu8, 0xf0u8, 0x0du8]);
    assert((n / 16777216) * 16777216 + ((n / 65536) % 256) * 65536 + ((n / 256) % 256) * 256 + n
        % 256 == n);
}

/// A service that starts with the state of another one is its successor: it is one generation
/// further. Without any state it is the first generation.
pub proof fn law_successor_is_one_generation_further(
    service: &AppData,
    sent: (Vec<u8>, Result<(), IoFailure>),
    received: &[u8],
    successor: Result<AppData, HandoverError>,
    first: Result<AppData, HandoverError>,
)
    requires
        call_ensures(AppData::send_to_new_process, (service,), sent),
        sent.1 is Ok,
        received@ == sent.0@,
        call_ensures(AppData::start, (Some(received),), successor),
        call_ensures(AppData::start, (None,), first),
    ensures
        successor is Ok,
        successor->Ok_0.restart_generation == service.restart_generation + 1,
        first is Ok,
        first->Ok_0.restart_generation == 0,
{
    law_generation_grows(service.restart_generation);
}

/// State is of use if and only if it begins with the magic number and a generation follows. What
/// follows the generation does not matter, and state that does not begin with the magic number is
/// recognised without the rest.
pub proof fn law_useful_state(data: &[u8], started: Result<AppData, HandoverError>)
    requires
        call_ensures(AppData::start, (Some(data),), started),
    ensures
        ({
            let handed_over = data@[4] * 16777216 + data@[5] * 65536 + data@[6] * 256 + data@[7];
            let magic = data@.len() >= 4 && data@[0] == 0xca && data@[1] == 0xfe && data@[2] == 0xf0
                && data@[3] == 0x0d;
            &&& started is Ok <==> magic && data@.len() >= 8
            &&& started is Ok && handed_over < u32::MAX ==> started->Ok_0.restart_generation
                == handed_over + 1
            &&& started == Err::<AppData, HandoverError>(HandoverError::NoMagicNumber)
                <==> data@.len() >= 4 && !magic
            &&& started == Err::<AppData, HandoverError>(HandoverError::UnexpectedEnd)
                <==> data@.len() < 4 || magic && data@.len() < 8
        }),
{
}

/// What the service prints: its generation as a number when it has started, and how its restart
/// task or a request for a restart ended, with the reason if it failed.
pub proof fn law_printed_lines(
    service: &AppData,
    started: String,
    generation: String,
    resolution: &Result<(), String>,
    task: String,
    result: &Result<u32, String>,
    request: String,
)
    requires
        call_ensures(AppData::started_line, (service,), started),
        call_ensures(unsigned_text, (service.restart_generation,), generation),
        call_ensures(restart_task_line, (resolution,), task),
        call_ensures(restart_request_line, (result,), request),
    ensures
        started@ == "Started with generation "@ + generation@,
        resolution is Ok ==> task@ == "Restart successful"@,
        *resolution matches Err(reason) ==> task@ == "Restart task failed: "@ + reason@,
        result is Ok ==> request@ == "Restart request succeeded"@,
        *result matches Err(reason) ==> request@ == "Restart request failed: "@ + reason@,
{
}

/// How a failure to take over reads.
pub proof fn law_handover_errors_read_well(error: &HandoverError, text: String)
    requires
        call_ensures(HandoverError::to_text, (error,), text),
    ensures
        *error is NoMagicNumber ==> text@
            == "Expected serialized data to begin with the magic number"@,
        *error is UnexpectedEnd ==> text@ == "unexpected end of file"@,
{
}

} // verus!
