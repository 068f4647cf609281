//! Decimal text of numbers, as it stands in environment variables and messages.
use vstd::prelude::*;
use vstd::string::*;

verus! {

/// The character of a single decimal digit.
pub open spec fn digit_char(d: int) -> char {
    (('0' as int) + d) as char
}

/// The decimal digits of `n`, most significant first, without leading zeros.
pub open spec fn digits(n: nat) -> Seq<char>
    decreases n,
{
    if n < 10 {
        seq![digit_char(n as int)]
    } else {
        digits(n / 10).push(digit_char((n % 10) as int))
    }
}

/// The decimal text of `i`, with a leading minus sign when `i` is negative.
pub open spec fn decimal(i: int) -> Seq<char> {
    if i < 0 {
        seq!['-'] + digits((-i) as nat)
    } else {
        digits(i as nat)
    }
}

fn digit_str(d: u64) -> (r: &'static str)
    requires
        d < 10,
    ensures
        r@ == seq![digit_char(d as int)],
{
    proof {
        reveal_strlit("0");
        reveal_strlit("1");
        reveal_strlit("2");
        reveal_strlit("3");
        reveal_strlit("4");
        reveal_strlit("5");
        reveal_strlit("6");
        reveal_strlit("7");
        reveal_strlit("8");
        reveal_strlit("9");
    }
    match d {
        0 => "0",
        1 => "1",
        2 => "2",
        3 => "3",
        4 => "4",
        5 => "5",
        6 => "6",
        7 => "7",
        8 => "8",
        _ => "9",
    }
}

fn digits_text(n: u64) -> (r: String)
    ensures
        r@ == digits(n as nat),
    decreases n,
{
    if n < 10 {
        String::from_str(digit_str(n))
    } else {
        let mut text = digits_text(n / 10);
        text.append(digit_str(n % 10));
        text
    }
}

/// The decimal text of an unsigned number.
pub fn unsigned_text(value: u32) -> (r: String)
    ensures
        r@ == decimal(value as int),
{
    digits_text(value as u64)
}

/// The decimal text of a signed number.
pub fn signed_text(value: i32) -> (r: String)
    ensures
        r@ == decimal(value as int),
{
    if value < 0 {
        proof {
            reveal_strlit("-");
        }
        let magnitude: u64 = (-(value as i64)) as u64;
        String::from_str("-").concat(digits_text(magnitude).as_str())
    } else {
        digits_text(value as u64)
    }
}

/// Whether two texts are the same.
pub fn str_equal(a: &str, b: &str) -> (r: bool)
    ensures
        r == (a@ == b@),
{
    String::from_str(a) == String::from_str(b)
}

/// Whether `c` is one of the ten decimal digits.
pub open spec fn is_digit(c: char) -> bool {
    '0' <= c <= '9'
}

/// Whether `s` is a run of one or more decimal digits.
pub open spec fn is_digits(s: Seq<char>) -> bool {
    &&& s.len() > 0
    &&& forall|i: int| 0 <= i < s.len() ==> is_digit(#[trigger] s[i])
}

/// The number that a run of decimal digits denotes.
pub open spec fn digits_value(s: Seq<char>) -> int
    decreases s.len(),
{
    if s.len() == 0 {
        0
    } else {
        digits_value(s.drop_last()) * 10 + (s.last() as int - '0' as int)
    }
}

/// The `i32` that `s` denotes: an optional sign, then one or more digits, within range.
pub open spec fn parsed_i32(s: Seq<char>) -> Option<i32> {
    let signed = s.len() > 0 && (s[0] == '-' || s[0] == '+');
    let body = if signed {
        s.skip(1)
    } else {
        s
    };
    let value = if signed && s[0] == '-' {
        -digits_value(body)
    } else {
        digits_value(body)
    };
    if is_digits(body) && i32::MIN <= value <= i32::MAX {
        Some(value as i32)
    } else {
        None
    }
}

proof fn lemma_digits_value_nonnegative(s: Seq<char>)
    requires
        forall|i: int| 0 <= i < s.len() ==> is_digit(#[trigger] s[i]),
    ensures
        digits_value(s) >= 0,
    decreases s.len(),
{
    if s.len() > 0 {
        lemma_digits_value_nonnegative(s.drop_last());
    }
}

proof fn lemma_digits_value_grows(s: Seq<char>, n: int)
    requires
        forall|i: int| 0 <= i < s.len() ==> is_digit(#[trigger] s[i]),
        0 <= n <= s.len(),
    ensures
        digits_value(s.take(n)) <= digits_value(s),
    decreases s.len() - n,
{
    if n == s.len() {
        assert(s.take(n) =~= s);
    } else {
        lemma_digits_value_grows(s, n + 1);
        assert(s.take(n + 1).drop_last() =~= s.take(n));
        lemma_digits_value_nonnegative(s.take(n));
    }
}

/// Reads a signed number: `None` for anything that is not one or does not fit.
pub fn parse_i32(text: &str) -> (r: Option<i32>)
    ensures
        r == parsed_i32(text@),
{
    if !text.is_ascii() {
        proof {
            let bad = choose|i: int|
                0 <= i < text@.len() && !('\0' <= #[trigger] text@[i] <= '\u{7f}');
            let signed = text@.len() > 0 && (text@[0] == '-' || text@[0] == '+');
            if signed {
                assert(text@.skip(1)[bad - 1] == text@[bad]);
            }
        }
        return None;
    }
    let bytes = text.as_bytes();
    let len: usize = bytes.len();
    proof {
        assert forall|k: int| 0 <= k < len implies bytes@[k] as int == (
        #[trigger] text@[k]) as int by {
            assert('\0' <= text@[k] <= '\u{7f}');
        }
    }
    if len == 0 {
        return None;
    }
    let negative: bool = bytes[0] == 0x2d;
    let start: usize = if negative || bytes[0] == 0x2b {
        1
    } else {
        0
    };
    let ghost body = if start == 1 {
        text@.skip(1)
    } else {
        text@
    };
    if start == len {
        return None;
    }
    let mut value: i64 = 0;
    let mut i: usize = start;
    while i < len
        invariant
            len == bytes@.len() == text@.len(),
            0 <= start <= i <= len,
            start <= 1,
            start < len,
            forall|k: int|
                0 <= k < len ==> bytes@[k] as int == (#[trigger] text@[k]) as int,
            body == if start == 1 {
                text@.skip(1)
            } else {
                text@
            },
            start == 1 <==> (text@[0] == '-' || text@[0] == '+'),
            forall|k: int| 0 <= k < i - start ==> is_digit(#[trigger] body[k]),
            value == digits_value(body.take(i - start)),
            0 <= value <= 2147483648,
        decreases len - i,
    {
        let b: u8 = bytes[i];
        proof {
            assert(body[i - start] == text@[i as int]);
        }
        if b < 0x30 || b > 0x39 {
            proof {
                assert(!is_digit(body[i - start]));
            }
            return None;
        }
        value = value * 10 + (b - 0x30) as i64;
        proof {
            assert(body.take(i - start + 1).drop_last() =~= body.take(i - start));
            assert(body.take(i - start + 1).last() == body[i - start]);
        }
        if value > 2147483648 {
            proof {
                if is_digits(body) {
                    lemma_digits_value_grows(body, i - start + 1);
                }
            }
            return None;
        }
        i = i + 1;
    }
    proof {
        assert(body.take(len - start) =~= body);
    }
    if negative {
        Some((-value) as i32)
    } else if value <= 2147483647 {
        Some(value as i32)
    } else {
        None
    }
}

proof fn lemma_digits(n: nat)
    ensures
        is_digits(digits(n)),
        digits_value(digits(n)) == n,
    decreases n,
{
    if n < 10 {
        assert(digits(n).drop_last() =~= Seq::<char>::empty());
        assert(digits_value(digits(n).drop_last()) == 0);
    } else {
        lemma_digits(n / 10);
        let front = digits(n / 10);
        assert(digits(n).drop_last() =~= front);
        assert forall|i: int| 0 <= i < digits(n).len() implies is_digit(#[trigger] digits(n)[i]) by {
            if i < front.len() {
                assert(digits(n)[i] == front[i]);
            }
        }
    }
}

/// The text of any signed number reads back as that number.
pub proof fn lemma_signed_text_round_trip(value: i32)
    ensures
        parsed_i32(decimal(value as int)) == Some(value),
{
    let text = decimal(value as int);
    if value < 0 {
        let n = (-value) as nat;
        lemma_digits(n);
        assert(text.skip(1) =~= digits(n));
    } else {
        lemma_digits(value as nat);
        assert(is_digit(text[0]));
    }
}

/// The text of a number is written digit by digit: that of a number without its last digit,
/// followed by the character of the last digit, and a number below ten is a single character.
pub proof fn law_unsigned_text_is_positional(
    value: u32,
    without_last: u32,
    text: String,
    front: String,
)
    requires
        without_last == value / 10,
        call_ensures(unsigned_text, (value,), text),
        call_ensures(unsigned_text, (without_last,), front),
    ensures
        text@.len() > 0,
        text@.last() as int == 48 + value % 10,
        value < 10 ==> text@.len() == 1,
        value >= 10 ==> text@.drop_last() == front@,
{
    lemma_last_digit(value as nat);
}

proof fn lemma_last_digit(n: nat)
    ensures
        digits(n).len() > 0,
        digits(n).last() as int == 48 + n % 10,
        n < 10 ==> digits(n).len() == 1,
        n >= 10 ==> digits(n).drop_last() == digits(n / 10),
{
    if n >= 10 {
        assert(digits(n).drop_last() =~= digits(n / 10));
    }
}

/// The text of a signed number is that of an unsigned number, with a minus sign in front if and only
/// if it is negative.
pub proof fn law_signed_text_has_a_sign(
    value: i32,
    magnitude: u32,
    text: String,
    unsigned: String,
)
    requires
        magnitude == if value < 0 {
            -value
        } else {
            value as int
        },
        call_ensures(signed_text, (value,), text),
        call_ensures(unsigned_text, (magnitude,), unsigned),
    ensures
        value >= 0 ==> text@ == unsigned@,
        value < 0 ==> text@ == seq!['-'] + unsigned@,
{
}

/// Two texts are the same if and only if they hold the same characters.
pub proof fn law_equal_texts_hold_the_same(a: &str, b: &str, equal: bool)
    requires
        call_ensures(str_equal, (a, b), equal),
    ensures
        equal ==> a@.len() == b@.len() && forall|i: int| 0 <= i < a@.len() ==> a@[i] == b@[i],
        !equal ==> a@.len() != b@.len() || exists|i: int| 0 <= i < a@.len() && a@[i] != b@[i],
{
    if !equal && a@.len() == b@.len() && !(exists|i: int| 0 <= i < a@.len() && a@[i] != b@[i]) {
        assert(a@ =~= b@);
    }
}

/// Numbers are read digit by digit: one more digit behind a number makes ten times the number plus
/// or minus the digit, and the sign in front decides which; nothing is a number that does not fit.
/// Without a digit nothing is a number, and nothing is a number with anything else behind it.
pub proof fn law_numbers_are_read_by_digits(
    front: &str,
    last: char,
    text: &str,
    front_value: Option<i32>,
    value: Option<i32>,
)
    requires
        text@ == front@.push(last),
        call_ensures(parse_i32, (front,), front_value),
        call_ensures(parse_i32, (text,), value),
    ensures
        ({
            let digit = last as int - 48;
            let is_sign = front@.len() == 1 && (front@[0] == '-' || front@[0] == '+');
            let negative = front@.len() > 0 && front@[0] == '-';
            let so_far = if front@.len() == 0 || is_sign {
                Some(0int)
            } else {
                match front_value {
                    Some(v) => Some(v as int),
                    None => None,
                }
            };
            &&& front@.len() == 0 ==> front_value is None
            &&& !(0 <= digit <= 9) ==> value is None
            &&& 0 <= digit <= 9 ==> match so_far {
                None => value is None,
                Some(v) => {
                    let extended = if negative {
                        v * 10 - digit
                    } else {
                        v * 10 + digit
                    };
                    if -2147483648 <= extended <= 2147483647 {
                        value is Some && value->0 == extended
                    } else {
                        value is None
                    }
                },
            }
        }),
{
    let t = text@;
    let f = front@;
    let is_sign = f.len() == 1 && (f[0] == '-' || f[0] == '+');
    let signed = t[0] == '-' || t[0] == '+';
    if f.len() == 0 {
        assert(t =~= seq![last]);
        assert(t.drop_last() =~= Seq::<char>::empty());
        assert(t.skip(1) =~= Seq::<char>::empty());
        assert(digits_value(t) == digits_value(t.drop_last()) * 10 + (last as int - '0' as int));
        assert(digits_value(Seq::<char>::empty()) == 0);
        if is_digit(last) {
            assert(is_digits(t));
        } else {
            assert(!is_digit(t[0]));
        }
    } else {
        let fbody = if signed {
            f.skip(1)
        } else {
            f
        };
        let tbody = if signed {
            t.skip(1)
        } else {
            t
        };
        assert(t[0] == f[0]);
        assert(tbody =~= fbody.push(last));
        assert(tbody.drop_last() =~= fbody);
        assert(tbody.last() == last);
        assert(digits_value(tbody) == digits_value(fbody) * 10 + (last as int - '0' as int));
        if is_sign {
            assert(fbody =~= Seq::<char>::empty());
            assert(digits_value(fbody) == 0);
        }
        if is_digit(last) && (is_digits(fbody) || is_sign) {
            assert forall|i: int| 0 <= i < tbody.len() implies is_digit(#[trigger] tbody[i]) by {
                if i < fbody.len() {
                    assert(tbody[i] == fbody[i]);
                }
            }
            assert(is_digits(tbody));
            lemma_digits_value_nonnegative(fbody);
        } else {
            if is_digit(last) {
                assert(fbody.len() > 0);
                let i = choose|i: int| 0 <= i < fbody.len() && !is_digit(#[trigger] fbody[i]);
                assert(!is_digit(tbody[i]));
            } else {
                assert(!is_digit(tbody[tbody.len() - 1]));
            }
            assert(!is_digits(tbody));
        }
    }
}

/// Every number is read back from its own text.
pub proof fn law_text_reads_back(value: i32, text: String, read: &str, parsed: Option<i32>)
    requires
        call_ensures(signed_text, (value,), text),
        read@ == text@,
        call_ensures(parse_i32, (read,), parsed),
    ensures
        parsed == Some(value),
{
    lemma_signed_text_round_trip(value);
}

} // verus!
