//! Graceful restart management.
//!
//! A process that restarts itself starts a new instance of its program, hands its state over to
//! it, waits until it is ready, and then ends once its own tasks have completed. This crate holds
//! what is decided and computed on the way; the reading, writing, waiting and forking is up to the
//! program around it, which reports what happened and is told what to do next.
//!
//! `RestartConfig::try_into_restart_task` sets up a `RestartTask`. The process is placed into the
//! ready state when the task starts. The task resolves successfully if a restart was requested, by
//! SIGUSR1 or over the restart coordination socket, and the new process started up. If the task is
//! unable to handle future restart requests for any reason, it resolves to an error. After any
//! kind of restart request, the old process will terminate if the new process starts up
//! successfully, otherwise it will continue if possible.
//!
//! For coordinating graceful shutdown of the old process, see `ShutdownCoordinator` in the
//! `shutdown` module.
//!
//! # Transferring state to the new process
//!
//! After a new process has been spawned, a `ChildLaunch` has the lifecycle handler write to a
//! unidirectional pipe, from which the new process reads; `receive_from_old_process` tells it
//! where. If the new process fails to signal readiness, the lifecycle handler is told, so that it
//! can undo any changes made in preparation for the handover.
//!
//! A process that systemd manages may instead write its state to memory that systemd keeps for the
//! instance that it starts next.
pub mod child;
pub mod environment;
pub mod error;
pub mod fdstore;
pub mod generation;
pub mod lifecycle;
pub mod pipes;
pub mod restart_coordination_socket;
pub mod restart_task;
pub mod shutdown;
pub mod text;

pub use child::ChildSpawnError;
pub use environment::{fixup_systemd_env, startup_complete};
pub use restart_task::{spawn_restart_task, RestartConfig};
pub use shutdown::{ShutdownCoordinator, ShutdownHandle, ShutdownSignal};
