//! Readiness assertions for a non-blocking socket driven through a poller.
//!
//! The library holds the decisions: which readiness events satisfy an
//! expectation, when a bounded wait has succeeded or timed out, what an echo
//! responder does with each read, and the scripted client session. The
//! polling and socket I/O are performed by the caller, which hands the
//! outcomes back as plain values.

mod echo;
mod fault;
mod readiness;
mod session;

pub use readiness::{
    find_match, has_match, EventWait, Expectation, ReadyEvent, Readiness, WaitStep,
    DEFAULT_ATTEMPTS, POLL_TIMEOUT_MS,
};
pub use echo::{echo_step, lemma_echo_fidelity, EchoAction};
pub use fault::{assert_would_block, BlockCheckError, IoFault};
pub use session::{
    payload, Command, HarnessError, Report, Session, Stage, CLIENT_TOKEN, READ_BUF_LEN,
};
