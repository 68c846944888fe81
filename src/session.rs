use vstd::prelude::*;

use crate::fault::{assert_would_block, BlockCheckError, IoFault};
use crate::readiness::{has_match, EventWait, Expectation, ReadyEvent, Readiness, WaitStep};

verus! {

/// The token under which the client handle is registered.
pub const CLIENT_TOKEN: usize = 0;

/// Size of the client's read buffer.
pub const READ_BUF_LEN: usize = 16;

/// The payload the client sends, twice: `Hello world!`.
pub open spec fn payload_bytes() -> Seq<u8> {
    seq![72u8, 101, 108, 108, 111, 32, 119, 111, 114, 108, 100, 33]
}

pub fn payload() -> (r: Vec<u8>)
    ensures
        r@ == payload_bytes(),
{
    let r: Vec<u8> = vec![72u8, 101, 108, 108, 111, 32, 119, 111, 114, 108, 100, 33];
    assert(r@ =~= payload_bytes());
    r
}

/// Why a session failed.
#[derive(Clone, Copy, Debug, PartialEq, Eq, Structural)]
pub enum HarnessError {
    /// The awaited readiness condition did not arrive within the bounded wait.
    ReadinessTimeout(Readiness),
    /// A client call that should have completed at once would have blocked.
    UnexpectedBlocking,
    /// A client call failed.
    ClientIoFailure(IoFault),
    /// The client handle held a pending error after a successful read.
    PendingSocketError,
    /// The optional probe read did not report "would block".
    NotWouldBlock(BlockCheckError),
    /// The responder thread ended by failure.
    PeerIoFailure,
}

/// Where the scripted session stands.
#[derive(Clone, Copy, Debug, PartialEq, Eq, Structural)]
pub enum Stage {
    AwaitWritable,
    SendFirst,
    FlushFirst,
    AwaitFirstEcho,
    ReadEcho,
    CheckPendingError,
    ProbeWouldBlock,
    SendSecond,
    FlushSecond,
    AwaitSecondEcho,
    Close,
    JoinResponder,
    Finished,
    Failed(HarnessError),
}

/// What the caller performs next.
#[derive(Clone, Copy, Debug, PartialEq, Eq, Structural)]
pub enum Command {
    /// Poll for events, blocking for at most this many milliseconds.
    Poll { timeout_ms: u64 },
    /// Write the payload to the client handle.
    WritePayload,
    /// Flush the client handle.
    Flush,
    /// Read once from the client handle into a buffer of this size.
    Read { max_len: usize },
    /// Take the pending error of the client handle.
    TakeError,
    /// Drop the client handle.
    Close,
    /// Wait for the responder thread to end.
    Join,
    /// The session succeeded.
    Finish,
    /// The session failed.
    Abort(HarnessError),
}

/// The outcome of a command, as the caller saw it.
#[derive(Debug, PartialEq, Eq)]
pub enum Report {
    Polled(Vec<ReadyEvent>),
    Wrote(Result<usize, IoFault>),
    Flushed(Result<(), IoFault>),
    ReadDone(Result<usize, IoFault>),
    ErrorTaken { pending: bool },
    Closed,
    Joined { ok: bool },
}

/// The failure that a client call's error stands for.
pub open spec fn client_failure(k: IoFault) -> HarnessError {
    if k == IoFault::WouldBlock {
        HarnessError::UnexpectedBlocking
    } else {
        HarnessError::ClientIoFailure(k)
    }
}

fn client_failure_of(k: IoFault) -> (r: HarnessError)
    ensures
        r == client_failure(k),
{
    match k {
        IoFault::WouldBlock => HarnessError::UnexpectedBlocking,
        _ => HarnessError::ClientIoFailure(k),
    }
}

/// The client side of the scripted session: await writable, write and
/// flush the payload, await the echo, read it, check for a pending error,
/// optionally check that a second read would block, write and flush again,
/// await the echo, close, and join the responder.
#[derive(Clone, Copy, Debug, PartialEq, Eq, Structural)]
pub struct Session {
    pub stage: Stage,
    /// The wait of the current awaiting stage.
    pub wait: EventWait,
    /// Whether the would-block probe runs after the first read.
    pub probe_would_block: bool,
}

impl Session {
    /// A session at `stage` whose wait starts afresh for `want`.
    pub open spec fn awaiting(self, stage: Stage, want: Expectation) -> Session {
        Session { stage, wait: EventWait { want, attempts: 0, ..self.wait }, ..self }
    }

    pub open spec fn at(self, stage: Stage) -> Session {
        Session { stage, ..self }
    }

    /// The session after the batch of a poll, in an awaiting stage that is
    /// followed by `next`. The poll counts against the wait's bound.
    pub open spec fn after_poll(self, events: Seq<ReadyEvent>, next: Stage) -> Session {
        let timed_out = Stage::Failed(HarnessError::ReadinessTimeout(self.wait.want.readiness));
        if self.wait.attempts >= self.wait.max_attempts {
            self.at(timed_out)
        } else {
            let counted = Session {
                wait: EventWait { attempts: (self.wait.attempts + 1) as u32, ..self.wait },
                ..self
            };
            if has_match(self.wait.want, events) {
                counted.at(next)
            } else if counted.wait.attempts < self.wait.max_attempts {
                counted
            } else {
                counted.at(timed_out)
            }
        }
    }

    /// The session after a write or a flush that is followed by `next`.
    pub open spec fn after_call<T>(self, outcome: Result<T, IoFault>, next: Session) -> Session {
        match outcome {
            Ok(_) => next,
            Err(k) => self.at(Stage::Failed(client_failure(k))),
        }
    }

    /// The session after `report`. A report that does not answer the
    /// command of the current stage leaves the session as it is.
    pub open spec fn after(self, report: Report) -> Session {
        match (self.stage, report) {
            (Stage::AwaitWritable, Report::Polled(evs)) => self.after_poll(
                evs@,
                Stage::SendFirst,
            ),
            (Stage::SendFirst, Report::Wrote(o)) => self.after_call(o, self.at(Stage::FlushFirst)),
            (Stage::FlushFirst, Report::Flushed(o)) => self.after_call(
                o,
                self.awaiting(Stage::AwaitFirstEcho, Expectation { token: CLIENT_TOKEN, readiness: Readiness::Readable }),
            ),
            (Stage::AwaitFirstEcho, Report::Polled(evs)) => self.after_poll(
                evs@,
                Stage::ReadEcho,
            ),
            (Stage::ReadEcho, Report::ReadDone(o)) => self.after_call(
                o,
                self.at(Stage::CheckPendingError),
            ),
            (Stage::CheckPendingError, Report::ErrorTaken { pending }) => if pending {
                self.at(Stage::Failed(HarnessError::PendingSocketError))
            } else if self.probe_would_block {
                self.at(Stage::ProbeWouldBlock)
            } else {
                self.at(Stage::SendSecond)
            },
            (Stage::ProbeWouldBlock, Report::ReadDone(o)) => match o {
                Err(IoFault::WouldBlock) => self.at(Stage::SendSecond),
                Ok(_) => self.at(Stage::Failed(HarnessError::NotWouldBlock(BlockCheckError::UnexpectedOk))),
                Err(k) => self.at(Stage::Failed(HarnessError::NotWouldBlock(BlockCheckError::UnexpectedError(k)))),
            },
            (Stage::SendSecond, Report::Wrote(o)) => self.after_call(o, self.at(Stage::FlushSecond)),
            (Stage::FlushSecond, Report::Flushed(o)) => self.after_call(
                o,
                self.awaiting(Stage::AwaitSecondEcho, Expectation { token: CLIENT_TOKEN, readiness: Readiness::Readable }),
            ),
            (Stage::AwaitSecondEcho, Report::Polled(evs)) => self.after_poll(
                evs@,
                Stage::Close,
            ),
            (Stage::Close, Report::Closed) => self.at(Stage::JoinResponder),
            (Stage::JoinResponder, Report::Joined { ok }) => if ok {
                self.at(Stage::Finished)
            } else {
                self.at(Stage::Failed(HarnessError::PeerIoFailure))
            },
            _ => self,
        }
    }

    /// The command owed in the current stage.
    pub open spec fn command_of(self) -> Command {
        match self.stage {
            Stage::AwaitWritable | Stage::AwaitFirstEcho | Stage::AwaitSecondEcho => {
                match self.wait.pending_step() {
                    WaitStep::Poll { timeout_ms } => Command::Poll { timeout_ms },
                    _ => Command::Abort(HarnessError::ReadinessTimeout(self.wait.want.readiness)),
                }
            },
            Stage::SendFirst | Stage::SendSecond => Command::WritePayload,
            Stage::FlushFirst | Stage::FlushSecond => Command::Flush,
            Stage::ReadEcho | Stage::ProbeWouldBlock => Command::Read { max_len: READ_BUF_LEN },
            Stage::CheckPendingError => Command::TakeError,
            Stage::Close => Command::Close,
            Stage::JoinResponder => Command::Join,
            Stage::Finished => Command::Finish,
            Stage::Failed(e) => Command::Abort(e),
        }
    }

    /// A session that awaits the client's writable condition, with the usual
    /// bounded waits.
    pub fn new(probe_would_block: bool) -> (r: Session)
        ensures
            r.stage == Stage::AwaitWritable,
            r.wait == (EventWait {
                want: Expectation { token: CLIENT_TOKEN, readiness: Readiness::Writable },
                max_attempts: crate::readiness::DEFAULT_ATTEMPTS,
                timeout_ms: crate::readiness::POLL_TIMEOUT_MS,
                attempts: 0,
            }),
            r.probe_would_block == probe_would_block,
    {
        Session {
            stage: Stage::AwaitWritable,
            wait: EventWait::new(Expectation::writable(CLIENT_TOKEN)),
            probe_would_block,
        }
    }

    pub fn command(&self) -> (r: Command)
        ensures
            r == self.command_of(),
    {
        match self.stage {
            Stage::AwaitWritable | Stage::AwaitFirstEcho | Stage::AwaitSecondEcho => {
                match self.wait.next_step() {
                    WaitStep::Poll { timeout_ms } => Command::Poll { timeout_ms },
                    _ => Command::Abort(HarnessError::ReadinessTimeout(self.wait.want.readiness)),
                }
            },
            Stage::SendFirst | Stage::SendSecond => Command::WritePayload,
            Stage::FlushFirst | Stage::FlushSecond => Command::Flush,
            Stage::ReadEcho | Stage::ProbeWouldBlock => Command::Read { max_len: READ_BUF_LEN },
            Stage::CheckPendingError => Command::TakeError,
            Stage::Close => Command::Close,
            Stage::JoinResponder => Command::Join,
            Stage::Finished => Command::Finish,
            Stage::Failed(e) => Command::Abort(e),
        }
    }

    fn poll_into(&mut self, events: &Vec<ReadyEvent>, next: Stage)
        ensures
            *final(self) == old(self).after_poll(events@, next),
    {
        let readiness = self.wait.want.readiness;
        match self.wait.on_events(events) {
            WaitStep::Matched { .. } => {
                self.stage = next;
            },
            WaitStep::Poll { .. } => {},
            WaitStep::TimedOut => {
                self.stage = Stage::Failed(HarnessError::ReadinessTimeout(readiness));
            },
        }
    }

    fn call_into<T>(&mut self, outcome: &Result<T, IoFault>, next: Stage)
        ensures
            *final(self) == old(self).after_call(*outcome, old(self).at(next)),
    {
        match outcome {
            Ok(_) => self.stage = next,
            Err(k) => self.stage = Stage::Failed(client_failure_of(*k)),
        }
    }

    fn await_echo(&mut self, outcome: &Result<(), IoFault>, next: Stage)
        ensures
            *final(self) == old(self).after_call(
                *outcome,
                old(self).awaiting(next, Expectation { token: CLIENT_TOKEN, readiness: Readiness::Readable }),
            ),
    {
        match outcome {
            Ok(_) => {
                self.stage = next;
                self.wait.want = Expectation::readable(CLIENT_TOKEN);
                self.wait.attempts = 0;
            },
            Err(k) => self.stage = Stage::Failed(client_failure_of(*k)),
        }
    }

    /// Takes the outcome of the last command.
    pub fn on_report(&mut self, report: &Report)
        ensures
            *final(self) == old(self).after(*report),
    {
        match (self.stage, report) {
            (Stage::AwaitWritable, Report::Polled(evs)) => self.poll_into(evs, Stage::SendFirst),
            (Stage::SendFirst, Report::Wrote(o)) => self.call_into(o, Stage::FlushFirst),
            (Stage::FlushFirst, Report::Flushed(o)) => self.await_echo(o, Stage::AwaitFirstEcho),
            (Stage::AwaitFirstEcho, Report::Polled(evs)) => self.poll_into(evs, Stage::ReadEcho),
            (Stage::ReadEcho, Report::ReadDone(o)) => self.call_into(o, Stage::CheckPendingError),
            (Stage::CheckPendingError, Report::ErrorTaken { pending }) => {
                if *pending {
                    self.stage = Stage::Failed(HarnessError::PendingSocketError);
                } else if self.probe_would_block {
                    self.stage = Stage::ProbeWouldBlock;
                } else {
                    self.stage = Stage::SendSecond;
                }
            },
            (Stage::ProbeWouldBlock, Report::ReadDone(o)) => {
                match assert_would_block(o) {
                    Ok(()) => self.stage = Stage::SendSecond,
                    Err(e) => self.stage = Stage::Failed(HarnessError::NotWouldBlock(e)),
                }
            },
            (Stage::SendSecond, Report::Wrote(o)) => self.call_into(o, Stage::FlushSecond),
            (Stage::FlushSecond, Report::Flushed(o)) => self.await_echo(o, Stage::AwaitSecondEcho),
            (Stage::AwaitSecondEcho, Report::Polled(evs)) => self.poll_into(evs, Stage::Close),
            (Stage::Close, Report::Closed) => self.stage = Stage::JoinResponder,
            (Stage::JoinResponder, Report::Joined { ok }) => {
                if *ok {
                    self.stage = Stage::Finished;
                } else {
                    self.stage = Stage::Failed(HarnessError::PeerIoFailure);
                }
            },
            _ => {},
        }
    }
}

} // verus!
