use vstd::prelude::*;

verus! {

/// Number of polls a wait makes before it gives up.
pub const DEFAULT_ATTEMPTS: u32 = 3;

/// Longest time, in milliseconds, that one poll may block.
pub const POLL_TIMEOUT_MS: u64 = 500;

/// A readiness condition that a registered handle can report.
#[derive(Clone, Copy, Debug, PartialEq, Eq, Structural)]
pub enum Readiness {
    Readable,
    Writable,
}

/// One event out of a poll: the token of the handle and the conditions that fired.
#[derive(Clone, Copy, Debug, PartialEq, Eq, Structural)]
pub struct ReadyEvent {
    pub token: usize,
    pub readable: bool,
    pub writable: bool,
}

/// What a wait is looking for: a condition on the handle registered under a token.
#[derive(Clone, Copy, Debug, PartialEq, Eq, Structural)]
pub struct Expectation {
    pub token: usize,
    pub readiness: Readiness,
}

impl Expectation {
    /// The event comes from the awaited token and carries the awaited condition.
    pub open spec fn accepts(self, e: ReadyEvent) -> bool {
        &&& e.token == self.token
        &&& match self.readiness {
            Readiness::Readable => e.readable,
            Readiness::Writable => e.writable,
        }
    }

    pub fn readable(token: usize) -> (r: Expectation)
        ensures
            r.token == token,
            r.readiness == Readiness::Readable,
    {
        Expectation { token, readiness: Readiness::Readable }
    }

    pub fn writable(token: usize) -> (r: Expectation)
        ensures
            r.token == token,
            r.readiness == Readiness::Writable,
    {
        Expectation { token, readiness: Readiness::Writable }
    }

    pub fn matches(&self, e: &ReadyEvent) -> (r: bool)
        ensures
            r == self.accepts(*e),
    {
        e.token == self.token && match self.readiness {
            Readiness::Readable => e.readable,
            Readiness::Writable => e.writable,
        }
    }
}

/// Some event of the batch satisfies the expectation.
pub open spec fn has_match(want: Expectation, events: Seq<ReadyEvent>) -> bool {
    exists|i: int| 0 <= i < events.len() && #[trigger] want.accepts(events[i])
}

/// `i` is the position of the first event of the batch that satisfies the expectation.
pub open spec fn is_first_match(want: Expectation, events: Seq<ReadyEvent>, i: int) -> bool {
    &&& 0 <= i < events.len()
    &&& want.accepts(events[i])
    &&& forall|j: int| 0 <= j < i ==> !#[trigger] want.accepts(events[j])
}

/// Scans a batch in order and returns the position of the first event that
/// satisfies the expectation.
pub fn find_match(events: &Vec<ReadyEvent>, want: &Expectation) -> (r: Option<usize>)
    ensures
        r is None <==> !has_match(*want, events@),
        r matches Some(i) ==> is_first_match(*want, events@, i as int),
{
    let mut i: usize = 0;
    while i < events.len()
        invariant
            i <= events.len(),
            forall|j: int| 0 <= j < i ==> !#[trigger] want.accepts(events@[j]),
        decreases events.len() - i,
    {
        if want.matches(&events[i]) {
            return Some(i);
        }
        i = i + 1;
    }
    None
}

/// What the caller of a wait does next.
#[derive(Clone, Copy, Debug, PartialEq, Eq, Structural)]
pub enum WaitStep {
    /// Poll once more, blocking for at most this many milliseconds.
    Poll { timeout_ms: u64 },
    /// The event at this position of the last batch satisfied the expectation.
    Matched { index: usize },
    /// Every poll allowed has been made without the awaited event.
    TimedOut,
}

/// A bounded wait for one readiness event: at most `max_attempts` polls of
/// at most `timeout_ms` each.
#[derive(Clone, Copy, Debug, PartialEq, Eq, Structural)]
pub struct EventWait {
    pub want: Expectation,
    pub max_attempts: u32,
    pub timeout_ms: u64,
    /// Polls whose batches have been examined so far.
    pub attempts: u32,
}

impl EventWait {
    /// The step owed in the current state, when no batch has matched.
    pub open spec fn pending_step(self) -> WaitStep {
        if self.attempts < self.max_attempts {
            WaitStep::Poll { timeout_ms: self.timeout_ms }
        } else {
            WaitStep::TimedOut
        }
    }

    /// A wait with the usual bounds: three polls of half a second.
    pub fn new(want: Expectation) -> (r: EventWait)
        ensures
            r == (EventWait {
                want,
                max_attempts: DEFAULT_ATTEMPTS,
                timeout_ms: POLL_TIMEOUT_MS,
                attempts: 0,
            }),
    {
        EventWait { want, max_attempts: DEFAULT_ATTEMPTS, timeout_ms: POLL_TIMEOUT_MS, attempts: 0 }
    }

    pub fn with_bounds(want: Expectation, max_attempts: u32, timeout_ms: u64) -> (r: EventWait)
        ensures
            r == (EventWait { want, max_attempts, timeout_ms, attempts: 0 }),
    {
        EventWait { want, max_attempts, timeout_ms, attempts: 0 }
    }

    /// The step to take before any batch has come in, or after one that did not match.
    pub fn next_step(&self) -> (r: WaitStep)
        ensures
            r == self.pending_step(),
    {
        if self.attempts < self.max_attempts {
            WaitStep::Poll { timeout_ms: self.timeout_ms }
        } else {
            WaitStep::TimedOut
        }
    }

    /// Takes the batch that a poll produced. A batch handed in after the
    /// last allowed poll is ignored.
    pub fn on_events(&mut self, events: &Vec<ReadyEvent>) -> (r: WaitStep)
        ensures
            old(self).attempts >= old(self).max_attempts ==> {
                &&& r == WaitStep::TimedOut
                &&& *final(self) == *old(self)
            },
            old(self).attempts < old(self).max_attempts ==> {
                &&& *final(self) == (EventWait { attempts: (old(self).attempts + 1) as u32, ..*old(self) })
                &&& has_match(old(self).want, events@) ==> (r matches WaitStep::Matched { index }
                    && is_first_match(old(self).want, events@, index as int))
                &&& !has_match(old(self).want, events@) ==> r == final(self).pending_step()
            },
    {
        if self.attempts >= self.max_attempts {
            return WaitStep::TimedOut;
        }
        self.attempts = self.attempts + 1;
        match find_match(events, &self.want) {
            Some(index) => WaitStep::Matched { index },
            None => self.next_step(),
        }
    }
}

} // verus!
