use vstd::prelude::*;

verus! {

/// Delay before the first retry of a failed fetch.
pub const INITIAL_DELAY_MS: u64 = 500;

/// Retry delays grow multiplicatively but never beyond this cap.
pub const MAX_DELAY_MS: u64 = 60000;

/// The one piece of state a resilient fetch carries between attempts: the
/// delay the next retry would wait. Retries are unbounded; only success or
/// cancellation ends them.
#[derive(Clone, Copy, Debug, PartialEq, Eq, Structural)]
pub struct Backoff {
    pub next_delay_ms: u64,
}

/// The next retry delay after a failure: half again as long, capped.
pub open spec fn spec_grow(d: u64) -> u64 {
    if d as int * 3 / 2 >= MAX_DELAY_MS {
        MAX_DELAY_MS
    } else {
        (d as int * 3 / 2) as u64
    }
}

/// What one fetch attempt came to.
#[derive(Debug)]
pub enum FetchEvent {
    /// The GET returned and its body read as text.
    Succeeded(String),
    /// The GET or the body read failed; any transport error counts alike.
    Failed,
    /// The enclosing task was cancelled.
    Cancelled,
}

/// What the fetch does next.
#[derive(Debug)]
pub enum FetchAction {
    /// Hand the body to the caller; the fetch is over.
    Done(String),
    /// Wait this many milliseconds, then attempt the GET again.
    RetryAfterMs(u64),
    /// Stop at once without completing the fetch.
    Abandon,
}

/// The fetch's whole decision logic: success ends it with the body, failure
/// schedules a retry after the current delay and grows it, and cancellation
/// abandons it immediately, leaving the state untouched.
pub open spec fn spec_fetch_step(b: Backoff, ev: FetchEvent) -> (Backoff, FetchAction) {
    match ev {
        FetchEvent::Succeeded(body) => (b, FetchAction::Done(body)),
        FetchEvent::Failed => (
            Backoff { next_delay_ms: spec_grow(b.next_delay_ms) },
            FetchAction::RetryAfterMs(b.next_delay_ms),
        ),
        FetchEvent::Cancelled => (b, FetchAction::Abandon),
    }
}

impl Backoff {
    /// The delay stays between its initial value and the cap.
    pub open spec fn wf(self) -> bool {
        INITIAL_DELAY_MS <= self.next_delay_ms <= MAX_DELAY_MS
    }

    /// The state a fresh fetch starts from.
    pub fn new() -> (s: Self)
        ensures
            s.wf(),
            s.next_delay_ms == INITIAL_DELAY_MS,
    {
        Backoff { next_delay_ms: INITIAL_DELAY_MS }
    }

    /// Advances the fetch by one observed event.
    pub fn on_event(&mut self, ev: FetchEvent) -> (a: FetchAction)
        requires
            old(self).wf(),
        ensures
            final(self).wf(),
            (*final(self), a) == spec_fetch_step(*old(self), ev),
    {
        match ev {
            FetchEvent::Succeeded(body) => FetchAction::Done(body),
            FetchEvent::Failed => {
                let d = self.next_delay_ms;
                let grown = d * 3 / 2;
                self.next_delay_ms = if grown >= MAX_DELAY_MS {
                    MAX_DELAY_MS
                } else {
                    grown
                };
                FetchAction::RetryAfterMs(d)
            },
            FetchEvent::Cancelled => FetchAction::Abandon,
        }
    }
}

/// Cancellation observed while a retry delay is pending abandons the fetch
/// at once: for every backoff state the cancel event maps to `Abandon` —
/// never to another attempt, never to a further delay — and leaves the
/// state as it was.
pub proof fn lemma_cancel_abandons(b: Backoff)
    ensures
        spec_fetch_step(b, FetchEvent::Cancelled).1 == FetchAction::Abandon,
        spec_fetch_step(b, FetchEvent::Cancelled).0 == b,
{
}

} // verus!
