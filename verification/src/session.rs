//! The polling session: a state machine with two states, `Polling` and
//! `Done`, and the deadline rule that ends it.

use vstd::prelude::*;

verus! {

/// The budget of one polling session, in seconds.
pub const BUDGET_SECS: u64 = 20;

/// The budget of a polling session ran out before its condition was met.
#[derive(Clone, Copy, Debug, PartialEq, Eq, Structural)]
pub struct Expired;

/// What the driver of a session does next.
#[derive(Clone, Copy, Debug, PartialEq, Eq, Structural)]
pub enum Action {
    /// The session is over: call the probe no more.
    Stop,
    /// Yield to the scheduler once, then call the probe again.
    Yield,
}

/// What can happen to a session. The probe's answer comes already judged:
/// `Some` holds the value of an answer that qualifies, `None` stands for one
/// that does not.
#[derive(Debug, PartialEq, Eq)]
pub enum Event<T> {
    Probed(Option<T>),
    Elapsed,
}

/// One polling session.
#[derive(Debug, PartialEq, Eq)]
pub enum Session<T> {
    /// No qualifying answer yet, and the budget has not run out.
    Polling,
    /// The session's single outcome.
    Done(Result<T, Expired>),
}

impl<T> Session<T> {
    /// The session after the probe has answered.
    pub open spec fn after_probe(self, judged: Option<T>) -> Session<T> {
        match (self, judged) {
            (Session::Polling, Some(v)) => Session::Done(Ok(v)),
            (Session::Polling, None) => Session::Polling,
            (Session::Done(o), _) => Session::Done(o),
        }
    }

    /// The session after the budget has run out.
    pub open spec fn after_expiry(self) -> Session<T> {
        match self {
            Session::Polling => Session::Done(Err(Expired)),
            Session::Done(o) => Session::Done(o),
        }
    }

    /// The session after one event.
    pub open spec fn after(self, event: Event<T>) -> Session<T> {
        match event {
            Event::Probed(judged) => self.after_probe(judged),
            Event::Elapsed => self.after_expiry(),
        }
    }

    /// The session after a sequence of events, first to last.
    pub open spec fn run(self, events: Seq<Event<T>>) -> Session<T>
        decreases events.len(),
    {
        if events.len() == 0 {
            self
        } else {
            self.after(events[0]).run(events.skip(1))
        }
    }

    /// What the driver does when the session is in this state.
    pub open spec fn next_action(self) -> Action {
        match self {
            Session::Polling => Action::Yield,
            Session::Done(_) => Action::Stop,
        }
    }

    /// The outcome, once there is one.
    pub open spec fn spec_outcome(self) -> Option<Result<T, Expired>> {
        match self {
            Session::Polling => None,
            Session::Done(o) => Some(o),
        }
    }

    /// A fresh session.
    pub fn new() -> (s: Self)
        ensures
            s == Session::<T>::Polling,
    {
        Session::Polling
    }

    pub fn is_done(&self) -> (b: bool)
        ensures
            b == (*self is Done),
    {
        match self {
            Session::Polling => false,
            Session::Done(_) => true,
        }
    }

    /// Takes in the probe's judged answer. The first qualifying answer ends a
    /// polling session; a finished session is left as it is, so an answer that
    /// comes after expiry is never reported as a success.
    pub fn observe(&mut self, judged: Option<T>) -> (action: Action)
        ensures
            *final(self) == old(self).after_probe(judged),
            action == final(self).next_action(),
    {
        if self.is_done() {
            return Action::Stop;
        }
        match judged {
            Some(v) => {
                *self = Session::Done(Ok(v));
                Action::Stop
            },
            None => Action::Yield,
        }
    }

    /// Records that the budget has run out. A session that already has its
    /// outcome keeps it.
    pub fn expire(&mut self)
        ensures
            *final(self) == old(self).after_expiry(),
    {
        if !self.is_done() {
            *self = Session::Done(Err(Expired));
        }
    }

    /// Takes in one event and says what to do next.
    pub fn step(&mut self, event: Event<T>) -> (action: Action)
        ensures
            *final(self) == old(self).after(event),
            action == final(self).next_action(),
    {
        match event {
            Event::Probed(judged) => self.observe(judged),
            Event::Elapsed => {
                self.expire();
                Action::Stop
            },
        }
    }

    /// Ends the session and hands out its outcome, `None` while it is still
    /// polling.
    pub fn outcome(self) -> (o: Option<Result<T, Expired>>)
        ensures
            o == self.spec_outcome(),
    {
        match self {
            Session::Polling => None,
            Session::Done(o) => Some(o),
        }
    }
}

/// What a deadline runner reports after polling its work once: the work's
/// value if the work is ready, expiry if it is not and the budget is used up,
/// and nothing yet otherwise.
pub open spec fn spec_verdict<T>(polled: Option<T>, elapsed_millis: u64, budget_millis: u64)
    -> Option<Result<T, Expired>> {
    match polled {
        Some(v) => Some(Ok(v)),
        None => if elapsed_millis >= budget_millis {
            Some(Err(Expired))
        } else {
            None
        },
    }
}

/// The deadline rule. `elapsed_millis` counts from the moment the runner was
/// invoked. Work that is ready wins over a budget that has just run out;
/// expiry is never reported before the whole budget has elapsed.
pub fn deadline_verdict<T>(polled: Option<T>, elapsed_millis: u64, budget_millis: u64) -> (r:
    Option<Result<T, Expired>>)
    ensures
        r == spec_verdict(polled, elapsed_millis, budget_millis),
{
    match polled {
        Some(v) => Some(Ok(v)),
        None => if elapsed_millis >= budget_millis {
            Some(Err(Expired))
        } else {
            None
        },
    }
}

} // verus!
