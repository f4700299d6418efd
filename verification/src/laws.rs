//! What holds of every polling session, proved over the state machine.

use vstd::prelude::*;
use crate::session::{Event, Expired, Session};

verus! {

/// A session in two parts: running it over one sequence of events and then
/// over another is running it over both in a row.
pub proof fn lemma_run_concat<T>(s: Session<T>, a: Seq<Event<T>>, b: Seq<Event<T>>)
    ensures
        s.run(a + b) == s.run(a).run(b),
    decreases a.len(),
{
    if a.len() == 0 {
        assert(a + b =~= b);
    } else {
        assert((a + b)[0] == a[0]);
        assert((a + b).skip(1) =~= a.skip(1) + b);
        lemma_run_concat(s.after(a[0]), a.skip(1), b);
    }
}

/// A session has exactly one outcome: once it is done, no event changes it.
/// A value stays a value when the budget runs out later, and expiry stays
/// expiry when a qualifying answer comes in late.
pub proof fn lemma_done_is_final<T>(s: Session<T>, events: Seq<Event<T>>)
    requires
        s is Done,
    ensures
        s.run(events) == s,
    decreases events.len(),
{
    if events.len() > 0 {
        lemma_done_is_final(s.after(events[0]), events.skip(1));
    }
}

/// The first qualifying answer is the outcome, whatever comes after it.
pub proof fn lemma_first_qualifying_wins<T>(events: Seq<Event<T>>, i: int, v: T)
    requires
        0 <= i < events.len(),
        events[i] == Event::Probed(Some(v)),
        forall|j: int| 0 <= j < i ==> events[j] == Event::<T>::Probed(None),
    ensures
        Session::<T>::Polling.run(events) == Session::Done(Ok::<T, Expired>(v)),
    decreases i,
{
    let first = Session::<T>::Polling.after(events[0]);
    if i == 0 {
        lemma_done_is_final(first, events.skip(1));
    } else {
        assert(events[0] == Event::<T>::Probed(None));
        assert forall|j: int| 0 <= j < i - 1 implies events.skip(1)[j] == Event::<T>::Probed(
            None,
        ) by {
            assert(events.skip(1)[j] == events[j + 1]);
        }
        lemma_first_qualifying_wins(events.skip(1), i - 1, v);
    }
}

/// While no answer qualifies and the budget has not run out, the session goes
/// on polling: it never ends early of its own accord.
pub proof fn lemma_polls_until_budget<T>(events: Seq<Event<T>>)
    requires
        forall|j: int| 0 <= j < events.len() ==> events[j] == Event::<T>::Probed(None),
    ensures
        Session::<T>::Polling.run(events) == Session::<T>::Polling,
    decreases events.len(),
{
    if events.len() > 0 {
        assert(events[0] == Event::<T>::Probed(None));
        assert forall|j: int| 0 <= j < events.skip(1).len() implies events.skip(1)[j]
            == Event::<T>::Probed(None) by {
            assert(events.skip(1)[j] == events[j + 1]);
        }
        lemma_polls_until_budget(events.skip(1));
    }
}

/// Where no answer qualifies before the budget runs out, the outcome is
/// expiry, whatever comes after it.
pub proof fn lemma_expires_at_budget<T>(events: Seq<Event<T>>, i: int)
    requires
        0 <= i < events.len(),
        events[i] == Event::<T>::Elapsed,
        forall|j: int| 0 <= j < i ==> events[j] == Event::<T>::Probed(None),
    ensures
        Session::<T>::Polling.run(events) == Session::Done(Err::<T, Expired>(Expired)),
{
    let before = events.take(i);
    let rest = events.skip(i);
    assert(events =~= before + rest);
    lemma_run_concat(Session::<T>::Polling, before, rest);
    lemma_polls_until_budget(before);
    assert(rest[0] == Event::<T>::Elapsed);
    lemma_done_is_final(Session::<T>::Polling.after(rest[0]), rest.skip(1));
}

/// Whose turn it is when two sessions run side by side.
pub enum Turn<A, B> {
    First(Event<A>),
    Second(Event<B>),
}

/// Two sessions taking their events in whatever order the turns come.
pub open spec fn run_pair<A, B>(a: Session<A>, b: Session<B>, turns: Seq<Turn<A, B>>) -> (
    Session<A>,
    Session<B>,
)
    decreases turns.len(),
{
    if turns.len() == 0 {
        (a, b)
    } else {
        match turns[0] {
            Turn::First(e) => run_pair(a.after(e), b, turns.skip(1)),
            Turn::Second(e) => run_pair(a, b.after(e), turns.skip(1)),
        }
    }
}

/// The events of the first session among the turns, in order.
pub open spec fn first_events<A, B>(turns: Seq<Turn<A, B>>) -> Seq<Event<A>>
    decreases turns.len(),
{
    if turns.len() == 0 {
        Seq::empty()
    } else {
        match turns[0] {
            Turn::First(e) => seq![e] + first_events(turns.skip(1)),
            Turn::Second(_) => first_events(turns.skip(1)),
        }
    }
}

/// The events of the second session among the turns, in order.
pub open spec fn second_events<A, B>(turns: Seq<Turn<A, B>>) -> Seq<Event<B>>
    decreases turns.len(),
{
    if turns.len() == 0 {
        Seq::empty()
    } else {
        match turns[0] {
            Turn::First(_) => second_events(turns.skip(1)),
            Turn::Second(e) => seq![e] + second_events(turns.skip(1)),
        }
    }
}

/// Isolation: of two sessions that run side by side, each ends as it would
/// have ended alone on its own events. How the other's events fall between
/// them, and what they are, makes no difference.
pub proof fn lemma_sessions_are_isolated<A, B>(
    a: Session<A>,
    b: Session<B>,
    turns: Seq<Turn<A, B>>,
)
    ensures
        run_pair(a, b, turns) == (a.run(first_events(turns)), b.run(second_events(turns))),
    decreases turns.len(),
{
    if turns.len() > 0 {
        let rest = turns.skip(1);
        match turns[0] {
            Turn::First(e) => {
                lemma_sessions_are_isolated(a.after(e), b, rest);
                let mine = seq![e] + first_events(rest);
                assert(mine[0] == e);
                assert(mine.skip(1) =~= first_events(rest));
            },
            Turn::Second(e) => {
                lemma_sessions_are_isolated(a, b.after(e), rest);
                let mine = seq![e] + second_events(rest);
                assert(mine[0] == e);
                assert(mine.skip(1) =~= second_events(rest));
            },
        }
    }
}

} // verus!
