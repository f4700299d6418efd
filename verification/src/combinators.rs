//! The three poll-until combinators over a recorded run of a probe: what each
//! takes for a qualifying answer, and what each returns.
//!
//! A recorded run lists, in order, what the probe answered on every call that
//! was made before the budget ran out.

use vstd::prelude::*;
use vstd::std_specs::cmp::PartialEqSpec;
use crate::laws::{lemma_expires_at_budget, lemma_first_qualifying_wins};
use crate::session::{Action, Event, Expired, Session};

verus! {

/// `wait_for_some` takes a present answer for qualifying.
pub open spec fn judged_some<T>(answer: Option<T>) -> Option<T> {
    answer
}

/// `wait_for_ok` takes a success for qualifying and drops the failure.
pub open spec fn judged_ok<T, E>(answer: Result<T, E>) -> Option<T> {
    match answer {
        Ok(v) => Some(v),
        Err(_) => None,
    }
}

/// `wait_for_eq` takes an answer equal to the expected value for qualifying.
pub open spec fn judged_eq<T: PartialEq>(answer: T, expected: T) -> Option<T> {
    if expected.eq_spec(&answer) {
        Some(answer)
    } else {
        None
    }
}

pub fn judge_some<T>(answer: Option<T>) -> (judged: Option<T>)
    ensures
        judged == judged_some(answer),
{
    answer
}

pub fn judge_ok<T, E>(answer: Result<T, E>) -> (judged: Option<T>)
    ensures
        judged == judged_ok(answer),
{
    match answer {
        Ok(v) => Some(v),
        Err(_) => None,
    }
}

/// Where `==` on `T` does not follow a specification, the answer is still
/// either kept whole or dropped.
pub fn judge_eq<T: PartialEq>(answer: T, expected: &T) -> (judged: Option<T>)
    ensures
        judged == Some(answer) || judged is None,
        T::obeys_eq_spec() ==> judged == judged_eq(answer, *expected),
{
    if *expected == answer {
        Some(answer)
    } else {
        None
    }
}

/// The events of a session whose probe gave these judged answers before the
/// budget ran out.
pub open spec fn session_events<T>(judged: Seq<Option<T>>) -> Seq<Event<T>> {
    Seq::new(judged.len(), |i: int| Event::Probed(judged[i])).push(Event::Elapsed)
}

/// `i` is the place of the first qualifying answer.
pub open spec fn first_hit<T>(judged: Seq<Option<T>>, i: int) -> bool {
    &&& 0 <= i < judged.len()
    &&& judged[i] is Some
    &&& forall|j: int| 0 <= j < i ==> judged[j] is None
}

/// No answer qualifies.
pub open spec fn no_hit<T>(judged: Seq<Option<T>>) -> bool {
    forall|j: int| 0 <= j < judged.len() ==> judged[j] is None
}

/// Runs one whole session over the judged answers of a recorded run. Returns
/// the outcome and the number of answers that were looked at: the first
/// qualifying answer is the outcome and none after it is read; where none
/// qualifies, all are read and the outcome is expiry. This is also what the
/// state machine makes of the run's events.
pub fn poll_trace<T>(judged: Vec<Option<T>>) -> (r: (Result<T, Expired>, usize))
    ensures
        match r.0 {
            Ok(v) => first_hit(judged@, r.1 - 1) && judged@[r.1 - 1] == Some(v),
            Err(_) => no_hit(judged@) && r.1 == judged@.len(),
        },
        Session::<T>::Polling.run(session_events(judged@)) == Session::Done(r.0),
{
    let ghost trace = judged@;
    let total = judged.len();
    let mut session: Session<T> = Session::new();
    let mut used: usize = 0;
    for answer in it: judged.into_iter()
        invariant_except_break
            session is Polling,
            used == it.index(),
            forall|j: int| 0 <= j < used ==> trace[j] is None,
        invariant
            it.seq() == trace,
            trace.len() == total,
            used <= total,
        ensures
            session is Polling ==> used == trace.len(),
            session is Polling ==> forall|j: int| 0 <= j < used ==> trace[j] is None,
            session is Done ==> 1 <= used && session == Session::Done(Ok(trace[used - 1]->0))
                && trace[used - 1] is Some,
            session is Done ==> forall|j: int| 0 <= j < used - 1 ==> trace[j] is None,
    {
        used = used + 1;
        let action = session.observe(answer);
        match action {
            Action::Stop => {
                break;
            },
            Action::Yield => {},
        }
    }
    session.expire();
    proof {
        let events = session_events(trace);
        if session is Done && session->Done_0 is Ok {
            lemma_first_qualifying_wins(events, used - 1, trace[used - 1]->0);
        } else {
            lemma_expires_at_budget(events, trace.len() as int);
        }
    }
    match session.outcome() {
        Some(o) => (o, used),
        None => (Err(Expired), used),
    }
}

/// Polls until the probe's answer is present. Returns the first present
/// answer of the run; where there is none, the budget ran out and the result
/// is absent: expiry is not reported as an error.
pub fn wait_for_some<T>(probes: Vec<Option<T>>) -> (r: Option<T>)
    ensures
        match r {
            Some(v) => exists|i: int| first_hit(probes@, i) && probes@[i] == Some(v),
            None => no_hit(probes@),
        },
        Session::<T>::Polling.run(session_events(probes@)).spec_outcome() == Some(
            match r {
                Some(v) => Ok::<T, Expired>(v),
                None => Err::<T, Expired>(Expired),
            },
        ),
{
    let polled = poll_trace(probes);
    match polled.0 {
        Ok(v) => {
            assert(first_hit(probes@, polled.1 - 1));
            Some(v)
        },
        Err(e) => {
            assert(e == Expired);
            None
        },
    }
}

/// The answers of a run of `wait_for_ok`, judged one by one.
pub open spec fn judged_ok_run<T, E>(probes: Seq<Result<T, E>>) -> Seq<Option<T>> {
    Seq::new(probes.len(), |i: int| judged_ok(probes[i]))
}

/// Polls until the probe succeeds. Returns the value of the first success of
/// the run; the failures before it are dropped. Where none succeeds, the
/// budget ran out and the result is `Expired`.
pub fn wait_for_ok<T, E>(probes: Vec<Result<T, E>>) -> (r: Result<T, Expired>)
    ensures
        match r {
            Ok(v) => exists|i: int|
                first_hit(judged_ok_run(probes@), i) && probes@[i] == Ok::<T, E>(v),
            Err(_) => forall|j: int| 0 <= j < probes@.len() ==> probes@[j] is Err,
        },
        Session::<T>::Polling.run(session_events(judged_ok_run(probes@))) == Session::Done(r),
{
    let ghost run = probes@;
    let total = probes.len();
    let mut judged: Vec<Option<T>> = Vec::new();
    for answer in it: probes.into_iter()
        invariant
            it.seq() == run,
            run.len() == total,
            judged@.len() == it.index(),
            forall|j: int| 0 <= j < judged@.len() ==> judged@[j] == judged_ok(run[j]),
    {
        judged.push(judge_ok(answer));
    }
    assert(judged@ =~= judged_ok_run(run));
    let polled = poll_trace(judged);
    match polled.0 {
        Ok(v) => {
            assert(first_hit(judged_ok_run(run), polled.1 - 1));
            Ok(v)
        },
        Err(e) => {
            assert forall|j: int| 0 <= j < run.len() implies run[j] is Err by {
                assert(judged_ok_run(run)[j] is None);
            }
            Err(e)
        },
    }
}

/// The answers of a run of `wait_for_eq`, judged one by one.
pub open spec fn judged_eq_run<T: PartialEq>(probes: Seq<T>, expected: T) -> Seq<Option<T>> {
    Seq::new(probes.len(), |i: int| judged_eq(probes[i], expected))
}

/// The second look at the answer that ended a run of `wait_for_eq`: whether
/// it equals the expected value. A caller for whom the two looks can differ
/// treats `false` as a broken invariant, not as an error to return.
pub fn confirm_eq<T: PartialEq>(expected: &T, last: &T) -> (agreed: bool)
    ensures
        T::obeys_eq_spec() ==> agreed == expected.eq_spec(last),
{
    *expected == *last
}

/// Polls until the probe's answer equals `expected`. Succeeds where some
/// answer of the run equals it; where none does, the budget ran out and the
/// result is `Expired`. The answer that ended the run is compared once more,
/// and here the two looks are proved to agree.
pub fn wait_for_eq<T: PartialEq>(probes: Vec<T>, expected: T) -> (r: Result<(), Expired>)
    requires
        T::obeys_eq_spec(),
    ensures
        r is Ok <==> exists|i: int| 0 <= i < probes@.len() && expected.eq_spec(&probes@[i]),
        r is Ok <==> Session::<T>::Polling.run(
            session_events(judged_eq_run(probes@, expected)),
        ).spec_outcome()->0 is Ok,
{
    let ghost run = probes@;
    let total = probes.len();
    let mut judged: Vec<Option<T>> = Vec::new();
    for answer in it: probes.into_iter()
        invariant
            T::obeys_eq_spec(),
            it.seq() == run,
            run.len() == total,
            judged@.len() == it.index(),
            forall|j: int| 0 <= j < judged@.len() ==> judged@[j] == judged_eq(run[j], expected),
    {
        judged.push(judge_eq(answer, &expected));
    }
    assert(judged@ =~= judged_eq_run(run, expected));
    let polled = poll_trace(judged);
    match polled.0 {
        Ok(last) => {
            assert(judged_eq_run(run, expected)[polled.1 - 1] == Some(last));
            assert(expected.eq_spec(&run[polled.1 - 1]));
            let agreed = confirm_eq(&expected, &last);
            assert(agreed);
            Ok(())
        },
        Err(e) => {
            assert forall|i: int| 0 <= i < run.len() implies !expected.eq_spec(&run[i]) by {
                assert(judged_eq_run(run, expected)[i] is None);
            }
            Err(e)
        },
    }
}

} // verus!
