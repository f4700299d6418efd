use polling::combinators::{
    confirm_eq, judge_eq, judge_ok, judge_some, poll_trace, wait_for_eq, wait_for_ok,
    wait_for_some,
};
use polling::session::Expired;

#[test]
fn judge_some_keeps_the_answer() {
    assert_eq!(judge_some(Some(4)), Some(4));
    assert_eq!(judge_some::<i32>(None), None);
}

#[test]
fn judge_ok_drops_the_failure() {
    assert_eq!(judge_ok::<i32, String>(Ok(4)), Some(4));
    assert_eq!(judge_ok::<i32, String>(Err(String::from("down"))), None);
}

#[test]
fn judge_eq_keeps_only_the_expected() {
    assert_eq!(judge_eq(4, &4), Some(4));
    assert_eq!(judge_eq(5, &4), None);
}

#[test]
fn confirm_eq_compares() {
    assert!(confirm_eq(&String::from("a"), &String::from("a")));
    assert!(!confirm_eq(&String::from("a"), &String::from("b")));
}

#[test]
fn poll_trace_stops_at_the_first_qualifying_answer() {
    assert_eq!(poll_trace(vec![None, Some(1), Some(2), None]), (Ok(1), 2));
}

#[test]
fn poll_trace_reads_everything_before_it_expires() {
    assert_eq!(poll_trace::<i32>(vec![None, None, None]), (Err(Expired), 3));
}

#[test]
fn poll_trace_of_nothing_expires() {
    assert_eq!(poll_trace::<i32>(Vec::new()), (Err(Expired), 0));
}

#[test]
fn wait_for_some_absent_absent_present() {
    let probes = vec![None, None, Some("ready")];
    assert_eq!(wait_for_some(probes), Some("ready"));
    assert_eq!(poll_trace(vec![None, None, Some("ready")]), (Ok("ready"), 3));
}

#[test]
fn wait_for_some_swallows_expiry() {
    assert_eq!(wait_for_some::<u8>(vec![None, None, None, None]), None);
    assert_eq!(wait_for_some::<u8>(Vec::new()), None);
}

#[test]
fn wait_for_some_returns_the_first_present() {
    assert_eq!(wait_for_some(vec![Some(1), Some(2)]), Some(1));
}

#[test]
fn wait_for_ok_failing_forever_expires() {
    let probes: Vec<Result<u8, &str>> = vec![Err("no"), Err("no"), Err("still no")];
    assert_eq!(wait_for_ok(probes), Err(Expired));
}

#[test]
fn wait_for_ok_success_on_first_call() {
    let probes: Vec<Result<u8, &str>> = vec![Ok(11), Err("later"), Ok(12)];
    assert_eq!(wait_for_ok(probes), Ok(11));
    assert_eq!(poll_trace(vec![judge_ok::<u8, &str>(Ok(11))]), (Ok(11), 1));
}

#[test]
fn wait_for_ok_drops_earlier_failures() {
    let probes: Vec<Result<u8, &str>> = vec![Err("a"), Err("b"), Ok(3)];
    assert_eq!(wait_for_ok(probes), Ok(3));
}

#[test]
fn wait_for_eq_constant_equal_succeeds() {
    assert_eq!(wait_for_eq(vec![5, 5, 5], 5), Ok(()));
    assert_eq!(wait_for_eq(vec![5], 5), Ok(()));
}

#[test]
fn wait_for_eq_constant_different_expires() {
    assert_eq!(wait_for_eq(vec![4, 4, 4, 4], 5), Err(Expired));
    assert_eq!(wait_for_eq(Vec::new(), 5), Err(Expired));
}

#[test]
fn wait_for_eq_succeeds_once_equal() {
    assert_eq!(wait_for_eq(vec![1, 2, 3], 3), Ok(()));
    assert_eq!(wait_for_eq(vec![String::from("a"), String::from("b")], String::from("b")), Ok(()));
}
