use thetadatadx_ffi_core::drain::{
    all_drained, await_drain_answer, drain_step, free_overrun_report, keep_undrained, DrainStep,
    SupersededSessions,
};
use thetadatadx_ffi_core::py_repr::{
    client_repr, config_repr, credentials_repr, streaming_client_repr, unified_sdk_repr,
};

#[test]
fn drain_barrier_waits_for_every_flag() {
    assert!(all_drained(&vec![]));
    assert!(!all_drained(&vec![true, false]));
    assert_eq!(drain_step(&vec![true, true], true), DrainStep::Drained);
    assert_eq!(drain_step(&vec![true, false], true), DrainStep::TimedOut);
    assert_eq!(drain_step(&vec![false], false), DrainStep::KeepWaiting);
    // Nothing ever superseded: 0.
    assert_eq!(await_drain_answer(false, true, false), 0);
    // Everything superseded has drained (already pruned): 1.
    assert_eq!(await_drain_answer(true, true, false), 1);
    // Tracked sessions drained in time: 1; timed out: 0.
    assert_eq!(await_drain_answer(true, false, true), 1);
    assert_eq!(await_drain_answer(true, false, false), 0);
    assert!(free_overrun_report(true, false));
    assert!(!free_overrun_report(false, false));
    assert!(!free_overrun_report(true, true));
}

#[test]
fn drained_sessions_are_pruned_in_order() {
    let kept = keep_undrained(vec!["a", "b", "c", "d"], &vec![true, false, true, false]);
    assert_eq!(kept, vec!["b", "d"]);
    assert!(keep_undrained(vec![1, 2], &vec![true, true]).is_empty());
}

#[test]
fn python_reprs() {
    assert_eq!(client_repr(None), b"Client(closed)".to_vec());
    assert_eq!(client_repr(Some(true)), b"Client(market_data=connected, streaming=connected)".to_vec());
    assert_eq!(client_repr(Some(false)), b"Client(market_data=connected, streaming=none)".to_vec());
    assert_eq!(unified_sdk_repr(true), b"ThetaDataDx(historical=connected, streaming=connected)".to_vec());
    assert_eq!(streaming_client_repr(false, 3), b"StreamingClient(streaming=none, hosts=3)".to_vec());
    assert_eq!(config_repr(false, b"mdds.example", 443, 2), b"Config(market_data=mdds.example:443, streaming_hosts=2)".to_vec());
    assert_eq!(config_repr(true, b"h", 25503, 10), b"Config(mdds=h:25503, fpss_hosts=10)".to_vec());
    assert_eq!(credentials_repr(), "Credentials(email=<redacted>)");
}

#[test]
fn second_drain_wait_still_answers_one() {
    let mut book: SupersededSessions<&str> = SupersededSessions::new();
    assert!(!book.ever_superseded());
    assert_eq!(await_drain_answer(book.ever_superseded(), book.pending().is_empty(), false), 0);
    book.retire("first");
    book.retire("second");
    assert!(book.ever_superseded());
    assert_eq!(book.pending(), &vec!["first", "second"]);
    // The first wait sees both flags drained and prunes them.
    assert_eq!(await_drain_answer(book.ever_superseded(), book.pending().is_empty(), true), 1);
    book.prune(&vec![true, true]);
    assert!(book.pending().is_empty());
    // A second wait with nothing superseded since still answers 1.
    assert_eq!(await_drain_answer(book.ever_superseded(), book.pending().is_empty(), false), 1);
    // A partial prune keeps the undrained session in order.
    book.retire("third");
    book.retire("fourth");
    book.prune(&vec![true, false]);
    assert_eq!(book.pending(), &vec!["fourth"]);
}
