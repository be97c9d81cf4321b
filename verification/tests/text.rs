use ticos_gst::bytes::{push_be32, read_le32, truncate_len};
use ticos_gst::children::{child_by_index, child_by_name};
use ticos_gst::clock::ClockTime;
use ticos_gst::media::{live_success, StateChange, StateChangeSuccess};
use ticos_gst::retry::{Retry, RetryStep};
use ticos_gst::text::{decimal, join_list, same_text, split_list};

#[test]
fn decimal_numbers() {
    assert_eq!(decimal(0), "0");
    assert_eq!(decimal(10), "10");
    assert_eq!(decimal(u64::MAX), "18446744073709551615");
}

#[test]
fn texts_are_compared_by_their_characters() {
    assert!(same_text("url", "url"));
    assert!(!same_text("url", "urls"));
    assert!(!same_text("url", "uri"));
}

#[test]
fn lists_are_split_and_trimmed() {
    assert_eq!(split_list("a, b ,c"), vec!["a", "b", "c"]);
    assert_eq!(split_list(" \t\u{3000}one\u{a0}"), vec!["one"]);
    assert_eq!(split_list(""), vec![""]);
    assert_eq!(split_list("a,,b,"), vec!["a", "", "b", ""]);
}

#[test]
fn split_agrees_with_the_standard_library() {
    let text = "  x y ,\u{2003}z\u{85},, q\u{200b} ,\u{1680}";
    let expected: Vec<String> = text.split(',').map(|x| x.trim()).map(String::from).collect();
    assert_eq!(split_list(text), expected);
}

#[test]
fn lists_are_joined() {
    assert_eq!(join_list(&vec![]), "");
    assert_eq!(join_list(&vec!["a".to_string()]), "a");
    assert_eq!(join_list(&vec!["a".to_string(), "b c".to_string()]), "a,b c");
    assert_eq!(join_list(&split_list("p,q,r")), "p,q,r");
}

#[test]
fn numbers_in_bytes() {
    assert_eq!(read_le32(&[9, 0x78, 0x56, 0x34, 0x12], 1), 0x1234_5678);
    let mut data = vec![1];
    push_be32(&mut data, 0x1234_5678);
    assert_eq!(data, vec![1, 0x12, 0x34, 0x56, 0x78]);
    assert_eq!(truncate_len(5), 5);
    assert_eq!(truncate_len(0x1_0000_0005usize), 5);
}

#[test]
fn times() {
    let a = ClockTime::from_mseconds(5);
    let b = ClockTime::from_mseconds(7);
    assert_eq!(a.ns, 5_000_000);
    assert_eq!(a.plus(b).mseconds(), 12);
    assert_eq!(b.saturating_sub(a).mseconds(), 2);
    assert_eq!(a.saturating_sub(b), ClockTime::zero());
    assert_eq!(a.checked_sub(b), None);
    assert_eq!(b.checked_sub(a), Some(ClockTime::from_mseconds(2)));
    assert_eq!(a.max(b), b);
    assert_eq!(ClockTime { ns: 1_999_999 }.mseconds(), 1);
}

#[test]
fn retries_are_bounded() {
    let mut retry = Retry::new(3, 50);
    assert!(matches!(retry.begin("none".to_string()), RetryStep::Attempt));
    assert!(matches!(retry.again("a".to_string()), RetryStep::WaitAndAttempt(50)));
    assert!(retry.may_attempt());
    assert!(matches!(retry.again("b".to_string()), RetryStep::WaitAndAttempt(50)));
    match retry.again("c".to_string()) {
        RetryStep::GiveUp(cause) => assert_eq!(cause, "c"),
        other => panic!("{:?}", other),
    }
    assert!(!retry.may_attempt());
}

#[test]
fn no_attempt_allowed() {
    match Retry::new(0, 50).begin("none".to_string()) {
        RetryStep::GiveUp(cause) => assert_eq!(cause, "none"),
        other => panic!("{:?}", other),
    }
}

#[test]
fn children_are_found() {
    let names = vec!["sink".to_string(), "src".to_string(), "src".to_string()];
    assert_eq!(child_by_name(&names, "src"), Some(1));
    assert_eq!(child_by_name(&names, "sink"), Some(0));
    assert_eq!(child_by_name(&names, "other"), None);
    assert_eq!(child_by_index(3, 2), Some(2));
    assert_eq!(child_by_index(3, 3), None);
}

#[test]
fn live_elements_have_no_preroll() {
    let success = StateChangeSuccess::Success;
    assert_eq!(live_success(StateChange::ReadyToPaused, success), StateChangeSuccess::NoPreroll);
    assert_eq!(
        live_success(StateChange::PlayingToPaused, StateChangeSuccess::Async),
        StateChangeSuccess::NoPreroll
    );
    assert_eq!(live_success(StateChange::PausedToPlaying, success), success);
    assert_eq!(
        live_success(StateChange::PausedToReady, StateChangeSuccess::Async),
        StateChangeSuccess::Async
    );
}
