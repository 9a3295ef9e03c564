use clip_otp::deadline::{after_poll, plan_wait, Deadline, PollStep, WaitPlan, NANOS_PER_MILLI};
use clip_otp::identity::client_pid;
use clip_otp::policy::{contains_identity, evaluate, remember, Decision, Verdict};
use clip_otp::protocol::{
    is_reserved_property, reject, respond, AtomName, Payload, PropertyWrite, Reply,
    SelectionNotify, SelectionRequest, ATOM, NONE,
};
use clip_otp::{Conf, Pass};

fn names(list: &[&str]) -> Vec<String> {
    list.iter().map(|s| s.to_string()).collect()
}

#[test]
fn pass_unlocks_its_bytes() {
    assert_eq!(Pass::new(b"abc123".to_vec()).unlock(), b"abc123");
    assert_eq!(Pass::new(Vec::new()).unlock(), b"");
    assert_eq!(Pass::new(vec![0, 255, 10]).unlock(), &[0u8, 255, 10]);
}

#[test]
fn default_conf_is_empty() {
    let conf = Conf::default();
    assert!(conf.accept_list.is_empty());
    assert!(conf.reject_list.is_empty());
    assert_eq!(conf.timeout, None);
}

#[test]
fn missing_fields_take_their_defaults() {
    assert_eq!(Conf::from_fields(None, None, None), Conf::default());
    assert_eq!(
        Conf::from_fields(Some(names(&["/a", "/b"])), None, Some(500)),
        Conf { accept_list: names(&["/a", "/b"]), reject_list: Vec::new(), timeout: Some(500) }
    );
    assert_eq!(
        Conf::from_fields(None, Some(names(&["/c"])), Some(0)),
        Conf { accept_list: Vec::new(), reject_list: names(&["/c"]), timeout: Some(0) }
    );
}

#[test]
fn prompt_actions_are_read_exactly() {
    assert_eq!(Decision::from_action(Some("share".to_string())), Decision::Share);
    assert_eq!(Decision::from_action(Some("clear".to_string())), Decision::Clear);
    assert_eq!(Decision::from_action(Some("reject".to_string())), Decision::Reject);
    assert_eq!(Decision::from_action(None), Decision::Continue);
    assert_eq!(Decision::from_action(Some("__closed".to_string())), Decision::Continue);
    assert_eq!(Decision::from_action(Some("default".to_string())), Decision::Continue);
    assert_eq!(Decision::from_action(Some("Share".to_string())), Decision::Continue);
    assert_eq!(Decision::from_action(Some("share ".to_string())), Decision::Continue);
    assert_eq!(Decision::from_action(Some(String::new())), Decision::Continue);
}

#[test]
fn action_names_read_back() {
    assert_eq!(Decision::Share.action_name(), Some("share"));
    assert_eq!(Decision::Clear.action_name(), Some("clear"));
    assert_eq!(Decision::Reject.action_name(), Some("reject"));
    assert_eq!(Decision::Continue.action_name(), None);
    for decision in [Decision::Share, Decision::Clear, Decision::Reject, Decision::Continue] {
        let name = decision.action_name().map(|s| s.to_string());
        assert_eq!(Decision::from_action(name), decision);
    }
}

#[test]
fn list_membership_is_exact() {
    let list = names(&["/usr/bin/a", "/usr/bin/b", "/usr/bin/a"]);
    assert!(contains_identity(&list, &"/usr/bin/a".to_string()));
    assert!(contains_identity(&list, &"/usr/bin/b".to_string()));
    assert!(!contains_identity(&list, &"/usr/bin/c".to_string()));
    assert!(!contains_identity(&list, &"/usr/bin/A".to_string()));
    assert!(!contains_identity(&list, &"/usr/bin/".to_string()));
    assert!(!contains_identity(&Vec::new(), &"/usr/bin/a".to_string()));
}

#[test]
fn lists_are_applied_deny_first() {
    let allow = names(&["/t", "/both"]);
    let deny = names(&["/e", "/both"]);
    assert_eq!(evaluate(&Some("/t".to_string()), &allow, &deny), Verdict::Allowed);
    assert_eq!(evaluate(&Some("/e".to_string()), &allow, &deny), Verdict::Denied);
    assert_eq!(evaluate(&Some("/both".to_string()), &allow, &deny), Verdict::Denied);
    assert_eq!(evaluate(&Some("/x".to_string()), &allow, &deny), Verdict::Ask);
    assert_eq!(evaluate(&None, &allow, &deny), Verdict::Ask);
    assert_eq!(evaluate(&Some("/t".to_string()), &Vec::new(), &Vec::new()), Verdict::Ask);
}

#[test]
fn remember_appends_known_identities_only() {
    let mut deny = names(&["/e"]);
    remember(&mut deny, Some("/n".to_string()));
    assert_eq!(deny, names(&["/e", "/n"]));
    remember(&mut deny, None);
    assert_eq!(deny, names(&["/e", "/n"]));
    remember(&mut deny, Some("/e".to_string()));
    assert_eq!(deny, names(&["/e", "/n", "/e"]));
}

#[test]
fn protocol_constants_match_the_protocol_crate() {
    assert_eq!(NONE, x11rb::NONE);
    assert_eq!(ATOM, u32::from(x11rb::protocol::xproto::AtomEnum::ATOM));
    assert_eq!(NONE, u32::from(x11rb::protocol::xproto::AtomEnum::NONE));
}

#[test]
fn atom_names_are_the_protocol_names() {
    assert_eq!(AtomName::Clipboard.as_str(), "CLIPBOARD");
    assert_eq!(AtomName::Targets.as_str(), "TARGETS");
    assert_eq!(AtomName::Utf8String.as_str(), "UTF8_STRING");
    assert_eq!(AtomName::TextPlain.as_str(), "text/plain;charset=utf-8");
}

#[test]
fn payload_formats() {
    assert_eq!(Payload::Atoms(vec![1, 2]).format(), 32);
    assert_eq!(Payload::Bytes(vec![1, 2]).format(), 8);
}

#[test]
fn respond_writes_then_notifies() {
    let request =
        SelectionRequest { time: 1, requestor: 2, selection: 3, target: 4, property: 5 };
    assert_eq!(
        respond(&request, 99, Payload::Bytes(b"xy".to_vec())),
        Reply {
            write: Some(PropertyWrite {
                window: 2,
                property: 5,
                type_atom: 99,
                payload: Payload::Bytes(b"xy".to_vec()),
            }),
            notify: SelectionNotify { time: 1, requestor: 2, selection: 3, target: 4, property: 5 },
        }
    );
}

#[test]
fn reject_clears_the_property() {
    let request =
        SelectionRequest { time: 1, requestor: 2, selection: 3, target: 4, property: 5 };
    assert_eq!(
        reject(&request),
        Reply {
            write: None,
            notify: SelectionNotify { time: 1, requestor: 2, selection: 3, target: 4, property: 0 },
        }
    );
}

#[test]
fn reserved_marker_is_a_prefix_test() {
    assert!(is_reserved_property(b"META_SELECTION"));
    assert!(is_reserved_property(b"META_SELECTION_ABC"));
    assert!(!is_reserved_property(b"META_SELECTIO"));
    assert!(!is_reserved_property(b"meta_selection"));
    assert!(!is_reserved_property(b"XMETA_SELECTION"));
    assert!(!is_reserved_property(b"META_SELECTIOM"));
    assert!(!is_reserved_property(b"LETA_SELECTION"));
    assert!(!is_reserved_property(b""));
    assert!(!is_reserved_property(b"GDK_SELECTION"));
}

#[test]
fn deadline_is_now_plus_timeout() {
    assert_eq!(NANOS_PER_MILLI, 1_000_000);
    assert_eq!(Deadline::after(0, 500), Deadline::after(500_000_000, 0));
    assert_eq!(Deadline::after(17, 3), Deadline::after(3_000_017, 0));
    assert_ne!(Deadline::after(0, 500), Deadline::after(0, 501));
    let far = Deadline::after(u64::MAX, u64::MAX);
    assert_eq!(far.remaining_millis(u64::MAX), Some(i32::MAX));
}

#[test]
fn remaining_time_is_whole_milliseconds() {
    let deadline = Deadline::after(1_000, 500);
    assert_eq!(deadline.remaining_millis(0), Some(500));
    assert_eq!(deadline.remaining_millis(1_000), Some(500));
    assert_eq!(deadline.remaining_millis(1_001), Some(499));
    assert_eq!(deadline.remaining_millis(499_001_000), Some(1));
    assert_eq!(deadline.remaining_millis(499_001_001), Some(0));
    assert_eq!(deadline.remaining_millis(500_001_000), Some(0));
    assert_eq!(deadline.remaining_millis(500_001_001), None);
    assert_eq!(deadline.remaining_millis(u64::MAX), None);
}

#[test]
fn remaining_time_is_capped() {
    let cap = i32::MAX as u64;
    assert_eq!(Deadline::after(0, cap).remaining_millis(0), Some(i32::MAX));
    assert_eq!(Deadline::after(0, cap + 1).remaining_millis(0), Some(i32::MAX));
    assert_eq!(Deadline::after(0, cap - 1).remaining_millis(0), Some(i32::MAX - 1));
    assert_eq!(Deadline::after(0, u64::MAX).remaining_millis(0), Some(i32::MAX));
    assert_eq!(Deadline::after(0, 0).remaining_millis(0), Some(0));
    assert_eq!(Deadline::after(0, 0).remaining_millis(1), None);
}

#[test]
fn wait_blocks_without_a_deadline() {
    assert_eq!(plan_wait(&None), WaitPlan::Block);
    let deadline = Deadline::after(5, 10);
    assert_eq!(plan_wait(&Some(deadline)), WaitPlan::Poll(deadline));
}

#[test]
fn buffered_event_wins_over_the_deadline() {
    let deadline = Deadline::after(0, 1);
    assert_eq!(after_poll(&deadline, Some("event"), 0), PollStep::Ready("event"));
    assert_eq!(after_poll(&deadline, Some("event"), u64::MAX), PollStep::Ready("event"));
    assert_eq!(after_poll::<&str>(&deadline, None, 1_000_000), PollStep::Sleep { millis: 0 });
    assert_eq!(after_poll::<&str>(&deadline, None, 1_000_001), PollStep::TimedOut);
}

#[test]
fn client_pid_is_the_first_value_there_is() {
    assert_eq!(client_pid(&vec![vec![4711]]), Some(4711));
    assert_eq!(client_pid(&vec![vec![1, 2, 3], vec![9]]), Some(1));
    assert_eq!(client_pid(&vec![vec![], vec![], vec![8, 7], vec![6]]), Some(8));
    assert_eq!(client_pid(&vec![vec![], vec![]]), None);
    assert_eq!(client_pid(&Vec::new()), None);
}
