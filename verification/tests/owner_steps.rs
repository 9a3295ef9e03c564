use clip_otp::deadline::Deadline;
use clip_otp::owner::{Action, Input, Outcome, Phase, SelectionOwner};
use clip_otp::policy::Decision;
use clip_otp::protocol::{
    Atoms, Payload, PropertyWrite, Reply, SelectionNotify, SelectionRequest, NONE,
};
use clip_otp::{Conf, Pass};

const ATOMS: Atoms = Atoms { clipboard: 10, targets: 11, utf8_string: 12, text_plain: 13 };

fn owner_with(timeout: Option<u64>) -> SelectionOwner {
    let conf = Conf {
        accept_list: vec!["/usr/bin/trusted".to_string()],
        reject_list: vec!["/usr/bin/evil".to_string()],
        timeout,
    };
    SelectionOwner::new(conf, Pass::new(b"hunter2".to_vec()))
}

fn owning() -> SelectionOwner {
    let mut owner = owner_with(None);
    owner.step(Input::Claimed { atoms: ATOMS, now: 0 });
    owner
}

fn request(target: u32) -> SelectionRequest {
    SelectionRequest { time: 5, requestor: 6, selection: 10, target, property: 8 }
}

fn named(request: SelectionRequest, property_name: &[u8], identity: Option<&str>) -> Input {
    Input::Request {
        request,
        property_name: property_name.to_vec(),
        identity: identity.map(|s| s.to_string()),
    }
}

fn refusal_of(request: SelectionRequest) -> Action {
    Action::Send(Reply {
        write: None,
        notify: SelectionNotify {
            time: request.time,
            requestor: request.requestor,
            selection: request.selection,
            target: request.target,
            property: NONE,
        },
    })
}

#[test]
fn new_owner_is_unclaimed() {
    let owner = owner_with(Some(30));
    assert_eq!(owner.phase(), &Phase::Unclaimed);
    assert_eq!(owner.outcome(), None);
    assert_eq!(owner.deadline(), None);
    assert_eq!(owner.allow_list(), &vec!["/usr/bin/trusted".to_string()]);
    assert_eq!(owner.deny_list(), &vec!["/usr/bin/evil".to_string()]);
    assert_eq!(
        owner.atoms(),
        Atoms { clipboard: NONE, targets: NONE, utf8_string: NONE, text_plain: NONE }
    );
}

#[test]
fn claim_fixes_atoms_and_deadline() {
    let mut owner = owner_with(Some(30));
    assert_eq!(owner.step(Input::Claimed { atoms: ATOMS, now: 7 }), Action::Nothing);
    assert_eq!(owner.phase(), &Phase::Owning);
    assert_eq!(owner.atoms(), ATOMS);
    assert_eq!(owner.deadline(), Some(Deadline::after(7, 30)));
    assert_eq!(owner.deadline(), Some(Deadline::after(30_000_007, 0)));
}

#[test]
fn claim_without_timeout_has_no_deadline() {
    let mut owner = owner_with(None);
    owner.step(Input::Claimed { atoms: ATOMS, now: 7 });
    assert_eq!(owner.deadline(), None);
}

#[test]
fn second_claim_changes_nothing() {
    let mut owner = owner_with(Some(30));
    owner.step(Input::Claimed { atoms: ATOMS, now: 7 });
    let other = Atoms { clipboard: 1, targets: 2, utf8_string: 3, text_plain: 4 };
    assert_eq!(owner.step(Input::Claimed { atoms: other, now: 99 }), Action::Nothing);
    assert_eq!(owner.atoms(), ATOMS);
    assert_eq!(owner.deadline(), Some(Deadline::after(7, 30)));
    assert_eq!(owner.phase(), &Phase::Owning);
}

#[test]
fn failed_claim_is_an_error() {
    let mut owner = owner_with(None);
    assert_eq!(owner.step(Input::Failed), Action::Nothing);
    assert_eq!(owner.outcome(), Some(Outcome::Error));
    assert_eq!(Outcome::Error.exit_code(), 1);
}

#[test]
fn unclaimed_owner_ignores_events() {
    let mut owner = owner_with(Some(30));
    for input in [
        named(request(0), b"P", Some("/usr/bin/trusted")),
        Input::Answer(Decision::Share),
        Input::OwnershipLost,
        Input::DeadlineElapsed,
        Input::Other,
    ] {
        assert_eq!(owner.step(input), Action::Nothing);
        assert_eq!(owner.phase(), &Phase::Unclaimed);
    }
}

#[test]
fn failure_while_owning_is_an_error() {
    let mut owner = owning();
    assert_eq!(owner.step(Input::Failed), Action::Nothing);
    assert_eq!(owner.outcome(), Some(Outcome::Error));
}

#[test]
fn failure_while_prompting_is_an_error() {
    let mut owner = owning();
    assert_eq!(owner.step(named(request(12), b"P", None)), Action::Prompt);
    assert_eq!(owner.step(Input::Failed), Action::Nothing);
    assert_eq!(owner.outcome(), Some(Outcome::Error));
}

#[test]
fn deadline_while_prompting_times_out() {
    let mut owner = owning();
    assert_eq!(owner.step(named(request(12), b"P", None)), Action::Prompt);
    assert_eq!(owner.step(Input::DeadlineElapsed), Action::Nothing);
    assert_eq!(owner.outcome(), Some(Outcome::TimedOut));
}

#[test]
fn other_events_are_ignored() {
    let mut owner = owning();
    assert_eq!(owner.step(Input::Other), Action::Nothing);
    assert_eq!(owner.phase(), &Phase::Owning);
    assert_eq!(owner.step(Input::Answer(Decision::Share)), Action::Nothing);
    assert_eq!(owner.phase(), &Phase::Owning);
}

#[test]
fn prompting_owner_reads_no_events() {
    let mut owner = owning();
    let asked = request(12);
    assert_eq!(owner.step(named(asked, b"P", Some("/usr/bin/a"))), Action::Prompt);
    let pending = Phase::Prompting { request: asked, identity: Some("/usr/bin/a".to_string()) };
    for input in [
        named(request(11), b"P", None),
        named(request(12), b"P", Some("/usr/bin/trusted")),
        Input::Other,
        Input::Claimed { atoms: ATOMS, now: 3 },
    ] {
        assert_eq!(owner.step(input), Action::Nothing);
        assert_eq!(owner.phase(), &pending);
    }
    assert_eq!(owner.step(Input::Answer(Decision::Continue)), refusal_of(asked));
    assert_eq!(owner.phase(), &Phase::Owning);
}

#[test]
fn unknown_target_is_refused() {
    let mut owner = owning();
    let asked = request(4242);
    assert_eq!(owner.step(named(asked, b"P", Some("/usr/bin/trusted"))), refusal_of(asked));
    assert_eq!(owner.phase(), &Phase::Owning);
}

#[test]
fn mime_alias_is_a_content_type() {
    let mut owner = owning();
    let asked = request(ATOMS.text_plain);
    assert_eq!(
        owner.step(named(asked, b"P", Some("/usr/bin/trusted"))),
        Action::Send(Reply {
            write: Some(PropertyWrite {
                window: 6,
                property: 8,
                type_atom: ATOMS.text_plain,
                payload: Payload::Bytes(b"hunter2".to_vec()),
            }),
            notify: SelectionNotify { time: 5, requestor: 6, selection: 10, target: 13, property: 8 },
        })
    );
    assert_eq!(owner.outcome(), Some(Outcome::Shared));
}

#[test]
fn reserved_property_gets_no_reply() {
    for target in [ATOMS.targets, ATOMS.utf8_string, ATOMS.text_plain, 4242] {
        for identity in [Some("/usr/bin/trusted"), Some("/usr/bin/evil"), None] {
            let mut owner = owning();
            let input = named(request(target), b"META_SELECTION_1", identity);
            assert_eq!(owner.step(input), Action::Nothing);
            assert_eq!(owner.phase(), &Phase::Owning);
        }
    }
}

#[test]
fn identity_match_is_case_sensitive() {
    let mut owner = owning();
    assert_eq!(owner.step(named(request(12), b"P", Some("/usr/bin/Trusted"))), Action::Prompt);
    let mut owner = owning();
    assert_eq!(owner.step(named(request(12), b"P", Some("/usr/bin/EVIL"))), Action::Prompt);
}

#[test]
fn types_query_wins_where_atoms_coincide() {
    let same = Atoms { clipboard: 1, targets: 0, utf8_string: 0, text_plain: 0 };
    let mut owner = owner_with(None);
    owner.step(Input::Claimed { atoms: same, now: 0 });
    let asked = request(0);
    assert_eq!(
        owner.step(named(asked, b"P", Some("/usr/bin/trusted"))),
        Action::Send(Reply {
            write: Some(PropertyWrite {
                window: 6,
                property: 8,
                type_atom: 4,
                payload: Payload::Atoms(vec![0]),
            }),
            notify: SelectionNotify { time: 5, requestor: 6, selection: 10, target: 0, property: 8 },
        })
    );
    assert_eq!(owner.phase(), &Phase::Owning);
}

#[test]
fn empty_secret_is_shared_as_empty_bytes() {
    let mut owner = SelectionOwner::new(Conf::default(), Pass::new(Vec::new()));
    owner.step(Input::Claimed { atoms: ATOMS, now: 0 });
    assert_eq!(owner.step(named(request(12), b"P", None)), Action::Prompt);
    match owner.step(Input::Answer(Decision::Share)) {
        Action::Send(Reply { write: Some(write), .. }) => {
            assert_eq!(write.payload, Payload::Bytes(Vec::new()));
            assert_eq!(write.payload.format(), 8);
        },
        other => panic!("expected a delivery, got {:?}", other),
    }
}
