//! Disclosure policy: the deny-list, the allow-list and the user's answer.
//!
//! Identities are executable paths, matched as exact, case-sensitive strings.
//! The deny-list is consulted before the allow-list, and the allow-list before
//! the user is asked, so an identity that stands on both lists is denied. A
//! requestor whose identity could not be resolved matches neither list and is
//! always put to the user.

use vstd::prelude::*;

verus! {

/// What to do with one request for the secret.
#[derive(Clone, Copy, Debug, PartialEq, Eq, Structural)]
pub enum Decision {
    /// Hand the secret to the requestor and stop.
    Share,
    /// Hand out nothing and stop.
    Clear,
    /// Refuse the request and remember the requestor as denied.
    Reject,
    /// Refuse the request without remembering anything.
    Continue,
}

/// What the two lists alone say about a requestor.
#[derive(Clone, Copy, Debug, PartialEq, Eq, Structural)]
pub enum Verdict {
    /// The identity is on the deny-list.
    Denied,
    /// The identity is on the allow-list and not on the deny-list.
    Allowed,
    /// Neither list settles it: the user has to be asked.
    Ask,
}

/// A resolved identity that occurs in `list`.
pub open spec fn listed(list: Seq<Seq<char>>, identity: Option<Seq<char>>) -> bool {
    identity matches Some(name) && list.contains(name)
}

/// The verdict of the lists: deny first, then allow, else ask.
pub open spec fn verdict_of(
    identity: Option<Seq<char>>,
    allow: Seq<Seq<char>>,
    deny: Seq<Seq<char>>,
) -> Verdict {
    if listed(deny, identity) {
        Verdict::Denied
    } else if listed(allow, identity) {
        Verdict::Allowed
    } else {
        Verdict::Ask
    }
}

/// The decision that a prompt's outcome stands for. The three action names
/// are matched exactly; a prompt that was closed or dismissed, and any name
/// that is none of the three, is a soft decline.
pub open spec fn decision_of(action: Option<Seq<char>>) -> Decision {
    match action {
        Some(name) => {
            if name == "share"@ {
                Decision::Share
            } else if name == "clear"@ {
                Decision::Clear
            } else if name == "reject"@ {
                Decision::Reject
            } else {
                Decision::Continue
            }
        },
        None => Decision::Continue,
    }
}

/// The deny-list after the user has declined a requestor: a resolved
/// identity is appended, an unresolved one leaves the list as it was.
pub open spec fn remembered(deny: Seq<Seq<char>>, identity: Option<Seq<char>>) -> Seq<Seq<char>> {
    match identity {
        Some(name) => deny.push(name),
        None => deny,
    }
}

/// Whether `name` occurs in `list`.
pub fn contains_identity(list: &Vec<String>, name: &String) -> (found: bool)
    ensures
        found == list.deep_view().contains(name@),
{
    let mut i: usize = 0;
    while i < list.len()
        invariant
            i <= list.len(),
            forall|k: int| 0 <= k < i ==> list.deep_view()[k] != name@,
        decreases list.len() - i,
    {
        if list[i] == *name {
            assert(list.deep_view()[i as int] == name@);
            return true;
        }
        i = i + 1;
    }
    false
}

/// Applies the lists to a requestor.
pub fn evaluate(identity: &Option<String>, allow: &Vec<String>, deny: &Vec<String>) -> (verdict:
    Verdict)
    ensures
        verdict == verdict_of(identity.deep_view(), allow.deep_view(), deny.deep_view()),
{
    match identity {
        Some(name) => {
            if contains_identity(deny, name) {
                Verdict::Denied
            } else if contains_identity(allow, name) {
                Verdict::Allowed
            } else {
                Verdict::Ask
            }
        },
        None => Verdict::Ask,
    }
}

/// Appends a declined requestor to the deny-list, if its identity is known.
pub fn remember(deny: &mut Vec<String>, identity: Option<String>)
    ensures
        final(deny).deep_view() == remembered(old(deny).deep_view(), identity.deep_view()),
{
    match identity {
        Some(name) => {
            deny.push(name);
            assert(deny.deep_view() =~= old(deny).deep_view().push(name@));
        },
        None => {},
    }
}

impl Decision {
    /// Reads the action that the prompt reported, if any.
    pub fn from_action(action: Option<String>) -> (decision: Decision)
        ensures
            decision == decision_of(action.deep_view()),
    {
        match action {
            Some(name) => {
                if name == String::from_str("share") {
                    Decision::Share
                } else if name == String::from_str("clear") {
                    Decision::Clear
                } else if name == String::from_str("reject") {
                    Decision::Reject
                } else {
                    Decision::Continue
                }
            },
            None => Decision::Continue,
        }
    }

    /// The action name under which the prompt offers this decision; a soft
    /// decline is what remains when none of the offered actions is taken.
    pub fn action_name(&self) -> (name: Option<&'static str>)
        ensures
            name.deep_view() == action_name_of(*self),
    {
        match self {
            Decision::Share => Some("share"),
            Decision::Clear => Some("clear"),
            Decision::Reject => Some("reject"),
            Decision::Continue => None,
        }
    }
}

/// The action name of each decision that the prompt offers.
pub open spec fn action_name_of(decision: Decision) -> Option<Seq<char>> {
    match decision {
        Decision::Share => Some("share"@),
        Decision::Clear => Some("clear"@),
        Decision::Reject => Some("reject"@),
        Decision::Continue => None,
    }
}

/// Reading back the action name of a decision gives that decision.
pub proof fn action_names_round_trip(decision: Decision)
    ensures
        decision_of(action_name_of(decision)) == decision,
{
    reveal_strlit("share");
    reveal_strlit("clear");
    reveal_strlit("reject");
    if decision == Decision::Clear {
        assert("clear"@[0] != "share"@[0]);
    }
    if decision == Decision::Reject {
        assert("reject"@[0] != "share"@[0]);
        assert("reject"@[0] != "clear"@[0]);
    }
}

} // verus!
