//! The configuration that a run starts from.

use vstd::prelude::*;

verus! {

/// The policy lists and the timeout, as configured.
#[derive(Clone, Debug, PartialEq, Eq)]
pub struct Conf {
    /// Identities that get the secret without a prompt.
    pub accept_list: Vec<String>,
    /// Identities that are refused without a prompt; the seed of the
    /// deny-list, which grows while the selection is owned.
    pub reject_list: Vec<String>,
    /// Milliseconds after which the owner gives up; none means never.
    pub timeout: Option<u64>,
}

impl Conf {
    /// The configuration in which every field is left out: both lists empty
    /// and no timeout.
    pub open spec fn is_default(&self) -> bool {
        &&& self.accept_list@.len() == 0
        &&& self.reject_list@.len() == 0
        &&& self.timeout is None
    }

    /// Builds a configuration from fields that may each be missing; a
    /// missing list is empty, a missing timeout is none.
    pub fn from_fields(
        accept_list: Option<Vec<String>>,
        reject_list: Option<Vec<String>>,
        timeout: Option<u64>,
    ) -> (conf: Conf)
        ensures
            conf.accept_list@ == match accept_list {
                Some(list) => list@,
                None => Seq::<String>::empty(),
            },
            conf.reject_list@ == match reject_list {
                Some(list) => list@,
                None => Seq::<String>::empty(),
            },
            conf.timeout == timeout,
    {
        Conf {
            accept_list: match accept_list {
                Some(list) => list,
                None => Vec::new(),
            },
            reject_list: match reject_list {
                Some(list) => list,
                None => Vec::new(),
            },
            timeout,
        }
    }
}

impl Default for Conf {
    fn default() -> (conf: Conf)
        ensures
            conf.is_default(),
    {
        Conf { accept_list: Vec::new(), reject_list: Vec::new(), timeout: None }
    }
}

} // verus!
