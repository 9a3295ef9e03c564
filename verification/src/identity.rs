//! Picking the requestor's process out of the server's answer.
//!
//! The server answers a client-identification query with a list of entries,
//! each carrying a list of values. The requestor's process id is the first
//! value of the first entry that has any. Turning the process id into an
//! executable path is the caller's business; when any of this fails the
//! identity is unknown, which is not an error.

use vstd::prelude::*;

verus! {

/// Entry `i` is the first of `entries` that carries a value.
pub open spec fn first_with_value(entries: Seq<Seq<u32>>, i: int) -> bool {
    &&& 0 <= i < entries.len()
    &&& entries[i].len() > 0
    &&& forall|j: int| 0 <= j < i ==> entries[j].len() == 0
}

/// The first value of the first entry that has one.
pub fn client_pid(entries: &Vec<Vec<u32>>) -> (pid: Option<u32>)
    ensures
        match pid {
            Some(value) => exists|i: int|
                first_with_value(entries.deep_view(), i) && value == entries.deep_view()[i][0],
            None => forall|i: int|
                0 <= i < entries.len() ==> entries.deep_view()[i].len() == 0,
        },
{
    let ghost all = entries.deep_view();
    let mut i: usize = 0;
    while i < entries.len()
        invariant
            i <= entries.len(),
            all == entries.deep_view(),
            forall|j: int| 0 <= j < i ==> all[j].len() == 0,
        decreases entries.len() - i,
    {
        if entries[i].len() > 0 {
            let value = entries[i][0];
            proof {
                assert(all[i as int] == entries[i as int].deep_view());
                assert(first_with_value(all, i as int));
            }
            return Some(value);
        }
        proof {
            assert(all[i as int] == entries[i as int].deep_view());
        }
        i = i + 1;
    }
    None
}

} // verus!
