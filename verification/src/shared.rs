//! A name store that several tasks share: one store behind a lock.

use vstd::prelude::*;
use vstd::rwlock::{RwLock, RwLockPredicate};

use crate::handlers::{submit, submit_reply, Reply, ReplyView, REJECTION_MESSAGE};
use crate::store::{all_valid, NameStore};
use crate::validation::valid_name;

verus! {

/// What the lock promises of the store it guards: that it holds acceptable
/// names only.
pub struct AcceptedOnly;

impl RwLockPredicate<NameStore> for AcceptedOnly {
    open spec fn inv(self, store: NameStore) -> bool {
        all_valid(store@)
    }
}

/// A handle on the one store of a server. Every access takes the lock for as
/// long as it reads or changes the store, and gives it back before it returns.
pub struct SharedStore {
    lock: RwLock<NameStore, AcceptedOnly>,
}

impl SharedStore {
    /// The handle on a new, empty store.
    pub fn new() -> (shared: Self) {
        SharedStore { lock: RwLock::new(NameStore::new(), Ghost(AcceptedOnly)) }
    }

    /// A copy of the names that the store holds at the time of the call,
    /// oldest first.
    pub fn names(&self) -> (names: Vec<String>)
        ensures
            all_valid(names.deep_view()),
    {
        let held = self.lock.acquire_read();
        let names = held.borrow().snapshot();
        held.release_read();
        names
    }

    /// Handles the submission of `name` to the shared store: takes the lock,
    /// lets `submit` decide on the store it guards, and gives the lock back
    /// with the store as `submit` left it.
    ///
    /// What the store held when the lock was taken is up to the other tasks,
    /// so the reply is that of `submit` on some store of acceptable names.
    pub fn add(&self, name: String) -> (reply: Reply)
        ensures
            exists|before: Seq<Seq<char>>|
                all_valid(before) && reply@ == #[trigger] submit_reply(before, name@),
            !valid_name(name@) ==> reply@ == (ReplyView::Rejected { message: REJECTION_MESSAGE@ }),
            valid_name(name@) ==> {
                &&& reply@ is Names
                &&& all_valid(reply@->names)
                &&& reply@->names.len() > 0
                &&& reply@->names.last() == name@
            },
    {
        let (mut store, held) = self.lock.acquire_write();
        let ghost before = store@;
        let reply = submit(&mut store, name);
        proof {
            assert(all_valid(before));
            assert(reply@ == submit_reply(before, name@));
        }
        held.release_write(store);
        reply
    }
}

} // verus!
