//! The name store: accepted names, in the order in which they were submitted.

use vstd::prelude::*;

use crate::validation::valid_name;

verus! {

/// The accepted names, oldest first. A name may occur more than once.
///
/// Entries are only ever added at the end: nothing is removed, replaced or
/// reordered. Every entry is a name that the validation rule accepts.
pub struct NameStore {
    names: Vec<String>,
}

/// The sequence that results from adding `candidate` after the entries of `names`.
pub open spec fn appended(names: Seq<Seq<char>>, candidate: Seq<char>) -> Seq<Seq<char>> {
    names.push(candidate)
}

/// Every entry of `names` is an acceptable name.
pub open spec fn all_valid(names: Seq<Seq<char>>) -> bool {
    forall|i: int| 0 <= i < names.len() ==> valid_name(#[trigger] names[i])
}

/// Adding a name keeps every earlier entry in its place and puts the name
/// last: the result is the earlier entries followed by the name.
pub proof fn lemma_append_keeps_prior_entries(names: Seq<Seq<char>>, candidate: Seq<char>)
    ensures
        appended(names, candidate) == names + seq![candidate],
        appended(names, candidate).len() == names.len() + 1,
        appended(names, candidate).last() == candidate,
        forall|i: int| 0 <= i < names.len() ==> appended(names, candidate)[i] == names[i],
{
    assert(appended(names, candidate) =~= names + seq![candidate]);
}

/// Adding is not idempotent: a name added twice is held twice, after all
/// earlier entries, so the second addition changes the store again.
pub proof fn lemma_append_twice_keeps_both(names: Seq<Seq<char>>, candidate: Seq<char>)
    ensures
        appended(appended(names, candidate), candidate) == names + seq![candidate, candidate],
        appended(appended(names, candidate), candidate).len() == names.len() + 2,
        appended(appended(names, candidate), candidate) != appended(names, candidate),
{
    assert(appended(appended(names, candidate), candidate) =~= names + seq![candidate, candidate]);
}

impl View for NameStore {
    type V = Seq<Seq<char>>;

    /// The stored names as sequences of characters, oldest first.
    closed spec fn view(&self) -> Seq<Seq<char>> {
        self.names.deep_view()
    }
}

impl NameStore {
    /// What holds of every store at all times: each entry is an acceptable name.
    #[verifier::type_invariant]
    pub open spec fn holds_accepted_names(&self) -> bool {
        all_valid(self@)
    }

    /// An empty store.
    pub fn new() -> (store: Self)
        ensures
            store@ == Seq::<Seq<char>>::empty(),
    {
        let store = NameStore { names: Vec::new() };
        assert(store.names.deep_view() =~= Seq::<Seq<char>>::empty());
        store
    }

    /// The number of stored names.
    pub fn len(&self) -> (n: usize)
        ensures
            n == self@.len(),
    {
        self.names.len()
    }

    /// Whether the store holds no name.
    pub fn is_empty(&self) -> (empty: bool)
        ensures
            empty == (self@.len() == 0),
    {
        self.names.len() == 0
    }

    /// A copy of the stored names, oldest first.
    pub fn snapshot(&self) -> (names: Vec<String>)
        ensures
            names.deep_view() == self@,
            all_valid(self@),
    {
        proof {
            use_type_invariant(self);
        }
        let mut names: Vec<String> = Vec::new();
        let mut i: usize = 0;
        while i < self.names.len()
            invariant
                i <= self.names.len(),
                names.len() == i,
                forall|k: int| 0 <= k < i ==> names[k]@ == self.names[k]@,
            decreases self.names.len() - i,
        {
            names.push(self.names[i].clone());
            i += 1;
        }
        assert(names.deep_view() =~= self.names.deep_view());
        names
    }

    /// Adds `candidate` as the new last entry and returns a copy of all
    /// entries as they then stand.
    pub fn append(&mut self, candidate: String) -> (names: Vec<String>)
        requires
            valid_name(candidate@),
        ensures
            final(self)@ == appended(old(self)@, candidate@),
            names.deep_view() == final(self)@,
            all_valid(final(self)@),
    {
        // The entries are moved out and the store rebuilt around them, so
        // that the store is never borrowed while an entry is being added.
        let mut taken = NameStore { names: Vec::new() };
        core::mem::swap(self, &mut taken);
        proof {
            use_type_invariant(&taken);
        }
        let NameStore { names: mut entries } = taken;
        let ghost before = entries.deep_view();
        entries.push(candidate);
        assert(entries.deep_view() =~= before.push(candidate@));
        *self = NameStore { names: entries };
        self.snapshot()
    }
}

} // verus!
