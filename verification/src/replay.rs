//! The record of committed transaction identifiers, by which an inbound
//! event counts once.

use crate::error::BridgeError;
use crate::text::texts;
use vstd::prelude::*;

verus! {

/// The identifiers of the inbound events that have been committed. An
/// identifier that is in never leaves.
#[derive(Clone, Debug, PartialEq, Eq)]
pub struct ReplayGuard {
    ids: Vec<String>,
}

impl View for ReplayGuard {
    type V = Seq<Seq<char>>;

    /// The identifiers in the order in which they were committed.
    closed spec fn view(&self) -> Seq<Seq<char>> {
        texts(self.ids@)
    }
}

/// Whether `id` is among the first `end` of `ids`.
fn occurs_before(ids: &Vec<String>, end: usize, id: &String) -> (found: bool)
    requires
        end <= ids.len(),
    ensures
        found == (exists|j: int| 0 <= j < end && ids[j]@ == id@),
{
    let mut i: usize = 0;
    while i < end
        invariant
            i <= end <= ids.len(),
            forall|j: int| 0 <= j < i ==> ids[j]@ != id@,
        decreases end - i,
    {
        if ids[i] == *id {
            return true;
        }
        i = i + 1;
    }
    false
}

/// The committed identifiers once `id` has been committed too.
pub open spec fn with_id(ids: Seq<Seq<char>>, id: Seq<char>) -> Seq<Seq<char>> {
    if ids.contains(id) {
        ids
    } else {
        ids.push(id)
    }
}

impl ReplayGuard {
    /// No identifier is recorded twice.
    pub open spec fn wf(&self) -> bool {
        self@.no_duplicates()
    }

    /// A guard that has seen nothing.
    pub fn new() -> (guard: Self)
        ensures
            guard.wf(),
            guard@ == Seq::<Seq<char>>::empty(),
    {
        let guard = ReplayGuard { ids: Vec::new() };
        guard
    }

    /// The guard that has committed the given identifiers in their order,
    /// where none comes twice.
    pub fn from_ids(ids: Vec<String>) -> (guard: Option<Self>)
        ensures
            match guard {
                Some(guard) => guard.wf() && guard@ == texts(ids@),
                None => !texts(ids@).no_duplicates(),
            },
    {
        let mut i: usize = 0;
        while i < ids.len()
            invariant
                i <= ids.len(),
                forall|a: int, b: int| 0 <= a < b < i ==> ids[a]@ != ids[b]@,
            decreases ids.len() - i,
        {
            if occurs_before(&ids, i, &ids[i]) {
                proof {
                    let j = choose|j: int| 0 <= j < i && ids[j]@ == ids[i as int]@;
                    assert(texts(ids@)[j] == texts(ids@)[i as int]);
                }
                return None;
            }
            i = i + 1;
        }
        Some(ReplayGuard { ids })
    }

    /// The committed identifiers, oldest first.
    pub fn into_ids(self) -> (ids: Vec<String>)
        ensures
            texts(ids@) == self@,
    {
        self.ids
    }

    /// Whether `id` has been committed.
    pub fn has_processed(&self, id: &String) -> (known: bool)
        ensures
            known == self@.contains(id@),
    {
        let known = occurs_before(&self.ids, self.ids.len(), id);
        proof {
            if known {
                let j = choose|j: int| 0 <= j < self.ids.len() && self.ids[j]@ == id@;
                assert(self@[j] == id@);
            }
        }
        known
    }

    /// Commits `id` if it is new, and says whether it was.
    pub fn record(&mut self, id: String) -> (fresh: bool)
        requires
            old(self).wf(),
        ensures
            final(self).wf(),
            fresh == !old(self)@.contains(id@),
            final(self)@ == with_id(old(self)@, id@),
            !fresh ==> *final(self) == *old(self),
    {
        if self.has_processed(&id) {
            false
        } else {
            let ghost before = self@;
            self.ids.push(id);
            assert(self@ =~= before.push(id@));
            true
        }
    }

    /// Commits `id`, and refuses one that has been committed before.
    pub fn mark_processed(&mut self, id: String) -> (done: Result<(), BridgeError>)
        requires
            old(self).wf(),
        ensures
            final(self).wf(),
            old(self)@.contains(id@) ==> done == Err::<(), BridgeError>(BridgeError::AlreadyProcessed) && *final(self)
                == *old(self),
            !old(self)@.contains(id@) ==> done is Ok && final(self)@ == old(self)@.push(id@),
    {
        if self.record(id) {
            Ok(())
        } else {
            Err(BridgeError::AlreadyProcessed)
        }
    }

    /// The number of committed identifiers.
    pub fn len(&self) -> (n: usize)
        ensures
            n == self@.len(),
    {
        self.ids.len()
    }

    /// Every committed identifier, oldest first.
    pub fn all(&self) -> (ids: Vec<String>)
        ensures
            texts(ids@) == self@,
    {
        let mut ids: Vec<String> = Vec::new();
        let mut i: usize = 0;
        while i < self.ids.len()
            invariant
                i <= self.ids.len(),
                ids.len() == i,
                forall|j: int| 0 <= j < i ==> ids[j]@ == self.ids[j]@,
            decreases self.ids.len() - i,
        {
            ids.push(self.ids[i].clone());
            i = i + 1;
        }
        ids
    }
}

} // verus!
