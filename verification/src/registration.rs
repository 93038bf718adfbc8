//! The registrations that a storage holds, each under a key of its own.

use vstd::prelude::*;
use vstd::string::*;

use crate::types::{StorageError, StorageErrorView};

verus! {

/// Whether one of `entries` has the key `key`.
pub open spec fn has_key<H>(entries: Seq<(Seq<char>, H)>, key: Seq<char>) -> bool {
    exists|i: int| 0 <= i < entries.len() && (#[trigger] entries[i]).0 == key
}

/// The handle of the first of `entries` with the key `key`.
pub open spec fn handle_of<H>(entries: Seq<(Seq<char>, H)>, key: Seq<char>) -> Option<H>
    decreases entries.len(),
{
    if entries.len() == 0 {
        None
    } else if entries[0].0 == key {
        Some(entries[0].1)
    } else {
        handle_of(entries.skip(1), key)
    }
}

/// Whether no two of `entries` share a key.
pub open spec fn unique_keys<H>(entries: Seq<(Seq<char>, H)>) -> bool {
    forall|i: int, j: int|
        0 <= i < j < entries.len() ==> (#[trigger] entries[i]).0 != (#[trigger] entries[j]).0
}

/// The handles of `entries`, in their order.
pub open spec fn handles_of<H>(entries: Seq<(Seq<char>, H)>) -> Seq<H> {
    Seq::new(entries.len(), |i: int| entries[i].1)
}

/// Handles of external registrations by key, in the order in which they were made.
#[derive(Debug)]
pub struct RegistrationHandles<H> {
    entries: Vec<(String, H)>,
}

impl<H> View for RegistrationHandles<H> {
    type V = Seq<(Seq<char>, H)>;

    closed spec fn view(&self) -> Seq<(Seq<char>, H)> {
        Seq::new(self.entries@.len(), |i: int| (self.entries@[i].0@, self.entries@[i].1))
    }
}

impl<H> RegistrationHandles<H> {
    /// No registration yet.
    pub fn new() -> (handles: Self)
        ensures
            handles@ == Seq::<(Seq<char>, H)>::empty(),
    {
        let handles = RegistrationHandles { entries: Vec::new() };
        assert(handles@ =~= Seq::<(Seq<char>, H)>::empty());
        handles
    }

    /// The place of the first registration under `key`.
    fn position(&self, key: &str) -> (place: Option<usize>)
        ensures
            match place {
                Some(i) => {
                    &&& i < self@.len()
                    &&& self@[i as int].0 == key@
                    &&& forall|j: int| 0 <= j < i ==> (#[trigger] self@[j]).0 != key@
                },
                None => !has_key(self@, key@),
            },
    {
        let wanted = String::from_str(key);
        let mut i: usize = 0;
        while i < self.entries.len()
            invariant
                i <= self.entries@.len(),
                wanted@ == key@,
                forall|j: int| 0 <= j < i ==> (#[trigger] self@[j]).0 != key@,
            decreases self.entries@.len() - i,
        {
            assert(self@[i as int].0 == self.entries@[i as int].0@);
            if self.entries[i].0 == wanted {
                return Some(i);
            }
            i = i + 1;
        }
        None
    }

    /// Whether there is a registration under `key`.
    pub fn is_registered(&self, key: &str) -> (registered: bool)
        ensures
            registered == has_key(self@, key@),
    {
        match self.position(key) {
            Some(_) => true,
            None => false,
        }
    }

    /// Adds a registration under a key that has none yet.
    pub fn register(&mut self, key: &str, handle: H) -> (res: Result<(), StorageError>)
        ensures
            match res {
                Ok(()) => {
                    &&& !has_key(old(self)@, key@)
                    &&& final(self)@ == old(self)@.push((key@, handle))
                },
                Err(error) => {
                    &&& has_key(old(self)@, key@)
                    &&& error@ == StorageErrorView::RegistrationKeyExists(key@)
                    &&& final(self)@ == old(self)@
                },
            },
    {
        if self.is_registered(key) {
            return Err(StorageError::RegistrationKeyExists(String::from_str(key)));
        }
        self.entries.push((String::from_str(key), handle));
        assert(self@ =~= old(self)@.push((key@, handle)));
        Ok(())
    }

    /// The handle of the registration under `key`.
    pub fn registration_handle(&self, key: &str) -> (handle: Option<&H>)
        ensures
            match handle {
                Some(h) => handle_of(self@, key@) == Some(*h),
                None => handle_of(self@, key@) is None,
            },
    {
        match self.position(key) {
            Some(i) => {
                proof {
                    lemma_first(self@, key@, i as int);
                }
                Some(&self.entries[i].1)
            },
            None => {
                proof {
                    lemma_absent(self@, key@);
                }
                None
            },
        }
    }

    /// Gives every handle up, in the order of registration.
    pub fn release(self) -> (handles: Vec<H>)
        ensures
            handles@ == handles_of(self@),
    {
        let ghost all = self@;
        let mut handles: Vec<H> = Vec::new();
        for entry in it: self.entries
            invariant
                handles@.len() == it.index(),
                it.seq().len() == all.len(),
                forall|i: int| 0 <= i < all.len() ==> (#[trigger] it.seq()[i]).1 == all[i].1,
                forall|i: int| 0 <= i < handles@.len() ==> #[trigger] handles@[i] == all[i].1,
        {
            handles.push(entry.1);
        }
        assert(handles@ =~= handles_of(all));
        handles
    }
}

proof fn lemma_first<H>(entries: Seq<(Seq<char>, H)>, key: Seq<char>, i: int)
    requires
        0 <= i < entries.len(),
        entries[i].0 == key,
        forall|j: int| 0 <= j < i ==> (#[trigger] entries[j]).0 != key,
    ensures
        handle_of(entries, key) == Some(entries[i].1),
    decreases i,
{
    if i > 0 {
        assert(entries[0].0 != key);
        let rest = entries.skip(1);
        assert forall|j: int| 0 <= j < i - 1 implies (#[trigger] rest[j]).0 != key by {
            assert(rest[j] == entries[j + 1]);
        }
        lemma_first(rest, key, i - 1);
    }
}

proof fn lemma_absent<H>(entries: Seq<(Seq<char>, H)>, key: Seq<char>)
    requires
        !has_key(entries, key),
    ensures
        handle_of(entries, key) is None,
    decreases entries.len(),
{
    if entries.len() > 0 {
        assert(entries[0].0 != key);
        let rest = entries.skip(1);
        assert forall|j: int| 0 <= j < rest.len() implies (#[trigger] rest[j]).0 != key by {
            assert(rest[j] == entries[j + 1]);
        }
        lemma_absent(rest, key);
    }
}

/// There is a handle to look up exactly under the keys that are registered.
pub proof fn law_handle_iff_registered<H>(entries: Seq<(Seq<char>, H)>, key: Seq<char>)
    ensures
        handle_of(entries, key) is Some <==> has_key(entries, key),
    decreases entries.len(),
{
    if !has_key(entries, key) {
        lemma_absent(entries, key);
    } else if entries[0].0 != key {
        let i = choose|i: int| 0 <= i < entries.len() && (#[trigger] entries[i]).0 == key;
        assert(entries.skip(1)[i - 1] == entries[i]);
        law_handle_iff_registered(entries.skip(1), key);
    }
}

/// A registration under a free key is found again with its handle, leaves what is found under
/// every other key as it was, and keeps keys unique that are.
pub proof fn law_registration_found<H>(
    entries: Seq<(Seq<char>, H)>,
    key: Seq<char>,
    handle: H,
    other: Seq<char>,
)
    requires
        !has_key(entries, key),
        other != key,
    ensures
        handle_of(entries.push((key, handle)), key) == Some(handle),
        handle_of(entries.push((key, handle)), other) == handle_of(entries, other),
        unique_keys(entries) ==> unique_keys(entries.push((key, handle))),
{
    let longer = entries.push((key, handle));
    assert forall|j: int| 0 <= j < entries.len() implies (#[trigger] longer[j]).0 != key by {
        assert(longer[j] == entries[j]);
    }
    lemma_first(longer, key, entries.len() as int);
    lemma_push_other(entries, key, handle, other);
}

proof fn lemma_push_other<H>(
    entries: Seq<(Seq<char>, H)>,
    key: Seq<char>,
    handle: H,
    other: Seq<char>,
)
    requires
        other != key,
    ensures
        handle_of(entries.push((key, handle)), other) == handle_of(entries, other),
    decreases entries.len(),
{
    let longer = entries.push((key, handle));
    if entries.len() == 0 {
        assert(longer.skip(1) =~= Seq::<(Seq<char>, H)>::empty());
        assert(handle_of(longer.skip(1), other) is None);
    } else {
        assert(longer.skip(1) =~= entries.skip(1).push((key, handle)));
        lemma_push_other(entries.skip(1), key, handle, other);
    }
}

} // verus!
