//! The metadata index: one descriptor per session key, kept in memory and
//! written out whole after each change.
use vstd::prelude::*;

verus! {

/// A cached summary of one session.
pub struct SessionEntry {
    pub id: String,
    pub key: String,
    pub label: Option<String>,
    pub created_at: u64,
    pub updated_at: u64,
    pub message_count: u32,
}

/// What a descriptor created by `upsert` holds.
pub open spec fn is_fresh_entry(
    e: SessionEntry,
    key: Seq<char>,
    label: Option<String>,
    id: String,
    now: u64,
) -> bool {
    &&& e.key@ == key
    &&& e.id == id
    &&& e.label == label
    &&& e.created_at == now
    &&& e.updated_at == now
    &&& e.message_count == 0
}

/// A descriptor with a new label, touched at `now`.
pub open spec fn relabeled(e: SessionEntry, label: Option<String>, now: u64) -> SessionEntry {
    SessionEntry {
        id: e.id,
        key: e.key,
        label: label,
        created_at: e.created_at,
        updated_at: now,
        message_count: e.message_count,
    }
}

/// A descriptor with a new message count, touched at `now`.
pub open spec fn recounted(e: SessionEntry, message_count: u32, now: u64) -> SessionEntry {
    SessionEntry {
        id: e.id,
        key: e.key,
        label: e.label,
        created_at: e.created_at,
        updated_at: now,
        message_count: message_count,
    }
}

/// The registry of session descriptors, unique by key.
pub struct SessionMetadata {
    pub entries: Vec<SessionEntry>,
}

impl SessionMetadata {
    /// No two descriptors share a key.
    pub open spec fn wf(&self) -> bool {
        forall|i: int, j: int|
            0 <= i < j < self.entries@.len() ==> #[trigger] self.entries@[i].key@
                != #[trigger] self.entries@[j].key@
    }

    /// Some descriptor has this key.
    pub open spec fn holds(&self, key: Seq<char>) -> bool {
        exists|i: int| 0 <= i < self.entries@.len() && #[trigger] self.entries@[i].key@ == key
    }

    pub fn new() -> (r: Self)
        ensures
            r.wf(),
            r.entries@.len() == 0,
    {
        SessionMetadata { entries: Vec::new() }
    }

    /// The position of the descriptor of `key`.
    pub fn find(&self, key: &str) -> (r: Option<usize>)
        ensures
            r matches Some(i) ==> i < self.entries@.len() && self.entries@[i as int].key@ == key@,
            r is None <==> !self.holds(key@),
    {
        let wanted = key.to_owned();
        let mut i: usize = 0;
        while i < self.entries.len()
            invariant
                i <= self.entries@.len(),
                wanted@ == key@,
                forall|j: int| 0 <= j < i ==> #[trigger] self.entries@[j].key@ != key@,
            decreases self.entries@.len() - i,
        {
            if self.entries[i].key == wanted {
                return Some(i);
            }
            i = i + 1;
        }
        None
    }

    /// The descriptor of `key`, if there is one.
    pub fn get(&self, key: &str) -> (r: Option<&SessionEntry>)
        ensures
            r is Some <==> self.holds(key@),
            r matches Some(e) ==> exists|i: int|
                0 <= i < self.entries@.len() && self.entries@[i] == *e && e.key@ == key@,
    {
        match self.find(key) {
            Some(i) => Some(&self.entries[i]),
            None => None,
        }
    }

    /// Every descriptor.
    pub fn list(&self) -> (r: &Vec<SessionEntry>)
        ensures
            r@ == self.entries@,
    {
        &self.entries
    }

    /// Sets the label of the descriptor of `key` and touches it; where there is
    /// none, creates it with identity `id`, created at `now`, with no messages.
    pub fn upsert(&mut self, key: &str, label: Option<String>, id: String, now: u64)
        requires
            old(self).wf(),
        ensures
            final(self).wf(),
            final(self).holds(key@),
            forall|i: int|
                0 <= i < old(self).entries@.len() && #[trigger] old(self).entries@[i].key@ == key@
                    ==> final(self).entries@ == old(self).entries@.update(
                    i,
                    relabeled(old(self).entries@[i], label, now),
                ),
            !old(self).holds(key@) ==> {
                &&& final(self).entries@.len() == old(self).entries@.len() + 1
                &&& final(self).entries@.drop_last() == old(self).entries@
                &&& is_fresh_entry(final(self).entries@.last(), key@, label, id, now)
            },
    {
        match self.find(key) {
            Some(i) => {
                let ghost before = self.entries@;
                let mut e = self.entries.remove(i);
                e.label = label;
                e.updated_at = now;
                self.entries.insert(i, e);
                proof {
                    assert(self.entries@ =~= before.update(i as int, relabeled(before[i as int], label, now)));
                    assert(self.entries@[i as int].key@ == key@);
                    assert forall|a: int, b: int|
                        0 <= a < b < self.entries@.len() implies #[trigger] self.entries@[a].key@
                        != #[trigger] self.entries@[b].key@ by {
                        assert(self.entries@[a].key@ == before[a].key@);
                        assert(self.entries@[b].key@ == before[b].key@);
                    }
                    assert forall|j: int|
                        0 <= j < before.len() && #[trigger] before[j].key@ == key@ implies j == i by {
                        if j != i {
                            if j < i {
                                assert(before[j].key@ != before[i as int].key@);
                            } else {
                                assert(before[i as int].key@ != before[j].key@);
                            }
                        }
                    }
                }
            },
            None => {
                let e = SessionEntry {
                    id,
                    key: key.to_owned(),
                    label,
                    created_at: now,
                    updated_at: now,
                    message_count: 0,
                };
                let ghost before = self.entries@;
                self.entries.push(e);
                proof {
                    assert(self.entries@.drop_last() =~= before);
                    assert(self.entries@[before.len() as int].key@ == key@);
                    assert forall|a: int, b: int|
                        0 <= a < b < self.entries@.len() implies #[trigger] self.entries@[a].key@
                        != #[trigger] self.entries@[b].key@ by {
                        if b == before.len() {
                            assert(self.entries@[a] == before[a]);
                        } else {
                            assert(self.entries@[a] == before[a]);
                            assert(self.entries@[b] == before[b]);
                        }
                    }
                }
            },
        }
    }

    /// Sets the message count of the descriptor of `key` and touches it; does
    /// nothing where there is none.
    pub fn touch(&mut self, key: &str, message_count: u32, now: u64)
        requires
            old(self).wf(),
        ensures
            final(self).wf(),
            forall|i: int|
                0 <= i < old(self).entries@.len() && #[trigger] old(self).entries@[i].key@ == key@
                    ==> final(self).entries@ == old(self).entries@.update(
                    i,
                    recounted(old(self).entries@[i], message_count, now),
                ),
            !old(self).holds(key@) ==> final(self).entries@ == old(self).entries@,
    {
        if let Some(i) = self.find(key) {
            let ghost before = self.entries@;
            let mut e = self.entries.remove(i);
            e.message_count = message_count;
            e.updated_at = now;
            self.entries.insert(i, e);
            proof {
                assert(self.entries@ =~= before.update(
                    i as int,
                    recounted(before[i as int], message_count, now),
                ));
                assert forall|a: int, b: int|
                    0 <= a < b < self.entries@.len() implies #[trigger] self.entries@[a].key@
                    != #[trigger] self.entries@[b].key@ by {
                    assert(self.entries@[a].key@ == before[a].key@);
                    assert(self.entries@[b].key@ == before[b].key@);
                }
                assert forall|j: int|
                    0 <= j < before.len() && #[trigger] before[j].key@ == key@ implies j == i by {
                    if j < i {
                        assert(before[j].key@ != before[i as int].key@);
                    } else if j > i {
                        assert(before[i as int].key@ != before[j].key@);
                    }
                }
            }
        }
    }

    /// Removes the descriptor of `key`, if there is one; the others keep their
    /// order.
    pub fn remove(&mut self, key: &str)
        requires
            old(self).wf(),
        ensures
            final(self).wf(),
            !final(self).holds(key@),
            forall|i: int|
                0 <= i < old(self).entries@.len() && #[trigger] old(self).entries@[i].key@ == key@
                    ==> final(self).entries@ == old(self).entries@.remove(i),
            !old(self).holds(key@) ==> final(self).entries@ == old(self).entries@,
    {
        if let Some(i) = self.find(key) {
            let ghost before = self.entries@;
            self.entries.remove(i);
            proof {
                assert forall|a: int, b: int|
                    0 <= a < b < self.entries@.len() implies #[trigger] self.entries@[a].key@
                    != #[trigger] self.entries@[b].key@ by {
                    if a >= i {
                        assert(self.entries@[a] == before[a + 1]);
                        assert(self.entries@[b] == before[b + 1]);
                    } else if b >= i {
                        assert(self.entries@[a] == before[a]);
                        assert(self.entries@[b] == before[b + 1]);
                    } else {
                        assert(self.entries@[a] == before[a]);
                        assert(self.entries@[b] == before[b]);
                    }
                }
                assert forall|j: int|
                    0 <= j < self.entries@.len() implies #[trigger] self.entries@[j].key@ != key@ by {
                    if j >= i {
                        assert(self.entries@[j] == before[j + 1]);
                        assert(before[i as int].key@ != before[j + 1].key@);
                    } else {
                        assert(self.entries@[j] == before[j]);
                        assert(before[j].key@ != before[i as int].key@);
                    }
                }
                assert forall|j: int|
                    0 <= j < before.len() && #[trigger] before[j].key@ == key@ implies j == i by {
                    if j < i {
                        assert(before[j].key@ != before[i as int].key@);
                    } else if j > i {
                        assert(before[i as int].key@ != before[j].key@);
                    }
                }
            }
        }
    }
}

} // verus!
