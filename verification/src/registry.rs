use vstd::prelude::*;
use vstd::pervasive::VecAdditionalExecFns;
use crate::resources::WebTransportCancelResource;
use crate::resources::WebTransportStreamResource;

verus! {

/// The closed sum of resource kinds the registry holds: a live session, or
/// a standalone cancellation scope.
#[derive(Debug, Clone, Copy, PartialEq, Eq)]
pub enum ResourceEntry {
    Stream(WebTransportStreamResource),
    Cancel(WebTransportCancelResource),
}

/// The opaque-handle table mapping process-unique integer handles to
/// sessions and cancellation scopes. Handles are allocated from a counter
/// that only grows, so a handle is never reused, even after its resource
/// is removed; a handle not present in the table is an error, never a
/// panic.
pub struct SessionRegistry {
    next_rid: u64,
    entries: Vec<(u64, ResourceEntry)>,
}

impl SessionRegistry {
    /// Table keys are pairwise distinct and all below the allocation
    /// counter, so fresh handles never collide with live or past ones.
    pub closed spec fn wf(self) -> bool {
        &&& forall|i: int, j: int|
            0 <= i < j < self.entries@.len() ==> (#[trigger] self.entries@[i]).0 != (
            #[trigger] self.entries@[j]).0
        &&& forall|i: int|
            0 <= i < self.entries@.len() ==> (#[trigger] self.entries@[i]).0 < self.next_rid
    }

    pub closed spec fn contains_rid(self, rid: u64) -> bool {
        exists|i: int| 0 <= i < self.entries@.len() && (#[trigger] self.entries@[i]).0 == rid
    }

    pub closed spec fn idx_of(self, rid: u64) -> int {
        choose|i: int| 0 <= i < self.entries@.len() && (#[trigger] self.entries@[i]).0 == rid
    }

    /// The registered resource behind a handle, if any.
    pub closed spec fn spec_lookup(self, rid: u64) -> Option<ResourceEntry> {
        if self.contains_rid(rid) {
            Some(self.entries@[self.idx_of(rid)].1)
        } else {
            None
        }
    }

    pub closed spec fn count(self) -> nat {
        self.entries@.len()
    }

    pub closed spec fn next_handle(self) -> u64 {
        self.next_rid
    }

    pub fn new() -> (r: Self)
        ensures
            r.wf(),
            r.count() == 0,
            forall|rid: u64| #[trigger] r.spec_lookup(rid) is None,
    {
        SessionRegistry { next_rid: 0, entries: Vec::new() }
    }

    fn find_index(&self, rid: u64) -> (r: Option<usize>)
        requires
            self.wf(),
        ensures
            match r {
                Some(i) => i < self.entries@.len() && self.entries@[i as int].0 == rid
                    && self.contains_rid(rid) && self.idx_of(rid) == i,
                None => !self.contains_rid(rid),
            },
    {
        let n = self.entries.len();
        let mut i: usize = 0;
        while i < n
            invariant
                self.wf(),
                n == self.entries@.len(),
                i <= n,
                forall|j: int| 0 <= j < i ==> (#[trigger] self.entries@[j]).0 != rid,
            decreases n - i,
        {
            if self.entries[i].0 == rid {
                proof {
                    assert(self.contains_rid(rid));
                    let k = self.idx_of(rid);
                    assert(0 <= k < self.entries@.len() && self.entries@[k].0 == rid);
                    assert(k == i);
                }
                return Some(i);
            }
            i = i + 1;
        }
        proof {
            assert(!self.contains_rid(rid)) by {
                if self.contains_rid(rid) {
                    let k = choose|k: int|
                        0 <= k < self.entries@.len() && (#[trigger] self.entries@[k]).0 == rid;
                    assert(self.entries@[k].0 != rid);
                }
            }
        }
        None
    }

    /// The handle the next registration would receive; hosts watch it to
    /// refuse service before the handle space is exhausted.
    pub fn peek_next_handle(&self) -> (r: u64)
        ensures
            r == self.next_handle(),
    {
        self.next_rid
    }

    /// Looks a handle up without touching the table.
    pub fn get(&self, rid: u64) -> (r: Option<ResourceEntry>)
        requires
            self.wf(),
        ensures
            r == self.spec_lookup(rid),
    {
        match self.find_index(rid) {
            Some(i) => Some(self.entries[i].1),
            None => None,
        }
    }

    /// Registers a resource under a fresh handle. The handle was never in
    /// the table before, and every other handle's binding is untouched.
    pub fn add(&mut self, entry: ResourceEntry) -> (rid: u64)
        requires
            old(self).wf(),
            old(self).next_handle() < u64::MAX,
        ensures
            final(self).wf(),
            rid == old(self).next_handle(),
            old(self).spec_lookup(rid) is None,
            final(self).spec_lookup(rid) == Some(entry),
            forall|r2: u64|
                r2 != rid ==> #[trigger] final(self).spec_lookup(r2) == old(self).spec_lookup(r2),
            final(self).count() == old(self).count() + 1,
            final(self).next_handle() == old(self).next_handle() + 1,
    {
        let rid = self.next_rid;
        proof {
            assert(!old(self).contains_rid(rid)) by {
                if old(self).contains_rid(rid) {
                    let k = old(self).idx_of(rid);
                    assert(old(self).entries@[k].0 < old(self).next_rid);
                }
            }
        }
        self.next_rid = self.next_rid + 1;
        self.entries.push((rid, entry));
        proof {
            let s_old = old(self).entries@;
            let s_new = self.entries@;
            let n = s_old.len() as int;
            assert(s_new == s_old.push((rid, entry)));
            assert(forall|i: int| 0 <= i < n ==> s_new[i] == s_old[i]);
            assert(s_new[n] == (rid, entry));
            assert forall|i: int, j: int| 0 <= i < j < s_new.len() implies s_new[i].0
                != s_new[j].0 by {
                if j < n {
                    assert(s_old[i].0 != s_old[j].0);
                } else {
                    assert(s_new[j].0 == rid);
                    assert(s_old[i].0 < old(self).next_rid);
                }
            }
            assert(self.contains_rid(rid)) by {
                assert(s_new[n].0 == rid);
            }
            let k = self.idx_of(rid);
            assert(0 <= k < s_new.len() && s_new[k].0 == rid);
            assert(k == n) by {
                if k < n {
                    assert(s_old[k].0 < old(self).next_rid);
                }
            }
            assert(self.spec_lookup(rid) == Some(entry));
            assert forall|r2: u64| r2 != rid implies #[trigger] self.spec_lookup(r2) == old(
                self,
            ).spec_lookup(r2) by {
                if old(self).contains_rid(r2) {
                    let k2 = old(self).idx_of(r2);
                    assert(0 <= k2 < n && s_old[k2].0 == r2);
                    assert(s_new[k2].0 == r2);
                    assert(self.contains_rid(r2));
                    let k3 = self.idx_of(r2);
                    assert(0 <= k3 < s_new.len() && s_new[k3].0 == r2);
                    assert(k3 == k2) by {
                        if k3 < k2 {
                            assert(s_new[k3].0 != s_new[k2].0);
                        }
                        if k2 < k3 {
                            assert(s_new[k2].0 != s_new[k3].0);
                        }
                    }
                } else {
                    if self.contains_rid(r2) {
                        let k3 = self.idx_of(r2);
                        assert(0 <= k3 < s_new.len() && s_new[k3].0 == r2);
                        if k3 < n {
                            assert(s_old[k3].0 == r2);
                            assert(old(self).contains_rid(r2));
                        } else {
                            assert(s_new[k3].0 == rid);
                        }
                    }
                }
            }
        }
        rid
    }

    /// Removes a handle's binding, returning what was bound; every other
    /// handle's binding is untouched, and the counter does not move, so
    /// the removed handle is never handed out again.
    pub fn remove(&mut self, rid: u64) -> (r: Option<ResourceEntry>)
        requires
            old(self).wf(),
        ensures
            final(self).wf(),
            r == old(self).spec_lookup(rid),
            final(self).spec_lookup(rid) is None,
            forall|r2: u64|
                r2 != rid ==> #[trigger] final(self).spec_lookup(r2) == old(self).spec_lookup(r2),
            r is Some ==> final(self).count() == old(self).count() - 1,
            r is None ==> *final(self) == *old(self),
            final(self).next_handle() == old(self).next_handle(),
    {
        match self.find_index(rid) {
            None => None,
            Some(i) => {
                let p = self.entries.remove(i);
                proof {
                    let s_old = old(self).entries@;
                    let s_new = self.entries@;
                    let n = s_old.len() as int;
                    assert(s_new == s_old.remove(i as int));
                    s_old.remove_ensures(i as int);
                    assert forall|a: int, b: int| 0 <= a < b < s_new.len() implies s_new[a].0
                        != s_new[b].0 by {
                        let a2: int = if a < i { a } else { a + 1 };
                        let b2: int = if b < i { b } else { b + 1 };
                        assert(s_new[a] == s_old[a2]);
                        assert(s_new[b] == s_old[b2]);
                        assert(s_old[a2].0 != s_old[b2].0);
                    }
                    assert forall|a: int| 0 <= a < s_new.len() implies s_new[a].0
                        < self.next_rid by {
                        let a2: int = if a < i { a } else { a + 1 };
                        assert(s_new[a] == s_old[a2]);
                    }
                    assert(!self.contains_rid(rid)) by {
                        if self.contains_rid(rid) {
                            let k3 = self.idx_of(rid);
                            let k2: int = if k3 < i { k3 } else { k3 + 1 };
                            assert(s_new[k3] == s_old[k2]);
                            assert(s_old[k2].0 == rid);
                            assert(s_old[i as int].0 == rid);
                            assert(k2 != i);
                            if k2 < i {
                                assert(s_old[k2].0 != s_old[i as int].0);
                            } else {
                                assert(s_old[i as int].0 != s_old[k2].0);
                            }
                        }
                    }
                    assert forall|r2: u64| r2 != rid implies #[trigger] self.spec_lookup(r2)
                        == old(self).spec_lookup(r2) by {
                        if old(self).contains_rid(r2) {
                            let k2 = old(self).idx_of(r2);
                            assert(0 <= k2 < n && s_old[k2].0 == r2);
                            assert(k2 != i);
                            let k3: int = if k2 < i { k2 } else { k2 - 1 };
                            assert(s_new[k3] == s_old[k2]);
                            assert(self.contains_rid(r2));
                            let k4 = self.idx_of(r2);
                            assert(0 <= k4 < s_new.len() && s_new[k4].0 == r2);
                            assert(k4 == k3) by {
                                if k4 < k3 {
                                    assert(s_new[k4].0 != s_new[k3].0);
                                }
                                if k3 < k4 {
                                    assert(s_new[k3].0 != s_new[k4].0);
                                }
                            }
                        } else {
                            if self.contains_rid(r2) {
                                let k3 = self.idx_of(r2);
                                let k2: int = if k3 < i { k3 } else { k3 + 1 };
                                assert(s_new[k3] == s_old[k2]);
                                assert(s_old[k2].0 == r2);
                                assert(old(self).contains_rid(r2));
                            }
                        }
                    }
                }
                Some(p.1)
            },
        }
    }

    /// Replaces the resource behind a live handle in place; the handle
    /// itself and every other binding are untouched. Returns whether the
    /// handle was registered.
    pub fn replace(&mut self, rid: u64, entry: ResourceEntry) -> (r: bool)
        requires
            old(self).wf(),
        ensures
            final(self).wf(),
            r == (old(self).spec_lookup(rid) is Some),
            r ==> final(self).spec_lookup(rid) == Some(entry),
            !r ==> *final(self) == *old(self),
            forall|r2: u64|
                r2 != rid ==> #[trigger] final(self).spec_lookup(r2) == old(self).spec_lookup(r2),
            final(self).count() == old(self).count(),
            final(self).next_handle() == old(self).next_handle(),
    {
        match self.find_index(rid) {
            None => false,
            Some(i) => {
                self.entries.set(i, (rid, entry));
                proof {
                    let s_old = old(self).entries@;
                    let s_new = self.entries@;
                    let n = s_old.len() as int;
                    assert(s_new == s_old.update(i as int, (rid, entry)));
                    assert(forall|a: int| 0 <= a < n ==> (#[trigger] s_new[a]).0 == s_old[a].0);
                    assert(self.contains_rid(rid)) by {
                        assert(s_new[i as int].0 == rid);
                    }
                    let k = self.idx_of(rid);
                    assert(0 <= k < n && s_new[k].0 == rid);
                    assert(k == i) by {
                        if k < i {
                            assert(s_old[k].0 != s_old[i as int].0);
                        }
                        if (i as int) < k {
                            assert(s_old[i as int].0 != s_old[k].0);
                        }
                    }
                    assert forall|r2: u64| r2 != rid implies #[trigger] self.spec_lookup(r2)
                        == old(self).spec_lookup(r2) by {
                        assert(self.contains_rid(r2) == old(self).contains_rid(r2)) by {
                            if self.contains_rid(r2) {
                                let k3 = self.idx_of(r2);
                                assert(s_old[k3].0 == r2);
                                assert(old(self).contains_rid(r2));
                            }
                            if old(self).contains_rid(r2) {
                                let k2 = old(self).idx_of(r2);
                                assert(s_new[k2].0 == r2);
                                assert(self.contains_rid(r2));
                            }
                        }
                        if old(self).contains_rid(r2) {
                            let k2 = old(self).idx_of(r2);
                            let k3 = self.idx_of(r2);
                            assert(s_old[k2].0 == r2 && s_new[k3].0 == r2);
                            assert(k3 == k2) by {
                                if k3 < k2 {
                                    assert(s_old[k3].0 != s_old[k2].0);
                                }
                                if k2 < k3 {
                                    assert(s_old[k2].0 != s_old[k3].0);
                                }
                            }
                            assert(k2 != i);
                            assert(s_new[k2] == s_old[k2]);
                        }
                    }
                }
                true
            },
        }
    }
}

} // verus!
