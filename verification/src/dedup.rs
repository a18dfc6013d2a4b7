//! Per-frame texture deduplication.
//!
//! During `prepare` every instruction's texture handle is resolved to a slot
//! index in the frame's texture array: the first occurrence of a handle is
//! assigned the next sequential slot, later occurrences reuse it.  The
//! mathematical model is [`dedup_slots`] (the slot array, first-occurrence
//! order) and [`dedup_map`] (handle to assigned slot); the scratch table
//! itself is a `hashbrown` map behind trusted wrappers.

use vstd::prelude::*;

verus! {

/// The distinct texture handles of `handles`, in order of first occurrence.
pub open spec fn dedup_slots(handles: Seq<u64>) -> Seq<u64>
    decreases handles.len(),
{
    if handles.len() == 0 {
        Seq::empty()
    } else {
        let prefix = dedup_slots(handles.drop_last());
        if prefix.contains(handles.last()) {
            prefix
        } else {
            prefix.push(handles.last())
        }
    }
}

/// The slot assigned to each handle of `handles`: its index in
/// [`dedup_slots`].
pub open spec fn dedup_map(handles: Seq<u64>) -> Map<u64, int>
    decreases handles.len(),
{
    if handles.len() == 0 {
        Map::empty()
    } else {
        let m = dedup_map(handles.drop_last());
        let h = handles.last();
        if m.dom().contains(h) {
            m
        } else {
            m.insert(h, dedup_slots(handles.drop_last()).len() as int)
        }
    }
}

/// The slot array and the slot map describe one another: the array holds
/// each handle once, the map sends exactly the seen handles to their index
/// in the array, and there are never more slots than handles.
pub proof fn lemma_dedup_invariants(handles: Seq<u64>)
    ensures
        dedup_slots(handles).no_duplicates(),
        dedup_slots(handles).len() <= handles.len(),
        forall|h: u64| dedup_map(handles).dom().contains(h) <==> dedup_slots(handles).contains(h),
        forall|h: u64| handles.contains(h) <==> dedup_slots(handles).contains(h),
        forall|h: u64| dedup_map(handles).dom().contains(h) ==> 0 <= dedup_map(handles)[h]
            < dedup_slots(handles).len() && dedup_slots(handles)[dedup_map(handles)[h]] == h,
    decreases handles.len(),
{
    if handles.len() == 0 {
    } else {
        let prev = handles.drop_last();
        let h = handles.last();
        lemma_dedup_invariants(prev);
        let sp = dedup_slots(prev);
        let mp = dedup_map(prev);
        let sn = dedup_slots(handles);
        let mn = dedup_map(handles);
        assert(sn.no_duplicates()) by {
            if !sp.contains(h) {
                assert forall|i: int, j: int|
                    0 <= i < sn.len() && 0 <= j < sn.len() && i != j implies sn[i] != sn[j] by {
                    if i < sp.len() && j < sp.len() {
                        assert(sp[i] == sn[i] && sp[j] == sn[j]);
                    } else if i < sp.len() {
                        assert(sn[j] == h);
                        if sn[i] == h {
                            assert(sp[i] == h);
                            assert(sp.contains(h));
                        }
                    } else {
                        assert(sn[i] == h);
                        if sn[j] == h {
                            assert(sp[j] == h);
                            assert(sp.contains(h));
                        }
                    }
                }
            }
        }
        assert forall|x: u64| mn.dom().contains(x) implies sn.contains(x) by {
            if mp.dom().contains(x) {
                assert(sp.contains(x));
                let k = choose|k: int| 0 <= k < sp.len() && sp[k] == x;
                assert(sn[k] == x);
            } else {
                assert(x == h);
                if sp.contains(h) {
                    let k = choose|k: int| 0 <= k < sp.len() && sp[k] == h;
                    assert(sn[k] == x);
                } else {
                    assert(sn[sp.len() as int] == x);
                }
            }
        }
        assert forall|x: u64| sn.contains(x) implies mn.dom().contains(x) by {
            let k = choose|k: int| 0 <= k < sn.len() && sn[k] == x;
            if k < sp.len() {
                assert(sp[k] == x);
                assert(sp.contains(x));
                assert(mp.dom().contains(x));
            } else {
                assert(x == h);
                if !mp.dom().contains(h) {
                    assert(mn == mp.insert(h, sp.len() as int));
                }
            }
        }
        assert forall|x: u64| mn.dom().contains(x) implies 0 <= mn[x] < sn.len() && sn[mn[x]]
            == x by {
            if mp.dom().contains(x) {
                assert(mn[x] == mp[x]);
                assert(sp[mp[x]] == x);
                assert(sn[mp[x]] == x);
            } else {
                assert(x == h);
                assert(!sp.contains(h));
                assert(mn[x] == sp.len() as int);
                assert(sn[sp.len() as int] == h);
            }
        }
        assert forall|x: u64| handles.contains(x) implies dedup_slots(handles).contains(x) by {
            let i = choose|i: int| 0 <= i < handles.len() && handles[i] == x;
            if i < prev.len() {
                assert(prev[i] == x);
                assert(prev.contains(x));
                let k = choose|k: int| 0 <= k < dedup_slots(prev).len() && dedup_slots(prev)[k]
                    == x;
                assert(dedup_slots(handles)[k] == x);
            } else {
                assert(handles.last() == x);
                if dedup_slots(prev).contains(x) {
                    let k = choose|k: int| 0 <= k < dedup_slots(prev).len() && dedup_slots(
                        prev,
                    )[k] == x;
                    assert(dedup_slots(handles)[k] == x);
                } else {
                    assert(dedup_slots(handles).last() == x);
                }
            }
        }
        assert forall|x: u64| dedup_slots(handles).contains(x) implies handles.contains(x) by {
            if dedup_slots(prev).contains(x) {
                assert(prev.contains(x));
                let i = choose|i: int| 0 <= i < prev.len() && prev[i] == x;
                assert(handles[i] == x);
            } else {
                let k = choose|k: int| 0 <= k < dedup_slots(handles).len() && dedup_slots(
                    handles,
                )[k] == x;
                if k < dedup_slots(prev).len() {
                    assert(dedup_slots(prev)[k] == x);
                    assert(dedup_slots(prev).contains(x));
                }
                assert(x == handles.last());
                assert(handles[handles.len() - 1] == x);
            }
        }
    }
}

/// Slots already assigned never move: the slot array of a prefix is a prefix
/// of the final slot array, and the final slot map agrees with the prefix's
/// map wherever the latter is defined.
pub proof fn lemma_dedup_prefix(handles: Seq<u64>, j: int)
    requires
        0 <= j <= handles.len(),
    ensures
        dedup_slots(handles.take(j)).is_prefix_of(dedup_slots(handles)),
        forall|h: u64| #[trigger] dedup_map(handles.take(j)).dom().contains(h)
            ==> dedup_map(handles).dom().contains(h) && dedup_map(handles)[h] == dedup_map(
            handles.take(j),
        )[h],
    decreases handles.len() - j,
{
    if j == handles.len() {
        assert(handles.take(j) =~= handles);
    } else {
        lemma_dedup_prefix(handles, j + 1);
        let pre = handles.take(j);
        let next = handles.take(j + 1);
        assert(next.drop_last() =~= pre);
        assert(next.last() == handles[j]);
        lemma_dedup_invariants(pre);
        let sp = dedup_slots(pre);
        let sn = dedup_slots(next);
        let mp = dedup_map(pre);
        let mn = dedup_map(next);
        assert(sp.is_prefix_of(sn)) by {
            if sp.contains(next.last()) {
                assert(sn =~= sp);
            } else {
                assert(sp =~= sn.subrange(0, sp.len() as int));
            }
        }
        assert(sp.is_prefix_of(dedup_slots(handles))) by {
            let full = dedup_slots(handles);
            assert(sn =~= full.subrange(0, sn.len() as int));
            assert forall|i: int| 0 <= i < sp.len() implies sp[i] == full[i] by {
                assert(sp[i] == sn[i]);
                assert(sn[i] == full.subrange(0, sn.len() as int)[i]);
            }
            assert(sp =~= full.subrange(0, sp.len() as int));
        }
        assert forall|h: u64| mp.dom().contains(h) implies dedup_map(handles).dom().contains(h)
            && dedup_map(handles)[h] == mp[h] by {
            if !mp.dom().contains(next.last()) {
                assert(mn == mp.insert(next.last(), sp.len() as int));
            }
            assert(mn.dom().contains(h) && mn[h] == mp[h]);
            assert(dedup_map(handles.take(j + 1)).dom().contains(h));
            assert(dedup_map(handles).dom().contains(h));
            assert(dedup_map(handles)[h] == dedup_map(handles.take(j + 1))[h]);
        }
    }
}

/// The texture array bound for one frame, derived from the deduplicated
/// slots: an empty array is replaced by the solid-pixel fallback texture,
/// and on backends that reject sparsely bound texture arrays the array is
/// padded up to the fixed slot count by repeating its first entry.
pub open spec fn padded_slots(base: Seq<u64>, fallback: u64, caps: crate::capabilities::Capabilities) -> Seq<u64> {
    let filled = if base.len() == 0 {
        seq![fallback]
    } else {
        base
    };
    if caps.partially_bound_binding_array || filled.len() >= caps.max_texture_slots {
        filled
    } else {
        filled + Seq::new((caps.max_texture_slots - filled.len()) as nat, |i: int| filled[0])
    }
}

/// Completes a frame's texture-slot array: pushes the fallback texture when
/// the array would otherwise be empty, then pads it up to the fixed slot
/// count on backends that reject sparsely bound texture arrays.
pub fn finish_texture_slots(
    slots: &mut Vec<u64>,
    fallback: u64,
    caps: crate::capabilities::Capabilities,
)
    ensures
        final(slots)@ == padded_slots(old(slots)@, fallback, caps),
{
    if slots.len() == 0 {
        slots.push(fallback);
    }
    let ghost filled = slots@;
    proof {
        if old(slots)@.len() == 0 {
            assert(filled =~= seq![fallback]);
        }
    }
    if !caps.partially_bound_binding_array {
        while slots.len() < caps.max_texture_slots
            invariant
                filled.len() > 0,
                slots@.len() >= filled.len(),
                slots@.len() > filled.len() ==> slots@.len() <= caps.max_texture_slots,
                forall|i: int|
                    0 <= i < slots@.len() ==> slots@[i] == if i < filled.len() {
                        filled[i]
                    } else {
                        filled[0]
                    },
            decreases caps.max_texture_slots - slots.len(),
        {
            let first = slots[0];
            slots.push(first);
        }
        proof {
            if filled.len() < caps.max_texture_slots {
                assert(slots@ =~= filled + Seq::new(
                    (caps.max_texture_slots - filled.len()) as nat,
                    |i: int| filled[0],
                ));
            } else {
                assert(slots@ =~= filled);
            }
        }
    }
}

/// Scratch table of one `prepare` call, sending each texture handle seen
/// this frame to its assigned slot.  The table is cleared, not reallocated,
/// at the start of every frame.
#[verifier::external_body]
pub struct TextureLookup {
    map: hashbrown::HashMap<u64, i32>,
}

pub uninterp spec fn lookup_contents(lookup: TextureLookup) -> Map<u64, i32>;

/// The contents of a scratch table with no entry.
pub open spec fn empty_lookup() -> Map<u64, i32> {
    Map::empty()
}

impl TextureLookup {
    /// Relies on hashbrown's `HashMap::new`: the new map is empty.
    #[verifier::external_body]
    pub fn new() -> (r: TextureLookup)
        ensures
            lookup_contents(r) == empty_lookup(),
    {
        TextureLookup { map: hashbrown::HashMap::new() }
    }

    /// Relies on hashbrown's `HashMap::clear`: it removes every entry.
    #[verifier::external_body]
    pub fn clear(&mut self)
        ensures
            lookup_contents(*final(self)) == empty_lookup(),
    {
        self.map.clear();
    }

    /// Relies on hashbrown's `HashMap::get`: it returns the value stored
    /// under the key, or nothing when the key is absent.
    #[verifier::external_body]
    pub fn get(&self, handle: u64) -> (r: Option<i32>)
        ensures
            r == if lookup_contents(*self).dom().contains(handle) {
                Some(lookup_contents(*self)[handle])
            } else {
                None::<i32>
            },
    {
        self.map.get(&handle).copied()
    }

    /// Relies on hashbrown's `HashMap::insert`: afterwards the key is
    /// present with the given value and no other entry changed.
    #[verifier::external_body]
    pub fn insert(&mut self, handle: u64, slot: i32)
        ensures
            lookup_contents(*final(self)) == lookup_contents(*old(self)).insert(handle, slot),
    {
        self.map.insert(handle, slot);
    }
}

} // verus!
