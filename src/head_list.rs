use vstd::prelude::*;
use crate::heads::{HeadView, Id, SimpleHead};
use crate::utils::{Coordinates, Direction};

verus! {

/// The number of occupied slots.
pub open spec fn live_count(slots: Seq<Option<HeadView>>) -> nat
    decreases slots.len(),
{
    if slots.len() == 0 {
        0
    } else {
        live_count(slots.drop_last()) + if slots.last() is Some {
            1nat
        } else {
            0nat
        }
    }
}

/// The heads of the occupied slots, in slot order.
pub open spec fn live_seq(slots: Seq<Option<HeadView>>) -> Seq<HeadView>
    decreases slots.len(),
{
    if slots.len() == 0 {
        seq![]
    } else {
        match slots.last() {
            Some(h) => live_seq(slots.drop_last()).push(h),
            None => live_seq(slots.drop_last()),
        }
    }
}

/// Writing slot `i` changes the count by what the slot held and what it holds now.
pub proof fn lemma_live_count_update(slots: Seq<Option<HeadView>>, i: int, v: Option<HeadView>)
    requires
        0 <= i < slots.len(),
    ensures
        live_count(slots.update(i, v)) + (if slots[i] is Some {
            1int
        } else {
            0int
        }) == live_count(slots) + (if v is Some {
            1int
        } else {
            0int
        }),
    decreases slots.len(),
{
    let u = slots.update(i, v);
    if i == slots.len() - 1 {
        assert(u.drop_last() =~= slots.drop_last());
    } else {
        assert(u.drop_last() =~= slots.drop_last().update(i, v));
        lemma_live_count_update(slots.drop_last(), i, v);
    }
}

/// Appending a slot counts it if it is occupied.
pub proof fn lemma_live_count_push(slots: Seq<Option<HeadView>>, v: Option<HeadView>)
    ensures
        live_count(slots.push(v)) == live_count(slots) + if v is Some {
            1nat
        } else {
            0nat
        },
{
    assert(slots.push(v).drop_last() =~= slots);
}

/// There are never more occupied slots than slots, and all are occupied when the counts
/// agree.
pub proof fn lemma_live_count_bound(slots: Seq<Option<HeadView>>)
    ensures
        live_count(slots) <= slots.len(),
        live_count(slots) == slots.len() ==> forall|j: int| 0 <= j < slots.len() ==> (#[trigger] slots[j]) is Some,
    decreases slots.len(),
{
    if slots.len() > 0 {
        lemma_live_count_bound(slots.drop_last());
        assert forall|j: int| 0 <= j < slots.len() && live_count(slots) == slots.len() implies (
        #[trigger] slots[j]) is Some by {
            if j < slots.len() - 1 {
                assert(slots.drop_last()[j] == slots[j]);
            }
        }
    }
}

/// In a registry with no free slot, freeing slot `i` makes `i` the next id handed out, and
/// once it is taken again the next id is a new slot at the end.
pub proof fn lemma_freed_slot_is_reused(slots: Seq<Option<HeadView>>, i: int, h: HeadView)
    requires
        forall|j: int| 0 <= j < slots.len() ==> (#[trigger] slots[j]) is Some,
        0 <= i < slots.len(),
    ensures
        is_first_free(slots.update(i, None), i),
        is_first_free(slots.update(i, None).update(i, Some(h)), slots.len() as int),
{
    let freed = slots.update(i, None);
    assert forall|j: int| 0 <= j < i implies (#[trigger] freed[j]) is Some by {
        assert(freed[j] == slots[j]);
    }
    let refilled = freed.update(i, Some(h));
    assert forall|j: int| 0 <= j < slots.len() implies (#[trigger] refilled[j]) is Some by {
        if j != i {
            assert(refilled[j] == slots[j]);
        }
    }
}

/// The registry of live heads: a slot per head, whose index is the head's id. Freed slots
/// are reused, lowest first, before the registry grows.
pub struct HeadList {
    heads_vec: Vec<Option<SimpleHead>>,
    nb_heads: usize,
}

impl View for HeadList {
    type V = Seq<Option<HeadView>>;

    closed spec fn view(&self) -> Seq<Option<HeadView>> {
        self.heads_vec@.map_values(|s: Option<SimpleHead>| match s {
            Some(h) => Some(h@),
            None => None,
        })
    }
}

/// Every occupied slot holds the head whose id is the slot's index.
pub open spec fn ids_match_slots(slots: Seq<Option<HeadView>>) -> bool {
    forall|i: int| 0 <= i < slots.len() && (#[trigger] slots[i]) is Some ==> slots[i]->0.id == i
}

/// The index that `add_head` fills: the lowest free slot, or one past the last slot.
pub open spec fn is_first_free(slots: Seq<Option<HeadView>>, i: int) -> bool {
    &&& 0 <= i <= slots.len()
    &&& forall|j: int| 0 <= j < i ==> (#[trigger] slots[j]) is Some
    &&& i < slots.len() ==> slots[i] is None
}

impl HeadList {
    pub closed spec fn wf(&self) -> bool {
        &&& self.nb_heads == live_count(self@)
        &&& ids_match_slots(self@)
        &&& self@.len() <= Id::MAX
    }

    pub fn new() -> (r: HeadList)
        ensures
            r.wf(),
            r@ == Seq::<Option<HeadView>>::empty(),
    {
        let r = HeadList { heads_vec: Vec::new(), nb_heads: 0 };
        assert(r@ =~= Seq::<Option<HeadView>>::empty());
        r
    }

    /// The number of live heads.
    pub fn get_nb_heads(&self) -> (r: usize)
        requires
            self.wf(),
        ensures
            r == live_count(self@),
    {
        self.nb_heads
    }

    /// The number of slots, free ones included.
    pub fn slot_count(&self) -> (r: usize)
        ensures
            r == self@.len(),
    {
        self.heads_vec.len()
    }

    /// A copy of the head in `slot`, if the slot is occupied.
    pub fn get(&self, slot: usize) -> (r: Option<SimpleHead>)
        requires
            self.wf(),
            slot < self@.len(),
        ensures
            match r {
                Some(h) => self@[slot as int] == Some(h@) && h@.id == slot,
                None => self@[slot as int] is None,
            },
    {
        match &self.heads_vec[slot] {
            Some(h) => Some(*h),
            None => None,
        }
    }

    /// The live heads, in slot order.
    pub fn live_heads(&self) -> (r: Vec<SimpleHead>)
        ensures
            r@.map_values(|h: SimpleHead| h@) == live_seq(self@),
    {
        let mut r: Vec<SimpleHead> = Vec::new();
        let mut i: usize = 0;
        while i < self.heads_vec.len()
            invariant
                0 <= i <= self@.len(),
                self@.len() == self.heads_vec@.len(),
                r@.map_values(|h: SimpleHead| h@) == live_seq(self@.subrange(0, i as int)),
            decreases self@.len() - i,
        {
            let ghost prefix = self@.subrange(0, i as int);
            assert(self@.subrange(0, i + 1).drop_last() =~= prefix);
            match &self.heads_vec[i] {
                Some(h) => {
                    assert(self@[i as int] == Some(h@));
                    r.push(*h);
                    assert(r@.map_values(|h: SimpleHead| h@) =~= live_seq(prefix).push(h@));
                },
                None => {},
            }
            i = i + 1;
        }
        assert(self@.subrange(0, self@.len() as int) =~= self@);
        r
    }

    /// Puts a new head at `position` in the lowest free slot, or in a new slot when none is
    /// free, and returns its id: the index of that slot.
    pub fn add_head(&mut self, position: Coordinates, coming_from: Direction) -> (r: Id)
        requires
            old(self).wf(),
            live_count(old(self)@) < Id::MAX,
        ensures
            final(self).wf(),
            is_first_free(old(self)@, r as int),
            live_count(final(self)@) == live_count(old(self)@) + 1,
            final(self)@ == if (r as int) < old(self)@.len() {
                old(self)@.update(
                    r as int,
                    Some(HeadView { id: r, position, coming_from, pending_split: false }),
                )
            } else {
                old(self)@.push(Some(HeadView { id: r, position, coming_from, pending_split: false }))
            },
    {
        proof {
            lemma_live_count_bound(self@);
        }
        let mut pos: usize = 0;
        while pos < self.heads_vec.len()
            invariant
                self.wf(),
                *self == *old(self),
                0 <= pos <= self@.len(),
                forall|j: int| 0 <= j < pos ==> (#[trigger] self@[j]) is Some,
            ensures
                self.wf(),
                *self == *old(self),
                0 <= pos <= self@.len(),
                forall|j: int| 0 <= j < pos ==> (#[trigger] self@[j]) is Some,
                pos < self@.len() ==> self@[pos as int] is None,
            decreases self@.len() - pos,
        {
            if self.heads_vec[pos].is_none() {
                break;
            }
            pos = pos + 1;
        }
        let ghost before = self@;
        if pos < self.heads_vec.len() {
            assert(self@[pos as int] is None);
            let new_head = SimpleHead::new(pos as Id, position, coming_from);
            self.heads_vec.set(pos, Some(new_head));
            proof {
                lemma_live_count_update(before, pos as int, Some(new_head@));
                assert(self@ =~= before.update(pos as int, Some(new_head@)));
            }
        } else {
            proof {
                if live_count(before) == before.len() {
                } else {
                    assert(false) by {
                        assert(live_count(before) <= before.len());
                        lemma_live_count_all_some(before);
                    }
                }
            }
            let new_head = SimpleHead::new(pos as Id, position, coming_from);
            self.heads_vec.push(Some(new_head));
            proof {
                lemma_live_count_push(before, Some(new_head@));
                assert(self@ =~= before.push(Some(new_head@)));
            }
        }
        self.nb_heads = self.nb_heads + 1;
        pos as Id
    }

    /// Frees the slot of head `id`; nothing happens when no live head has that id.
    pub fn remove(&mut self, id_of_head_to_remove: Id)
        requires
            old(self).wf(),
        ensures
            final(self).wf(),
            ((id_of_head_to_remove as int) < old(self)@.len() && old(self)@[id_of_head_to_remove as int] is Some)
                ==> final(self)@ == old(self)@.update(id_of_head_to_remove as int, None) && live_count(
                final(self)@,
            ) + 1 == live_count(old(self)@),
            !((id_of_head_to_remove as int) < old(self)@.len() && old(self)@[id_of_head_to_remove as int] is Some)
                ==> final(self)@ == old(self)@,
    {
        let slot = id_of_head_to_remove as usize;
        if slot < self.heads_vec.len() && self.heads_vec[slot].is_some() {
            let ghost before = self@;
            self.heads_vec.set(slot, None);
            proof {
                lemma_live_count_update(before, slot as int, None);
                assert(self@ =~= before.update(slot as int, None));
            }
            self.nb_heads = self.nb_heads - 1;
        }
    }

    /// Puts `head` back in its own slot, which must be occupied.
    pub fn replace(&mut self, head: SimpleHead)
        requires
            old(self).wf(),
            (head@.id as int) < old(self)@.len(),
            old(self)@[head@.id as int] is Some,
        ensures
            final(self).wf(),
            final(self)@ == old(self)@.update(head@.id as int, Some(head@)),
    {
        let ghost before = self@;
        let slot = head.get_id() as usize;
        self.heads_vec.set(slot, Some(head));
        proof {
            lemma_live_count_update(before, slot as int, Some(head@));
            assert(self@ =~= before.update(slot as int, Some(head@)));
        }
    }
}

/// Where every slot is occupied, the count is the number of slots.
pub proof fn lemma_live_count_all_some(slots: Seq<Option<HeadView>>)
    requires
        forall|j: int| 0 <= j < slots.len() ==> (#[trigger] slots[j]) is Some,
    ensures
        live_count(slots) == slots.len(),
    decreases slots.len(),
{
    if slots.len() > 0 {
        let p = slots.drop_last();
        assert forall|j: int| 0 <= j < p.len() implies (#[trigger] p[j]) is Some by {
            assert(p[j] == slots[j]);
        }
        lemma_live_count_all_some(p);
    }
}

} // verus!
