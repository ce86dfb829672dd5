use vstd::prelude::*;
use crate::geometry::{overlaps, Segment};

verus! {

/// Whether `i` is the first position in `items` whose cell overlaps `head`.
pub open spec fn is_first_overlap(items: Seq<Segment>, head: Segment, i: int) -> bool {
    &&& 0 <= i < items.len()
    &&& overlaps(head, items[i])
    &&& forall|j: int| 0 <= j < i ==> !overlaps(head, #[trigger] items[j])
}

/// The position of the first item overlapping `head`, if any.
pub open spec fn first_overlap(items: Seq<Segment>, head: Segment) -> Option<int> {
    if exists|i: int| is_first_overlap(items, head, i) {
        Some(choose|i: int| is_first_overlap(items, head, i))
    } else {
        None
    }
}

/// Whether `i` is the first position in `items` that holds `item`.
pub open spec fn is_first_index(items: Seq<Segment>, item: Segment, i: int) -> bool {
    &&& 0 <= i < items.len()
    &&& items[i] == item
    &&& forall|j: int| 0 <= j < i ==> #[trigger] items[j] != item
}

/// At most one position is the first overlapping one.
pub proof fn lemma_first_overlap_unique(items: Seq<Segment>, head: Segment, i: int, k: int)
    requires
        is_first_overlap(items, head, i),
        is_first_overlap(items, head, k),
    ensures
        i == k,
{
    if i < k {
        assert(!overlaps(head, items[i]));
    } else if k < i {
        assert(!overlaps(head, items[k]));
    }
}

/// The items placed on the field outside the agent's body. Duplicates are
/// allowed; scans go in order of insertion.
pub struct MapState {
    pub items: Vec<Segment>,
}

impl MapState {
    pub fn new() -> (r: MapState)
        ensures
            r.items@ == Seq::<Segment>::empty(),
    {
        MapState { items: Vec::new() }
    }

    /// Places an item on the field, after all the others.
    pub fn add_item_to_map(&mut self, item: Segment)
        ensures
            final(self).items@ == old(self).items@.push(item),
    {
        self.items.push(item);
    }

    /// Takes the first entry equal to `item` off the field; nothing happens
    /// when there is none.
    pub fn remove(&mut self, item: &Segment)
        ensures
            forall|i: int|
                is_first_index(old(self).items@, *item, i) ==> final(self).items@ == old(
                    self,
                ).items@.remove(i),
            (forall|i: int| 0 <= i < old(self).items@.len() ==> old(self).items@[i] != *item)
                ==> final(self).items@ == old(self).items@,
    {
        let mut k: usize = 0;
        while k < self.items.len()
            invariant
                k <= self.items@.len(),
                self.items@ == old(self).items@,
                forall|j: int| 0 <= j < k ==> self.items@[j] != *item,
            decreases self.items@.len() - k,
        {
            if self.items[k] == *item {
                self.items.remove(k);
                proof {
                    assert forall|i: int| is_first_index(old(self).items@, *item, i) implies i
                        == k by {
                        if i < k {
                            assert(old(self).items@[i] != *item);
                        } else if k < i {
                            assert(old(self).items@[k as int] != *item);
                        }
                    }
                }
                return;
            }
            k = k + 1;
        }
    }

    /// Empties the field.
    pub fn clear(&mut self)
        ensures
            final(self).items@ == Seq::<Segment>::empty(),
    {
        self.items.clear();
    }

    pub fn len(&self) -> (r: usize)
        ensures
            r == self.items@.len(),
    {
        self.items.len()
    }

    /// The items in order of insertion.
    pub fn items(&self) -> (r: &Vec<Segment>)
        ensures
            r@ == self.items@,
    {
        &self.items
    }

    /// Finds the first item, in order of insertion, whose cell overlaps `head`.
    pub fn find_overlap(&self, head: &Segment) -> (r: Option<usize>)
        ensures
            r matches Some(i) ==> first_overlap(self.items@, *head) == Some(i as int),
            r is None ==> first_overlap(self.items@, *head) is None,
    {
        let mut k: usize = 0;
        while k < self.items.len()
            invariant
                k <= self.items@.len(),
                forall|j: int| 0 <= j < k ==> !overlaps(*head, #[trigger] self.items@[j]),
            decreases self.items@.len() - k,
        {
            if head.intersects(&self.items[k]) {
                proof {
                    assert(is_first_overlap(self.items@, *head, k as int));
                    let c = choose|i: int| is_first_overlap(self.items@, *head, i);
                    lemma_first_overlap_unique(self.items@, *head, c, k as int);
                }
                return Some(k);
            }
            k = k + 1;
        }
        None
    }
}

} // verus!
