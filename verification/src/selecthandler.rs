//! A generic ordered list with a single selection cursor, shared by the media
//! browser and the queue view.

use vstd::pervasive::cloned;
use vstd::prelude::*;

use crate::folder_handler::Node;
use crate::song::Song;

verus! {

/// `items[i..]` followed by `items[..i]`: the order a "play from here,
/// wrapping to the top" queue is built in.
pub open spec fn spec_rotated<T>(s: Seq<T>, i: int) -> Seq<T> {
    s.subrange(i, s.len() as int) + s.subrange(0, i)
}

/// The rotation law: rotating a non-empty list at an in-bounds index keeps
/// its length and its multiset of elements, and puts the element at the
/// rotation index first.
pub proof fn lemma_rotated_properties<T>(s: Seq<T>, i: int)
    requires
        0 <= i < s.len(),
    ensures
        spec_rotated(s, i).len() == s.len(),
        spec_rotated(s, i).to_multiset() == s.to_multiset(),
        spec_rotated(s, i)[0] == s[i],
{
    let a = s.subrange(0, i);
    let b = s.subrange(i, s.len() as int);
    assert(s =~= a + b);
    vstd::seq_lib::lemma_seq_union_to_multiset_commutative(a, b);
    assert(spec_rotated(s, i).to_multiset() == s.to_multiset()) by {
        assert((b + a).to_multiset() =~= (a + b).to_multiset());
    }
}

/// An item of either kind a selectable pane can show.
pub enum Selectable {
    Song(Song),
    Node(Node),
}

/// One step of the cursor towards the top, clamped at the first item.
pub open spec fn cursor_up<T>(o: SelectHandler<T>, n: SelectHandler<T>) -> bool {
    &&& n.spec_items() == o.spec_items()
    &&& n.spec_selected() == match o.spec_selected() {
        Option::Some(i) => if i > 0 {
            Option::Some((i - 1) as usize)
        } else {
            Option::Some(i)
        },
        Option::None => Option::None::<usize>,
    }
}

/// One step of the cursor towards the bottom, clamped at the last item.
pub open spec fn cursor_down<T>(o: SelectHandler<T>, n: SelectHandler<T>) -> bool {
    &&& n.spec_items() == o.spec_items()
    &&& n.spec_selected() == match o.spec_selected() {
        Option::Some(i) => if i + 1 < o.spec_items().len() {
            Option::Some((i + 1) as usize)
        } else {
            Option::Some(i)
        },
        Option::None => Option::None::<usize>,
    }
}

/// An ordered list of items plus at most one selected index.
///
/// Invariant: the cursor is `None` exactly when the list is empty, and
/// otherwise in bounds. Replacing the items resets the cursor to the top.
pub struct SelectHandler<T> {
    pub items: Vec<T>,
    pub selected: Option<usize>,
}

impl<T> SelectHandler<T> {
    /// The cursor is `None` iff the list is empty, else a valid index.
    pub open spec fn wf(&self) -> bool {
        match self.selected {
            Option::None => self.items@.len() == 0,
            Option::Some(i) => i < self.items@.len(),
        }
    }

    pub open spec fn spec_items(&self) -> Seq<T> {
        self.items@
    }

    pub open spec fn spec_selected(&self) -> Option<usize> {
        self.selected
    }

    pub fn new() -> (r: Self)
        ensures
            r.wf(),
            r.spec_items().len() == 0,
            r.spec_selected() is None,
    {
        SelectHandler { items: Vec::new(), selected: None }
    }

    /// Replaces the whole list; the cursor resets to the first item, or to
    /// nothing when the new list is empty.
    pub fn set_items(&mut self, items: Vec<T>)
        ensures
            final(self).wf(),
            final(self).spec_items() == items@,
            final(self).spec_selected() == if items@.len() > 0 {
                Option::Some(0usize)
            } else {
                Option::None
            },
    {
        let non_empty = items.len() > 0;
        self.items = items;
        self.selected = if non_empty {
            Some(0)
        } else {
            None
        };
    }

    /// Moves the cursor one item down, clamping at the last item; a no-op on
    /// an empty list.
    pub fn down(&mut self)
        requires
            old(self).wf(),
        ensures
            final(self).wf(),
            cursor_down(*old(self), *final(self)),
    {
        let n = self.items.len();
        if let Some(i) = self.selected {
            if i < n - 1 {
                self.selected = Some(i + 1);
            }
        }
    }

    /// Moves the cursor one item up, clamping at the first item; a no-op on
    /// an empty list.
    pub fn up(&mut self)
        requires
            old(self).wf(),
        ensures
            final(self).wf(),
            cursor_up(*old(self), *final(self)),
    {
        if let Some(i) = self.selected {
            if i > 0 {
                self.selected = Some(i - 1);
            }
        }
    }

    /// The item under the cursor, if any.
    pub fn select(&self) -> (r: Option<&T>)
        requires
            self.wf(),
        ensures
            match r {
                Option::Some(t) => {
                    &&& self.spec_selected() matches Option::Some(i)
                    &&& *t == self.spec_items()[self.spec_selected().unwrap() as int]
                },
                Option::None => self.spec_selected() is None,
            },
    {
        match self.selected {
            Some(i) => Some(&self.items[i]),
            None => None,
        }
    }

    pub fn items(&self) -> (r: &Vec<T>)
        ensures
            r@ == self.spec_items(),
    {
        &self.items
    }

    pub fn selected_index(&self) -> (r: Option<usize>)
        ensures
            r == self.spec_selected(),
    {
        self.selected
    }
}

impl<T: Clone> SelectHandler<T> {
    /// The items from `at` on, then the items before `at`: the same list
    /// rotated so that `items[at]` comes first. Each element is a clone of
    /// the corresponding rotated element.
    pub fn split_rotated_at(&self, at: usize) -> (r: Vec<T>)
        requires
            at < self.spec_items().len(),
        ensures
            r@.len() == self.spec_items().len(),
            forall|j: int|
                0 <= j < r@.len() ==> cloned::<T>(
                    spec_rotated(self.spec_items(), at as int)[j],
                    #[trigger] r@[j],
                ),
    {
        let ghost rot = spec_rotated(self.spec_items(), at as int);
        let mut r: Vec<T> = Vec::new();
        let mut j: usize = at;
        while j < self.items.len()
            invariant
                at <= j <= self.items@.len(),
                at < self.items@.len(),
                rot == spec_rotated(self.items@, at as int),
                r@.len() == j - at,
                forall|k: int| 0 <= k < r@.len() ==> cloned::<T>(rot[k], #[trigger] r@[k]),
            decreases self.items@.len() - j,
        {
            r.push(self.items[j].clone());
            j += 1;
        }
        let mut k: usize = 0;
        while k < at
            invariant
                k <= at <= self.items@.len(),
                rot == spec_rotated(self.items@, at as int),
                r@.len() == self.items@.len() - at + k,
                forall|m: int| 0 <= m < r@.len() ==> cloned::<T>(rot[m], #[trigger] r@[m]),
            decreases at - k,
        {
            r.push(self.items[k].clone());
            k += 1;
        }
        r
    }
}

} // verus!
