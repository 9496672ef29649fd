//! An ordered set of shortcuts.

use crate::shortcut::{Shortcut, ShortcutView};
use vstd::prelude::*;

verus! {

/// What each of the shortcuts is, in order.
pub open spec fn views(shortcuts: Seq<Shortcut>) -> Seq<ShortcutView> {
    shortcuts.map_values(|shortcut: Shortcut| shortcut@)
}

/// A set of shortcuts that keeps the order in which they came in. No shortcut
/// stands in it twice.
#[derive(Debug)]
pub struct ShortcutSet {
    shortcuts: Vec<Shortcut>,
}

impl View for ShortcutSet {
    type V = Seq<ShortcutView>;

    closed spec fn view(&self) -> Seq<ShortcutView> {
        views(self.shortcuts@)
    }
}

impl ShortcutSet {
    #[verifier::type_invariant]
    spec fn distinct(self) -> bool {
        views(self.shortcuts@).no_duplicates()
    }

    /// The empty set.
    pub fn new() -> (set: Self)
        ensures
            set@ == Seq::<ShortcutView>::empty(),
    {
        let set = ShortcutSet { shortcuts: Vec::new() };
        assert(views(set.shortcuts@) == Seq::<ShortcutView>::empty());
        set
    }

    /// The number of shortcuts in the set, none of which stands in it twice.
    pub fn len(&self) -> (len: usize)
        ensures
            len == self@.len(),
            self@.no_duplicates(),
    {
        proof {
            use_type_invariant(self);
        }
        self.shortcuts.len()
    }

    /// The shortcut at a position, counted in the order of coming in.
    pub fn get(&self, index: usize) -> (shortcut: &Shortcut)
        requires
            index < self@.len(),
        ensures
            shortcut@ == self@[index as int],
    {
        &self.shortcuts[index]
    }

    /// Where a shortcut stands in the set, if it does.
    pub fn position(&self, shortcut: &Shortcut) -> (found: Option<usize>)
        ensures
            match found {
                Some(index) => index < self@.len() && self@[index as int] == shortcut@,
                None => !self@.contains(shortcut@),
            },
    {
        let mut i: usize = 0;
        while i < self.shortcuts.len()
            invariant
                i <= self.shortcuts@.len(),
                forall|j: int| 0 <= j < i ==> views(self.shortcuts@)[j] != shortcut@,
            decreases self.shortcuts@.len() - i,
        {
            if self.shortcuts[i].equals(shortcut) {
                return Some(i);
            }
            i += 1;
        }
        None
    }

    /// Whether the set holds the shortcut.
    pub fn contains(&self, shortcut: &Shortcut) -> (found: bool)
        ensures
            found == self@.contains(shortcut@),
    {
        self.position(shortcut).is_some()
    }

    /// Adds a shortcut at the end unless the set holds it already. Says whether
    /// it was added.
    pub fn insert(&mut self, shortcut: Shortcut) -> (added: bool)
        ensures
            added == !old(self)@.contains(shortcut@),
            final(self)@ == if added {
                old(self)@.push(shortcut@)
            } else {
                old(self)@
            },
            final(self)@.to_set() == old(self)@.to_set().insert(shortcut@),
            final(self)@.no_duplicates(),
    {
        proof {
            use_type_invariant(&*self);
        }
        if self.contains(&shortcut) {
            assert(self@.to_set() =~= self@.to_set().insert(shortcut@));
            return false;
        }
        let mut taken = ShortcutSet::new();
        std::mem::swap(self, &mut taken);
        let ShortcutSet { mut shortcuts } = taken;
        let ghost before = shortcuts@;
        shortcuts.push(shortcut);
        proof {
            let after = views(shortcuts@);
            assert(after == views(before).push(shortcut@));
            assert forall|other: ShortcutView|
                after.to_set().contains(other) == views(before).to_set().insert(shortcut@).contains(
                    other,
                ) by {
                if views(before).contains(other) {
                    let k = choose|k: int| 0 <= k < views(before).len() && views(before)[k] == other;
                    assert(after[k] == other);
                }
                if other == shortcut@ {
                    assert(after[after.len() - 1] == other);
                }
            }
            assert(after.to_set() =~= views(before).to_set().insert(shortcut@));
        }
        *self = ShortcutSet { shortcuts };
        true
    }

    /// Takes a shortcut out of the set if the set holds it. Says whether it did.
    pub fn remove(&mut self, shortcut: &Shortcut) -> (removed: bool)
        ensures
            removed == old(self)@.contains(shortcut@),
            final(self)@ == if removed {
                old(self)@.remove(old(self)@.index_of(shortcut@))
            } else {
                old(self)@
            },
            !final(self)@.contains(shortcut@),
            final(self)@.to_set() == old(self)@.to_set().remove(shortcut@),
            final(self)@.no_duplicates(),
    {
        proof {
            use_type_invariant(&*self);
        }
        let index = match self.position(shortcut) {
            Some(index) => index,
            None => {
                assert(self@.to_set() =~= self@.to_set().remove(shortcut@));
                return false;
            },
        };
        let mut taken = ShortcutSet::new();
        std::mem::swap(self, &mut taken);
        let ShortcutSet { mut shortcuts } = taken;
        let ghost before = views(shortcuts@);
        shortcuts.remove(index);
        proof {
            let after = views(shortcuts@);
            assert(before.index_of(shortcut@) == index);
            assert(after == before.remove(index as int));
            assert forall|i: int, j: int| 0 <= i < j < after.len() implies after[i] != after[j] by {
                let from_i = if i < index { i } else { i + 1 };
                let from_j = if j < index { j } else { j + 1 };
                assert(after[i] == before[from_i] && after[j] == before[from_j]);
            }
            assert forall|i: int| 0 <= i < after.len() implies after[i] != shortcut@ by {
                let from_i = if i < index { i } else { i + 1 };
                assert(after[i] == before[from_i]);
            }
            assert forall|other: ShortcutView|
                after.to_set().contains(other) == before.to_set().remove(shortcut@).contains(
                    other,
                ) by {
                if after.contains(other) {
                    let k = choose|k: int| 0 <= k < after.len() && after[k] == other;
                    let from_k = if k < index { k } else { k + 1 };
                    assert(before[from_k] == other);
                }
                if before.contains(other) && other != shortcut@ {
                    let k = choose|k: int| 0 <= k < before.len() && before[k] == other;
                    let to_k = if k < index { k } else { k - 1 };
                    assert(after[to_k] == other);
                }
            }
            assert(after.to_set() =~= before.to_set().remove(shortcut@));
        }
        *self = ShortcutSet { shortcuts };
        true
    }
}

impl Clone for ShortcutSet {
    fn clone(&self) -> (copy: Self)
        ensures
            copy@ == self@,
    {
        proof {
            use_type_invariant(self);
        }
        let mut shortcuts: Vec<Shortcut> = Vec::new();
        let mut i: usize = 0;
        while i < self.shortcuts.len()
            invariant
                i <= self.shortcuts@.len(),
                views(shortcuts@) == views(self.shortcuts@).take(i as int),
            decreases self.shortcuts@.len() - i,
        {
            let ghost before = shortcuts@;
            let copy = self.shortcuts[i].clone();
            shortcuts.push(copy);
            assert(views(shortcuts@) == views(before).push(copy@));
            assert(views(self.shortcuts@).take(i + 1) == views(self.shortcuts@).take(i as int).push(
                copy@,
            ));
            i += 1;
        }
        assert(views(self.shortcuts@).take(i as int) == views(self.shortcuts@));
        ShortcutSet { shortcuts }
    }
}

} // verus!
