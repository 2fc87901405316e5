//! A set of texts that remembers the order in which they came.

use vstd::prelude::*;

use crate::text::texts;

verus! {

/// Distinct texts, oldest first.
#[derive(Debug)]
pub struct TextSet {
    items: Vec<String>,
}

impl TextSet {
    /// The texts of the set, oldest first.
    pub closed spec fn list(&self) -> Seq<Seq<char>> {
        texts(self.items@)
    }

    /// No text is held twice.
    pub open spec fn wf(&self) -> bool {
        self.list().no_duplicates()
    }

    /// The texts of the set.
    pub open spec fn view(&self) -> Set<Seq<char>> {
        self.list().to_set()
    }

    pub fn new() -> (set: TextSet)
        ensures
            set.wf(),
            set.list() == Seq::<Seq<char>>::empty(),
    {
        let set = TextSet { items: Vec::new() };
        assert(set.list() =~= Seq::<Seq<char>>::empty());
        set
    }

    pub fn len(&self) -> (n: usize)
        ensures
            n == self.list().len(),
    {
        self.items.len()
    }

    pub fn is_empty(&self) -> (r: bool)
        ensures
            r == (self.list().len() == 0),
    {
        self.items.len() == 0
    }

    /// The text at a position.
    pub fn get(&self, index: usize) -> (text: &String)
        requires
            index < self.list().len(),
        ensures
            text@ == self.list()[index as int],
    {
        &self.items[index]
    }

    pub fn contains(&self, text: &str) -> (found: bool)
        ensures
            found == self.list().contains(text@),
            found == self@.contains(text@),
    {
        let wanted = text.to_owned();
        let mut i: usize = 0;
        while i < self.items.len()
            invariant
                i <= self.items@.len(),
                wanted@ == text@,
                forall|k: int| 0 <= k < i ==> #[trigger] self.list()[k] != text@,
            decreases self.items.len() - i,
        {
            if self.items[i] == wanted {
                assert(self.list()[i as int] == text@);
                return true;
            }
            i += 1;
        }
        false
    }

    /// Adds a text. False when it was there already.
    pub fn insert(&mut self, text: String) -> (added: bool)
        ensures
            added == !old(self).list().contains(text@),
            final(self).list() == if added {
                old(self).list().push(text@)
            } else {
                old(self).list()
            },
            old(self).wf() ==> final(self).wf(),
            final(self)@ == old(self)@.insert(text@),
    {
        let found = self.contains(text.as_str());
        if !found {
            self.items.push(text);
            assert(self.list() =~= old(self).list().push(text@));
        }
        proof {
            let before = old(self).list();
            let after = self.list();
            assert forall|t: Seq<char>| after.to_set().contains(t) == before.to_set().insert(
                text@,
            ).contains(t) by {
                if before.contains(t) {
                    let k = before.index_of(t);
                    assert(after[k] == t);
                }
                if t == text@ && !found {
                    assert(after[before.len() as int] == t);
                }
            }
            assert(after.to_set() =~= before.to_set().insert(text@));
        }
        !found
    }

    pub fn clear(&mut self)
        ensures
            final(self).wf(),
            final(self).list() == Seq::<Seq<char>>::empty(),
    {
        self.items.clear();
        assert(self.list() =~= Seq::<Seq<char>>::empty());
    }
}

/// The first occurrences of `extra` added behind `base`: what inserting the
/// texts one by one leaves.
pub open spec fn with_all(base: Seq<Seq<char>>, extra: Seq<Seq<char>>) -> Seq<Seq<char>>
    decreases extra.len(),
{
    if extra.len() == 0 {
        base
    } else {
        let before = with_all(base, extra.drop_last());
        if before.contains(extra.last()) {
            before
        } else {
            before.push(extra.last())
        }
    }
}

/// Inserting texts one by one makes the union of the texts, and keeps them
/// distinct.
pub proof fn with_all_is_a_union(base: Seq<Seq<char>>, extra: Seq<Seq<char>>)
    ensures
        with_all(base, extra).to_set() == base.to_set().union(extra.to_set()),
        base.no_duplicates() ==> with_all(base, extra).no_duplicates(),
    decreases extra.len(),
{
    if extra.len() == 0 {
        assert(base.to_set().union(extra.to_set()) =~= base.to_set());
    } else {
        let shorter = extra.drop_last();
        with_all_is_a_union(base, shorter);
        let before = with_all(base, shorter);
        let after = with_all(base, extra);
        assert forall|t: Seq<char>| after.to_set().contains(t) == base.to_set().union(
            extra.to_set(),
        ).contains(t) by {
            assert(before.to_set().contains(t) == (base.contains(t) || shorter.contains(t)));
            if extra.contains(t) {
                let k = extra.index_of(t);
                if k < shorter.len() {
                    assert(shorter[k] == t);
                }
            }
            if shorter.contains(t) {
                let k = shorter.index_of(t);
                assert(extra[k] == t);
            }
            assert(extra[extra.len() - 1] == extra.last());
            if before.contains(t) {
                let k = before.index_of(t);
                assert(after[k] == t);
            }
            if !before.contains(extra.last()) {
                assert(after[before.len() as int] == extra.last());
            }
        }
        assert(after.to_set() =~= base.to_set().union(extra.to_set()));
    }
}

} // verus!
