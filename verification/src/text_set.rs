//! A set of texts, for keeping track of what is under way.

use crate::text::str_eq;
use vstd::prelude::*;

verus! {

/// Whether one of `items` spells `text`.
pub open spec fn holds(items: Seq<String>, text: Seq<char>) -> bool {
    exists|i: int| 0 <= i < items.len() && (#[trigger] items[i])@ == text
}

proof fn lemma_holds_push(items: Seq<String>, last: String, text: Seq<char>)
    ensures
        holds(items.push(last), text) <==> holds(items, text) || last@ == text,
{
    let more = items.push(last);
    if holds(items, text) {
        let i = choose|i: int| 0 <= i < items.len() && (#[trigger] items[i])@ == text;
        assert(more[i]@ == text);
    }
    if last@ == text {
        assert(more[items.len() as int]@ == text);
    }
    if holds(more, text) {
        let i = choose|i: int| 0 <= i < more.len() && (#[trigger] more[i])@ == text;
        if i < items.len() {
            assert(items[i]@ == text);
        }
    }
}

/// A set of texts.
pub struct TextSet {
    items: Vec<String>,
}

impl View for TextSet {
    type V = Set<Seq<char>>;

    closed spec fn view(&self) -> Set<Seq<char>> {
        Set::new(|t: Seq<char>| holds(self.items@, t))
    }
}

impl TextSet {
    pub fn new() -> (r: Self)
        ensures
            r@ == Set::<Seq<char>>::empty(),
    {
        let r = TextSet { items: Vec::new() };
        assert(r@ =~= Set::<Seq<char>>::empty());
        r
    }

    pub fn contains(&self, text: &str) -> (r: bool)
        ensures
            r == self@.contains(text@),
    {
        let mut i: usize = 0;
        while i < self.items.len()
            invariant
                i <= self.items@.len(),
                forall|j: int| 0 <= j < i ==> (#[trigger] self.items@[j])@ != text@,
            decreases self.items.len() - i,
        {
            if str_eq(self.items[i].as_str(), text) {
                return true;
            }
            i += 1;
        }
        false
    }

    /// Adds `text`; says whether it was new.
    pub fn insert(&mut self, text: String) -> (added: bool)
        ensures
            final(self)@ == old(self)@.insert(text@),
            added == !old(self)@.contains(text@),
    {
        if self.contains(text.as_str()) {
            assert(self@ =~= self@.insert(text@));
            return false;
        }
        let ghost before = self.items@;
        proof {
            assert forall|x: Seq<char>| holds(before.push(text), x) <==> holds(before, x) || text@
                == x by {
                lemma_holds_push(before, text, x);
            }
        }
        self.items.push(text);
        assert(final(self)@ =~= old(self)@.insert(text@));
        true
    }

    /// Takes `text` out; says whether it was there.
    pub fn remove(&mut self, text: &str) -> (removed: bool)
        ensures
            final(self)@ == old(self)@.remove(text@),
            removed == old(self)@.contains(text@),
    {
        let mut kept: Vec<String> = Vec::new();
        let mut items: Vec<String> = Vec::new();
        core::mem::swap(&mut self.items, &mut items);
        let ghost all = items@;
        let mut removed = false;
        for s in it: items
            invariant
                it.seq() == all,
                forall|x: Seq<char>|
                    holds(kept@, x) <==> x != text@ && holds(all.take(it.index() as int), x),
                removed == holds(all.take(it.index() as int), text@),
        {
            let ghost before = kept@;
            let ghost n = it.index() as int;
            assert(all.take(n + 1) =~= all.take(n).push(all[n]));
            if str_eq(s.as_str(), text) {
                removed = true;
            } else {
                kept.push(s);
            }
            proof {
                lemma_holds_push(all.take(n), all[n], text@);
                assert forall|x: Seq<char>|
                    holds(kept@, x) <==> x != text@ && holds(all.take(n + 1), x) by {
                    lemma_holds_push(all.take(n), all[n], x);
                    lemma_holds_push(before, s, x);
                    assert(holds(before, x) <==> x != text@ && holds(all.take(n), x));
                }
            }
        }
        assert(all.take(all.len() as int) =~= all);
        self.items = kept;
        assert(final(self)@ =~= old(self)@.remove(text@));
        removed
    }

    pub fn is_empty(&self) -> (r: bool)
        ensures
            r == (self@ == Set::<Seq<char>>::empty()),
    {
        if self.items.len() == 0 {
            assert(self@ =~= Set::<Seq<char>>::empty());
            true
        } else {
            assert(holds(self.items@, self.items@[0]@));
            assert(self@.contains(self.items@[0]@));
            false
        }
    }

    pub fn clear(&mut self)
        ensures
            final(self)@ == Set::<Seq<char>>::empty(),
    {
        self.items = Vec::new();
        assert(self@ =~= Set::<Seq<char>>::empty());
    }
}

} // verus!
