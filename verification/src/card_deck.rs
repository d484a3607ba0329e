//! A deck of card keys with a cursor on the active card.

use vstd::prelude::*;

verus! {

/// The index that a cursor at `active` reaches after moving `step` places
/// around a ring of `len` cards (Euclidean remainder, so always in `0..len`).
pub open spec fn advanced_index(active: int, step: int, len: int) -> int {
    (active + step) % len
}

/// `cards` with the entries at `i` and `j` exchanged.
pub open spec fn swapped<T>(cards: Seq<T>, i: int, j: int) -> Seq<T> {
    cards.update(i, cards[j]).update(j, cards[i])
}

/// A deck's cursor is in range: on a card, or at 0 for an empty deck.
pub open spec fn cursor_in_range(len: int, active: int) -> bool {
    ||| 0 <= active < len
    ||| len == 0 && active == 0
}

/// Exchange two entries of a vector.
pub fn swap_entries<T>(v: &mut Vec<T>, i: usize, j: usize)
    requires
        i < old(v)@.len(),
        j < old(v)@.len(),
    ensures
        final(v)@ == swapped(old(v)@, i as int, j as int),
{
    if i == j {
        assert(swapped(v@, i as int, j as int) =~= v@);
        return;
    }
    let (lo, hi) = if i < j { (i, j) } else { (j, i) };
    let ghost s = v@;
    let b = v.remove(hi);
    let a = v.remove(lo);
    v.insert(lo, b);
    v.insert(hi, a);
    assert(v@ =~= swapped(s, i as int, j as int));
}

/// An ordered deck of card keys; `active` points at the card played last.
#[derive(Clone, Default)]
pub struct Deck {
    pub card_keys: Vec<String>,
    pub active: usize,
}

impl Deck {
    /// The deck invariant that `new` establishes and every operation keeps.
    pub open spec fn wf(&self) -> bool {
        cursor_in_range(self.card_keys@.len() as int, self.active as int)
    }

    /// A deck holding `cards` in order, with the cursor on the first card.
    pub fn new(cards: Vec<String>) -> (deck: Deck)
        ensures
            deck.card_keys@ == cards@,
            deck.active == 0,
            deck.wf(),
    {
        Deck { card_keys: cards, active: 0 }
    }

    /// Move the cursor `step` places around the deck (wrapping both ways) and
    /// return the card it lands on; an empty deck stays as it is.
    pub fn advance(&mut self, step: isize) -> (card: Option<&String>)
        requires
            old(self).card_keys@.len() <= isize::MAX,
            old(self).card_keys@.len() > 0 ==> old(self).active <= isize::MAX && isize::MIN <= old(
                self,
            ).active + step <= isize::MAX,
        ensures
            final(self).card_keys@ == old(self).card_keys@,
            old(self).card_keys@.len() == 0 ==> card is None && final(self).active == old(
                self,
            ).active,
            old(self).card_keys@.len() > 0 ==> {
                &&& final(self).active == advanced_index(
                    old(self).active as int,
                    step as int,
                    old(self).card_keys@.len() as int,
                )
                &&& card == Some(&final(self).card_keys@[final(self).active as int])
            },
            old(self).wf() ==> final(self).wf(),
    {
        if self.card_keys.is_empty() {
            return None;
        }
        let len = self.card_keys.len() as isize;
        let pos = self.active as isize + step;
        let next = match pos.checked_rem_euclid(len) {
            Some(r) => r,
            None => {
                proof {
                    assert(false);
                }
                0
            },
        };
        self.active = next as usize;
        Some(&self.card_keys[self.active])
    }

    /// Move the active card `step` places around the deck (wrapping both
    /// ways), exchanging it with the card found there; the cursor follows it.
    pub fn swap(&mut self, step: isize)
        requires
            old(self).card_keys@.len() <= isize::MAX,
            old(self).card_keys@.len() > 0 ==> old(self).active < old(self).card_keys@.len()
                && old(self).active + step <= isize::MAX,
        ensures
            old(self).card_keys@.len() == 0 ==> *final(self) == *old(self),
            old(self).card_keys@.len() > 0 ==> {
                &&& final(self).active == advanced_index(
                    old(self).active as int,
                    step as int,
                    old(self).card_keys@.len() as int,
                )
                &&& final(self).card_keys@ == swapped(
                    old(self).card_keys@,
                    old(self).active as int,
                    final(self).active as int,
                )
            },
            old(self).wf() ==> final(self).wf(),
    {
        if self.card_keys.is_empty() {
            return;
        }
        let old_active = self.active;
        let len = self.card_keys.len() as isize;
        let pos = self.active as isize + step;
        let next = match pos.checked_rem_euclid(len) {
            Some(r) => r,
            None => {
                proof {
                    assert(false);
                }
                0
            },
        };
        self.active = next as usize;
        swap_entries(&mut self.card_keys, old_active, self.active);
    }

    /// Remove the active card, unless it is the last one left. The cursor
    /// stays in place, or wraps to the first card when it falls off the end.
    pub fn discard(&mut self)
        requires
            old(self).card_keys@.len() <= 1 || old(self).active < old(self).card_keys@.len(),
        ensures
            old(self).card_keys@.len() <= 1 ==> *final(self) == *old(self),
            old(self).card_keys@.len() > 1 ==> {
                &&& final(self).card_keys@ == old(self).card_keys@.remove(old(self).active as int)
                &&& final(self).active == (if old(self).active < final(self).card_keys@.len() {
                    old(self).active
                } else {
                    0
                })
            },
            old(self).wf() ==> final(self).wf(),
    {
        if self.card_keys.len() <= 1 {
            return;
        }
        self.card_keys.remove(self.active);
        if self.active >= self.card_keys.len() {
            self.active = 0;
        }
    }

    /// Insert a card at the cursor, in front of the active card.
    pub fn add(&mut self, card_key: String)
        requires
            old(self).active <= old(self).card_keys@.len(),
        ensures
            final(self).card_keys@ == old(self).card_keys@.insert(old(self).active as int, card_key),
            final(self).active == old(self).active,
            old(self).wf() ==> final(self).wf(),
    {
        self.card_keys.insert(self.active, card_key);
    }
}

impl Deck {
    /// How each card of the deck is displayed, in order: `Some(true)` for the
    /// active card, `Some(false)` for the others.
    pub fn display_states(&self) -> (states: Vec<Option<bool>>)
        ensures
            states@.len() == self.card_keys@.len(),
            forall|i: int| 0 <= i < states@.len() ==> #[trigger] states@[i] == Some(i == self.active),
    {
        let mut states: Vec<Option<bool>> = Vec::new();
        let mut i: usize = 0;
        while i < self.card_keys.len()
            invariant
                0 <= i <= self.card_keys@.len(),
                states@.len() == i,
                forall|j: int| 0 <= j < i ==> #[trigger] states@[j] == Some(j == self.active),
            decreases self.card_keys@.len() - i,
        {
            states.push(Some(i == self.active));
            i = i + 1;
        }
        states
    }
}

/// A non-empty deck with its cursor in range shows exactly one card as active.
pub proof fn law_one_active_card_shown(states: Seq<Option<bool>>, active: int)
    requires
        0 <= active < states.len(),
        forall|i: int| 0 <= i < states.len() ==> #[trigger] states[i] == Some(i == active),
    ensures
        states[active] == Some(true),
        forall|i: int| 0 <= i < states.len() && #[trigger] states[i] == Some(true) ==> i == active,
{
}

/// Moving the cursor always lands on a card of a non-empty deck.
pub proof fn law_advance_lands_on_card(active: int, step: int, len: int)
    requires
        len > 0,
    ensures
        0 <= advanced_index(active, step, len) < len,
{
}

/// Moving the cursor `step` places and then `-step` places returns it to where it was.
pub proof fn law_advance_undone_by_reverse(active: int, step: int, len: int)
    requires
        0 <= active < len,
    ensures
        advanced_index(advanced_index(active, step, len), -step, len) == active,
{
    let m = advanced_index(active, step, len);
    vstd::arithmetic::div_mod::lemma_fundamental_div_mod(active + step, len);
    let q = (active + step) / len;
    assert(m - step == active - q * len) by (nonlinear_arith)
        requires
            active + step == len * q + m,
    ;
    vstd::arithmetic::div_mod::lemma_mod_multiples_vanish(-q, active, len);
    vstd::arithmetic::div_mod::lemma_small_mod(active as nat, len as nat);
    assert((-q) * len + active == active - q * len) by (nonlinear_arith);
}

/// Moving the cursor `s1` places and then `s2` places is the same as moving
/// it `s1 + s2` places at once.
pub proof fn law_advance_composes(active: int, s1: int, s2: int, len: int)
    requires
        len > 0,
    ensures
        advanced_index(advanced_index(active, s1, len), s2, len) == advanced_index(active, s1 + s2, len),
{
    let m = advanced_index(active, s1, len);
    vstd::arithmetic::div_mod::lemma_fundamental_div_mod(active + s1, len);
    let q = (active + s1) / len;
    assert(m + s2 == (active + s1 + s2) + (-q) * len) by (nonlinear_arith)
        requires
            active + s1 == len * q + m,
    ;
    vstd::arithmetic::div_mod::lemma_mod_multiples_vanish(-q, active + s1 + s2, len);
    assert((-q) * len + (active + s1 + s2) == m + s2);
}

/// Moving the cursor once around the whole deck returns it to where it was.
pub proof fn law_advance_full_cycle(active: int, len: int)
    requires
        0 <= active < len,
    ensures
        advanced_index(active, len, len) == active,
{
    vstd::arithmetic::div_mod::lemma_mod_add_multiples_vanish(active, len);
    vstd::arithmetic::div_mod::lemma_small_mod(active as nat, len as nat);
}

/// Swapping rearranges the deck without adding or losing a card, and the card
/// that was active sits under the moved cursor.
pub proof fn law_swap_is_permutation(cards: Seq<String>, i: int, j: int)
    requires
        0 <= i < cards.len(),
        0 <= j < cards.len(),
    ensures
        swapped(cards, i, j).to_multiset() == cards.to_multiset(),
        swapped(cards, i, j)[j] == cards[i],
        swapped(cards, i, j).len() == cards.len(),
{
    broadcast use {
        vstd::multiset::group_multiset_properties,
        vstd::multiset::group_multiset_axioms,
    };
    let s1 = cards.update(i, cards[j]);
    vstd::seq_lib::to_multiset_update(cards, i, cards[j]);
    vstd::seq_lib::to_multiset_update(s1, j, cards[i]);
    let m = cards.to_multiset();
    let ci = cards[i];
    let cj = cards[j];
    if i == j {
        assert(swapped(cards, i, j) =~= cards);
    } else {
        assert(s1[j] == cj);
        assert(m.count(ci) > 0) by {
            vstd::seq_lib::to_multiset_contains(cards, ci);
            assert(cards.contains(ci));
        }
        let m1 = m.insert(cj).remove(ci);
        let m2 = m1.insert(ci).remove(cj);
        assert(m2 =~= m);
    }
    assert(swapped(cards, i, j).to_multiset() =~= cards.to_multiset());
}

/// Discarding right after adding a card removes exactly the added card.
pub proof fn law_discard_undoes_add(cards: Seq<String>, active: int, card: String)
    requires
        0 <= active < cards.len(),
    ensures
        cards.insert(active, card).len() > 1,
        cards.insert(active, card).remove(active) == cards,
        active < cards.insert(active, card).remove(active).len(),
{
    assert(cards.insert(active, card).remove(active) =~= cards);
}

} // verus!
