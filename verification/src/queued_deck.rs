//! The queued deck: every second eighth-beat each deck plays its next card
//! and moves on to the following one, looping.

use vstd::prelude::*;

verus! {

/// A looping queue of cards; `next_card` is the card played next.
#[derive(Clone, Default)]
pub struct Deck<K> {
    pub cards: Vec<K>,
    pub next_card: usize,
}

/// The card a deck plays next, if its position points at a card.
pub open spec fn next_of<K>(cards: Seq<K>, next: int) -> Option<K> {
    if 0 <= next < cards.len() {
        Some(cards[next])
    } else {
        None
    }
}

/// The position after `next` in a loop of `len` cards (unchanged when empty).
pub open spec fn rotated(next: int, len: int) -> int {
    if len > 0 {
        (next + 1) % len
    } else {
        next
    }
}

/// The `(deck, card)` pairs queued by `decks`, in deck order.
pub open spec fn queued_of<K>(decks: Seq<Deck<K>>) -> Seq<(usize, K)>
    decreases decks.len(),
{
    if decks.len() == 0 {
        Seq::empty()
    } else {
        queued_of(decks.drop_last()) + match next_of(
            decks.last().cards@,
            decks.last().next_card as int,
        ) {
            Some(card) => seq![((decks.len() - 1) as usize, card)],
            None => Seq::empty(),
        }
    }
}

impl<K: Copy> Deck<K> {
    /// A deck starting at its first card.
    pub fn new(cards: Vec<K>) -> (deck: Self)
        ensures
            deck.cards@ == cards@,
            deck.next_card == 0,
    {
        Deck { cards, next_card: 0 }
    }

    /// The card played next, if any.
    pub fn peak_next(&self) -> (card: Option<K>)
        ensures
            card == next_of(self.cards@, self.next_card as int),
    {
        if self.next_card < self.cards.len() {
            Some(self.cards[self.next_card])
        } else {
            None
        }
    }

    /// Move on to the following card, looping back to the first.
    pub fn rotate(&mut self)
        requires
            old(self).cards@.len() > 0 ==> old(self).next_card < usize::MAX,
        ensures
            final(self).cards@ == old(self).cards@,
            final(self).next_card == rotated(
                old(self).next_card as int,
                old(self).cards@.len() as int,
            ),
    {
        if self.cards.len() > 0 {
            self.next_card = (self.next_card + 1) % self.cards.len();
        }
    }

    /// Insert a card that the player gained at `index`.
    pub fn insert_card(&mut self, index: usize, card: K)
        requires
            index <= old(self).cards@.len(),
        ensures
            final(self).cards@ == old(self).cards@.insert(index as int, card),
            final(self).next_card == old(self).next_card,
    {
        self.cards.insert(index, card);
    }
}

/// The card each deck plays this beat, as `(deck position, card)` pairs.
pub fn queued_cards<K: Copy>(decks: &Vec<Deck<K>>) -> (queued: Vec<(usize, K)>)
    ensures
        queued@ == queued_of(decks@),
{
    let mut queued: Vec<(usize, K)> = Vec::new();
    let mut i: usize = 0;
    while i < decks.len()
        invariant
            0 <= i <= decks@.len(),
            queued@ == queued_of(decks@.take(i as int)),
        decreases decks@.len() - i,
    {
        proof {
            assert(decks@.take(i + 1).drop_last() =~= decks@.take(i as int));
        }
        match decks[i].peak_next() {
            Some(card) => {
                queued.push((i, card));
                assert(queued@ =~= queued_of(decks@.take(i + 1)));
            },
            None => {
                assert(queued@ =~= queued_of(decks@.take(i + 1)));
            },
        }
        i = i + 1;
    }
    assert(decks@.take(decks@.len() as int) =~= decks@);
    queued
}

/// Play the queued cards: every deck moves on to its following card.
pub fn rotate_all<K: Copy>(decks: &mut Vec<Deck<K>>)
    requires
        forall|i: int|
            0 <= i < old(decks)@.len() && (#[trigger] old(decks)@[i]).cards@.len() > 0 ==> old(
                decks,
            )@[i].next_card < usize::MAX,
    ensures
        final(decks)@.len() == old(decks)@.len(),
        forall|i: int|
            0 <= i < final(decks)@.len() ==> {
                &&& (#[trigger] final(decks)@[i]).cards@ == old(decks)@[i].cards@
                &&& final(decks)@[i].next_card == rotated(
                    old(decks)@[i].next_card as int,
                    old(decks)@[i].cards@.len() as int,
                )
            },
{
    let mut i: usize = 0;
    while i < decks.len()
        invariant
            0 <= i <= decks@.len(),
            decks@.len() == old(decks)@.len(),
            forall|j: int|
                0 <= j < old(decks)@.len() && (#[trigger] old(decks)@[j]).cards@.len() > 0 ==> old(
                    decks,
                )@[j].next_card < usize::MAX,
            forall|j: int| i <= j < decks@.len() ==> #[trigger] decks@[j] == old(decks)@[j],
            forall|j: int|
                0 <= j < i ==> {
                    &&& (#[trigger] decks@[j]).cards@ == old(decks)@[j].cards@
                    &&& decks@[j].next_card == rotated(
                        old(decks)@[j].next_card as int,
                        old(decks)@[j].cards@.len() as int,
                    )
                },
        decreases decks@.len() - i,
    {
        let mut deck = decks.remove(i);
        deck.rotate();
        decks.insert(i, deck);
        i = i + 1;
    }
}

/// One beat of the queued decks: the card each deck plays now, as `(deck
/// position, card)` pairs in deck order, with every deck moved on to its
/// following card.
pub fn execute_queued_cards<K: Copy>(decks: &mut Vec<Deck<K>>) -> (queued: Vec<(usize, K)>)
    requires
        forall|i: int|
            0 <= i < old(decks)@.len() && (#[trigger] old(decks)@[i]).cards@.len() > 0 ==> old(
                decks,
            )@[i].next_card < usize::MAX,
    ensures
        queued@ == queued_of(old(decks)@),
        final(decks)@.len() == old(decks)@.len(),
        forall|i: int|
            0 <= i < final(decks)@.len() ==> {
                &&& (#[trigger] final(decks)@[i]).cards@ == old(decks)@[i].cards@
                &&& final(decks)@[i].next_card == rotated(
                    old(decks)@[i].next_card as int,
                    old(decks)@[i].cards@.len() as int,
                )
            },
{
    let queued = queued_cards(decks);
    rotate_all(decks);
    queued
}

/// The position after `k` rotations of a loop of `len` cards from `next`.
pub open spec fn rotated_times(next: int, len: int, k: nat) -> int
    decreases k,
{
    if k == 0 {
        next
    } else {
        rotated(rotated_times(next, len, (k - 1) as nat), len)
    }
}

/// After `k` beats a deck that started on a card has moved `k` cards on,
/// looping: every card is played once per `len` beats, in order.
pub proof fn law_rotations_cycle(next: int, len: int, k: nat)
    requires
        0 <= next < len,
    ensures
        rotated_times(next, len, k) == (next + k) % len,
    decreases k,
{
    if k == 0 {
        vstd::arithmetic::div_mod::lemma_small_mod(next as nat, len as nat);
    } else {
        law_rotations_cycle(next, len, (k - 1) as nat);
        let prev = (next + k - 1) % len;
        vstd::arithmetic::div_mod::lemma_add_mod_noop(next + k - 1, 1, len);
        if len > 1 {
            vstd::arithmetic::div_mod::lemma_small_mod(1, len as nat);
        } else {
            vstd::arithmetic::div_mod::lemma_mod_self_0(1);
            vstd::arithmetic::div_mod::lemma_small_mod(0, 1);
        }
    }
}

/// A deck that starts in range cycles through every card and stays in range.
pub proof fn law_rotation_stays_on_cards(next: int, len: int)
    requires
        0 <= next < len,
    ensures
        0 <= rotated(next, len) < len,
        next < len - 1 ==> rotated(next, len) == next + 1,
        next == len - 1 ==> rotated(next, len) == 0,
{
    if next < len - 1 {
        vstd::arithmetic::div_mod::lemma_small_mod((next + 1) as nat, len as nat);
    } else {
        vstd::arithmetic::div_mod::lemma_mod_self_0(len);
    }
}

} // verus!
