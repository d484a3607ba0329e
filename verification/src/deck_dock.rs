//! The deck dock: the player's cards laid out in a row, with a selection
//! that can move and carry its card left and right.

use vstd::prelude::*;

use crate::card_deck::swap_entries;
use crate::card_deck::swapped;

verus! {

/// Move the selected card one place to the left, keeping it selected; the
/// leftmost card stays where it is.
pub fn swap_card_left<T>(selected: &mut usize, cards: &mut Vec<T>)
    requires
        *old(selected) > 0 ==> *old(selected) < old(cards)@.len(),
    ensures
        *old(selected) == 0 ==> *final(selected) == 0 && final(cards)@ == old(cards)@,
        *old(selected) > 0 ==> {
            &&& *final(selected) == *old(selected) - 1
            &&& final(cards)@ == swapped(old(cards)@, *old(selected) as int, *old(selected) - 1)
        },
{
    if *selected == 0 {
        return;
    }
    swap_entries(cards, *selected, *selected - 1);
    *selected = *selected - 1;
}

/// Move the selected card one place to the right, keeping it selected; the
/// rightmost card (or a selection past it) stays where it is.
pub fn swap_card_right<T>(selected: &mut usize, cards: &mut Vec<T>)
    requires
        old(cards)@.len() > 0,
    ensures
        *old(selected) >= old(cards)@.len() - 1 ==> *final(selected) == *old(selected)
            && final(cards)@ == old(cards)@,
        *old(selected) < old(cards)@.len() - 1 ==> {
            &&& *final(selected) == *old(selected) + 1
            &&& final(cards)@ == swapped(old(cards)@, *old(selected) as int, *old(selected) + 1)
        },
{
    if *selected >= cards.len() - 1 {
        return;
    }
    swap_entries(cards, *selected, *selected + 1);
    *selected = *selected + 1;
}

/// Move the selection one card to the left, stopping at the first card.
pub fn select_left(selected: &mut usize)
    ensures
        *final(selected) == (if *old(selected) > 0 {
            *old(selected) - 1
        } else {
            0
        }),
{
    *selected = selected.saturating_sub(1);
}

/// Move the selection one card to the right, stopping at the last of `len` cards.
pub fn select_right(selected: &mut usize, len: usize)
    requires
        len > 0,
    ensures
        *final(selected) == (if *old(selected) + 1 < len {
            *old(selected) + 1
        } else {
            len - 1
        }),
{
    let next = selected.saturating_add(1);
    *selected = if next < len - 1 {
        next
    } else {
        len - 1
    };
}

/// Whether the card at position `i` of the dock is highlighted.
pub fn is_highlighted(i: usize, selected: usize) -> (highlighted: bool)
    ensures
        highlighted == (i == selected),
{
    i == selected
}

/// Moving the selected card right and then left puts every card, and the
/// selection, back where they were.
pub proof fn law_swap_right_then_left_restores<T>(cards: Seq<T>, selected: int)
    requires
        0 <= selected < cards.len() - 1,
    ensures
        swapped(swapped(cards, selected, selected + 1), selected + 1, selected) == cards,
{
    assert(swapped(swapped(cards, selected, selected + 1), selected + 1, selected) =~= cards);
}

/// Selecting right then left returns to the same card, unless the selection
/// was already on the last card.
pub proof fn law_select_right_then_left(selected: int, len: int)
    requires
        0 <= selected < len - 1,
    ensures
        ({
            let right = if selected + 1 < len {
                selected + 1
            } else {
                len - 1
            };
            let left = if right > 0 {
                right - 1
            } else {
                0
            };
            left == selected
        }),
{
}

} // verus!
