//! Cards: what a card does when played, and how a card is drawn.

use vstd::prelude::*;

use crate::faction::Faction;

verus! {

/// The kind of action a card performs when played.
#[derive(Clone, Copy, Debug, PartialEq, Eq, Structural)]
pub enum CardActionKey {
    Move,
    Attack,
    Heal,
}

/// The texture atlas frame of a card background: the lit frame (1) for the
/// active card of a deck, the unlit frame (0) otherwise.
pub fn background_frame(active: Option<bool>) -> (frame: usize)
    ensures
        frame == (if active == Some(true) {
            1usize
        } else {
            0usize
        }),
{
    match active {
        Some(true) => 1,
        _ => 0,
    }
}

/// A card background reacts to the pointer (hover and press) only when it is
/// not shown as part of a deck.
pub fn background_is_interactive(active: Option<bool>) -> (interactive: bool)
    ensures
        interactive == (active is None),
{
    active.is_none()
}

/// The phase of a card's repeating attack, started on beat `beat`: the attack
/// fires on every beat that is congruent to this phase modulo `attack_on_beat`.
pub fn attack_phase(beat: usize, attack_on_beat: usize) -> (phase: usize)
    requires
        attack_on_beat > 0,
    ensures
        phase == beat % attack_on_beat,
{
    beat % attack_on_beat
}

/// Whether playing a card (or spawning a projectile) plays its sound: only for
/// the player, and only when a sound is configured.
pub fn plays_sound(faction: Faction, has_sound: bool) -> (play: bool)
    ensures
        play == (faction == Faction::Player && has_sound),
{
    faction.is_player() && has_sound
}

} // verus!
