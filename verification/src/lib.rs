//! The rules of Blobo Party, a rhythm roguelite: beat counting, decks of
//! cards, level-ups, enemy waves, countdown cleanup, collision layers, the
//! colour theme and the debug stepping overlay.

pub mod backup;
pub mod beat;
pub mod card;
pub mod card_deck;
pub mod cleanup;
pub mod combat;
pub mod deck_dock;
pub mod faction;
pub mod health;
pub mod level;
pub mod names;
pub mod progress;
pub mod queued_deck;
pub mod random;
pub mod schedule;
pub mod spawner;
pub mod spotlight;
pub mod sprite;
pub mod stats;
pub mod stepping;
pub mod theme;
