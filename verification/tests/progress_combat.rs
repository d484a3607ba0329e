use blobo_party::card::background_frame;
use blobo_party::card_deck::Deck;
use blobo_party::combat::{shield_visible, trigger_hit, CollisionSide};
use blobo_party::progress::{count_progress, projectiles_ready, Progress};

#[test]
fn progress_counts_loaded_assets() {
    assert_eq!(count_progress(&vec![]), Progress { done: 1, total: 1 });
    assert_eq!(
        count_progress(&vec![true, false, true]),
        Progress { done: 3, total: 4 }
    );
}

#[test]
fn projectiles_ready_needs_all_textures_and_set_sounds() {
    assert!(projectiles_ready(&vec![true, true], &vec![None, Some(true)]));
    assert!(!projectiles_ready(&vec![true, false], &vec![None]));
    assert!(!projectiles_ready(&vec![true], &vec![Some(false)]));
    assert!(projectiles_ready(&vec![], &vec![]));
}

#[test]
fn collisions_become_hits_both_ways() {
    let player = CollisionSide { entity: 1, hitbox: true, vulnerable: true };
    let enemy = CollisionSide { entity: 2, hitbox: false, vulnerable: true };
    let bullet = CollisionSide { entity: 3, hitbox: true, vulnerable: false };
    let immune = CollisionSide { entity: 4, hitbox: false, vulnerable: false };
    let hits = trigger_hit(&vec![(enemy, player), (bullet, enemy), (immune, bullet), (player, bullet)]);
    assert_eq!(hits, vec![(1, 2), (3, 2), (3, 1)]);
}

#[test]
fn shield_shows_while_immune() {
    assert!(shield_visible(true));
    assert!(!shield_visible(false));
}

#[test]
fn deck_display_lights_the_active_card() {
    let mut deck = Deck::new(vec!["a".to_string(), "b".to_string(), "c".to_string()]);
    deck.active = 1;
    let states = deck.display_states();
    assert_eq!(states, vec![Some(false), Some(true), Some(false)]);
    let frames: Vec<usize> = states.into_iter().map(background_frame).collect();
    assert_eq!(frames, vec![0, 1, 0]);
}
