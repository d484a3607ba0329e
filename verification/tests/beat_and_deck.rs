use blobo_party::beat::{on_beat, on_full_beat, Beat};
use blobo_party::card_deck::{swap_entries, Deck};
use blobo_party::queued_deck;

fn keys(names: &[&str]) -> Vec<String> {
    names.iter().map(|s| s.to_string()).collect()
}

#[test]
fn on_beat_fires_when_a_multiple_is_crossed() {
    let beat = Beat { total: 8, this_tick: 1 };
    assert!(on_beat(1, &beat));
    assert!(on_beat(2, &beat));
    assert!(on_beat(8, &beat));
    assert!(!on_beat(3, &beat));
    let quiet = Beat { total: 8, this_tick: 0 };
    assert!(!on_beat(1, &quiet));
    let jump = Beat { total: 10, this_tick: 4 };
    assert!(on_beat(4, &jump));
    assert!(!on_beat(5, &Beat { total: 14, this_tick: 4 }));
}

#[test]
fn on_full_beat_is_eight_eighth_beats() {
    assert!(on_full_beat(2, &Beat { total: 16, this_tick: 1 }));
    assert!(!on_full_beat(2, &Beat { total: 8, this_tick: 1 }));
    assert_eq!(
        on_full_beat(1, &Beat { total: 24, this_tick: 2 }),
        on_beat(8, &Beat { total: 24, this_tick: 2 })
    );
}

#[test]
fn beat_sync_counts_new_beats_and_ignores_loops() {
    let mut beat = Beat::default();
    beat.sync_to(3);
    assert_eq!((beat.total, beat.this_tick), (3, 3));
    beat.sync_to(5);
    assert_eq!((beat.total, beat.this_tick), (5, 2));
    beat.sync_to(1);
    assert_eq!((beat.total, beat.this_tick), (1, 0));
    beat.count_finished(2);
    assert_eq!((beat.total, beat.this_tick), (3, 2));
}

#[test]
fn deck_advance_wraps_both_ways() {
    let mut deck = Deck::new(keys(&["a", "b", "c"]));
    assert_eq!(deck.advance(1).map(|s| s.as_str()), Some("b"));
    assert_eq!(deck.advance(1).map(|s| s.as_str()), Some("c"));
    assert_eq!(deck.advance(1).map(|s| s.as_str()), Some("a"));
    assert_eq!(deck.advance(-1).map(|s| s.as_str()), Some("c"));
    assert_eq!(deck.active, 2);
    assert_eq!(deck.advance(7).map(|s| s.as_str()), Some("a"));
    assert_eq!(deck.advance(-7).map(|s| s.as_str()), Some("c"));
    let mut empty = Deck::new(Vec::new());
    assert_eq!(empty.advance(1), None);
    assert_eq!(empty.active, 0);
}

#[test]
fn deck_advance_then_reverse_restores_cursor() {
    let mut deck = Deck::new(keys(&["a", "b", "c", "d", "e"]));
    deck.active = 3;
    deck.advance(9);
    deck.advance(-9);
    assert_eq!(deck.active, 3);
    deck.advance(5);
    assert_eq!(deck.active, 3);
}

#[test]
fn deck_swap_carries_the_active_card() {
    let mut deck = Deck::new(keys(&["a", "b", "c"]));
    deck.swap(1);
    assert_eq!(deck.card_keys, keys(&["b", "a", "c"]));
    assert_eq!(deck.active, 1);
    deck.swap(-2);
    assert_eq!(deck.card_keys, keys(&["b", "c", "a"]));
    assert_eq!(deck.active, 2);
    deck.swap(0);
    assert_eq!(deck.card_keys, keys(&["b", "c", "a"]));
    let mut empty = Deck::new(Vec::new());
    empty.swap(3);
    assert!(empty.card_keys.is_empty());
}

#[test]
fn deck_discard_and_add() {
    let mut deck = Deck::new(keys(&["a", "b", "c"]));
    deck.active = 2;
    deck.discard();
    assert_eq!(deck.card_keys, keys(&["a", "b"]));
    assert_eq!(deck.active, 0);
    deck.discard();
    assert_eq!(deck.card_keys, keys(&["b"]));
    deck.discard();
    assert_eq!(deck.card_keys, keys(&["b"]));
    deck.add("z".to_string());
    assert_eq!(deck.card_keys, keys(&["z", "b"]));
    assert_eq!(deck.active, 0);
}

#[test]
fn deck_discard_undoes_add() {
    let mut deck = Deck::new(keys(&["a", "b", "c"]));
    deck.active = 1;
    deck.add("x".to_string());
    assert_eq!(deck.card_keys, keys(&["a", "x", "b", "c"]));
    deck.discard();
    assert_eq!(deck.card_keys, keys(&["a", "b", "c"]));
    assert_eq!(deck.active, 1);
}

#[test]
fn swap_entries_exchanges_two_cards() {
    let mut v = vec![1, 2, 3, 4];
    swap_entries(&mut v, 0, 3);
    assert_eq!(v, vec![4, 2, 3, 1]);
    swap_entries(&mut v, 2, 2);
    assert_eq!(v, vec![4, 2, 3, 1]);
}

#[test]
fn queued_decks_play_then_rotate() {
    let mut decks = vec![
        queued_deck::Deck::new(vec![1u8, 2, 3]),
        queued_deck::Deck::new(Vec::new()),
        queued_deck::Deck::new(vec![7u8]),
    ];
    assert_eq!(queued_deck::queued_cards(&decks), vec![(0, 1), (2, 7)]);
    queued_deck::rotate_all(&mut decks);
    assert_eq!(queued_deck::queued_cards(&decks), vec![(0, 2), (2, 7)]);
    queued_deck::rotate_all(&mut decks);
    queued_deck::rotate_all(&mut decks);
    assert_eq!(decks[0].next_card, 0);
    assert_eq!(decks[0].peak_next(), Some(1));
    decks[0].insert_card(1, 9);
    assert_eq!(decks[0].cards, vec![1, 9, 2, 3]);
    let mut stale = queued_deck::Deck::new(vec![5u8]);
    stale.next_card = 4;
    assert_eq!(stale.peak_next(), None);
    stale.rotate();
    assert_eq!(stale.next_card, 0);
}

#[test]
fn execute_queued_cards_plays_and_rotates() {
    let mut decks = vec![
        queued_deck::Deck::new(vec!['x', 'y']),
        queued_deck::Deck::new(vec!['z']),
    ];
    assert_eq!(queued_deck::execute_queued_cards(&mut decks), vec![(0, 'x'), (1, 'z')]);
    assert_eq!(queued_deck::execute_queued_cards(&mut decks), vec![(0, 'y'), (1, 'z')]);
    assert_eq!(queued_deck::execute_queued_cards(&mut decks), vec![(0, 'x'), (1, 'z')]);
}

#[test]
fn deck_advances_compose() {
    let mut a = Deck::new(keys(&["a", "b", "c", "d"]));
    let mut b = a.clone();
    a.advance(2);
    a.advance(-7);
    b.advance(-5);
    assert_eq!(a.active, b.active);
    assert_eq!(a.active, 3);
}

#[test]
fn queued_deck_cycles_in_order() {
    let mut decks = vec![queued_deck::Deck::new(vec![1u8, 2, 3])];
    let mut played = Vec::new();
    for _ in 0..7 {
        for (_, card) in queued_deck::execute_queued_cards(&mut decks) {
            played.push(card);
        }
    }
    assert_eq!(played, vec![1, 2, 3, 1, 2, 3, 1]);
    assert_eq!(decks[0].next_card, 7 % 3);
}
