use blobo_party::card::{attack_phase, background_frame, background_is_interactive, CardActionKey};
use blobo_party::deck_dock::{is_highlighted, select_left, select_right, swap_card_left, swap_card_right};
use blobo_party::faction::{projectile_target_layers, Faction, GameLayer, LayerMask};
use blobo_party::health::{ramp_segment, RampPick};
use blobo_party::names::{card_entity_name, card_tooltip, entity_name};
use blobo_party::schedule::{PostColorSet, PostTransformSet, UpdateSet};
use blobo_party::spawner::{
    any_condition_met, available_actors, pick_wave, spawn_actors, spawn_count, SpawnCondition, SpawnInfo,
    Spawner, SpawnerConfig,
};
use blobo_party::spotlight::{loop_neighbor, spotlight_count};
use blobo_party::stats::{decimal, Stats};
use blobo_party::theme::{ThemeColor, ThemeColorList, THEME_COLOR_COUNT};

#[test]
fn faction_predicates_and_layers() {
    assert!(Faction::Player.is_player());
    assert!(!Faction::Player.is_enemy());
    assert!(Faction::Enemy.is_enemy());
    assert_eq!(Faction::Player.layer(), LayerMask(1));
    assert_eq!(Faction::Enemy.layer(), LayerMask(2));
    assert_eq!(GameLayer::Projectile.to_bits(), 4);
}

#[test]
fn projectiles_hit_the_other_side() {
    let player_shots = projectile_target_layers(Faction::Player);
    assert_eq!(player_shots.0 & GameLayer::Enemy.to_bits(), 2);
    assert_eq!(player_shots.0 & GameLayer::Player.to_bits(), 0);
    assert_eq!(player_shots.0 & GameLayer::Projectile.to_bits(), 0);
    assert_eq!(player_shots, LayerMask(u32::MAX & !4 & !1));
    let enemy_shots = projectile_target_layers(Faction::Enemy);
    assert_eq!(enemy_shots.0 & 1, 1);
    assert_eq!(enemy_shots.0 & 2, 0);
    let mut all = LayerMask::all();
    all.remove(LayerMask::from_layer(GameLayer::Enemy));
    assert_eq!(all.0, !2u32);
}

#[test]
fn stats_count_kills_and_played_cards() {
    let mut stats = Stats::default();
    stats.count_beats();
    stats.count_kills(Faction::Enemy);
    stats.count_kills(Faction::Player);
    stats.count_played_cards(Faction::Player, CardActionKey::Attack);
    stats.count_played_cards(Faction::Player, CardActionKey::Heal);
    stats.count_played_cards(Faction::Player, CardActionKey::Move);
    stats.count_played_cards(Faction::Player, CardActionKey::Move);
    stats.count_played_cards(Faction::Enemy, CardActionKey::Attack);
    assert_eq!(stats.beats, 1);
    assert_eq!(stats.kills, 1);
    assert_eq!(
        (stats.played_moves, stats.played_attacks, stats.played_heals),
        (2, 1, 1)
    );
}

#[test]
fn card_background_and_attack_phase() {
    assert_eq!(background_frame(Some(true)), 1);
    assert_eq!(background_frame(Some(false)), 0);
    assert_eq!(background_frame(None), 0);
    assert!(background_is_interactive(None));
    assert!(!background_is_interactive(Some(false)));
    assert_eq!(attack_phase(13, 4), 1);
}

#[test]
fn deck_dock_swaps_and_selection() {
    let mut cards = vec!["a", "b", "c"];
    let mut selected = 0;
    swap_card_left(&mut selected, &mut cards);
    assert_eq!((selected, cards.clone()), (0, vec!["a", "b", "c"]));
    swap_card_right(&mut selected, &mut cards);
    assert_eq!((selected, cards.clone()), (1, vec!["b", "a", "c"]));
    swap_card_right(&mut selected, &mut cards);
    assert_eq!((selected, cards.clone()), (2, vec!["b", "c", "a"]));
    swap_card_right(&mut selected, &mut cards);
    assert_eq!((selected, cards.clone()), (2, vec!["b", "c", "a"]));
    swap_card_left(&mut selected, &mut cards);
    assert_eq!((selected, cards.clone()), (1, vec!["b", "a", "c"]));
    select_right(&mut selected, 3);
    select_right(&mut selected, 3);
    assert_eq!(selected, 2);
    select_left(&mut selected);
    select_left(&mut selected);
    select_left(&mut selected);
    assert_eq!(selected, 0);
    assert!(is_highlighted(0, 0));
    assert!(!is_highlighted(1, 0));
}

#[test]
fn swap_right_then_left_restores_dock() {
    let mut cards = vec![10, 20, 30, 40];
    let mut selected = 1;
    swap_card_right(&mut selected, &mut cards);
    swap_card_left(&mut selected, &mut cards);
    assert_eq!((selected, cards), (1, vec![10, 20, 30, 40]));
}

#[test]
fn spawn_conditions_all_must_hold() {
    let conds = vec![SpawnCondition::GreaterThan(2), SpawnCondition::LessThan(6)];
    assert!(any_condition_met(&conds, 4));
    assert!(!any_condition_met(&conds, 2));
    assert!(!any_condition_met(&conds, 6));
    assert!(any_condition_met(&Vec::new(), 0));
}

#[test]
fn spawn_count_scales_with_level() {
    assert_eq!(spawn_count(0, 3, 5), 1);
    assert_eq!(spawn_count(7, 3, 5), 2);
    assert_eq!(spawn_count(100, 3, 5), 5);
    assert_eq!(spawn_count(100, 3, 0), 0);
}

fn config() -> SpawnerConfig {
    SpawnerConfig {
        spawn_cadence: 2,
        spawn_count_scale: 2,
        max_spawn_count: 3,
        actors: vec![
            (
                "slime".to_string(),
                vec![SpawnInfo { condition: vec![] }, SpawnInfo { condition: vec![SpawnCondition::GreaterThan(5)] }],
            ),
            (
                "bat".to_string(),
                vec![SpawnInfo { condition: vec![SpawnCondition::LessThan(3)] }],
            ),
        ],
    }
}

#[test]
fn available_actors_lists_each_eligible_way() {
    let c = config();
    assert_eq!(available_actors(&c.actors, 1), vec!["slime".to_string(), "bat".to_string()]);
    assert_eq!(available_actors(&c.actors, 4), vec!["slime".to_string()]);
    assert_eq!(
        available_actors(&c.actors, 9),
        vec!["slime".to_string(), "slime".to_string()]
    );
}

#[test]
fn spawner_waves_on_cadence() {
    let c = config();
    let mut spawner = Spawner(0);
    assert!(spawn_actors(&mut spawner, 4, &c).is_empty());
    assert_eq!(spawner.0, 1);
    let wave = spawn_actors(&mut spawner, 4, &c);
    assert_eq!(wave, vec!["slime".to_string(), "slime".to_string()]);
    let mut spawner = Spawner(1);
    let wave = spawn_actors(&mut spawner, 1, &c);
    assert_eq!(wave.len(), 1);
    assert!(wave[0] == "slime" || wave[0] == "bat");
    let mut wrap = Spawner(usize::MAX);
    assert!(wrap.tick(2));
    assert_eq!(wrap.0, 0);
}

#[test]
fn spotlight_count_and_color_loop() {
    for _ in 0..50 {
        let n = spotlight_count();
        assert!((4..=16).contains(&n));
    }
    assert_eq!(loop_neighbor(0, 3), 1);
    assert_eq!(loop_neighbor(2, 3), 0);
}

#[test]
fn health_ramp_segments() {
    assert_eq!(ramp_segment(0, 3), RampPick::Blend(0, 1));
    assert_eq!(ramp_segment(1, 3), RampPick::Blend(1, 2));
    assert_eq!(ramp_segment(2, 3), RampPick::Entry(2));
    assert_eq!(ramp_segment(0, 1), RampPick::Entry(0));
}

#[test]
fn entity_names_drop_spaces() {
    assert_eq!(entity_name("Blue Slime King"), "BlueSlimeKing");
    assert_eq!(entity_name("  "), "");
    assert_eq!(entity_name("Bat"), "Bat");
    assert_eq!(card_entity_name("Step"), "Card(\"Step\")");
    assert_eq!(card_tooltip("Step", "Move ahead"), "[b]Step[r]\n\nMove ahead");
}

#[test]
fn theme_palette_by_color() {
    let list = ThemeColorList([0, 1, 2, 3, 4, 5, 6, 7, 8, 9, 10, 11, 12]);
    assert_eq!(*list.index(ThemeColor::Body), 2);
    assert_eq!(*list.index(ThemeColor::Overlay), 12);
    assert_eq!(ThemeColor::CardBorder.index(), 11);
    assert_eq!(THEME_COLOR_COUNT, 13);
    assert!(ThemeColor::default_color() == ThemeColor::White);
    let target = ThemeColor::Indicator.target::<u8>();
    assert!(target.0 == ThemeColor::Indicator);
}

#[test]
fn system_sets_run_in_chain_order() {
    let chain = UpdateSet::chain();
    assert_eq!(chain.len(), 10);
    assert!(chain[0] == UpdateSet::TickTimers);
    assert!(chain[5] == UpdateSet::TriggerDeath);
    assert!(chain[6] == UpdateSet::TriggerLevelUp);
    assert!(chain[9] == UpdateSet::SyncLate);
    let post = PostTransformSet::chain();
    assert!(post[2] == PostTransformSet::ApplyFacing);
    let colors = PostColorSet::chain();
    assert!(colors[0] == PostColorSet::Save && colors[1] == PostColorSet::Blend);
}

#[test]
fn decimal_matches_std_formatting() {
    for n in [0usize, 7, 10, 99, 100, 12345, usize::MAX] {
        assert_eq!(decimal(n), n.to_string());
    }
}

#[test]
fn stats_grid_pairs_values_with_labels() {
    let stats = Stats { beats: 80, kills: 12, played_moves: 3, played_attacks: 40, played_heals: 0 };
    let cells = stats.grid_cells("33".to_string());
    let texts: Vec<&str> = cells.iter().map(|c| c.text.as_str()).collect();
    assert_eq!(
        texts,
        vec![
            "33",
            "seconds partied",
            "12",
            "blobos impressed",
            "3",
            "dances performed",
            "40",
            "notes played",
            "0",
            "rests taken"
        ]
    );
    let emphasized: Vec<bool> = cells.iter().map(|c| c.emphasized).collect();
    assert_eq!(emphasized, vec![true, false, true, false, true, false, true, false, true, false]);
}

#[test]
fn only_the_player_hears_card_sounds() {
    assert!(blobo_party::card::plays_sound(Faction::Player, true));
    assert!(!blobo_party::card::plays_sound(Faction::Player, false));
    assert!(!blobo_party::card::plays_sound(Faction::Enemy, true));
}

#[test]
fn pick_wave_takes_the_drawn_candidates() {
    let candidates = vec!["slime".to_string(), "bat".to_string(), "ghost".to_string()];
    assert_eq!(
        pick_wave(&candidates, &vec![2, 0, 2]),
        vec!["ghost".to_string(), "slime".to_string(), "ghost".to_string()]
    );
    assert!(pick_wave(&candidates, &vec![]).is_empty());
}
