use blobo_party::backup::Backup;
use blobo_party::cleanup::{DespawnOnBeat, RemoveOnBeat, RemoveOnCount};
use blobo_party::level::{Level, LevelConfig};
use blobo_party::sprite::{SpriteAnimation, SpriteAnimationFrame};

fn walk() -> SpriteAnimation {
    let mut anim = SpriteAnimation {
        frames: vec![
            SpriteAnimationFrame { index: 4, beats: 2 },
            SpriteAnimationFrame { index: 9, beats: 0 },
            SpriteAnimationFrame { index: 5, beats: 3 },
        ],
        total_beats: 0,
    };
    anim.calculate_total_beats();
    anim
}

#[test]
fn sprite_total_beats_is_sum() {
    assert_eq!(walk().total_beats, 5);
}

#[test]
fn sprite_index_walks_frames_and_loops() {
    let anim = walk();
    let shown: Vec<usize> = (0..11).map(|b| anim.index(b)).collect();
    assert_eq!(shown, vec![4, 4, 5, 5, 5, 4, 4, 5, 5, 5, 4]);
    assert_eq!(anim.index(3), anim.index(3 + anim.total_beats));
}

#[test]
fn level_table_final_level_repeats() {
    let config = LevelConfig { levels: vec![10, 20, 30] };
    assert_eq!(*config.level(0), 10);
    assert_eq!(*config.level(2), 30);
    assert_eq!(*config.level(3), 30);
    assert_eq!(*config.level(usize::MAX), 30);
}

#[test]
fn trigger_level_up_takes_one_pending_level() {
    let mut level = Level { current: 2, up: 2 };
    assert_eq!(level.displayed(), 4);
    assert!(level.trigger_level_up());
    assert_eq!((level.current, level.up), (3, 1));
    assert_eq!(level.displayed(), 4);
    assert!(level.trigger_level_up());
    assert!(!level.trigger_level_up());
    assert_eq!((level.current, level.up), (4, 0));
    level.earn_level_up();
    assert_eq!((level.current, level.up), (4, 1));
}

#[test]
fn remove_on_beat_fires_after_count() {
    let mut remove: RemoveOnBeat<u8> = RemoveOnBeat::new(2);
    assert!(!remove.tick());
    assert!(!remove.tick());
    assert!(remove.tick());
    assert_eq!(remove.beat, 0);
    let (component, countdown) = RemoveOnBeat::bundle("shield", 3);
    assert_eq!(component, "shield");
    assert_eq!(countdown.beat, 3);
    let mut despawn = DespawnOnBeat(1);
    assert!(!despawn.tick());
    assert!(despawn.tick());
    assert!(despawn.tick());
    let mut older: RemoveOnCount<u8> = RemoveOnCount::new(1);
    assert!(!older.tick());
    assert!(older.tick());
    assert_eq!(older.count, 0);
}

#[test]
fn backup_restores_saved_value_once() {
    let mut backup = Backup::new();
    let mut x = 5;
    backup.save(x);
    x = 42;
    backup.restore(&mut x);
    assert_eq!(x, 5);
    x = 7;
    backup.restore(&mut x);
    assert_eq!(x, 7);
    assert!(backup.0.is_none());
}

#[test]
fn sprite_index_is_first_frame_covering_the_beat() {
    let anim = walk();
    // Running totals: 2, 2, 5. Beat 2 is past the first frame and the
    // zero-beat frame, so the third frame shows.
    assert_eq!(anim.index(1), 4);
    assert_eq!(anim.index(2), 5);
    assert_eq!(anim.index(4), 5);
    for b in 0..20 {
        assert_eq!(anim.index(b + anim.total_beats), anim.index(b));
        assert_ne!(anim.index(b), 9);
    }
}
