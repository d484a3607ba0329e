//! Enemy spawning: which actors may spawn at the current level, how many, and
//! how often.

use vstd::prelude::*;

use crate::random::choose_candidate;

verus! {

/// A condition on the current level for an actor to spawn.
#[derive(Clone, Copy, Debug, PartialEq, Eq, Structural)]
pub enum SpawnCondition {
    GreaterThan(usize),
    LessThan(usize),
}

/// One way an actor may spawn, with the level conditions that all must hold.
pub struct SpawnInfo {
    pub condition: Vec<SpawnCondition>,
}

/// The integer rules of the spawner; the spawn distances stay with the caller.
pub struct SpawnerConfig {
    /// Spawn on every `spawn_cadence`-th spawner tick.
    pub spawn_cadence: usize,
    /// One more enemy per wave for every `spawn_count_scale` levels.
    pub spawn_count_scale: usize,
    /// The largest wave.
    pub max_spawn_count: usize,
    /// The ways each actor (by key) may spawn.
    pub actors: Vec<(String, Vec<SpawnInfo>)>,
}

/// Counts spawner ticks (every second eighth-beat while playing).
#[derive(Clone, Copy, Default)]
pub struct Spawner(pub usize);

/// Whether `condition` holds at `level`.
pub open spec fn condition_holds(condition: SpawnCondition, level: int) -> bool {
    match condition {
        SpawnCondition::GreaterThan(value) => level > value,
        SpawnCondition::LessThan(value) => level < value,
    }
}

/// Whether every condition of `conditions` holds at `level`.
pub open spec fn all_hold(conditions: Seq<SpawnCondition>, level: int) -> bool {
    forall|i: int| 0 <= i < conditions.len() ==> condition_holds(#[trigger] conditions[i], level)
}

/// One copy of `key` for each of `infos` whose conditions all hold at `level`.
pub open spec fn key_copies(key: String, infos: Seq<SpawnInfo>, level: int) -> Seq<String>
    decreases infos.len(),
{
    if infos.len() == 0 {
        Seq::empty()
    } else {
        key_copies(key, infos.drop_last(), level) + (if all_hold(infos.last().condition@, level) {
            seq![key]
        } else {
            Seq::empty()
        })
    }
}

/// The candidates for a spawn at `level`: each actor key once for every way
/// it may spawn there.
pub open spec fn eligible_keys(actors: Seq<(String, Vec<SpawnInfo>)>, level: int) -> Seq<String>
    decreases actors.len(),
{
    if actors.len() == 0 {
        Seq::empty()
    } else {
        eligible_keys(actors.drop_last(), level) + key_copies(
            actors.last().0,
            actors.last().1@,
            level,
        )
    }
}

/// The size of a wave at `level`: one enemy per `scale` levels, at least one
/// and at most `max`.
pub open spec fn wave_size(level: int, scale: int, max: int) -> int {
    let n = if level / scale > 1 {
        level / scale
    } else {
        1
    };
    if n < max {
        n
    } else {
        max
    }
}

/// The spawner count after one more tick (wrapping at `usize::MAX`).
pub open spec fn next_tick(count: usize) -> usize {
    if count == usize::MAX {
        0
    } else {
        (count + 1) as usize
    }
}

/// Whether all `conditions` hold at `current_level` (an empty list always holds).
pub fn any_condition_met(conditions: &Vec<SpawnCondition>, current_level: usize) -> (met: bool)
    ensures
        met == all_hold(conditions@, current_level as int),
{
    let mut i: usize = 0;
    while i < conditions.len()
        invariant
            0 <= i <= conditions@.len(),
            forall|j: int| 0 <= j < i ==> condition_holds(#[trigger] conditions@[j], current_level as int),
        decreases conditions@.len() - i,
    {
        let holds = match conditions[i] {
            SpawnCondition::GreaterThan(value) => current_level > value,
            SpawnCondition::LessThan(value) => current_level < value,
        };
        if !holds {
            return false;
        }
        i = i + 1;
    }
    true
}

/// The number of enemies in a wave at `level`.
pub fn spawn_count(level: usize, spawn_count_scale: usize, max_spawn_count: usize) -> (count: usize)
    requires
        spawn_count_scale > 0,
    ensures
        count == wave_size(level as int, spawn_count_scale as int, max_spawn_count as int),
{
    let n = level / spawn_count_scale;
    let n = if n > 1 {
        n
    } else {
        1
    };
    if n < max_spawn_count {
        n
    } else {
        max_spawn_count
    }
}

impl Spawner {
    /// Count one spawner tick; returns whether this tick spawns a wave (every
    /// `spawn_cadence`-th tick).
    pub fn tick(&mut self, spawn_cadence: usize) -> (spawn: bool)
        requires
            spawn_cadence > 0,
        ensures
            final(self).0 == next_tick(old(self).0),
            spawn == (final(self).0 % spawn_cadence == 0),
    {
        self.0 = self.0.wrapping_add(1);
        self.0 % spawn_cadence == 0
    }
}

/// The actor keys that may spawn at `current_level`, one entry per way each
/// actor may spawn.
pub fn available_actors(actors: &Vec<(String, Vec<SpawnInfo>)>, current_level: usize) -> (keys: Vec<
    String,
>)
    ensures
        keys@ == eligible_keys(actors@, current_level as int),
{
    let mut keys: Vec<String> = Vec::new();
    let mut i: usize = 0;
    while i < actors.len()
        invariant
            0 <= i <= actors@.len(),
            keys@ == eligible_keys(actors@.take(i as int), current_level as int),
        decreases actors@.len() - i,
    {
        let (key, infos) = &actors[i];
        let ghost before = keys@;
        let mut j: usize = 0;
        while j < infos.len()
            invariant
                0 <= j <= infos@.len(),
                keys@ == before + key_copies(*key, infos@.take(j as int), current_level as int),
            decreases infos@.len() - j,
        {
            let info = &infos[j];
            proof {
                assert(infos@.take(j + 1).drop_last() =~= infos@.take(j as int));
            }
            if info.condition.is_empty() || any_condition_met(&info.condition, current_level) {
                keys.push(key.clone());
                assert(keys@ =~= before + key_copies(*key, infos@.take(j + 1), current_level as int));
            } else {
                assert(keys@ =~= before + key_copies(*key, infos@.take(j + 1), current_level as int));
            }
            j = j + 1;
        }
        proof {
            assert(infos@.take(infos@.len() as int) =~= infos@);
            assert(actors@.take(i + 1).drop_last() =~= actors@.take(i as int));
        }
        i = i + 1;
    }
    assert(actors@.take(actors@.len() as int) =~= actors@);
    keys
}

/// One spawner tick at `current_level`: when the tick is on the cadence,
/// a wave of randomly chosen eligible actor keys to spawn (empty when no
/// actor is eligible); otherwise nothing.
pub fn spawn_actors(spawner: &mut Spawner, current_level: usize, config: &SpawnerConfig) -> (wave:
    Vec<String>)
    requires
        config.spawn_cadence > 0,
        next_tick(old(spawner).0) % config.spawn_cadence == 0 ==> config.spawn_count_scale > 0,
    ensures
        final(spawner).0 == next_tick(old(spawner).0),
        final(spawner).0 % config.spawn_cadence != 0 ==> wave@.len() == 0,
        final(spawner).0 % config.spawn_cadence == 0 ==> wave@.len() == (if eligible_keys(
            config.actors@,
            current_level as int,
        ).len() == 0 {
            0
        } else {
            wave_size(
                current_level as int,
                config.spawn_count_scale as int,
                config.max_spawn_count as int,
            )
        }),
        forall|i: int|
            0 <= i < wave@.len() ==> eligible_keys(config.actors@, current_level as int).contains(
                #[trigger] wave@[i],
            ),
{
    if !spawner.tick(config.spawn_cadence) {
        return Vec::new();
    }
    let count = spawn_count(current_level, config.spawn_count_scale, config.max_spawn_count);
    let candidates = available_actors(&config.actors, current_level);
    let mut picks: Vec<usize> = Vec::new();
    let mut n: usize = 0;
    while n < count
        invariant
            0 <= n <= count,
            candidates@.len() == 0 ==> picks@.len() == 0,
            candidates@.len() > 0 ==> picks@.len() == n,
            forall|i: int| 0 <= i < picks@.len() ==> #[trigger] picks@[i] < candidates@.len(),
        decreases count - n,
    {
        if let Some(idx) = choose_candidate(&candidates) {
            picks.push(idx);
        }
        n = n + 1;
    }
    let wave = pick_wave(&candidates, &picks);
    proof {
        assert forall|i: int| 0 <= i < wave@.len() implies candidates@.contains(
            #[trigger] wave@[i],
        ) by {
            assert(candidates@[picks@[i] as int] == wave@[i]);
        }
    }
    wave
}

/// The wave of actor keys drawn by `picks`: entry `i` is the candidate at
/// position `picks[i]`.
pub fn pick_wave(candidates: &Vec<String>, picks: &Vec<usize>) -> (wave: Vec<String>)
    requires
        forall|i: int| 0 <= i < picks@.len() ==> #[trigger] picks@[i] < candidates@.len(),
    ensures
        wave@.len() == picks@.len(),
        forall|i: int| 0 <= i < picks@.len() ==> #[trigger] wave@[i] == candidates@[picks@[i] as int],
{
    let mut wave: Vec<String> = Vec::new();
    let mut i: usize = 0;
    while i < picks.len()
        invariant
            0 <= i <= picks@.len(),
            forall|j: int| 0 <= j < picks@.len() ==> #[trigger] picks@[j] < candidates@.len(),
            wave@.len() == i,
            forall|j: int| 0 <= j < i ==> #[trigger] wave@[j] == candidates@[picks@[j] as int],
        decreases picks@.len() - i,
    {
        wave.push(candidates[picks[i]].clone());
        i = i + 1;
    }
    wave
}

/// The wave at `level` has `n` enemies for the levels from `n * scale` up
/// to (not including) `(n + 1) * scale`, clamped to at least one and at
/// most `max`: a middle-sized wave pins the level to its band, a single enemy
/// means the level is below `2 * scale`, a full wave that it is at least
/// `max * scale`.
pub proof fn law_wave_size_by_level_band(level: int, scale: int, max: int)
    requires
        level >= 0,
        scale > 0,
        max >= 1,
    ensures
        ({
            let n = wave_size(level, scale, max);
            &&& 1 <= n <= max
            &&& 1 < n < max ==> n * scale <= level < (n + 1) * scale
            &&& n == 1 && 1 < max ==> level < 2 * scale
            &&& n == max && 1 < max ==> max * scale <= level
        }),
{
    vstd::arithmetic::div_mod::lemma_fundamental_div_mod(level, scale);
    let q = level / scale;
    let r = level % scale;
    assert(q >= 0) by {
        vstd::arithmetic::div_mod::lemma_div_pos_is_pos(level, scale);
    }
    let n = wave_size(level, scale, max);
    if 1 < n < max {
        assert(n == q);
        assert(n * scale <= level < (n + 1) * scale) by (nonlinear_arith)
            requires
                level == scale * q + r,
                0 <= r < scale,
                n == q,
        ;
    }
    if n == 1 && 1 < max {
        assert(q <= 1);
        assert(level < 2 * scale) by (nonlinear_arith)
            requires
                level == scale * q + r,
                0 <= r < scale,
                q <= 1,
        ;
    }
    if n == max && 1 < max {
        assert(q >= max);
        assert(max * scale <= level) by (nonlinear_arith)
            requires
                level == scale * q + r,
                0 <= r,
                q >= max,
                scale > 0,
        ;
    }
}

/// The wave grows only when the level reaches a multiple of `scale`, and
/// never shrinks as the level rises.
pub proof fn law_wave_grows_at_multiples(level: int, scale: int, max: int)
    requires
        level >= 0,
        scale > 0,
    ensures
        wave_size(level, scale, max) <= wave_size(level + 1, scale, max),
        wave_size(level + 1, scale, max) != wave_size(level, scale, max) ==> (level + 1) % scale
            == 0,
{
    vstd::arithmetic::div_mod::lemma_fundamental_div_mod(level, scale);
    vstd::arithmetic::div_mod::lemma_fundamental_div_mod(level + 1, scale);
    let q = level / scale;
    let q1 = (level + 1) / scale;
    let r = level % scale;
    let r1 = (level + 1) % scale;
    if r + 1 < scale {
        assert(q1 == q && r1 == r + 1) by {
            vstd::arithmetic::mul::lemma_mul_is_commutative(q, scale);
            vstd::arithmetic::div_mod::lemma_fundamental_div_mod_converse(level + 1, scale, q, r + 1);
        }
    } else {
        assert(q1 == q + 1 && r1 == 0) by {
            assert(level + 1 == (q + 1) * scale + 0) by (nonlinear_arith)
                requires
                    level == scale * q + r,
                    r + 1 == scale,
            ;
            vstd::arithmetic::div_mod::lemma_fundamental_div_mod_converse(level + 1, scale, q + 1, 0);
        }
    }
}

/// A wave is never empty when some actor is eligible and the largest wave is
/// at least one, and it never exceeds the largest wave.
pub proof fn law_wave_size_bounds(level: int, scale: int, max: int)
    requires
        level >= 0,
        scale > 0,
        max >= 1,
    ensures
        1 <= wave_size(level, scale, max) <= max,
{
}

/// The spawner waves on every `cadence`-th tick: starting from a count that
/// is a multiple of `cadence`, the next wave comes after exactly `cadence` ticks.
pub proof fn law_spawn_cadence(count: int, cadence: int, k: int)
    requires
        cadence > 0,
        count >= 0,
        count % cadence == 0,
        0 < k <= cadence,
    ensures
        ((count + k) % cadence == 0) <==> k == cadence,
{
    vstd::arithmetic::div_mod::lemma_mod_adds(count, k, cadence);
    if k < cadence {
        vstd::arithmetic::div_mod::lemma_small_mod(k as nat, cadence as nat);
    } else {
        vstd::arithmetic::div_mod::lemma_mod_self_0(cadence);
    }
}

} // verus!
