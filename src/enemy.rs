//! The enemy director: how hard the game has become, how many enemies a
//! wave brings, which kinds they are, and when the final boss arrives.
use vstd::prelude::*;
use rand::Rng;

verus! {

/// Most enemies alive at once.
pub const SPAWN_LIMIT: u32 = 100;

/// Seconds between two waves at the lowest difficulty; the spawn timer runs
/// faster by the difficulty factor.
pub const SPAWN_PERIOD_SECS: u64 = 30;

/// Seconds of play for each step of difficulty.
pub const DIFFICULTY_STEP_SECS: u32 = 30;

/// Enemies a wave may bring for each step of difficulty.
pub const WAVE_SIZE_PER_DIFFICULTY: u32 = 5;

/// The final boss arrives once more than this many milliseconds have been
/// played.
pub const FINAL_BOSS_AFTER_MILLIS: u64 = 600_000;

/// The kinds of enemy that waves are made of.
#[derive(Clone, Copy, Debug, PartialEq, Eq, Structural)]
pub enum EnemyKind {
    Mothership,
    DroneBoss,
    Fighter,
    Drone,
}

/// The kind that a roll of a hundred-sided die (faces 0 to 99) gives:
/// one face in a hundred a mothership, five a drone boss, ten a fighter,
/// the rest a drone.
pub open spec fn kind_for_roll_spec(roll: nat) -> EnemyKind {
    if roll == 0 {
        EnemyKind::Mothership
    } else if roll <= 5 {
        EnemyKind::DroneBoss
    } else if roll <= 15 {
        EnemyKind::Fighter
    } else {
        EnemyKind::Drone
    }
}

/// A kind that some roll of the die gives.
pub open spec fn rollable_spec(k: EnemyKind) -> bool {
    exists|roll: nat| roll < 100 && k == kind_for_roll_spec(roll)
}

/// Picks the enemy kind for a roll.
pub fn kind_for_roll(roll: u32) -> (r: EnemyKind)
    ensures
        r == kind_for_roll_spec(roll as nat),
{
    if roll == 0 {
        EnemyKind::Mothership
    } else if roll <= 5 {
        EnemyKind::DroneBoss
    } else if roll <= 15 {
        EnemyKind::Fighter
    } else {
        EnemyKind::Drone
    }
}

/// Relies on rand's thread_rng and Rng::gen_range: a value drawn from
/// `0..100`, which is never empty, so the call does not panic.
#[verifier::external_body]
fn roll_percent() -> (r: u32)
    ensures
        r < 100,
{
    rand::thread_rng().gen_range(0..100u32)
}

/// Draws the kind of one enemy of a wave.
pub fn random_kind() -> (r: EnemyKind)
    ensures
        rollable_spec(r),
{
    let roll = roll_percent();
    kind_for_roll(roll)
}

/// Whole seconds played, as the difficulty counts them: saturated at the
/// largest `u32`.
pub open spec fn played_secs_spec(elapsed_millis: nat) -> nat {
    if elapsed_millis / 1000 <= u32::MAX {
        elapsed_millis / 1000
    } else {
        u32::MAX as nat
    }
}

/// The difficulty: one at the start, one more every thirty seconds played.
pub open spec fn difficulty_spec(elapsed_millis: nat) -> nat {
    played_secs_spec(elapsed_millis) / (DIFFICULTY_STEP_SECS as nat) + 1
}

/// The difficulty after `elapsed_millis` milliseconds of play. The spawn
/// timer runs this many times faster than real time.
pub fn difficulty(elapsed_millis: u64) -> (r: u32)
    ensures
        r == difficulty_spec(elapsed_millis as nat),
{
    let secs64: u64 = elapsed_millis / 1000;
    let secs: u32 = if secs64 <= u32::MAX as u64 { secs64 as u32 } else { u32::MAX };
    secs / DIFFICULTY_STEP_SECS + 1
}

/// The number of enemies counted, as the director reads it: a count too
/// large for `u32` reads as the limit itself.
pub open spec fn counted_spec(num_enemies: nat, max: nat) -> nat {
    if num_enemies <= u32::MAX {
        num_enemies
    } else {
        max
    }
}

/// How many enemies a wave brings: five per step of difficulty, but never
/// more than the room left under the limit.
pub open spec fn wave_size_spec(elapsed_millis: nat, max: nat, num_enemies: nat) -> nat {
    let room = (max - counted_spec(num_enemies, max)) as nat;
    let wanted = difficulty_spec(elapsed_millis) * (WAVE_SIZE_PER_DIFFICULTY as nat);
    if wanted < room {
        wanted
    } else {
        room
    }
}

/// The size of the next wave, with `num_enemies` enemies alive under a
/// limit of `max`.
pub fn wave_size(elapsed_millis: u64, max: u32, num_enemies: usize) -> (r: u32)
    requires
        num_enemies > u32::MAX || num_enemies <= max,
    ensures
        r == wave_size_spec(elapsed_millis as nat, max as nat, num_enemies as nat),
{
    let counted: u32 = if num_enemies <= u32::MAX as usize { num_enemies as u32 } else { max };
    let room: u32 = max - counted;
    let d = difficulty(elapsed_millis);
    assert(d <= u32::MAX / 30 + 1);
    let wanted: u32 = d * WAVE_SIZE_PER_DIFFICULTY;
    if wanted < room {
        wanted
    } else {
        room
    }
}

/// Draws the enemies of the next wave: as many as `wave_size` gives, each
/// of a kind that some roll gives.
pub fn spawn_wave(elapsed_millis: u64, max: u32, num_enemies: usize) -> (r: Vec<EnemyKind>)
    requires
        num_enemies > u32::MAX || num_enemies <= max,
    ensures
        r@.len() == wave_size_spec(elapsed_millis as nat, max as nat, num_enemies as nat),
        forall|i: int| 0 <= i < r@.len() ==> rollable_spec(#[trigger] r@[i]),
{
    let n = wave_size(elapsed_millis, max, num_enemies);
    let mut r: Vec<EnemyKind> = Vec::new();
    let mut i: u32 = 0;
    while i < n
        invariant
            i <= n,
            r@.len() == i,
            forall|k: int| 0 <= k < r@.len() ==> rollable_spec(#[trigger] r@[k]),
        decreases n - i,
    {
        let kind = random_kind();
        r.push(kind);
        i = i + 1;
    }
    r
}

/// Whether the final boss comes now: more than ten minutes have been
/// played and it is not already there.
pub fn should_spawn_final_boss(elapsed_millis: u64, boss_present: bool) -> (r: bool)
    ensures
        r == (elapsed_millis > FINAL_BOSS_AFTER_MILLIS && !boss_present),
{
    elapsed_millis > FINAL_BOSS_AFTER_MILLIS && !boss_present
}

} // verus!
