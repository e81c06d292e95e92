use vstd::prelude::*;

verus! {

/// The level that is played now; levels are played in a fixed cycle.
#[derive(Debug, Clone, Copy, PartialEq, Eq, Structural)]
pub enum CurrentLevel {
    DayOne,
    DayTwo,
    Train,
    Karoline,
}

/// The position of a level in the cycle.
pub open spec fn level_index(level: CurrentLevel) -> int {
    match level {
        CurrentLevel::DayOne => 0,
        CurrentLevel::DayTwo => 1,
        CurrentLevel::Train => 2,
        CurrentLevel::Karoline => 3,
    }
}

/// The level at a position of the cycle, taken modulo its length.
pub open spec fn level_at(index: int) -> CurrentLevel {
    let i = index % 4;
    if i == 0 {
        CurrentLevel::DayOne
    } else if i == 1 {
        CurrentLevel::DayTwo
    } else if i == 2 {
        CurrentLevel::Train
    } else {
        CurrentLevel::Karoline
    }
}

/// The level that follows `level`: the next one in the cycle, wrapping around.
pub open spec fn next_level(level: CurrentLevel) -> CurrentLevel {
    level_at(level_index(level) + 1)
}

/// The level reached from `level` after `n` advances.
pub open spec fn advance_by(level: CurrentLevel, n: nat) -> CurrentLevel
    decreases n,
{
    if n == 0 {
        level
    } else {
        next_level(advance_by(level, (n - 1) as nat))
    }
}

impl Default for CurrentLevel {
    /// The first level of a new game.
    fn default() -> (level: Self)
        ensures
            level == CurrentLevel::DayOne,
    {
        CurrentLevel::DayOne
    }
}

impl CurrentLevel {
    /// The level played after this one.
    pub fn next(&self) -> (level: Self)
        ensures
            level == next_level(*self),
    {
        match self {
            CurrentLevel::DayOne => CurrentLevel::DayTwo,
            CurrentLevel::DayTwo => CurrentLevel::Train,
            CurrentLevel::Train => CurrentLevel::Karoline,
            CurrentLevel::Karoline => CurrentLevel::DayOne,
        }
    }
}

/// The asset collections that hold what a level needs.
#[derive(Debug, Clone, Copy, PartialEq, Eq, Structural)]
pub enum LevelAssetKind {
    /// The first level's assets, which also hold the shared landscape and navmesh.
    Main,
    Two,
    Train,
    Karoline,
}

/// The asset collection of a level.
pub open spec fn spec_assets_of(level: CurrentLevel) -> LevelAssetKind {
    match level {
        CurrentLevel::DayOne => LevelAssetKind::Main,
        CurrentLevel::DayTwo => LevelAssetKind::Two,
        CurrentLevel::Train => LevelAssetKind::Train,
        CurrentLevel::Karoline => LevelAssetKind::Karoline,
    }
}

/// When all objectives are done: the asset collection to load, which is that
/// of the following level, and the level that becomes current.
pub fn advance_level(current: CurrentLevel) -> (r: (LevelAssetKind, CurrentLevel))
    ensures
        r.1 == next_level(current),
        r.0 == spec_assets_of(next_level(current)),
{
    match current {
        CurrentLevel::DayOne => (LevelAssetKind::Two, CurrentLevel::DayTwo),
        CurrentLevel::DayTwo => (LevelAssetKind::Train, CurrentLevel::Train),
        CurrentLevel::Train => (LevelAssetKind::Karoline, CurrentLevel::Karoline),
        CurrentLevel::Karoline => (LevelAssetKind::Main, CurrentLevel::DayOne),
    }
}

/// What spawning a level puts into the world besides its scene and music.
#[derive(Debug, Clone, Copy, PartialEq, Eq, Structural)]
pub struct LevelSpawnPlan {
    /// The collection that holds the level's scene and music.
    pub scene_assets: LevelAssetKind,
    /// The collection that holds the navmesh of the level's island.
    pub navmesh_assets: LevelAssetKind,
    /// Whether the "Clock In" objective with targetname "start_work" is spawned.
    pub clock_in_objective: bool,
    /// Whether the level stands on the scattered landscape.
    pub landscape: bool,
}

/// The spawn plan of a level: the two office days start with the "Clock In"
/// objective; the second day stands on the landscape and shares the first
/// day's navmesh; every level uses its own scene and music.
pub open spec fn spec_spawn_plan(level: CurrentLevel) -> LevelSpawnPlan {
    LevelSpawnPlan {
        scene_assets: spec_assets_of(level),
        navmesh_assets: match level {
            CurrentLevel::DayOne | CurrentLevel::DayTwo => LevelAssetKind::Main,
            CurrentLevel::Train => LevelAssetKind::Train,
            CurrentLevel::Karoline => LevelAssetKind::Karoline,
        },
        clock_in_objective: level == CurrentLevel::DayOne || level == CurrentLevel::DayTwo,
        landscape: level == CurrentLevel::DayTwo,
    }
}

/// What to spawn for the current level.
pub fn spawn_plan(level: CurrentLevel) -> (r: LevelSpawnPlan)
    ensures
        r == spec_spawn_plan(level),
        r.clock_in_objective <==> (level == CurrentLevel::DayOne || level == CurrentLevel::DayTwo),
        r.landscape <==> level == CurrentLevel::DayTwo,
        r.scene_assets == spec_assets_of(level),
{
    proof {
        lemma_spawn_plan_by_level(level);
    }
    match level {
        CurrentLevel::DayOne => LevelSpawnPlan {
            scene_assets: LevelAssetKind::Main,
            navmesh_assets: LevelAssetKind::Main,
            clock_in_objective: true,
            landscape: false,
        },
        CurrentLevel::DayTwo => LevelSpawnPlan {
            scene_assets: LevelAssetKind::Two,
            navmesh_assets: LevelAssetKind::Main,
            clock_in_objective: true,
            landscape: true,
        },
        CurrentLevel::Train => LevelSpawnPlan {
            scene_assets: LevelAssetKind::Train,
            navmesh_assets: LevelAssetKind::Train,
            clock_in_objective: false,
            landscape: false,
        },
        CurrentLevel::Karoline => LevelSpawnPlan {
            scene_assets: LevelAssetKind::Karoline,
            navmesh_assets: LevelAssetKind::Karoline,
            clock_in_objective: false,
            landscape: false,
        },
    }
}

/// What each level spawns: the "Clock In" objective exactly on the two office
/// days, the landscape only on the second day, the scene from the level's own
/// assets, and the navmesh from the office assets on both office days and from
/// the level's own assets otherwise.
pub proof fn lemma_spawn_plan_by_level(level: CurrentLevel)
    ensures
        spec_spawn_plan(level).clock_in_objective <==> (level == CurrentLevel::DayOne || level == CurrentLevel::DayTwo),
        spec_spawn_plan(level).landscape <==> level == CurrentLevel::DayTwo,
        spec_spawn_plan(level).scene_assets == spec_assets_of(level),
        (level == CurrentLevel::DayOne || level == CurrentLevel::DayTwo) ==> spec_spawn_plan(level).navmesh_assets == LevelAssetKind::Main,
        level == CurrentLevel::Train ==> spec_spawn_plan(level).navmesh_assets == LevelAssetKind::Train,
        level == CurrentLevel::Karoline ==> spec_spawn_plan(level).navmesh_assets == LevelAssetKind::Karoline,
{
}

/// Advancing loads exactly the assets that the next level spawns its scene from.
pub proof fn lemma_advance_loads_next_scene(level: CurrentLevel)
    ensures
        spec_spawn_plan(next_level(level)).scene_assets == spec_assets_of(next_level(level)),
        spec_assets_of(level) == spec_assets_of(next_level(next_level(next_level(next_level(level))))),
{
    lemma_cycle_has_length_four(level);
    reveal_with_fuel(advance_by, 5);
}

/// Advancing four times from any level returns to that level: the cycle has
/// length four.
pub proof fn lemma_cycle_has_length_four(level: CurrentLevel)
    ensures
        advance_by(level, 4) == level,
{
    reveal_with_fuel(advance_by, 5);
}

/// `next` is injective: two levels with the same successor are the same level.
pub proof fn lemma_next_injective(a: CurrentLevel, b: CurrentLevel)
    requires
        next_level(a) == next_level(b),
    ensures
        a == b,
{
}

/// No level is its own successor, and the successor is the level one position
/// further in the cycle.
pub proof fn lemma_next_moves_one_step(level: CurrentLevel)
    ensures
        next_level(level) != level,
        level_index(next_level(level)) == (level_index(level) + 1) % 4,
{
}

/// The levels come in the order day one, day two, train, Karoline, and then
/// day one again; each level has its own asset collection, and no two levels
/// share one.
pub proof fn lemma_cycle_order_and_assets(a: CurrentLevel, b: CurrentLevel)
    ensures
        next_level(CurrentLevel::DayOne) == CurrentLevel::DayTwo,
        next_level(CurrentLevel::DayTwo) == CurrentLevel::Train,
        next_level(CurrentLevel::Train) == CurrentLevel::Karoline,
        next_level(CurrentLevel::Karoline) == CurrentLevel::DayOne,
        spec_assets_of(CurrentLevel::DayOne) == LevelAssetKind::Main,
        spec_assets_of(CurrentLevel::DayTwo) == LevelAssetKind::Two,
        spec_assets_of(CurrentLevel::Train) == LevelAssetKind::Train,
        spec_assets_of(CurrentLevel::Karoline) == LevelAssetKind::Karoline,
        spec_assets_of(a) == spec_assets_of(b) ==> a == b,
{
}

} // verus!
