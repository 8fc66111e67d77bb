use crate::level::random::Generator;
use crate::level::trash_spawner::{random_trash, well_placed, TrashSpawn};
use vstd::prelude::*;

verus! {

/// Height at which the items of a fresh round lie: 27 world units down.
pub const FLOOR_Y: i32 = -6_912;

/// The fewest items a round starts with.
pub const FIRST_ITEMS_MIN: i32 = 4;

/// One more than the most items a round starts with.
pub const FIRST_ITEMS_END: i32 = 8;

/// As many items as were drawn for the start of a round, each at a random
/// clear position on the floor.
pub fn level_items(rng: &mut Generator, count: i32) -> (spawns: Vec<TrashSpawn>)
    requires
        FIRST_ITEMS_MIN <= count < FIRST_ITEMS_END,
    ensures
        spawns.len() == count,
        forall|i: int| 0 <= i < spawns.len() ==> well_placed(#[trigger] spawns[i], FLOOR_Y as int),
{
    let mut spawns: Vec<TrashSpawn> = Vec::new();
    let mut made: i32 = 0;
    while made < count
        invariant
            0 <= made <= count,
            spawns.len() == made,
            forall|i: int| 0 <= i < spawns.len() ==> well_placed(#[trigger] spawns[i], FLOOR_Y as int),
        decreases count - made,
    {
        spawns.push(random_trash(rng, FLOOR_Y));
        made = made + 1;
    }
    spawns
}

/// The items a round starts with: a number of them drawn from four to
/// seven, each at a random clear position on the floor.
pub fn spawn_level(rng: &mut Generator) -> (spawns: Vec<TrashSpawn>)
    ensures
        FIRST_ITEMS_MIN <= spawns.len() < FIRST_ITEMS_END,
        forall|i: int| 0 <= i < spawns.len() ==> well_placed(#[trigger] spawns[i], FLOOR_Y as int),
{
    let count = rng.draw(FIRST_ITEMS_MIN, FIRST_ITEMS_END);
    level_items(rng, count)
}

} // verus!
