use crate::level::random::Generator;
use crate::level::types::TrashSpawnEvent;
use vstd::prelude::*;

verus! {

/// Leftmost spawn position: 70 world units left of the centre.
pub const SPAWN_X_MIN: i32 = -17_920;

/// One past the rightmost spawn position: 70 world units right of the centre.
pub const SPAWN_X_END: i32 = 17_920;

/// Left edge of the band kept free around the can: 8 world units left.
pub const CAN_BAND_LEFT: i32 = -2_048;

/// Right edge of the band kept free around the can: 9 world units right.
pub const CAN_BAND_RIGHT: i32 = 2_304;

/// How many positions lie left of the band.
pub const CLEAR_LEFT: i32 = 15_872;

/// How many positions are clear of the can in all.
pub const CLEAR_POSITIONS: i32 = 31_487;

/// Height at which an item drops in during a round: 50 world units up.
pub const DROP_Y: i32 = 12_800;

/// How many pictures an item can have.
pub const SPRITE_VARIANTS: u8 = 9;

/// How many positions are drawn from the whole width for one item. Should
/// all of them fall inside the band, the position is taken from a draw among
/// the clear positions.
pub const REDRAWS: usize = 16;

/// An item to bring into play: where, and with which picture (`1..=9`).
#[derive(Debug, Clone, Copy, PartialEq, Eq, Structural)]
pub struct TrashSpawn {
    pub x: i32,
    pub y: i32,
    pub sprite: u8,
}

/// A horizontal position at which an item may appear: within 70 world units
/// of the centre and outside the band around the can, both of whose edges
/// belong to the band.
pub open spec fn clear_of_can(x: int) -> bool {
    &&& SPAWN_X_MIN <= x < SPAWN_X_END
    &&& !(CAN_BAND_LEFT <= x <= CAN_BAND_RIGHT)
}

/// The clear positions counted from the left: number `index` of them.
pub open spec fn clear_position(index: int) -> int {
    if index < CLEAR_LEFT {
        SPAWN_X_MIN + index
    } else {
        CAN_BAND_RIGHT + 1 + (index - CLEAR_LEFT)
    }
}

/// The place of a clear position in the count from the left.
pub open spec fn clear_index(x: int) -> int {
    if x < CAN_BAND_LEFT {
        x - SPAWN_X_MIN
    } else {
        x - (CAN_BAND_RIGHT + 1) + CLEAR_LEFT
    }
}

/// An item as it is made: a clear position, the given height, a picture
/// that exists.
pub open spec fn well_placed(spawn: TrashSpawn, y: int) -> bool {
    &&& clear_of_can(spawn.x as int)
    &&& spawn.y == y
    &&& 1 <= spawn.sprite <= SPRITE_VARIANTS
}

/// The rejection test on a drawn position: it is kept exactly when it is
/// clear of the can.
pub fn accept_spawn_x(candidate: i32) -> (kept: Option<i32>)
    ensures
        kept == (if clear_of_can(candidate as int) {
            Some(candidate)
        } else {
            None
        }),
{
    if SPAWN_X_MIN <= candidate && candidate < SPAWN_X_END && !(CAN_BAND_LEFT <= candidate
        && candidate <= CAN_BAND_RIGHT) {
        Some(candidate)
    } else {
        None
    }
}

/// The clear position with the given place in the count from the left.
pub fn spawn_x_at(index: i32) -> (x: i32)
    requires
        0 <= index < CLEAR_POSITIONS,
    ensures
        x == clear_position(index as int),
        clear_of_can(x as int),
{
    if index < CLEAR_LEFT {
        SPAWN_X_MIN + index
    } else {
        CAN_BAND_RIGHT + 1 + (index - CLEAR_LEFT)
    }
}

/// Counting the clear positions from the left reaches each of them once and
/// nothing else: a uniform draw of the index is a uniform draw of the
/// position.
pub proof fn lemma_clear_positions_are_counted_once(index: int, x: int)
    ensures
        0 <= index < CLEAR_POSITIONS ==> clear_of_can(clear_position(index)) && clear_index(
            clear_position(index),
        ) == index,
        clear_of_can(x) ==> 0 <= clear_index(x) < CLEAR_POSITIONS && clear_position(
            clear_index(x),
        ) == x,
{
}

/// The first of the drawn positions, from place `from` on, that is clear of
/// the can.
pub open spec fn first_kept(candidates: Seq<i32>, from: int) -> Option<i32>
    decreases candidates.len() - from,
{
    if from < 0 || from >= candidates.len() {
        None
    } else if clear_of_can(candidates[from] as int) {
        Some(candidates[from])
    } else {
        first_kept(candidates, from + 1)
    }
}

/// The position that a run of draws settles: the first drawn position that
/// is clear of the can, as it was drawn; or, if none is, the clear position
/// with the place `fallback` in the count from the left.
pub open spec fn settled(candidates: Seq<i32>, fallback: int) -> int {
    match first_kept(candidates, 0) {
        Some(x) => x as int,
        None => clear_position(fallback),
    }
}

/// Rejection sampling on positions already drawn: runs through the
/// candidates in the order drawn, throws away those inside the band, and
/// takes the first that is clear without changing it. `fallback` decides
/// only when every candidate was thrown away.
pub fn pick_spawn_x(candidates: &Vec<i32>, fallback: i32) -> (x: i32)
    requires
        0 <= fallback < CLEAR_POSITIONS,
    ensures
        x == settled(candidates@, fallback as int),
        clear_of_can(x as int),
{
    let mut at: usize = 0;
    while at < candidates.len()
        invariant
            at <= candidates.len(),
            first_kept(candidates@, 0) == first_kept(candidates@, at as int),
        decreases candidates.len() - at,
    {
        match accept_spawn_x(candidates[at]) {
            Some(x) => {
                return x;
            },
            None => {},
        }
        at = at + 1;
    }
    spawn_x_at(fallback)
}

/// A first draw that is clear of the can is the position, and a draw inside
/// the band never is: the position is always clear, and it is one of the
/// draws unless every draw fell inside the band.
pub proof fn lemma_settled_is_the_first_clear_draw(candidates: Seq<i32>, fallback: int, i: int)
    requires
        0 <= fallback < CLEAR_POSITIONS,
        0 <= i < candidates.len(),
        clear_of_can(candidates[i] as int),
        forall|j: int| 0 <= j < i ==> !clear_of_can(#[trigger] candidates[j] as int),
    ensures
        settled(candidates, fallback) == candidates[i],
        clear_of_can(settled(candidates, fallback)),
{
    lemma_first_kept_skips_the_band(candidates, 0, i);
}

proof fn lemma_first_kept_skips_the_band(candidates: Seq<i32>, from: int, i: int)
    requires
        0 <= from <= i < candidates.len(),
        clear_of_can(candidates[i] as int),
        forall|j: int| from <= j < i ==> !clear_of_can(#[trigger] candidates[j] as int),
    ensures
        first_kept(candidates, from) == Some(candidates[i]),
    decreases i - from,
{
    if from < i {
        lemma_first_kept_skips_the_band(candidates, from + 1, i);
    }
}

/// A position for a new item, never inside the band around the can.
///
/// `REDRAWS` positions are drawn from the whole width, and one place among
/// the clear positions; [`pick_spawn_x`] settles the position from them.
/// Each way gives every clear position the same chance.
pub fn random_spawn_x(rng: &mut Generator) -> (x: i32)
    ensures
        clear_of_can(x as int),
{
    let mut candidates: Vec<i32> = Vec::new();
    while candidates.len() < REDRAWS
        invariant
            candidates.len() <= REDRAWS,
        decreases REDRAWS - candidates.len(),
    {
        candidates.push(rng.draw(SPAWN_X_MIN, SPAWN_X_END));
    }
    let fallback = rng.draw(0, CLEAR_POSITIONS);
    pick_spawn_x(&candidates, fallback)
}

/// The item made from a position and a picture draw (`0` for the first
/// picture).
pub fn trash_at(x: i32, y: i32, picture: i32) -> (spawn: TrashSpawn)
    requires
        0 <= picture < SPRITE_VARIANTS,
    ensures
        spawn == (TrashSpawn { x, y, sprite: (picture + 1) as u8 }),
{
    TrashSpawn { x, y, sprite: (picture + 1) as u8 }
}

/// A new item at height `y`, at a random clear position and with a random
/// picture.
pub fn random_trash(rng: &mut Generator, y: i32) -> (spawn: TrashSpawn)
    ensures
        well_placed(spawn, y as int),
{
    let x = random_spawn_x(rng);
    let picture = rng.draw(0, SPRITE_VARIANTS as i32);
    trash_at(x, y, picture)
}

/// One item dropping in from above for each spawn event read.
pub fn spawn_trash_event(rng: &mut Generator, events: &Vec<TrashSpawnEvent>) -> (spawns: Vec<
    TrashSpawn,
>)
    ensures
        spawns.len() == events.len(),
        forall|i: int| 0 <= i < spawns.len() ==> well_placed(#[trigger] spawns[i], DROP_Y as int),
{
    let mut spawns: Vec<TrashSpawn> = Vec::new();
    let mut read: usize = 0;
    while read < events.len()
        invariant
            read <= events.len(),
            spawns.len() == read,
            forall|i: int| 0 <= i < spawns.len() ==> well_placed(#[trigger] spawns[i], DROP_Y as int),
        decreases events.len() - read,
    {
        spawns.push(random_trash(rng, DROP_Y));
        read = read + 1;
    }
    spawns
}

} // verus!
