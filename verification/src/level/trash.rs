use crate::level::types::{Point, Trash};
use vstd::prelude::*;

verus! {

/// World length of one picture pixel, in 256ths of a world unit: a picture
/// 512 pixels wide is drawn 30 world units wide.
pub const OUTLINE_SCALE: i32 = 15;

/// Twice the speed, in 256ths of a world unit per second, from which an
/// impact is heard: the two axes together must average 20 world units per
/// second.
pub const HARD_HIT: i64 = 10_240;

/// A point of a picture's silhouette, in pixels from the picture's centre.
#[derive(Debug, Clone, Copy, PartialEq, Eq, Structural)]
pub struct Pixel {
    pub x: i16,
    pub y: i16,
}

/// What the four short rays cast from one free pointer have hit. Only items
/// that nothing holds count as hits.
#[derive(Debug, Clone, Copy, PartialEq, Eq, Structural)]
pub struct Probe {
    pub cursor: u64,
    pub right: Option<u64>,
    pub up: Option<u64>,
    pub left: Option<u64>,
    pub down: Option<u64>,
}

/// A pick-up to carry out: join `trash` to `cursor`, mark both, play the
/// pick-up sound, and record the first interaction if `first_click` is set.
#[derive(Debug, Clone, Copy, PartialEq, Eq, Structural)]
pub struct Grab {
    pub cursor: u64,
    pub trash: u64,
    pub first_click: bool,
}

/// What letting go undoes: the mark on the pointer, the mark on the item,
/// and the joint, whose removal is heard.
#[derive(Debug, Clone, Copy, PartialEq, Eq, Structural)]
pub struct Release {
    pub cursor: Option<u64>,
    pub trash: Option<u64>,
    pub joint: Option<u64>,
    pub sound: bool,
}

/// An item's movement in one physics step: its velocity in 256ths of a world
/// unit per second, and whether it touches anything.
#[derive(Debug, Clone, Copy, PartialEq, Eq, Structural)]
pub struct Motion {
    pub vx: i32,
    pub vy: i32,
    pub touching: bool,
}

impl Probe {
    /// The hit that counts: the rays are tried to the right, up, to the left
    /// and down, and the first that hit anything decides.
    pub open spec fn first_hit(self) -> Option<u64> {
        if self.right.is_some() {
            self.right
        } else if self.up.is_some() {
            self.up
        } else if self.left.is_some() {
            self.left
        } else {
            self.down
        }
    }

    /// The hit that counts, if any ray hit.
    pub fn hit(&self) -> (hit: Option<u64>)
        ensures
            hit == self.first_hit(),
    {
        if self.right.is_some() {
            self.right
        } else if self.up.is_some() {
            self.up
        } else if self.left.is_some() {
            self.left
        } else {
            self.down
        }
    }
}

/// The first pointer, from place `from` on, with a hit under one of its rays,
/// together with that hit.
pub open spec fn first_hold(probes: Seq<Probe>, from: int) -> Option<(u64, u64)>
    decreases probes.len() - from,
{
    if from < 0 || from >= probes.len() {
        None
    } else if probes[from].first_hit().is_some() {
        Some((probes[from].cursor, probes[from].first_hit().unwrap()))
    } else {
        first_hold(probes, from + 1)
    }
}

/// The pick-up that a press leads to.
pub open spec fn grab_for(just_pressed: bool, probes: Seq<Probe>, first_click_seen: bool) -> Option<
    Grab,
> {
    if just_pressed && first_hold(probes, 0).is_some() {
        Some(
            Grab {
                cursor: first_hold(probes, 0).unwrap().0,
                trash: first_hold(probes, 0).unwrap().1,
                first_click: !first_click_seen,
            },
        )
    } else {
        None
    }
}

/// The pick-up rule. On the frame the primary button goes down, the first
/// free pointer with an item under one of its four rays takes that item.
/// Without a press, or with nothing under any ray, nothing happens.
pub fn grab_object(just_pressed: bool, probes: &Vec<Probe>, first_click_seen: bool) -> (grab:
    Option<Grab>)
    ensures
        grab == grab_for(just_pressed, probes@, first_click_seen),
{
    if !just_pressed {
        return None;
    }
    let mut at: usize = 0;
    while at < probes.len()
        invariant
            just_pressed,
            at <= probes.len(),
            first_hold(probes@, 0) == first_hold(probes@, at as int),
        decreases probes.len() - at,
    {
        match probes[at].hit() {
            Some(trash) => {
                assert(first_hold(probes@, at as int) == Some((probes@[at as int].cursor, trash)));
                return Some(
                    Grab { cursor: probes[at].cursor, trash, first_click: !first_click_seen },
                );
            },
            None => {},
        }
        at = at + 1;
    }
    None
}

/// A press that finds nothing under any ray of any pointer picks nothing up.
pub proof fn lemma_press_on_nothing_grabs_nothing(probes: Seq<Probe>, first_click_seen: bool)
    requires
        forall|i: int| 0 <= i < probes.len() ==> (#[trigger] probes[i]).first_hit().is_none(),
    ensures
        grab_for(true, probes, first_click_seen).is_none(),
{
    lemma_no_hit_no_hold(probes, 0);
}

proof fn lemma_no_hit_no_hold(probes: Seq<Probe>, from: int)
    requires
        forall|i: int| 0 <= i < probes.len() ==> (#[trigger] probes[i]).first_hit().is_none(),
    ensures
        first_hold(probes, from).is_none(),
    decreases probes.len() - from,
{
    if 0 <= from < probes.len() {
        lemma_no_hit_no_hold(probes, from + 1);
    }
}

/// What letting go undoes, given what is marked at the moment: `holding` is
/// the pointer that holds, `held` the item it holds if that is still in
/// play, `joint` the joint between them.
pub open spec fn release_for(
    pressed: bool,
    holding: Option<u64>,
    held: Option<u64>,
    joint: Option<u64>,
) -> Release {
    if pressed || holding.is_none() {
        Release { cursor: None, trash: None, joint: None, sound: false }
    } else {
        Release { cursor: holding, trash: held, joint, sound: joint.is_some() }
    }
}

/// The let-go rule. While the primary button is up, a pointer that holds
/// gives up its mark, the item it held gives up its own, and the joint goes
/// with a sound. The joint goes whether or not the item is still there: an
/// item can fall into the can while it is held. With nothing held, nothing
/// happens.
pub fn release_object(
    pressed: bool,
    holding: Option<u64>,
    held: Option<u64>,
    joint: Option<u64>,
) -> (release: Release)
    ensures
        release == release_for(pressed, holding, held, joint),
{
    if pressed || holding.is_none() {
        Release { cursor: None, trash: None, joint: None, sound: false }
    } else {
        Release { cursor: holding, trash: held, joint, sound: joint.is_some() }
    }
}

/// Letting go always takes the joint away, and does nothing where nothing
/// is held: after a release no pointer holds and no joint is left, whatever
/// became of the item.
pub proof fn lemma_release_leaves_no_joint(held: Option<u64>, holding: u64, joint: Option<u64>)
    ensures
        release_for(false, Some(holding), held, joint).cursor == Some(holding),
        release_for(false, Some(holding), held, joint).joint == joint,
        release_for(false, Some(holding), held, joint).sound == joint.is_some(),
        release_for(false, None, held, joint) == (Release {
            cursor: None,
            trash: None,
            joint: None,
            sound: false,
        }),
        release_for(true, Some(holding), held, joint) == (Release {
            cursor: None,
            trash: None,
            joint: None,
            sound: false,
        }),
{
}

/// The distance of a velocity component from rest.
pub open spec fn magnitude(v: int) -> int {
    if v < 0 {
        -v
    } else {
        v
    }
}

/// An item that touches something while its two velocity components
/// together reach the hard-hit mark.
pub open spec fn hits_hard(motion: Motion) -> bool {
    motion.touching && magnitude(motion.vx as int) + magnitude(motion.vy as int) >= HARD_HIT
}

/// How many of the items hit hard.
pub open spec fn hard_hits(bodies: Seq<Motion>) -> nat
    decreases bodies.len(),
{
    if bodies.len() == 0 {
        0
    } else if hits_hard(bodies.last()) {
        hard_hits(bodies.drop_last()) + 1
    } else {
        hard_hits(bodies.drop_last())
    }
}

/// The impact rule: how many impact sounds to start in this step. Each item
/// that hits hard starts one, unless an impact sound was still playing when
/// the step began.
pub fn play_hit_sound(bodies: &Vec<Motion>, sounding: bool) -> (sounds: usize)
    ensures
        sounds == (if sounding {
            0
        } else {
            hard_hits(bodies@)
        }),
{
    if sounding {
        return 0;
    }
    let mut sounds: usize = 0;
    let mut at: usize = 0;
    assert(bodies@.take(0) =~= Seq::empty());
    while at < bodies.len()
        invariant
            at <= bodies.len(),
            sounds == hard_hits(bodies@.take(at as int)),
            sounds <= at,
        decreases bodies.len() - at,
    {
        let motion = bodies[at];
        let vx: i64 = if motion.vx < 0 {
            -(motion.vx as i64)
        } else {
            motion.vx as i64
        };
        let vy: i64 = if motion.vy < 0 {
            -(motion.vy as i64)
        } else {
            motion.vy as i64
        };
        assert(bodies@.take(at + 1).drop_last() =~= bodies@.take(at as int));
        if motion.touching && vx + vy >= HARD_HIT {
            sounds = sounds + 1;
        }
        at = at + 1;
    }
    assert(bodies@.take(at as int) =~= bodies@);
    sounds
}

/// A silhouette in world lengths: every pixel coordinate times the outline
/// scale.
pub open spec fn scaled(silhouette: Seq<Pixel>) -> Seq<Point> {
    Seq::new(
        silhouette.len(),
        |i: int|
            Point { x: (OUTLINE_SCALE * silhouette[i].x) as i32, y: (OUTLINE_SCALE * silhouette[i].y) as i32 },
    )
}

/// Brings a picture's silhouette to world lengths.
pub fn scale_outline(silhouette: &Vec<Pixel>) -> (outline: Vec<Point>)
    ensures
        outline@ == scaled(silhouette@),
        forall|i: int|
            0 <= i < outline.len() ==> (#[trigger] outline[i]).x == OUTLINE_SCALE * silhouette[i].x
                && outline[i].y == OUTLINE_SCALE * silhouette[i].y,
{
    let mut outline: Vec<Point> = Vec::new();
    let mut at: usize = 0;
    while at < silhouette.len()
        invariant
            at <= silhouette.len(),
            outline.len() == at,
            forall|i: int|
                0 <= i < at ==> (#[trigger] outline[i]).x == OUTLINE_SCALE * silhouette[i].x
                    && outline[i].y == OUTLINE_SCALE * silhouette[i].y,
        decreases silhouette.len() - at,
    {
        let pixel = silhouette[at];
        outline.push(
            Point { x: OUTLINE_SCALE * (pixel.x as i32), y: OUTLINE_SCALE * (pixel.y as i32) },
        );
        at = at + 1;
    }
    assert(outline@ =~= scaled(silhouette@));
    outline
}

/// Gives an item its outline once its picture is there. The outline is
/// taken over only if a solid body could be built from it; an outline from
/// which none could be built leaves the item as it was, without a body.
pub fn load_trash_collisions(trash: &mut Trash, outline: Vec<Point>, body_built: bool) -> (attached:
    bool)
    ensures
        attached == body_built,
        final(trash).points@ == (if body_built {
            old(trash).points@ + outline@
        } else {
            old(trash).points@
        }),
{
    if body_built {
        let mut outline = outline;
        trash.points.append(&mut outline);
    }
    body_built
}

} // verus!
