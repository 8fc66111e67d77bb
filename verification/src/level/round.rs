use crate::level::random::Generator;
use crate::level::timer::update_timer;
use crate::level::trash_can::{
    despawn_trash, lemma_disposals_add_up, trash_among, Contact, Disposal, DISPOSAL_SOUNDS,
};
use crate::level::trash_spawner::{spawn_trash_event, well_placed, TrashSpawn, DROP_Y};
use crate::level::types::{
    RoundClock, TimeRemaining, TrashSpawnEvent, BONUS_PER_MULTIPLIER_STEP, MULTIPLIER_GAIN,
    SPAWN_EVERY_CUT,
};
use crate::score::PlayerScore;
use crate::state::PauseState;
use crate::ui::types::GameOverEvent;
use vstd::prelude::*;

verus! {

/// What one fixed step of a round asks the frame loop to do.
#[derive(Debug)]
pub struct FixedStep {
    pub game_over: Option<GameOverEvent>,
    pub spawns: Vec<TrashSpawn>,
    pub disposed: Vec<Disposal>,
}

/// A round as plain mathematics: whether it runs, its clock, its score.
pub struct RoundModel {
    pub running: bool,
    pub clock: RoundClock,
    pub score: int,
}

/// What a fixed step is given: its length in microseconds, and how many
/// items lie in the can.
pub struct Frame {
    pub dt: int,
    pub disposals: nat,
}

impl RoundModel {
    /// The step sends game over: the round runs, and the step's time takes
    /// the clock to zero or below.
    pub open spec fn game_over_sent(self, frame: Frame) -> bool {
        self.running && self.clock.tick(frame.dt).expired()
    }

    /// The round after a fixed step. A round that does not run is left as it
    /// is. In one that runs the clock is stepped first; then the items in
    /// the can are disposed of, whether or not the time has just run out.
    pub open spec fn step(self, frame: Frame) -> RoundModel {
        if !self.running {
            self
        } else {
            RoundModel {
                running: !self.clock.tick(frame.dt).expired(),
                clock: self.clock.tick(frame.dt).dispose_n(frame.disposals),
                score: self.score + frame.disposals,
            }
        }
    }

    /// The round after the steps `frames`, taken in order.
    pub open spec fn after(self, frames: Seq<Frame>) -> RoundModel
        decreases frames.len(),
    {
        if frames.len() == 0 {
            self
        } else {
            self.after(frames.drop_last()).step(frames.last())
        }
    }

    /// How many of the steps `frames` send game over.
    pub open spec fn game_overs(self, frames: Seq<Frame>) -> nat
        decreases frames.len(),
    {
        if frames.len() == 0 {
            0
        } else if self.after(frames.drop_last()).game_over_sent(frames.last()) {
            self.game_overs(frames.drop_last()) + 1
        } else {
            self.game_overs(frames.drop_last())
        }
    }
}

/// The round that a phase, a clock and a score make up.
pub open spec fn round_of(phase: PauseState, timer: TimeRemaining, score: PlayerScore) -> RoundModel {
    RoundModel { running: phase.is_running(), clock: timer@, score: score.score as int }
}

/// The step that a frame time and the contacts of the can's sensor make up.
pub open spec fn frame_of(delta: u32, contacts: Seq<Contact>) -> Frame {
    Frame { dt: delta as int, disposals: trash_among(contacts).len() }
}

/// The step stays within what the clock's and the score's fields can hold.
pub open spec fn step_fits(
    phase: PauseState,
    timer: TimeRemaining,
    score: PlayerScore,
    delta: u32,
    contacts: Seq<Contact>,
) -> bool {
    phase.is_running() ==> {
        &&& timer@.tick(delta as int).fits()
        &&& timer@.tick(delta as int).dispose_n(trash_among(contacts).len()).fits()
        &&& score.score + trash_among(contacts).len() <= u64::MAX
    }
}

/// What a fixed step makes of a round and what it hands out.
///
/// Outside the running phase nothing moves. In it the rules act in a fixed
/// order: the clock is stepped; a spawn that fell due brings one item in
/// from above; then every item in the can is disposed of. If the step took
/// the clock to zero or below, game over is sent with the score as it was
/// before this step's disposals, and the round enters its game-over phase.
pub open spec fn is_fixed_step(
    phase: PauseState,
    timer: TimeRemaining,
    score: PlayerScore,
    delta: u32,
    contacts: Seq<Contact>,
    phase_after: PauseState,
    timer_after: TimeRemaining,
    score_after: PlayerScore,
    step: FixedStep,
) -> bool {
    if !phase.is_running() {
        &&& phase_after == phase
        &&& timer_after == timer
        &&& score_after == score
        &&& step.game_over.is_none()
        &&& step.spawns.len() == 0
        &&& step.disposed.len() == 0
    } else {
        &&& timer_after@ == timer@.tick(delta as int).dispose_n(trash_among(contacts).len())
        &&& score_after.score == score.score + trash_among(contacts).len()
        &&& phase_after == (if timer@.tick(delta as int).expired() {
            PauseState::GameOver
        } else {
            PauseState::Running
        })
        &&& step.game_over == (if timer@.tick(delta as int).expired() {
            Some(GameOverEvent { final_score: score.score })
        } else {
            None
        })
        &&& step.spawns.len() == (if timer@.spawn_due(delta as int) {
            1nat
        } else {
            0nat
        })
        &&& forall|i: int|
            0 <= i < step.spawns.len() ==> well_placed(#[trigger] step.spawns[i], DROP_Y as int)
        &&& step.disposed.len() == trash_among(contacts).len()
        &&& forall|i: int|
            0 <= i < step.disposed.len() ==> (#[trigger] step.disposed[i]).entity == trash_among(
                contacts,
            )[i] && 1 <= step.disposed[i].sound <= DISPOSAL_SOUNDS
    }
}

/// One fixed step of a round in phase `phase`, for a caller that knows the
/// step to stay within the machine's limits.
pub fn fixed_update(
    rng: &mut Generator,
    phase: &mut PauseState,
    timer: &mut TimeRemaining,
    score: &mut PlayerScore,
    delta: u32,
    contacts: &Vec<Contact>,
) -> (step: FixedStep)
    requires
        step_fits(*old(phase), *old(timer), *old(score), delta, contacts@),
    ensures
        is_fixed_step(
            *old(phase),
            *old(timer),
            *old(score),
            delta,
            contacts@,
            *final(phase),
            *final(timer),
            *final(score),
            step,
        ),
        round_of(*final(phase), *final(timer), *final(score)) == round_of(
            *old(phase),
            *old(timer),
            *old(score),
        ).step(frame_of(delta, contacts@)),
        step.game_over.is_some() == round_of(*old(phase), *old(timer), *old(score)).game_over_sent(
            frame_of(delta, contacts@),
        ),
        *final(phase) == *old(phase) || old(phase).leads_to(*final(phase)),
{
    if !phase.gameplay_runs() {
        return FixedStep { game_over: None, spawns: Vec::new(), disposed: Vec::new() };
    }
    let events = update_timer(timer, delta, score);

    let mut due: Vec<TrashSpawnEvent> = Vec::new();
    match events.spawn {
        Some(event) => {
            due.push(event);
        },
        None => {},
    }
    let spawns = spawn_trash_event(rng, &due);

    let disposed = despawn_trash(rng, contacts, score, timer);

    if events.game_over.is_some() {
        *phase = PauseState::GameOver;
    }
    FixedStep { game_over: events.game_over, spawns, disposed }
}


/// How many of the contacts are items.
fn count_trash(contacts: &Vec<Contact>) -> (count: usize)
    ensures
        count == trash_among(contacts@).len(),
{
    let mut count: usize = 0;
    let mut at: usize = 0;
    assert(contacts@.take(0) =~= Seq::empty());
    while at < contacts.len()
        invariant
            at <= contacts.len(),
            count <= at,
            count == trash_among(contacts@.take(at as int)).len(),
        decreases contacts.len() - at,
    {
        assert(contacts@.take(at + 1).drop_last() =~= contacts@.take(at as int));
        if contacts[at].is_trash {
            count = count + 1;
        }
        at = at + 1;
    }
    assert(contacts@.take(at as int) =~= contacts@);
    count
}

/// Whether a fixed step stays within the machine's limits.
pub fn step_in_range(
    phase: PauseState,
    timer: &TimeRemaining,
    score: &PlayerScore,
    delta: u32,
    contacts: &Vec<Contact>,
) -> (fits: bool)
    ensures
        fits == step_fits(phase, *timer, *score, delta, contacts@),
{
    if !phase.gameplay_runs() {
        return true;
    }
    let count = count_trash(contacts);
    let ghost ticked = timer@.tick(delta as int);
    let ghost n = count as nat;
    proof {
        lemma_disposals_add_up(ticked, n);
        assert(0 <= delta * timer.multiplier <= 0xFFFF_FFFF * 0xFFFF_FFFF) by (nonlinear_arith)
            requires
                0 <= delta <= 0xFFFF_FFFF,
                0 <= timer.multiplier <= 0xFFFF_FFFF,
        ;
    }
    let left: i128 = timer.remaining as i128 - (delta as i128) * (timer.multiplier as i128);
    if left < i64::MIN as i128 {
        return false;
    }
    assert(ticked.fits());
    if count as u128 + score.score as u128 > u64::MAX as u128 {
        return false;
    }
    let room: u32 = (u32::MAX - timer.multiplier) / MULTIPLIER_GAIN;
    if count as u128 > room as u128 {
        assert(ticked.multiplier + MULTIPLIER_GAIN * n > u32::MAX);
        return false;
    }
    let disposals: i128 = count as i128;
    if timer.spawn_every as i128 - (SPAWN_EVERY_CUT as i128) * disposals < i64::MIN as i128 {
        return false;
    }
    let pace: i128 = 2 * (timer.multiplier as i128) + (MULTIPLIER_GAIN as i128) * (disposals - 1);
    assert(0 <= disposals * pace <= 0x4000_0000 * 0x4_0000_0000) by (nonlinear_arith)
        requires
            0 <= disposals <= 0x4000_0000,
            disposals == 0 ==> pace >= -5,
            disposals > 0 ==> 0 <= pace,
            pace <= 0x4_0000_0000,
    ;
    let twice_granted: i128 = (BONUS_PER_MULTIPLIER_STEP as i128) * (disposals * pace);
    2 * left + twice_granted <= 2 * (i64::MAX as i128)
}

/// One fixed step of a round in phase `phase`, for any caller. A step that
/// would leave the machine's limits is not taken: nothing is handed out and
/// the round stays as it is.
pub fn try_fixed_update(
    rng: &mut Generator,
    phase: &mut PauseState,
    timer: &mut TimeRemaining,
    score: &mut PlayerScore,
    delta: u32,
    contacts: &Vec<Contact>,
) -> (step: Option<FixedStep>)
    ensures
        step.is_some() == step_fits(*old(phase), *old(timer), *old(score), delta, contacts@),
        step.is_none() ==> {
            &&& *final(phase) == *old(phase)
            &&& *final(timer) == *old(timer)
            &&& *final(score) == *old(score)
        },
        step.is_some() ==> is_fixed_step(
            *old(phase),
            *old(timer),
            *old(score),
            delta,
            contacts@,
            *final(phase),
            *final(timer),
            *final(score),
            step.unwrap(),
        ),
{
    if step_in_range(*phase, timer, score, delta, contacts) {
        Some(fixed_update(rng, phase, timer, score, delta, contacts))
    } else {
        None
    }
}

/// A round that has stopped running stays stopped, and sends nothing more.
pub proof fn lemma_a_stopped_round_stays_stopped(start: RoundModel, frames: Seq<Frame>)
    requires
        !start.running,
    ensures
        start.after(frames) == start,
        start.game_overs(frames) == 0,
    decreases frames.len(),
{
    if frames.len() > 0 {
        lemma_a_stopped_round_stays_stopped(start, frames.drop_last());
    }
}

/// Game over is sent once, on the step that first takes the clock to zero or
/// below.
///
/// Over any run of steps of a running round, at most one step sends game
/// over; one has done so exactly if the round no longer runs. The step that
/// sends it is the first after which the clock stood at zero or below, and
/// no later step sends it again.
pub proof fn lemma_game_over_is_sent_once(start: RoundModel, frames: Seq<Frame>)
    requires
        start.running,
    ensures
        start.game_overs(frames) <= 1,
        start.game_overs(frames) == 1 <==> !start.after(frames).running,
        forall|i: int|
            0 <= i < frames.len() ==> (#[trigger] start.after(frames.take(i)).game_over_sent(
                frames[i],
            ) <==> start.after(frames.take(i)).running && !start.after(frames.take(i + 1)).running),
        forall|i: int, j: int|
            0 <= i < j < frames.len() && #[trigger] start.after(frames.take(i)).game_over_sent(
                frames[i],
            ) ==> !#[trigger] start.after(frames.take(j)).game_over_sent(frames[j]),
    decreases frames.len(),
{
    if frames.len() > 0 {
        let front = frames.drop_last();
        let last = frames.len() - 1;
        lemma_game_over_is_sent_once(start, front);
        assert(frames.take(last) =~= front);
        assert(frames.take(last + 1) =~= frames);
        assert forall|i: int| 0 <= i < frames.len() implies (#[trigger] start.after(
            frames.take(i),
        ).game_over_sent(frames[i]) <==> start.after(frames.take(i)).running && !start.after(
            frames.take(i + 1),
        ).running) by {
            if i < last {
                assert(front.take(i) =~= frames.take(i));
                assert(front.take(i + 1) =~= frames.take(i + 1));
                assert(front[i] == frames[i]);
            }
        }
        assert forall|i: int, j: int|
            0 <= i < j < frames.len() && #[trigger] start.after(frames.take(i)).game_over_sent(
                frames[i],
            ) implies !#[trigger] start.after(frames.take(j)).game_over_sent(frames[j]) by {
            assert(front.take(i) =~= frames.take(i));
            assert(front[i] == frames[i]);
            if j < last {
                assert(front.take(j) =~= frames.take(j));
                assert(front[j] == frames[j]);
            } else {
                lemma_sending_stops_the_round(start, front, i);
            }
        }
    } else {
        assert(frames.take(0) =~= frames);
    }
}

/// Once a step has sent game over the round does not run any more.
proof fn lemma_sending_stops_the_round(start: RoundModel, frames: Seq<Frame>, i: int)
    requires
        0 <= i < frames.len(),
        start.after(frames.take(i)).game_over_sent(frames[i]),
    ensures
        !start.after(frames).running,
    decreases frames.len(),
{
    let last = frames.len() - 1;
    if i == last {
        assert(frames.take(i) =~= frames.drop_last());
    } else {
        let front = frames.drop_last();
        assert(front.take(i) =~= frames.take(i));
        assert(front[i] == frames[i]);
        lemma_sending_stops_the_round(start, front, i);
    }
}

/// Over a round the pace only tightens, and it does so in step with the
/// score: every point is one disposal, each of which raised the multiplier
/// and cut the spawn interval by its fixed amount.
pub proof fn lemma_the_pace_follows_the_score(start: RoundModel, frames: Seq<Frame>)
    ensures
        start.after(frames).score >= start.score,
        start.after(frames).clock.multiplier == start.clock.multiplier + MULTIPLIER_GAIN * (
        start.after(frames).score - start.score),
        start.after(frames).clock.spawn_interval == start.clock.spawn_interval - SPAWN_EVERY_CUT
            * (start.after(frames).score - start.score),
    decreases frames.len(),
{
    if frames.len() > 0 {
        let before = start.after(frames.drop_last());
        lemma_the_pace_follows_the_score(start, frames.drop_last());
        if before.running {
            lemma_disposals_add_up(before.clock.tick(frames.last().dt), frames.last().disposals);
        }
    }
}

} // verus!
