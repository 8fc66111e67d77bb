use crate::level::random::Generator;
use crate::level::types::{
    RoundClock, TimeRemaining, BONUS_PER_MULTIPLIER_STEP, MULTIPLIER_GAIN, MULTIPLIER_ONE,
    SPAWN_EVERY_CUT,
};
use crate::score::PlayerScore;
use vstd::prelude::*;

verus! {

/// How many sounds a disposal can make.
pub const DISPOSAL_SOUNDS: u8 = 4;

/// Something that overlaps the can's sensor in this step, and whether it is
/// an item in play.
#[derive(Debug, Clone, Copy, PartialEq, Eq, Structural)]
pub struct Contact {
    pub entity: u64,
    pub is_trash: bool,
}

/// An item to take out of play, with the sound (`1..=4`) to play for it.
#[derive(Debug, Clone, Copy, PartialEq, Eq, Structural)]
pub struct Disposal {
    pub entity: u64,
    pub sound: u8,
}

/// The items among the contacts, in the order the contacts came in.
pub open spec fn trash_among(contacts: Seq<Contact>) -> Seq<u64>
    decreases contacts.len(),
{
    if contacts.len() == 0 {
        Seq::empty()
    } else if contacts.last().is_trash {
        trash_among(contacts.drop_last()).push(contacts.last().entity)
    } else {
        trash_among(contacts.drop_last())
    }
}

/// A run of disposals in closed form: the multiplier and the spawn interval
/// move by one fixed step each per disposal, the wait for the next spawn
/// stays, and the time granted adds up to the bonus of every multiplier the
/// run went through. With a multiplier that is not negative no disposal
/// takes time away.
pub proof fn lemma_disposals_add_up(clock: RoundClock, n: nat)
    ensures
        clock.dispose_n(n).multiplier == clock.multiplier + MULTIPLIER_GAIN * n,
        clock.dispose_n(n).spawn_interval == clock.spawn_interval - SPAWN_EVERY_CUT * n,
        clock.dispose_n(n).time_since_last_spawn == clock.time_since_last_spawn,
        2 * (clock.dispose_n(n).remaining - clock.remaining) == BONUS_PER_MULTIPLIER_STEP * (n * (2
            * clock.multiplier + MULTIPLIER_GAIN * (n - 1))),
        clock.multiplier >= 0 ==> clock.dispose_n(n).remaining >= clock.remaining,
        clock.multiplier >= 0 && n > 0 ==> clock.dispose_n(n).remaining >= clock.dispose_n(
            (n - 1) as nat,
        ).remaining,
    decreases n,
{
    if n > 0 {
        let k = (n - 1) as nat;
        let m = clock.multiplier;
        lemma_disposals_add_up(clock, k);
        assert(k * (2 * m + 5 * (k - 1)) + 2 * (m + 5 * k) == (k + 1) * (2 * m + 5 * k))
            by (nonlinear_arith);
        assert(1_750_000 * (k * (2 * m + 5 * (k - 1))) + 2 * (1_750_000 * (m + 5 * k))
            == 1_750_000 * (k * (2 * m + 5 * (k - 1)) + 2 * (m + 5 * k))) by (nonlinear_arith);
        if m >= 0 {
            assert(1_750_000 * (m + 5 * k) >= 0) by (nonlinear_arith)
                requires
                    m >= 0,
                    k >= 0,
            ;
        }
    } else {
        assert(n * (2 * clock.multiplier + MULTIPLIER_GAIN * (n - 1)) == 0) by (nonlinear_arith)
            requires
                n == 0,
        ;
    }
}

/// The time that `k` disposals in a row grant when the first finds the
/// multiplier at `multiplier`: each grants the bonus of the multiplier as it
/// stands before its own gain.
pub open spec fn granted(multiplier: int, k: nat) -> int
    decreases k,
{
    if k == 0 {
        0
    } else {
        granted(multiplier, (k - 1) as nat) + BONUS_PER_MULTIPLIER_STEP * (multiplier
            + MULTIPLIER_GAIN * (k - 1))
    }
}

/// Disposals are what adds time: `k` of them grant the sum of their
/// bonuses, and with a multiplier of at least 1.0 that is no less than 1.75
/// seconds for each.
pub proof fn lemma_disposals_grant_their_bonuses(clock: RoundClock, k: nat)
    ensures
        clock.dispose_n(k).remaining == clock.remaining + granted(clock.multiplier, k),
        clock.multiplier >= MULTIPLIER_ONE ==> granted(clock.multiplier, k)
            >= BONUS_PER_MULTIPLIER_STEP * MULTIPLIER_ONE * k,
        clock.multiplier >= MULTIPLIER_ONE && k >= 1 ==> clock.dispose_n(k).remaining
            > clock.remaining,
    decreases k,
{
    if k > 0 {
        let j = (k - 1) as nat;
        lemma_disposals_grant_their_bonuses(clock, j);
        lemma_disposals_add_up(clock, j);
        if clock.multiplier >= MULTIPLIER_ONE {
            assert(1_750_000 * (clock.multiplier + 5 * j) >= 175_000_000) by (nonlinear_arith)
                requires
                    clock.multiplier >= 100,
                    j >= 0,
            ;
            assert(175_000_000 * j + 175_000_000 == 175_000_000 * k) by (nonlinear_arith)
                requires
                    k == j + 1,
            ;
        }
    }
}

/// Fewer disposals leave every quantity between where it began and where
/// more disposals take it.
proof fn lemma_fewer_disposals_fit(clock: RoundClock, k: nat, n: nat)
    requires
        clock.fits(),
        clock.dispose_n(n).fits(),
        k <= n,
    ensures
        clock.dispose_n(k).fits(),
        clock.dispose_n(k).remaining <= clock.dispose_n(n).remaining,
    decreases n - k,
{
    lemma_disposals_add_up(clock, k);
    lemma_disposals_add_up(clock, n);
    if k < n {
        lemma_fewer_disposals_fit(clock, k + 1, n);
        lemma_disposals_add_up(clock, k + 1);
    }
}

/// The items among a longer run of contacts extend those among a shorter.
proof fn lemma_trash_among_grows(contacts: Seq<Contact>, i: int)
    requires
        0 <= i <= contacts.len(),
    ensures
        trash_among(contacts.take(i)).len() <= trash_among(contacts).len(),
    decreases contacts.len() - i,
{
    if i < contacts.len() {
        lemma_trash_among_grows(contacts, i + 1);
        assert(contacts.take(i + 1).drop_last() =~= contacts.take(i));
    } else {
        assert(contacts.take(i) =~= contacts);
    }
}

/// Grants the clock the bonus of one disposal.
pub fn disposal_bonus(timer: &mut TimeRemaining)
    requires
        old(timer)@.dispose().fits(),
    ensures
        final(timer)@ == old(timer)@.dispose(),
{
    timer.remaining = timer.remaining + BONUS_PER_MULTIPLIER_STEP * (timer.multiplier as i64);
    timer.multiplier = timer.multiplier + MULTIPLIER_GAIN;
    timer.spawn_every = timer.spawn_every - SPAWN_EVERY_CUT;
}

/// The disposal rule for one step: every item that overlaps the can's sensor
/// is taken out of play, scores a point, makes one of the disposal sounds and
/// grants the clock its bonus.
pub fn despawn_trash(
    rng: &mut Generator,
    contacts: &Vec<Contact>,
    score: &mut PlayerScore,
    timer: &mut TimeRemaining,
) -> (disposed: Vec<Disposal>)
    requires
        old(score).score + trash_among(contacts@).len() <= u64::MAX,
        old(timer)@.dispose_n(trash_among(contacts@).len()).fits(),
    ensures
        disposed.len() == trash_among(contacts@).len(),
        forall|i: int|
            0 <= i < disposed.len() ==> (#[trigger] disposed[i]).entity == trash_among(
                contacts@,
            )[i] && 1 <= disposed[i].sound <= DISPOSAL_SOUNDS,
        final(score).score == old(score).score + trash_among(contacts@).len(),
        final(timer)@ == old(timer)@.dispose_n(trash_among(contacts@).len()),
{
    let ghost points = score.score;
    let ghost clock = timer@;
    let ghost all = trash_among(contacts@).len();
    let mut disposed: Vec<Disposal> = Vec::new();
    let mut seen: usize = 0;
    assert(contacts@.take(0) =~= Seq::empty());
    while seen < contacts.len()
        invariant
            seen <= contacts.len(),
            all == trash_among(contacts@).len(),
            points + all <= u64::MAX,
            clock.fits(),
            clock.dispose_n(all).fits(),
            disposed.len() == trash_among(contacts@.take(seen as int)).len(),
            forall|i: int|
                0 <= i < disposed.len() ==> (#[trigger] disposed[i]).entity == trash_among(
                    contacts@.take(seen as int),
                )[i] && 1 <= disposed[i].sound <= DISPOSAL_SOUNDS,
            score.score == points + disposed.len(),
            timer@ == clock.dispose_n(disposed.len() as nat),
        decreases contacts.len() - seen,
    {
        let contact = contacts[seen];
        proof {
            assert(contacts@.take(seen + 1).drop_last() =~= contacts@.take(seen as int));
            lemma_trash_among_grows(contacts@, seen + 1);
        }
        if contact.is_trash {
            proof {
                lemma_fewer_disposals_fit(clock, (disposed.len() + 1) as nat, all);
            }
            let sound = rng.draw(1, DISPOSAL_SOUNDS as i32 + 1);
            disposed.push(Disposal { entity: contact.entity, sound: sound as u8 });
            score.score = score.score + 1;
            disposal_bonus(timer);
        }
        seen = seen + 1;
    }
    assert(contacts@.take(seen as int) =~= contacts@);
    disposed
}

} // verus!
