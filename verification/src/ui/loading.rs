use crate::state::PauseState;
use vstd::prelude::*;

verus! {

/// Whether the loading screen still has to show.
#[derive(Debug, Clone, Copy, PartialEq, Eq, Structural)]
pub enum LoadingState {
    Loading,
    Ready,
}

/// What a round is still waiting for. `assets` are the assets asked for and
/// not yet seen loaded; the two counters make the round wait for a number of
/// frames in a row on which nothing was pending.
#[derive(Debug)]
pub struct LoadingData {
    pub assets: Vec<u64>,
    pub confirmation_frames_target: usize,
    pub confirmation_frames_count: usize,
}

impl LoadingData {
    /// Nothing asked for yet, and `confirmation_frames_target` quiet frames
    /// to wait for.
    pub fn new(confirmation_frames_target: usize) -> (data: LoadingData)
        ensures
            data.assets@ == Seq::<u64>::empty(),
            data.confirmation_frames_target == confirmation_frames_target,
            data.confirmation_frames_count == 0,
    {
        LoadingData {
            assets: Vec::new(),
            confirmation_frames_target,
            confirmation_frames_count: 0,
        }
    }
}

/// The asset at place `i` has been reported loaded. A place without a report
/// counts as not loaded.
pub open spec fn reported_loaded(loaded: Seq<bool>, i: int) -> bool {
    0 <= i < loaded.len() && loaded[i]
}

/// The assets not reported loaded, in their order.
pub open spec fn still_pending(assets: Seq<u64>, loaded: Seq<bool>) -> Seq<u64>
    decreases assets.len(),
{
    if assets.len() == 0 {
        Seq::empty()
    } else if reported_loaded(loaded, assets.len() - 1) {
        still_pending(assets.drop_last(), loaded)
    } else {
        still_pending(assets.drop_last(), loaded).push(assets.last())
    }
}

/// The loading gate for one frame; `loaded` reports, place by place, which of
/// the pending assets the asset server now has.
///
/// While an asset is pending or the render pipelines are not ready, the
/// round is sent to its loading phase, the count of quiet frames starts
/// over, and the assets reported loaded leave the list. On a frame with
/// nothing pending the count goes up by one, and the frame on which it
/// reaches the target lets the round run.
pub fn update_loading_data(
    loading_data: &mut LoadingData,
    loading_state: &mut LoadingState,
    pipelines_ready: bool,
    loaded: &Vec<bool>,
) -> (next: Option<PauseState>)
    requires
        old(loading_data).assets.len() == 0 && pipelines_ready ==> old(loading_data).confirmation_frames_count < usize::MAX,
    ensures
        final(loading_data).confirmation_frames_target == old(loading_data).confirmation_frames_target,
        old(loading_data).assets.len() > 0 || !pipelines_ready ==> {
            &&& next == Some(PauseState::Loading)
            &&& final(loading_data).confirmation_frames_count == 0
            &&& final(loading_data).assets@ == still_pending(old(loading_data).assets@, loaded@)
            &&& *final(loading_state) == *old(loading_state)
        },
        old(loading_data).assets.len() == 0 && pipelines_ready ==> {
            &&& final(loading_data).assets@ == old(loading_data).assets@
            &&& final(loading_data).confirmation_frames_count == old(loading_data).confirmation_frames_count + 1
            &&& final(loading_data).confirmation_frames_count == final(loading_data).confirmation_frames_target ==> *final(loading_state) == LoadingState::Ready && next
                == Some(PauseState::Running)
            &&& final(loading_data).confirmation_frames_count != final(loading_data).confirmation_frames_target ==> *final(loading_state) == *old(loading_state) && next
                == None::<PauseState>
        },
{
    if loading_data.assets.len() > 0 || !pipelines_ready {
        loading_data.confirmation_frames_count = 0;

        let mut pending: Vec<u64> = Vec::new();
        let mut at: usize = 0;
        assert(loading_data.assets@.take(0) =~= Seq::empty());
        while at < loading_data.assets.len()
            invariant
                at <= loading_data.assets.len(),
                loading_data.assets@ == old(loading_data).assets@,
                loading_data.confirmation_frames_target == old(loading_data).confirmation_frames_target,
                loading_data.confirmation_frames_count == 0,
                pending@ == still_pending(loading_data.assets@.take(at as int), loaded@),
            decreases loading_data.assets.len() - at,
        {
            assert(loading_data.assets@.take(at + 1).drop_last() =~= loading_data.assets@.take(
                at as int,
            ));
            let is_loaded = at < loaded.len() && loaded[at];
            if !is_loaded {
                pending.push(loading_data.assets[at]);
            }
            at = at + 1;
        }
        assert(loading_data.assets@.take(at as int) =~= loading_data.assets@);
        loading_data.assets = pending;
        Some(PauseState::Loading)
    } else {
        loading_data.confirmation_frames_count = loading_data.confirmation_frames_count + 1;
        if loading_data.confirmation_frames_count == loading_data.confirmation_frames_target {
            *loading_state = LoadingState::Ready;
            Some(PauseState::Running)
        } else {
            None
        }
    }
}

/// Loading only ever throws assets out of the list: what is pending after a
/// frame was pending before it, and was not reported loaded.
pub proof fn lemma_pending_only_shrinks(assets: Seq<u64>, loaded: Seq<bool>)
    ensures
        still_pending(assets, loaded).len() <= assets.len(),
        forall|i: int| 0 <= i < assets.len() && !reported_loaded(loaded, i) ==> still_pending(
            assets,
            loaded,
        ).contains(#[trigger] assets[i]),
        forall|a: u64| #[trigger]
            still_pending(assets, loaded).contains(a) ==> exists|i: int|
                0 <= i < assets.len() && !reported_loaded(loaded, i) && assets[i] == a,
    decreases assets.len(),
{
    if assets.len() > 0 {
        let front = assets.drop_last();
        let last = assets.len() - 1;
        lemma_pending_only_shrinks(front, loaded);
        let kept = still_pending(front, loaded);
        assert forall|i: int| 0 <= i < assets.len() && !reported_loaded(loaded, i) implies still_pending(
            assets,
            loaded,
        ).contains(#[trigger] assets[i]) by {
            if i < last {
                assert(front[i] == assets[i]);
                assert(kept.contains(front[i]));
                let j = choose|j: int| 0 <= j < kept.len() && kept[j] == front[i];
                if reported_loaded(loaded, last) {
                } else {
                    assert(kept.push(assets.last())[j] == assets[i]);
                }
            } else {
                assert(kept.push(assets.last())[kept.len() as int] == assets[i]);
            }
        }
        assert forall|a: u64| #[trigger]
            still_pending(assets, loaded).contains(a) implies exists|i: int|
            0 <= i < assets.len() && !reported_loaded(loaded, i) && assets[i] == a by {
            let j = choose|j: int|
                0 <= j < still_pending(assets, loaded).len() && still_pending(assets, loaded)[j]
                    == a;
            if !reported_loaded(loaded, last) && j == kept.len() {
                assert(assets[last] == a);
            } else {
                assert(kept[j] == a);
                assert(kept.contains(a));
                let i = choose|i: int|
                    0 <= i < front.len() && !reported_loaded(loaded, i) && front[i] == a;
                assert(assets[i] == a);
            }
        }
    }
}

/// The count of quiet frames after the frames `quiet`, each of which was
/// quiet or not, when the count stood at `start` before them.
pub open spec fn count_after(start: int, quiet: Seq<bool>) -> int
    decreases quiet.len(),
{
    if quiet.len() == 0 {
        start
    } else if quiet.last() {
        count_after(start, quiet.drop_last()) + 1
    } else {
        0
    }
}

/// The round is let run only after as many quiet frames in a row as were
/// asked for.
///
/// If frame `i` is the one on which the count reaches a target above zero,
/// that frame is quiet, and so far back as any frame was not quiet, at
/// least the target's number of frames have passed since.
pub proof fn lemma_running_waits_for_quiet_frames(
    start: int,
    target: int,
    quiet: Seq<bool>,
    i: int,
    busy: int,
)
    requires
        0 < target,
        0 <= busy <= i < quiet.len(),
        !quiet[busy],
        quiet[i] && count_after(start, quiet.take(i + 1)) == target,
    ensures
        busy < i,
        i - busy >= target,
        forall|j: int| i - target < j <= i ==> #[trigger] quiet[j],
{
    lemma_count_since_busy(start, quiet, i + 1, busy);
    assert forall|j: int| i - target < j <= i implies #[trigger] quiet[j] by {
        if !quiet[j] {
            lemma_count_since_busy(start, quiet, i + 1, j);
        }
    }
}

/// After a frame that was not quiet, the count is at most the number of
/// frames since.
proof fn lemma_count_since_busy(start: int, quiet: Seq<bool>, k: int, busy: int)
    requires
        0 <= busy < k <= quiet.len(),
        !quiet[busy],
    ensures
        0 <= count_after(start, quiet.take(k)) <= k - 1 - busy,
    decreases k,
{
    let upto = quiet.take(k);
    assert(upto.last() == quiet[k - 1]);
    assert(upto.drop_last() =~= quiet.take(k - 1));
    if busy < k - 1 {
        lemma_count_since_busy(start, quiet, k - 1, busy);
    }
}

} // verus!
