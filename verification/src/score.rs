use vstd::prelude::*;

verus! {

/// The points of the current round: one per item disposed of.
#[derive(Debug, Clone, Copy, PartialEq, Eq, Structural)]
pub struct PlayerScore {
    pub score: u64,
}

impl Default for PlayerScore {
    fn default() -> (ledger: PlayerScore)
        ensures
            ledger.score == 0,
    {
        PlayerScore { score: 0 }
    }
}

} // verus!
