//! Score ranks and bonuses.

use vstd::prelude::*;

verus! {

/// Rank earned by a final score.
#[derive(Clone, Copy, Debug, PartialEq, Eq, Structural)]
pub enum ScoreRank {
    Beginner,
    Intermediate,
    Advanced,
    Expert,
    Master,
    Legendary,
}

pub open spec fn rank_spec(score: u64) -> ScoreRank {
    if score >= 50000 {
        ScoreRank::Legendary
    } else if score >= 25000 {
        ScoreRank::Master
    } else if score >= 10000 {
        ScoreRank::Expert
    } else if score >= 5000 {
        ScoreRank::Advanced
    } else if score >= 1000 {
        ScoreRank::Intermediate
    } else {
        ScoreRank::Beginner
    }
}

/// The rank of a score.
pub fn get_score_rank(score: u64) -> (r: ScoreRank)
    ensures
        r == rank_spec(score),
{
    if score >= 50000 {
        ScoreRank::Legendary
    } else if score >= 25000 {
        ScoreRank::Master
    } else if score >= 10000 {
        ScoreRank::Expert
    } else if score >= 5000 {
        ScoreRank::Advanced
    } else if score >= 1000 {
        ScoreRank::Intermediate
    } else {
        ScoreRank::Beginner
    }
}

/// Bonus for length at level completion: five points per segment beyond the
/// starting three.
pub fn calculate_length_bonus(length: u32) -> (r: u64)
    ensures
        r == if length > 3 { 5 * (length - 3) } else { 0 },
{
    if length > 3 {
        5 * (length as u64 - 3)
    } else {
        0
    }
}

impl ScoreRank {
    /// The title shown for this rank.
    pub fn get_title(&self) -> (r: String)
        ensures
            r@ == title_spec(*self),
    {
        let t = match self {
            ScoreRank::Beginner => "Snake Sprout",
            ScoreRank::Intermediate => "Garden Crawler",
            ScoreRank::Advanced => "Serpent Seeker",
            ScoreRank::Expert => "Viper Virtuoso",
            ScoreRank::Master => "Python Prodigy",
            ScoreRank::Legendary => "Vypertron Vanquisher",
        };
        t.to_string()
    }
}

pub open spec fn title_spec(r: ScoreRank) -> Seq<char> {
    match r {
        ScoreRank::Beginner => "Snake Sprout"@,
        ScoreRank::Intermediate => "Garden Crawler"@,
        ScoreRank::Advanced => "Serpent Seeker"@,
        ScoreRank::Expert => "Viper Virtuoso"@,
        ScoreRank::Master => "Python Prodigy"@,
        ScoreRank::Legendary => "Vypertron Vanquisher"@,
    }
}

} // verus!
