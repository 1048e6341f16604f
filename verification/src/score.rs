//! The per-player point count and its tennis call.
//!
//! A point count in `[0, 4]` is rendered as one of the five calls
//! "love", "15", "30", "40", "game"; any other count is invalid.

use vstd::prelude::*;

use crate::game::Point;

verus! {

/// The tennis call for a point count, as a sequence of characters.
/// Counts 1 to 3 render as the numeric calls; 0 and 4 render as the
/// named calls "love" and "game".
pub open spec fn call_of(count: int) -> Seq<char>
    recommends
        0 <= count <= 4,
{
    if count == 0 {
        "love"@
    } else if count == 1 {
        "15"@
    } else if count == 2 {
        "30"@
    } else if count == 3 {
        "40"@
    } else {
        "game"@
    }
}

/// Failure of a score operation: the count it carries is not a valid
/// tennis score (it lies outside `[0, 4]`).
#[derive(Clone, Copy, Debug, PartialEq, Eq, Structural)]
pub enum ScoreError {
    InvalidScore(u8),
}

/// The call for a point count, or `None` for a count outside `[0, 4]`.
pub fn score_to_call(score: u8) -> (r: Option<String>)
    ensures
        score <= 4 ==> (r matches Some(c) && c@ == call_of(score as int)),
        score > 4 ==> r is None,
{
    match score {
        0 => Some(String::from_str("love")),
        1 => Some(String::from_str("15")),
        2 => Some(String::from_str("30")),
        3 => Some(String::from_str("40")),
        4 => Some(String::from_str("game")),
        _ => None,
    }
}

/// A validated point count for one player, always in `[0, 4]`.
///
/// A `Score` is immutable: advancing it by a point produces a new
/// `Score` (or fails) rather than mutating in place.
#[derive(Clone, Copy, Debug, PartialEq, Eq, Structural, Hash)]
pub struct Score {
    count: u8,
}

impl View for Score {
    type V = int;

    closed spec fn view(&self) -> int {
        self.count as int
    }
}

impl Score {
    #[verifier::type_invariant]
    spec fn wf(self) -> bool {
        self.count <= 4
    }

    /// Wraps `score` if it is a valid tennis score, and fails with
    /// `InvalidScore` carrying the offending count otherwise.
    pub fn new(score: u8) -> (r: Result<Score, ScoreError>)
        ensures
            r is Ok <==> score <= 4,
            (r matches Ok(s) ==> s@ == score as int),
            (r matches Err(e) ==> e == ScoreError::InvalidScore(score)),
    {
        if score <= 4 {
            Ok(Score { count: score })
        } else {
            Err(ScoreError::InvalidScore(score))
        }
    }

    /// One more point for this player: a new `Score` with count one
    /// higher, or `InvalidScore` if the count is already 4 ("game").
    ///
    /// The `Point` argument is deliberately ignored: the caller selects
    /// whose score to advance, this method only increments it.
    pub fn add(&self, _point: Point) -> (r: Result<Score, ScoreError>)
        ensures
            r is Ok <==> self@ < 4,
            (r matches Ok(s) ==> s@ == self@ + 1),
            (r matches Err(e) ==> e == ScoreError::InvalidScore(5)),
    {
        proof {
            use_type_invariant(&*self);
        }
        Score::new(self.count + 1)
    }

    /// The call for this score, always defined thanks to the invariant.
    pub fn display(&self) -> (r: String)
        ensures
            r@ == call_of(self@),
    {
        proof {
            use_type_invariant(&*self);
        }
        match score_to_call(self.count) {
            Some(c) => c,
            None => unreached(),
        }
    }
}

} // verus!
