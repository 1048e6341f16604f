//! Scoring of a single tennis game.
//!
//! A game is an ordered sequence of points, each won by one of two
//! players. Starting from love-love, every point advances the winner's
//! count one step along love, 15, 30, 40, game; a point for a player
//! already at "game" is an error. `score_game` folds a whole sequence
//! of points and renders the final score, player one's call first.

use vstd::multiset::Multiset;
use vstd::prelude::*;

mod game;
mod score;

pub use game::{bumped, count_of, game_render, GameScore, Player, Point};
pub use score::{call_of, score_to_call, Score, ScoreError};

verus! {

/// How many of the points in `points` were won by `player`.
pub open spec fn points_won(points: Seq<Point>, player: Player) -> int
    decreases points.len(),
{
    if points.len() == 0 {
        0
    } else {
        points_won(points.drop_last(), player) + (if points.last().player == player {
            1int
        } else {
            0int
        })
    }
}

proof fn lemma_points_won_take_step(points: Seq<Point>, player: Player, i: int)
    requires
        0 <= i < points.len(),
    ensures
        points_won(points.take(i + 1), player) == points_won(points.take(i), player) + (
        if points[i].player == player {
            1int
        } else {
            0int
        }),
{
    assert(points.take(i + 1).drop_last() =~= points.take(i));
    assert(points.take(i + 1).last() == points[i]);
}

proof fn lemma_points_won_take_bound(points: Seq<Point>, player: Player, i: int)
    requires
        0 <= i <= points.len(),
    ensures
        points_won(points.take(i), player) <= points_won(points, player),
    decreases points.len() - i,
{
    if i == points.len() {
        assert(points.take(i) =~= points);
    } else {
        lemma_points_won_take_step(points, player, i);
        lemma_points_won_take_bound(points, player, i + 1);
    }
}

/// How many points a player won is the multiplicity of their point in
/// the sequence seen as a multiset.
pub proof fn lemma_points_won_is_multiplicity(points: Seq<Point>, player: Player)
    ensures
        points_won(points, player) == points.to_multiset().count((Point { player })),
    decreases points.len(),
{
    broadcast use vstd::seq_lib::group_to_multiset_ensures;
    broadcast use vstd::multiset::group_multiset_properties;

    if points.len() == 0 {
        assert(points.to_multiset() =~= Multiset::<Point>::empty());
    } else {
        lemma_points_won_is_multiplicity(points.drop_last(), player);
        assert(points =~= points.drop_last().push(points.last()));
    }
}

/// A game's outcome does not depend on the order of its points, only on
/// the multiset of them: two sequences with the same points in any
/// order give each player the same count, hence the same success or
/// failure of `score_game` and the same rendered score.
pub proof fn lemma_outcome_order_independent(points_a: Seq<Point>, points_b: Seq<Point>)
    requires
        points_a.to_multiset() == points_b.to_multiset(),
    ensures
        points_won(points_a, Player::One) == points_won(points_b, Player::One),
        points_won(points_a, Player::Two) == points_won(points_b, Player::Two),
        game_render((points_won(points_a, Player::One), points_won(points_a, Player::Two)))
            == game_render((points_won(points_b, Player::One), points_won(points_b, Player::Two))),
{
    lemma_points_won_is_multiplicity(points_a, Player::One);
    lemma_points_won_is_multiplicity(points_b, Player::One);
    lemma_points_won_is_multiplicity(points_a, Player::Two);
    lemma_points_won_is_multiplicity(points_b, Player::Two);
}

/// Folds `points` left to right from a fresh game and renders the final
/// score. Succeeds exactly when neither player wins more than four
/// points; the first point past "game" fails the whole call.
pub fn score_game(points: Vec<Point>) -> (r: Result<String, ScoreError>)
    ensures
        r is Ok <==> points_won(points@, Player::One) <= 4 && points_won(points@, Player::Two)
            <= 4,
        (r matches Ok(s) ==> s@ == game_render(
            (points_won(points@, Player::One), points_won(points@, Player::Two)),
        )),
        (r matches Err(e) ==> e == ScoreError::InvalidScore(5)),
{
    let mut game = GameScore::new();
    let mut i: usize = 0;
    while i < points.len()
        invariant
            i <= points@.len(),
            game@.0 == points_won(points@.take(i as int), Player::One),
            game@.1 == points_won(points@.take(i as int), Player::Two),
            game@.0 <= 4,
            game@.1 <= 4,
        decreases points@.len() - i,
    {
        let point = points[i];
        match game.scored(point) {
            Ok(next) => {
                proof {
                    lemma_points_won_take_step(points@, Player::One, i as int);
                    lemma_points_won_take_step(points@, Player::Two, i as int);
                }
                game = next;
                i = i + 1;
            },
            Err(e) => {
                proof {
                    lemma_points_won_take_step(points@, point.player, i as int);
                    lemma_points_won_take_bound(points@, point.player, i as int + 1);
                }
                return Err(e);
            },
        }
    }
    proof {
        assert(points@.take(points@.len() as int) =~= points@);
    }
    Ok(game.to_string())
}

} // verus!
