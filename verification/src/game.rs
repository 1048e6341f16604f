//! The two players, the point event, and the score of a game.

use vstd::prelude::*;

use crate::score::{call_of, Score, ScoreError};

verus! {

/// One of the two participants of a game, distinguished by identity.
#[derive(Clone, Copy, Debug, PartialEq, Eq, Structural, Hash)]
pub enum Player {
    One,
    Two,
}

impl Player {
    /// The first player.
    pub fn player_1() -> (p: Player)
        ensures
            p == Player::One,
    {
        Player::One
    }

    /// The second player.
    pub fn player_2() -> (p: Player)
        ensures
            p == Player::Two,
    {
        Player::Two
    }
}

/// A single rally won by one player: the atomic scoring event.
#[derive(Clone, Copy, Debug, PartialEq, Eq, Structural)]
pub struct Point {
    pub player: Player,
}

impl Point {
    /// A point won by `player`.
    pub fn new(player: Player) -> (p: Point)
        ensures
            p.player == player,
    {
        Point { player }
    }
}

/// The component of a score pair that belongs to `player`.
pub open spec fn count_of(counts: (int, int), player: Player) -> int {
    match player {
        Player::One => counts.0,
        Player::Two => counts.1,
    }
}

/// The score pair after `player` wins one more point.
pub open spec fn bumped(counts: (int, int), player: Player) -> (int, int) {
    match player {
        Player::One => (counts.0 + 1, counts.1),
        Player::Two => (counts.0, counts.1 + 1),
    }
}

/// The rendering of a score pair: player one's call, a dash, player
/// two's call — player one always first, whoever leads.
pub open spec fn game_render(counts: (int, int)) -> Seq<char> {
    call_of(counts.0) + "-"@ + call_of(counts.1)
}

/// An immutable snapshot of a game: one `Score` per player.
///
/// A snapshot is never mutated; `scored` returns a distinct new
/// snapshot, so prior ones may be kept (for replay, say) unchanged.
#[derive(Clone, Copy, Debug, PartialEq, Eq, Structural)]
pub struct GameScore {
    player_one: Score,
    player_two: Score,
}

impl View for GameScore {
    type V = (int, int);

    closed spec fn view(&self) -> (int, int) {
        (self.player_one@, self.player_two@)
    }
}

impl GameScore {
    /// A fresh game: both players at love.
    pub fn new() -> (g: GameScore)
        ensures
            g@ == (0int, 0int),
    {
        let player_one = Score::new(0).unwrap();
        let player_two = Score::new(0).unwrap();
        GameScore { player_one, player_two }
    }

    /// The snapshot after `point`: the scoring player's count is one
    /// higher, the other player's entry is copied unchanged. Fails with
    /// `InvalidScore` when the scoring player already stands at "game".
    pub fn scored(&self, point: Point) -> (r: Result<GameScore, ScoreError>)
        ensures
            r is Ok <==> count_of(self@, point.player) < 4,
            (r matches Ok(g) ==> g@ == bumped(self@, point.player)),
            (r matches Err(e) ==> e == ScoreError::InvalidScore(5)),
    {
        match point.player {
            Player::One => match self.player_one.add(point) {
                Ok(s) => Ok(GameScore { player_one: s, player_two: self.player_two }),
                Err(e) => Err(e),
            },
            Player::Two => match self.player_two.add(point) {
                Ok(s) => Ok(GameScore { player_one: self.player_one, player_two: s }),
                Err(e) => Err(e),
            },
        }
    }

    /// The formatted score, `"<player one's call>-<player two's call>"`.
    pub fn to_string(&self) -> (r: String)
        ensures
            r@ == game_render(self@),
    {
        let mut r = self.player_one.display();
        r.append("-");
        let two = self.player_two.display();
        r.append(two.as_str());
        proof {
            assert(r@ =~= game_render(self@));
        }
        r
    }
}

} // verus!
