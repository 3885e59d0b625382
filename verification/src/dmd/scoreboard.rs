use vstd::prelude::*;

verus! {

/// What the display reads of a competitive game.
pub struct CompetitiveGame {
    pub player_count: u8,
    /// The player whose turn it is, from 0.
    pub current_player: u8,
    /// Each player's turn number, from 0.
    pub player_turns: Vec<u8>,
    pub player_scores: Vec<u32>,
}

/// The in-game score screen: the current player and ball, counted from 1,
/// the current player's score large, and every player's score in a row of
/// `player_count` columns.
pub struct Scoreboard {
    pub player: u16,
    pub ball: u16,
    pub score: u32,
    pub player_scores: Vec<u32>,
    pub player_count: u8,
}

/// The score screen of a competitive game.
pub fn draw_competitive(player_count: u8, player_scores: &Vec<u32>, current_player: u8, current_player_turn: u8) -> (s: Scoreboard)
    requires
        (current_player as int) < player_scores@.len(),
        current_player < 255,
        current_player_turn < 255,
    ensures
        s.player == current_player + 1,
        s.ball == current_player_turn + 1,
        s.score == player_scores@[current_player as int],
        s.player_scores@ == player_scores@,
        s.player_count == player_count,
{
    let mut all: Vec<u32> = Vec::new();
    let mut i: usize = 0;
    while i < player_scores.len()
        invariant
            0 <= i <= player_scores@.len(),
            all@ == player_scores@.subrange(0, i as int),
        decreases player_scores@.len() - i,
    {
        all.push(player_scores[i]);
        i = i + 1;
        assert(all@ =~= player_scores@.subrange(0, i as int));
    }
    assert(all@ =~= player_scores@);
    Scoreboard {
        player: (current_player + 1) as u16,
        ball: (current_player_turn + 1) as u16,
        score: player_scores[current_player as usize],
        player_scores: all,
        player_count,
    }
}

/// A game the score screen can draw: the current player has a turn and a
/// score, and the labels fit.
pub open spec fn drawable_game(g: CompetitiveGame) -> bool {
    &&& (g.current_player as int) < g.player_turns@.len()
    &&& (g.current_player as int) < g.player_scores@.len()
    &&& g.current_player < 255
    &&& g.player_turns@[g.current_player as int] < 255
}

/// Shows the score of the game in play.
pub struct GamePointsDmdSystem {
    redraw: bool,
}

impl GamePointsDmdSystem {
    pub closed spec fn redraws(&self) -> bool {
        self.redraw
    }

    pub fn new() -> (s: Self)
        ensures
            s.redraws(),
    {
        GamePointsDmdSystem { redraw: true }
    }

    /// Shows while a game runs.
    pub fn is_active(&self, game_started: bool) -> (b: bool)
        ensures
            b == game_started,
    {
        game_started
    }

    /// With a display present, the score screen of the competitive game.
    pub fn on_tick(&self, dmd_present: bool, game: &Option<CompetitiveGame>) -> (s: Option<Scoreboard>)
        requires
            self.redraws() && dmd_present ==> game is Some && drawable_game(game->0),
        ensures
            !(self.redraws() && dmd_present) ==> s is None,
            (self.redraws() && dmd_present) ==> s is Some && {
                let g = game->0;
                let b = s->0;
                &&& b.player == g.current_player + 1
                &&& b.ball == g.player_turns@[g.current_player as int] + 1
                &&& b.score == g.player_scores@[g.current_player as int]
                &&& b.player_scores@ == g.player_scores@
                &&& b.player_count == g.player_count
            },
    {
        if self.redraw && dmd_present {
            match game {
                Some(g) => {
                    let turn = g.player_turns[g.current_player as usize];
                    Some(draw_competitive(g.player_count, &g.player_scores, g.current_player, turn))
                },
                None => None,
            }
        } else {
            None
        }
    }
}

/// The labels of the older display in a game: player and ball counted from
/// 1, and the score, 0 before the first points.
pub fn in_game_labels(current_player: u8, current_turn: u8, score: Option<u32>) -> (r: (u16, u16, u32))
    ensures
        r.0 == current_player + 1,
        r.1 == current_turn + 1,
        r.2 == match score {
            Some(s) => s,
            None => 0,
        },
{
    let s = match score {
        Some(s) => s,
        None => 0,
    };
    ((current_player as u16) + 1, (current_turn as u16) + 1, s)
}

} // verus!
