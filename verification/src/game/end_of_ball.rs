use vstd::prelude::*;
use crate::signals::{Action, Signal, Sound};

verus! {

/// How long the music fades out at the end of a ball.
pub const END_OF_BALL_FADE_MS: u64 = 500;

/// What an interrupt handler tells the host to do with the event.
#[derive(Debug, Clone, Copy, PartialEq, Eq, Structural)]
pub enum InterruptResult {
    /// The event stops here.
    Halt,
    /// The event goes on to the other systems.
    Continue,
}

/// Ends each ball, and at the end of the game asks the players with a high
/// score for initials before letting the end of the game through.
pub struct EndOfBallSystem {
    initials_needed: Vec<(u64, String, u32)>,
    game_end_scores: Option<Vec<(String, u32)>>,
}

pub struct EndOfBallView {
    /// Table slot, player label and score of each high score still to sign.
    pub initials_needed: Seq<(u64, String, u32)>,
    /// The end of the game held back, with its scores.
    pub game_end_scores: Option<Vec<(String, u32)>>,
}

impl View for EndOfBallSystem {
    type V = EndOfBallView;

    closed spec fn view(&self) -> EndOfBallView {
        EndOfBallView {
            initials_needed: self.initials_needed@,
            game_end_scores: self.game_end_scores,
        }
    }
}

/// The scores that made the table, with the slot the table gave each, in the
/// players' order.
pub open spec fn high_scores(scores: Seq<(String, u32)>, slots: Seq<Option<u64>>) -> Seq<(u64, String, u32)>
    decreases scores.len(),
{
    if scores.len() == 0 {
        seq![]
    } else {
        let i = scores.len() - 1;
        high_scores(scores.drop_last(), slots.subrange(0, i)) + match slots[i] {
            Some(slot) => seq![(slot, scores[i].0, scores[i].1)],
            None => seq![],
        }
    }
}

/// Ask for the first initials still needed, or else let a held end of game through.
pub open spec fn next_initials_state(v: EndOfBallView) -> EndOfBallView {
    if v.initials_needed.len() > 0 {
        v
    } else if v.game_end_scores is Some {
        EndOfBallView { game_end_scores: None, ..v }
    } else {
        v
    }
}

pub open spec fn next_initials_actions(v: EndOfBallView) -> Seq<Action> {
    if v.initials_needed.len() > 0 {
        seq![Action::StartInitialsEntry(v.initials_needed[0].1)]
    } else if v.game_end_scores is Some {
        seq![Action::EmitGameEnded(v.game_end_scores->0)]
    } else {
        seq![]
    }
}

impl EndOfBallSystem {
    pub fn new() -> (s: Self)
        ensures
            s@.initials_needed == Seq::<(u64, String, u32)>::empty(),
            s@.game_end_scores.is_none(),
    {
        EndOfBallSystem { initials_needed: Vec::new(), game_end_scores: None }
    }

    /// Asks to hold the end of the game first of all systems.
    pub fn on_spawn(&self, acts: &mut Vec<Action>)
        ensures
            final(acts)@ == old(acts)@.push(Action::RegisterGameEndedInterrupt(1)),
    {
        acts.push(Action::RegisterGameEndedInterrupt(1));
    }

    fn on_end_of_ball(&self, acts: &mut Vec<Action>)
        ensures
            final(acts)@ == old(acts)@ + seq![
                Action::StopMusic(END_OF_BALL_FADE_MS),
                Action::PlaySfx(Sound::LaneHitComplete),
                Action::AdvanceTurn,
            ],
    {
        acts.push(Action::StopMusic(END_OF_BALL_FADE_MS));
        acts.push(Action::PlaySfx(Sound::LaneHitComplete));
        acts.push(Action::AdvanceTurn);
        assert(final(acts)@ =~= old(acts)@ + seq![
            Action::StopMusic(END_OF_BALL_FADE_MS),
            Action::PlaySfx(Sound::LaneHitComplete),
            Action::AdvanceTurn,
        ]);
    }

    fn get_next_initials(&mut self, acts: &mut Vec<Action>)
        ensures
            final(self)@ == next_initials_state(old(self)@),
            final(acts)@ == old(acts)@ + next_initials_actions(old(self)@),
    {
        if self.initials_needed.len() > 0 {
            let name = self.initials_needed[0].1.clone();
            acts.push(Action::StartInitialsEntry(name));
        } else if self.game_end_scores.is_some() {
            let scores = self.game_end_scores.take().unwrap();
            acts.push(Action::EmitGameEnded(scores));
        }
        assert(final(acts)@ =~= old(acts)@ + next_initials_actions(old(self)@));
    }

    /// The end of the game: with a high score table (`slots` holds, for each
    /// score, the slot the table gives it, if any), the players with a high
    /// score are asked for initials.
    fn on_game_end(&mut self, scores: &Vec<(String, u32)>, slots: Option<Vec<Option<u64>>>, acts: &mut Vec<Action>)
        requires
            slots is Some ==> slots->0@.len() == scores@.len(),
        ensures
            match slots {
                Some(s) => {
                    let v = EndOfBallView { initials_needed: high_scores(scores@, s@), ..old(self)@ };
                    &&& final(self)@ == next_initials_state(v)
                    &&& final(acts)@ == old(acts)@ + next_initials_actions(v)
                },
                None => final(self)@ == old(self)@ && final(acts)@ == old(acts)@,
            },
    {
        if let Some(s) = slots {
            let mut needed: Vec<(u64, String, u32)> = Vec::new();
            let mut i: usize = 0;
            while i < scores.len()
                invariant
                    0 <= i <= scores@.len(),
                    s@.len() == scores@.len(),
                    needed@ == high_scores(scores@.subrange(0, i as int), s@.subrange(0, i as int)),
                decreases scores@.len() - i,
            {
                let ghost sc = scores@.subrange(0, i + 1);
                let ghost sl = s@.subrange(0, i + 1);
                assert(sc.drop_last() =~= scores@.subrange(0, i as int));
                assert(sl.subrange(0, i as int) =~= s@.subrange(0, i as int));
                if let Some(slot) = s[i] {
                    let (name, score) = &scores[i];
                    needed.push((slot, name.clone(), *score));
                }
                assert(needed@ =~= high_scores(sc, sl));
                i = i + 1;
            }
            assert(scores@.subrange(0, scores@.len() as int) =~= scores@);
            assert(s@.subrange(0, s@.len() as int) =~= s@);
            self.initials_needed = needed;
            self.get_next_initials(acts);
        }
    }

    /// A ball ends: the music fades, a sound plays and the turn passes.
    pub fn on_event(&self, event: &Signal, acts: &mut Vec<Action>)
        ensures
            *event == Signal::PlayerTurnEnding ==> final(acts)@ == old(acts)@ + seq![
                Action::StopMusic(END_OF_BALL_FADE_MS),
                Action::PlaySfx(Sound::LaneHitComplete),
                Action::AdvanceTurn,
            ],
            *event != Signal::PlayerTurnEnding ==> final(acts)@ == old(acts)@,
    {
        if *event == Signal::PlayerTurnEnding {
            self.on_end_of_ball(acts);
        }
    }

    /// A player entered initials: the entry at the end of the list is taken
    /// off and, with a high score table, written with these initials; then
    /// the next player is asked.
    pub fn on_initials_entered(&mut self, initials: String, table_present: bool, acts: &mut Vec<Action>)
        ensures
            ({
                let needed = old(self)@.initials_needed;
                let popped = if needed.len() > 0 { needed.drop_last() } else { needed };
                let v = EndOfBallView { initials_needed: popped, ..old(self)@ };
                let written = if needed.len() > 0 && table_present {
                    seq![Action::SetHighScore(needed.last().0, initials, needed.last().2)]
                } else {
                    seq![]
                };
                &&& final(self)@ == next_initials_state(v)
                &&& final(acts)@ == old(acts)@ + written + next_initials_actions(v)
            }),
    {
        if let Some(last) = self.initials_needed.pop() {
            if table_present {
                acts.push(Action::SetHighScore(last.0, initials, last.2));
            }
        }
        self.get_next_initials(acts);
    }

    /// Holds the end of the game until every high score is signed.
    pub fn on_game_ended_interrupt(
        &mut self,
        scores: Vec<(String, u32)>,
        slots: Option<Vec<Option<u64>>>,
        acts: &mut Vec<Action>,
    ) -> (r: InterruptResult)
        requires
            slots is Some ==> slots->0@.len() == scores@.len(),
        ensures
            r == InterruptResult::Halt,
            match slots {
                Some(s) => {
                    let v = EndOfBallView { initials_needed: high_scores(scores@, s@), ..old(self)@ };
                    &&& final(self)@ == EndOfBallView { game_end_scores: Some(scores), ..next_initials_state(v) }
                    &&& final(acts)@ == old(acts)@ + next_initials_actions(v)
                },
                None => {
                    &&& final(self)@ == EndOfBallView { game_end_scores: Some(scores), ..old(self)@ }
                    &&& final(acts)@ == old(acts)@
                },
            },
    {
        self.on_game_end(&scores, slots, acts);
        self.game_end_scores = Some(scores);
        InterruptResult::Halt
    }
}

} // verus!
