use vstd::prelude::*;
use crate::chance::random_in;
use crate::dmd::attract_dmd_state::AttractDmdState;
use crate::signals::{Action, CueTiming, Signal, Timer};

verus! {

/// How long each attract screen stays before the next, in milliseconds.
pub const SCREEN_MS: u64 = 7_000;

/// The spore animation: a ping-pong between the first frame of the spore
/// picture and `end_frame`, lasting `duration_ms`, played `cycles` times.
#[derive(Debug, Clone, Copy, PartialEq, Eq, Structural)]
pub struct SporeAnimation {
    pub end_frame: usize,
    pub duration_ms: u64,
    pub cycles: u64,
}

/// What the display shows.
#[derive(Debug, Clone, PartialEq, Eq)]
pub enum AttractScreen {
    Spore(SporeAnimation),
    /// A player's label and score from the last game.
    LastScore(String, u32),
    NeonBluePinball,
    PressStart,
}

/// A spore animation the random picks could give for a picture of
/// `frame_count` frames.
pub open spec fn valid_spore_animation(a: SporeAnimation, frame_count: usize) -> bool {
    &&& 1 <= a.end_frame < frame_count
    &&& 2000 <= a.duration_ms <= 3000
    &&& 1 <= a.cycles <= 2
}

/// Picks the animation at random: a frame other than the first, two to three
/// seconds, once or twice.
pub fn rnd_animation(frame_count: usize) -> (a: SporeAnimation)
    requires
        frame_count >= 2,
    ensures
        valid_spore_animation(a, frame_count),
{
    let last: u64 = (frame_count - 1) as u64;
    let end_frame = random_in(1, last) as usize;
    let duration_ms = random_in(2000, 3000);
    let cycles = random_in(1, 2);
    SporeAnimation { end_frame, duration_ms, cycles }
}

/// The screen can show: a last score needs that many scores from the last
/// game, press start needs a player to be addable.
pub open spec fn drawable(s: AttractDmdState, scores: Option<nat>, player_addable: bool) -> bool {
    match s {
        AttractDmdState::LastScores(i) => scores is Some && i < scores->0,
        AttractDmdState::PressStart => player_addable,
        _ => true,
    }
}

/// The first screen from `s` on that can show, looking at most `fuel` screens ahead.
pub open spec fn resolve(s: AttractDmdState, scores: Option<nat>, player_addable: bool, fuel: nat) -> AttractDmdState
    decreases fuel,
{
    if fuel == 0 || drawable(s, scores, player_addable) {
        s
    } else {
        resolve(s.successor(), scores, player_addable, (fuel - 1) as nat)
    }
}

/// Screens in the rotation.
pub open spec fn rotation_len() -> nat {
    7
}

/// Looking a whole rotation ahead always finds a screen that can show: the
/// title and the spore always can.
pub proof fn lemma_resolve_drawable(s: AttractDmdState, scores: Option<nat>, player_addable: bool)
    requires
        s.in_rotation(),
    ensures
        drawable(resolve(s, scores, player_addable, rotation_len()), scores, player_addable),
        resolve(s, scores, player_addable, rotation_len()).in_rotation(),
{
    reveal_with_fuel(resolve, 8);
}

pub struct AttractModeDmdSystem {
    frame_count: usize,
    spore_anim: SporeAnimation,
    last_scores: Option<Vec<(String, u32)>>,
    state: AttractDmdState,
    cue_id: Option<u64>,
}

pub struct AttractModeDmdView {
    /// Frames of the spore picture.
    pub frame_count: usize,
    pub spore_anim: SporeAnimation,
    /// The labels and scores of the last game, by their views.
    pub last_scores: Option<Seq<(Seq<char>, u32)>>,
    pub state: AttractDmdState,
    pub cue_id: Option<u64>,
}

pub open spec fn scores_view(v: Seq<(String, u32)>) -> Seq<(Seq<char>, u32)> {
    v.map_values(|e: (String, u32)| (e.0@, e.1))
}

pub open spec fn scores_len(v: AttractModeDmdView) -> Option<nat> {
    match v.last_scores {
        Some(s) => Some(s.len()),
        None => None,
    }
}

impl View for AttractModeDmdSystem {
    type V = AttractModeDmdView;

    closed spec fn view(&self) -> AttractModeDmdView {
        AttractModeDmdView {
            frame_count: self.frame_count,
            spore_anim: self.spore_anim,
            last_scores: match self.last_scores {
                Some(s) => Some(scores_view(s@)),
                None => None,
            },
            state: self.state,
            cue_id: self.cue_id,
        }
    }
}

/// Restarting the screen timer: any timer still held is cancelled first.
pub open spec fn cue_next_actions(v: AttractModeDmdView) -> Seq<Action> {
    (match v.cue_id {
        Some(id) => seq![Action::CancelCue(id)],
        None => seq![],
    }) + seq![Action::Cue(Timer::NextScreen, CueTiming::Loop(SCREEN_MS))]
}

pub open spec fn cancel_cue_actions(v: AttractModeDmdView) -> Seq<Action> {
    match v.cue_id {
        Some(id) => seq![Action::CancelCue(id)],
        None => seq![],
    }
}

impl AttractModeDmdSystem {
    /// Every system keeps its screen in the rotation and its spore picture
    /// with a frame past the first.
    pub closed spec fn wf(&self) -> bool {
        self.state.in_rotation() && self.frame_count >= 2 && valid_spore_animation(self.spore_anim, self.frame_count)
    }

    /// Starts on the first screen of the rotation, with a random spore
    /// animation over the `frame_count` frames of the spore picture.
    pub fn new(frame_count: usize) -> (s: Self)
        requires
            frame_count >= 2,
        ensures
            s.wf(),
            s@.frame_count == frame_count,
            s@.state == AttractDmdState::ordered_seq()[0],
            s@.last_scores.is_none(),
            s@.cue_id.is_none(),
    {
        let ordered = AttractDmdState::ordered();
        AttractModeDmdSystem {
            frame_count,
            spore_anim: rnd_animation(frame_count),
            last_scores: None,
            state: ordered[0],
            cue_id: None,
        }
    }

    /// Shows while no game runs and the menu is closed.
    pub fn is_active(&self, game_started: bool, menu_active: bool) -> (b: bool)
        ensures
            b == (!game_started && !menu_active),
    {
        !game_started && !menu_active
    }

    /// Keeps the id the host gave the screen timer just scheduled.
    pub fn record_cue(&mut self, timer: Timer, id: u64)
        requires
            old(self).wf(),
        ensures
            final(self).wf(),
            timer == Timer::NextScreen ==> final(self)@ == (AttractModeDmdView { cue_id: Some(id), ..old(self)@ }),
            timer != Timer::NextScreen ==> final(self)@ == old(self)@,
    {
        if timer == Timer::NextScreen {
            self.cue_id = Some(id);
        }
    }

    fn cancel_cue(&self, acts: &mut Vec<Action>)
        ensures
            final(acts)@ == old(acts)@ + cancel_cue_actions(self@),
    {
        if let Some(id) = self.cue_id {
            acts.push(Action::CancelCue(id));
        }
        assert(final(acts)@ =~= old(acts)@ + cancel_cue_actions(self@));
    }

    fn cue_next(&self, acts: &mut Vec<Action>)
        ensures
            final(acts)@ == old(acts)@ + cue_next_actions(self@),
    {
        self.cancel_cue(acts);
        acts.push(Action::Cue(Timer::NextScreen, CueTiming::Loop(SCREEN_MS)));
        assert(final(acts)@ =~= old(acts)@ + cue_next_actions(self@));
    }

    pub fn on_deactivate(&self, acts: &mut Vec<Action>)
        ensures
            final(acts)@ == old(acts)@ + cancel_cue_actions(self@),
    {
        self.cancel_cue(acts);
    }

    pub fn on_reactivate(&self, acts: &mut Vec<Action>)
        ensures
            final(acts)@ == old(acts)@ + cue_next_actions(self@),
    {
        self.cue_next(acts);
    }

    /// The game's scores arrive: they are kept and the display jumps to the
    /// first of them.
    pub fn on_game_ended(&mut self, scores: Vec<(String, u32)>)
        requires
            old(self).wf(),
        ensures
            final(self).wf(),
            final(self)@ == (AttractModeDmdView {
                last_scores: Some(scores_view(scores@)),
                state: AttractDmdState::LastScores(0),
                ..old(self)@
            }),
    {
        self.last_scores = Some(scores);
        self.state = AttractDmdState::LastScores(0);
    }

    /// The screen timer moves on; the flipper buttons step back and forth and
    /// restart the timer.
    pub fn on_event(&mut self, event: &Signal, acts: &mut Vec<Action>)
        requires
            old(self).wf(),
        ensures
            final(self).wf(),
            *event == Signal::Timer(Timer::NextScreen) ==> {
                &&& final(self)@ == (AttractModeDmdView { state: old(self)@.state.successor(), ..old(self)@ })
                &&& final(acts)@ == old(acts)@
            },
            (event matches Signal::Switch(sw) && sw.left_flipper) ==> {
                &&& final(self)@ == (AttractModeDmdView { state: old(self)@.state.predecessor(), ..old(self)@ })
                &&& final(acts)@ == old(acts)@ + cue_next_actions(old(self)@)
            },
            (event matches Signal::Switch(sw) && !sw.left_flipper && sw.right_flipper) ==> {
                &&& final(self)@ == (AttractModeDmdView { state: old(self)@.state.successor(), ..old(self)@ })
                &&& final(acts)@ == old(acts)@ + cue_next_actions(old(self)@)
            },
            !(*event == Signal::Timer(Timer::NextScreen) || (event matches Signal::Switch(sw) && (sw.left_flipper
                || sw.right_flipper))) ==> final(self)@ == old(self)@ && final(acts)@ == old(acts)@,
    {
        match event {
            Signal::Timer(Timer::NextScreen) => {
                self.state = self.state.next();
            },
            Signal::Switch(sw) => {
                if sw.left_flipper {
                    self.state = self.state.prev();
                    self.cue_next(acts);
                } else if sw.right_flipper {
                    self.state = self.state.next();
                    self.cue_next(acts);
                }
            },
            _ => {},
        }
    }

    /// The screen to show now. A screen that cannot show is skipped for good
    /// in favour of the next one that can; a finished spore animation is
    /// replaced by a new random one.
    pub fn draw(&mut self, spore_anim_complete: bool, player_addable: bool) -> (screen: AttractScreen)
        requires
            old(self).wf(),
        ensures
            final(self).wf(),
            final(self)@.state == resolve(old(self)@.state, scores_len(old(self)@), player_addable, rotation_len()),
            final(self)@.last_scores == old(self)@.last_scores,
            final(self)@.cue_id == old(self)@.cue_id,
            final(self)@.frame_count == old(self)@.frame_count,
            (final(self)@.state != AttractDmdState::Spore || !spore_anim_complete) ==> final(self)@.spore_anim == old(self)@.spore_anim,
            drawable(final(self)@.state, scores_len(old(self)@), player_addable),
            match final(self)@.state {
                AttractDmdState::Spore => screen == AttractScreen::Spore(final(self)@.spore_anim),
                AttractDmdState::LastScores(i) => screen matches AttractScreen::LastScore(text, score) && (text@, score)
                    == old(self)@.last_scores->0[i as int],
                AttractDmdState::NeonBluePinball => screen == AttractScreen::NeonBluePinball,
                AttractDmdState::PressStart => screen == AttractScreen::PressStart,
            },
    {
        let ghost scores = scores_len(self@);
        proof {
            lemma_resolve_drawable(self.state, scores, player_addable);
        }
        let mut fuel: usize = 7;
        while fuel > 0 && !self.can_draw(self.state, player_addable)
            invariant
                self.wf(),
                fuel <= 7,
                scores_len(self@) == scores,
                self@.last_scores == old(self)@.last_scores,
                self@.cue_id == old(self)@.cue_id,
                self@.frame_count == old(self)@.frame_count,
                self@.spore_anim == old(self)@.spore_anim,
                resolve(self@.state, scores, player_addable, fuel as nat) == resolve(
                    old(self)@.state,
                    scores,
                    player_addable,
                    rotation_len(),
                ),
            decreases fuel,
        {
            self.state = self.state.next();
            fuel = fuel - 1;
        }
        match self.state {
            AttractDmdState::Spore => {
                if spore_anim_complete {
                    self.spore_anim = rnd_animation(self.frame_count);
                }
                AttractScreen::Spore(self.spore_anim)
            },
            AttractDmdState::LastScores(i) => {
                match &self.last_scores {
                    Some(scores) => {
                        let (text, score) = &scores[i];
                        AttractScreen::LastScore(text.clone(), *score)
                    },
                    None => AttractScreen::NeonBluePinball,
                }
            },
            AttractDmdState::NeonBluePinball => AttractScreen::NeonBluePinball,
            AttractDmdState::PressStart => AttractScreen::PressStart,
        }
    }

    fn can_draw(&self, s: AttractDmdState, player_addable: bool) -> (b: bool)
        ensures
            b == drawable(s, scores_len(self@), player_addable),
    {
        match s {
            AttractDmdState::LastScores(i) => match &self.last_scores {
                Some(scores) => i < scores.len(),
                None => false,
            },
            AttractDmdState::PressStart => player_addable,
            _ => true,
        }
    }
}

} // verus!
