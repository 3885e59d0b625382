use vstd::prelude::*;
use crate::effects::{EffectOp, EffectSlot};
use crate::game::exclusive_mode::ExclusiveMode;
use crate::game::mode_manager::{ModeManager, ModeManagerView, after_crossfade, crossfade_actions, released_exclusive, release_actions};
use crate::signals::{Action, CueTiming, Signal, Sound, SystemKind, Timer};

verus! {

/// Each jackpot during Spore Multiball.
pub const JACKPOT_PTS: u32 = 5_000_000;
/// The super jackpot at the captive ball.
pub const SUPER_JACKPOT_PTS: u32 = 25_000_000;

/// Waits, after Spore Multiball qualified, for the captive ball to start it.
pub struct SporeMultiballStartable {
    complete: bool,
}

impl SporeMultiballStartable {
    pub closed spec fn is_complete(&self) -> bool {
        self.complete
    }

    pub fn new() -> (s: Self)
        ensures
            !s.is_complete(),
    {
        SporeMultiballStartable { complete: false }
    }

    /// Runs while the turn is in play and no other exclusive mode holds the playfield.
    pub fn is_active(&self, turn_active: bool, current_mode: &Option<ExclusiveMode>) -> (b: bool)
        ensures
            b == (turn_active && (current_mode.is_none() || *current_mode == Some(ExclusiveMode::SporeMultiball))),
    {
        turn_active && match current_mode {
            None => true,
            Some(m) => *m == ExclusiveMode::SporeMultiball,
        }
    }

    /// The captive ball starts the multiball if it can take the playfield.
    pub fn on_event(&mut self, event: &Signal, modes: &mut ModeManager, acts: &mut Vec<Action>)
        ensures
            (*event == Signal::CaptiveBallHit && !old(self).is_complete() && old(modes)@.exclusive_mode.is_none()) ==> {
                let taken = ModeManagerView { exclusive_mode: Some(ExclusiveMode::SporeMultiball), ..old(modes)@ };
                &&& final(self).is_complete()
                &&& final(modes)@ == after_crossfade(taken)
                &&& final(acts)@ == old(acts)@ + crossfade_actions(taken) + seq![
                    Action::EmitExclusiveModeStarted(ExclusiveMode::SporeMultiball),
                    Action::Effect(EffectSlot::Hit, EffectOp::Play),
                    Action::PlaySfx(Sound::HitOrganic3),
                ]
            },
            !(*event == Signal::CaptiveBallHit && !old(self).is_complete() && old(modes)@.exclusive_mode.is_none()) ==> {
                &&& final(self).is_complete() == old(self).is_complete()
                &&& final(modes)@ == old(modes)@
                &&& final(acts)@ == old(acts)@
            },
    {
        if *event == Signal::CaptiveBallHit && !self.complete {
            match modes.take_exclusive(ExclusiveMode::SporeMultiball, acts) {
                Ok(_) => {
                    self.complete = true;
                    acts.push(Action::Effect(EffectSlot::Hit, EffectOp::Play));
                    acts.push(Action::PlaySfx(Sound::HitOrganic3));
                    proof {
                        let taken = ModeManagerView { exclusive_mode: Some(ExclusiveMode::SporeMultiball), ..old(modes)@ };
                        assert(final(acts)@ =~= old(acts)@ + crossfade_actions(taken) + seq![
                            Action::EmitExclusiveModeStarted(ExclusiveMode::SporeMultiball),
                            Action::Effect(EffectSlot::Hit, EffectOp::Play),
                            Action::PlaySfx(Sound::HitOrganic3),
                        ]);
                    }
                },
                _ => {},
            }
        }
    }

    /// Once started and the hit animation ended, the multiball mode takes over.
    pub fn on_tick(&self, hit_effect_complete: bool, acts: &mut Vec<Action>)
        ensures
            (self.is_complete() && hit_effect_complete) ==> final(acts)@ == old(acts)@.push(
                Action::ReplaceSelf(SystemKind::SporeMultiballMode),
            ),
            !(self.is_complete() && hit_effect_complete) ==> final(acts)@ == old(acts)@,
    {
        if self.complete && hit_effect_complete {
            acts.push(Action::ReplaceSelf(SystemKind::SporeMultiballMode));
        }
    }
}

/// Spore Multiball: two more balls; every major shot is a jackpot, every
/// fifth jackpot lights a twenty-second super jackpot at the captive ball.
pub struct SporeMultiballMode {
    hits: u8,
    super_jackpot_active: bool,
    cue_id: Option<u64>,
}

pub struct SporeMultiballModeView {
    pub hits: u8,
    pub super_jackpot_active: bool,
    pub cue_id: Option<u64>,
}

impl View for SporeMultiballMode {
    type V = SporeMultiballModeView;

    closed spec fn view(&self) -> SporeMultiballModeView {
        SporeMultiballModeView { hits: self.hits, super_jackpot_active: self.super_jackpot_active, cue_id: self.cue_id }
    }
}

/// The shots that score a jackpot.
pub open spec fn is_jackpot_shot(event: Signal) -> bool {
    event == Signal::LeftOrbitHit || event == Signal::DomeRampHit || event == Signal::ArcRampHit || event
        == Signal::CenterOrbitHit || event == Signal::LiftRampHit || event == Signal::RightOrbitHit
}

/// Lighting the super jackpot, restarting its timer if already lit.
pub open spec fn super_jackpot_start_actions(v: SporeMultiballModeView) -> Seq<Action> {
    (match v.cue_id {
        Some(id) => seq![Action::CancelCue(id)],
        None => seq![],
    }) + seq![
        Action::Cue(Timer::SuperJackpotOver, CueTiming::Once(20_000)),
        Action::Effect(EffectSlot::SuperJackpotAttention, EffectOp::Play),
    ]
}

pub open spec fn jackpot_state(v: SporeMultiballModeView) -> SporeMultiballModeView {
    let hits = (v.hits + 1) as u8;
    if hits % 5 == 0 {
        SporeMultiballModeView { hits, super_jackpot_active: true, ..v }
    } else {
        SporeMultiballModeView { hits, ..v }
    }
}

pub open spec fn jackpot_actions(v: SporeMultiballModeView) -> Seq<Action> {
    seq![
        Action::Effect(EffectSlot::Hit, EffectOp::Reset),
        Action::Effect(EffectSlot::Hit, EffectOp::Play),
        Action::AddPoints(JACKPOT_PTS),
        Action::PlaySfx(Sound::RandomLaneHit),
    ] + if (v.hits + 1) % 5 == 0 { super_jackpot_start_actions(v) } else { seq![] }
}

pub open spec fn super_jackpot_actions() -> Seq<Action> {
    seq![
        Action::AddPoints(SUPER_JACKPOT_PTS),
        Action::PlaySfx(Sound::ArpHit1),
        Action::Effect(EffectSlot::SuperJackpotHit, EffectOp::Reset),
        Action::Effect(EffectSlot::SuperJackpotHit, EffectOp::Play),
        Action::Effect(EffectSlot::SuperJackpotAttention, EffectOp::Stop),
    ]
}

impl SporeMultiballMode {
    pub fn new() -> (m: Self)
        ensures
            m@ == (SporeMultiballModeView { hits: 0, super_jackpot_active: false, cue_id: None }),
    {
        SporeMultiballMode { hits: 0, super_jackpot_active: false, cue_id: None }
    }

    /// Keeps the id the host gave the super jackpot timer just scheduled.
    pub fn record_cue(&mut self, timer: Timer, id: u64)
        ensures
            timer == Timer::SuperJackpotOver ==> final(self)@ == (SporeMultiballModeView { cue_id: Some(id), ..old(self)@ }),
            timer != Timer::SuperJackpotOver ==> final(self)@ == old(self)@,
    {
        if timer == Timer::SuperJackpotOver {
            self.cue_id = Some(id);
        }
    }

    fn jackpot_hit(&mut self, acts: &mut Vec<Action>)
        requires
            old(self)@.hits < 255,
        ensures
            final(self)@ == jackpot_state(old(self)@),
            final(acts)@ == old(acts)@ + jackpot_actions(old(self)@),
    {
        acts.push(Action::Effect(EffectSlot::Hit, EffectOp::Reset));
        acts.push(Action::Effect(EffectSlot::Hit, EffectOp::Play));
        self.hits += 1;
        acts.push(Action::AddPoints(JACKPOT_PTS));
        acts.push(Action::PlaySfx(Sound::RandomLaneHit));
        if self.hits % 5 == 0 {
            self.start_super_jackpot(acts);
        }
        assert(final(acts)@ =~= old(acts)@ + jackpot_actions(old(self)@));
    }

    fn super_jackpot_hit(&mut self, acts: &mut Vec<Action>)
        ensures
            final(self)@ == (SporeMultiballModeView { super_jackpot_active: false, ..old(self)@ }),
            final(acts)@ == old(acts)@ + super_jackpot_actions(),
    {
        acts.push(Action::AddPoints(SUPER_JACKPOT_PTS));
        acts.push(Action::PlaySfx(Sound::ArpHit1));
        acts.push(Action::Effect(EffectSlot::SuperJackpotHit, EffectOp::Reset));
        acts.push(Action::Effect(EffectSlot::SuperJackpotHit, EffectOp::Play));
        self.end_super_jackpot(acts);
        assert(final(acts)@ =~= old(acts)@ + super_jackpot_actions());
    }

    fn start_super_jackpot(&mut self, acts: &mut Vec<Action>)
        ensures
            final(self)@ == (SporeMultiballModeView { super_jackpot_active: true, ..old(self)@ }),
            final(acts)@ == old(acts)@ + super_jackpot_start_actions(old(self)@),
    {
        if let Some(cue_id) = self.cue_id {
            acts.push(Action::CancelCue(cue_id));
        }
        acts.push(Action::Cue(Timer::SuperJackpotOver, CueTiming::Once(20_000)));
        self.super_jackpot_active = true;
        acts.push(Action::Effect(EffectSlot::SuperJackpotAttention, EffectOp::Play));
        assert(final(acts)@ =~= old(acts)@ + super_jackpot_start_actions(old(self)@));
    }

    fn end_super_jackpot(&mut self, acts: &mut Vec<Action>)
        ensures
            final(self)@ == (SporeMultiballModeView { super_jackpot_active: false, ..old(self)@ }),
            final(acts)@ == old(acts)@.push(Action::Effect(EffectSlot::SuperJackpotAttention, EffectOp::Stop)),
    {
        self.super_jackpot_active = false;
        acts.push(Action::Effect(EffectSlot::SuperJackpotAttention, EffectOp::Stop));
    }

    fn shutdown(&mut self, modes: &mut ModeManager, acts: &mut Vec<Action>)
        ensures
            final(self)@ == old(self)@,
            final(modes)@ == released_exclusive(old(modes)@, ExclusiveMode::SporeMultiball),
            final(acts)@ == old(acts)@ + release_actions(old(modes)@, ExclusiveMode::SporeMultiball)
                + seq![Action::ReplaceSelf(SystemKind::SporeMultiballQualification)],
    {
        modes.release_exclusive(&ExclusiveMode::SporeMultiball, acts);
        acts.push(Action::ReplaceSelf(SystemKind::SporeMultiballQualification));
        assert(final(acts)@ =~= old(acts)@ + release_actions(old(modes)@, ExclusiveMode::SporeMultiball)
            + seq![Action::ReplaceSelf(SystemKind::SporeMultiballQualification)]);
    }

    /// Runs only while Spore Multiball holds the playfield.
    pub fn is_active(&self, current_mode: &Option<ExclusiveMode>) -> (b: bool)
        ensures
            b == (*current_mode == Some(ExclusiveMode::SporeMultiball)),
    {
        match current_mode {
            Some(m) => *m == ExclusiveMode::SporeMultiball,
            None => false,
        }
    }

    /// The multiball starts by adding two balls.
    pub fn on_spawn(&self, acts: &mut Vec<Action>)
        ensures
            final(acts)@ == old(acts)@.push(Action::MultiballAddBalls(2)),
    {
        acts.push(Action::MultiballAddBalls(2));
    }

    /// Major shots are jackpots; the lit captive ball is the super jackpot;
    /// its timer unlights it; the multiball or the turn ending ends the mode.
    pub fn on_event(&mut self, event: &Signal, modes: &mut ModeManager, acts: &mut Vec<Action>)
        requires
            old(self)@.hits < 255,
        ensures
            is_jackpot_shot(*event) ==> final(self)@ == jackpot_state(old(self)@) && final(acts)@ == old(acts)@
                + jackpot_actions(old(self)@) && final(modes)@ == old(modes)@,
            (*event == Signal::CaptiveBallHit && old(self)@.super_jackpot_active) ==> final(self)@
                == (SporeMultiballModeView { super_jackpot_active: false, ..old(self)@ }) && final(acts)@ == old(acts)@
                + super_jackpot_actions() && final(modes)@ == old(modes)@,
            (*event == Signal::Timer(Timer::SuperJackpotOver) && old(self)@.super_jackpot_active) ==> final(self)@
                == (SporeMultiballModeView { super_jackpot_active: false, ..old(self)@ }) && final(acts)@ == old(acts)@.push(
                Action::Effect(EffectSlot::SuperJackpotAttention, EffectOp::Stop),
            ) && final(modes)@ == old(modes)@,
            (*event == Signal::MultiballEnded || *event == Signal::PlayerTurnEnding) ==> final(self)@ == old(self)@
                && final(modes)@ == released_exclusive(old(modes)@, ExclusiveMode::SporeMultiball) && final(acts)@
                == old(acts)@ + release_actions(old(modes)@, ExclusiveMode::SporeMultiball) + seq![
                Action::ReplaceSelf(SystemKind::SporeMultiballQualification),
            ],
            !(is_jackpot_shot(*event) || (*event == Signal::CaptiveBallHit && old(self)@.super_jackpot_active) || (*event
                == Signal::Timer(Timer::SuperJackpotOver) && old(self)@.super_jackpot_active) || *event
                == Signal::MultiballEnded || *event == Signal::PlayerTurnEnding) ==> final(self)@ == old(self)@
                && final(acts)@ == old(acts)@ && final(modes)@ == old(modes)@,
    {
        if *event == Signal::LeftOrbitHit || *event == Signal::DomeRampHit || *event == Signal::ArcRampHit || *event
            == Signal::CenterOrbitHit || *event == Signal::LiftRampHit || *event == Signal::RightOrbitHit {
            self.jackpot_hit(acts);
        } else if *event == Signal::CaptiveBallHit && self.super_jackpot_active {
            self.super_jackpot_hit(acts);
        } else if *event == Signal::Timer(Timer::SuperJackpotOver) && self.super_jackpot_active {
            self.end_super_jackpot(acts);
        } else if *event == Signal::MultiballEnded || *event == Signal::PlayerTurnEnding {
            self.shutdown(modes, acts);
        }
    }
}

} // verus!
