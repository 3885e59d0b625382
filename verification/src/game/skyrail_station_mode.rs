use vstd::prelude::*;
use crate::chance::random_seed;
use crate::effects::{EffectOp, EffectSlot, EffectSpec, FlasherPattern};
use crate::game::exclusive_mode::ExclusiveMode;
use crate::game::lift_ramp_startable::{LiftRampStartable, lift_made_startable, lift_make_startable_actions};
use crate::game::mode_manager::{ModeManager, completed_exclusive, complete_exclusive_actions, released_exclusive, release_actions};
use crate::game::points;
use crate::signals::{Action, CueTiming, NamedColor, Signal, SystemKind, Timer};

verus! {

/// What Skyrail Station asks for next.
#[derive(Debug, Clone, Copy, PartialEq, Eq, Structural)]
pub enum SkyrailState {
    HitRamp,
    HitTarget,
    Final,
    Complete,
}

/// The Skyrail Station mode: ramp and drop target alternate three times;
/// the third ramp shot adds a ball and asks for targets until five were hit.
pub struct SkyrailStationMode {
    target_hits: u8,
    ramp_hits: u8,
    state: SkyrailState,
    ramp_up: bool,
    hit_seed: u64,
}

pub struct SkyrailStationModeView {
    pub target_hits: u8,
    pub ramp_hits: u8,
    pub state: SkyrailState,
    pub ramp_up: bool,
    /// The seed that shuffles the colors of the hit's playfield wash.
    pub hit_seed: u64,
}

impl View for SkyrailStationMode {
    type V = SkyrailStationModeView;

    closed spec fn view(&self) -> SkyrailStationModeView {
        SkyrailStationModeView {
            target_hits: self.target_hits,
            ramp_hits: self.ramp_hits,
            state: self.state,
            ramp_up: self.ramp_up,
            hit_seed: self.hit_seed,
        }
    }
}

/// How the counts go with the stage: ramp and target alternate until the
/// third ramp shot, after which targets count up to five.
pub open spec fn skyrail_wf(v: SkyrailStationModeView) -> bool {
    match v.state {
        SkyrailState::HitRamp => v.target_hits == v.ramp_hits && v.ramp_hits < 3,
        SkyrailState::HitTarget => v.target_hits + 1 == v.ramp_hits && v.ramp_hits <= 2,
        SkyrailState::Final => v.ramp_hits == 3 && 2 <= v.target_hits < 5,
        SkyrailState::Complete => v.ramp_hits == 3 && v.target_hits == 5,
    }
}

/// The ramp goes down if it is up.
pub open spec fn ramp_down_state(v: SkyrailStationModeView) -> SkyrailStationModeView {
    SkyrailStationModeView { ramp_up: false, ..v }
}

pub open spec fn ramp_down_actions(v: SkyrailStationModeView) -> Seq<Action> {
    if v.ramp_up { seq![Action::LiftRampDown] } else { seq![] }
}

/// Raising the ramp after a delay schedules it; without delay it rises now.
pub open spec fn ramp_up_state(v: SkyrailStationModeView, delay_ms: u64) -> SkyrailStationModeView {
    if !v.ramp_up && delay_ms == 0 { SkyrailStationModeView { ramp_up: true, ..v } } else { v }
}

pub open spec fn ramp_up_actions(v: SkyrailStationModeView, delay_ms: u64) -> Seq<Action> {
    if v.ramp_up {
        seq![]
    } else if delay_ms > 0 {
        seq![Action::Cue(Timer::RampUp, CueTiming::Once(delay_ms))]
    } else {
        seq![Action::LiftRampUp]
    }
}

/// The state after a shot that the current stage asked for.
pub open spec fn advanced(v: SkyrailStationModeView) -> SkyrailStationModeView {
    match v.state {
        SkyrailState::Final => if v.target_hits + 1 == 5 {
            ramp_down_state(SkyrailStationModeView { target_hits: 5, state: SkyrailState::Complete, ..v })
        } else {
            SkyrailStationModeView { target_hits: (v.target_hits + 1) as u8, ..v }
        },
        SkyrailState::HitTarget => ramp_down_state(
            SkyrailStationModeView { target_hits: (v.target_hits + 1) as u8, state: SkyrailState::HitRamp, ..v },
        ),
        SkyrailState::HitRamp => {
            let counted = SkyrailStationModeView {
                ramp_hits: (v.ramp_hits + 1) as u8,
                state: if v.ramp_hits + 1 == 3 { SkyrailState::Final } else { SkyrailState::HitTarget },
                ..v
            };
            ramp_up_state(counted, 250)
        },
        SkyrailState::Complete => v,
    }
}

/// What a shot that the current stage asked for asks of the host.
pub open spec fn advance_actions(v: SkyrailStationModeView) -> Seq<Action> {
    let common = seq![
        Action::AddPoints(points::EXL_MODE_HIT),
        Action::Effect(EffectSlot::Hit, EffectOp::Play),
        Action::FlashersFlash(3, FlasherPattern::Alternating(NamedColor::Blue)),
    ];
    let progress = seq![Action::Effect(EffectSlot::Progress, EffectOp::Replace(EffectSpec::ProgressBar(
        ExclusiveMode::SkyrailStation,
        (advanced(v).target_hits + advanced(v).ramp_hits) as u8,
        8,
    )))];
    match v.state {
        SkyrailState::Final => if v.target_hits + 1 == 5 {
            common + ramp_down_actions(v) + seq![
                Action::AddPoints(points::EXL_COMPLETION),
                Action::Effect(EffectSlot::Hit, EffectOp::Stop),
                Action::Effect(EffectSlot::Hit, EffectOp::Replace(EffectSpec::SkyrailComplete)),
            ]
        } else {
            common + progress
        },
        SkyrailState::HitTarget => common + seq![
            Action::Effect(EffectSlot::Attention, EffectOp::Stop),
            Action::Effect(EffectSlot::Attention, EffectOp::Replace(EffectSpec::SkyrailRampPulse)),
        ] + ramp_down_actions(v) + progress,
        SkyrailState::HitRamp => {
            let stage = if v.ramp_hits + 1 == 3 {
                seq![
                    Action::MultiballAddBalls(1),
                    Action::Effect(EffectSlot::Intensity, EffectOp::Play),
                    Action::Effect(EffectSlot::Attention, EffectOp::Stop),
                    Action::Effect(EffectSlot::Attention, EffectOp::Replace(EffectSpec::SkyrailTargetsFinal)),
                ]
            } else {
                seq![
                    Action::Effect(EffectSlot::Attention, EffectOp::Stop),
                    Action::Effect(EffectSlot::Attention, EffectOp::Replace(EffectSpec::SkyrailTargets)),
                ]
            };
            let counted = SkyrailStationModeView {
                ramp_hits: (v.ramp_hits + 1) as u8,
                state: if v.ramp_hits + 1 == 3 { SkyrailState::Final } else { SkyrailState::HitTarget },
                ..v
            };
            common + stage + ramp_up_actions(counted, 250) + seq![Action::RaiseDropTargets] + progress
        },
        SkyrailState::Complete => common + progress,
    }
}

impl SkyrailStationMode {
    /// Asks for the ramp first; the hit wash gets a seed drawn by chance,
    /// which may be any value.
    pub fn new() -> (m: Self)
        ensures
            m@ == (SkyrailStationModeView { target_hits: 0, ramp_hits: 0, state: SkyrailState::HitRamp, ramp_up: false, hit_seed: m@.hit_seed }),
            skyrail_wf(m@),
    {
        SkyrailStationMode { target_hits: 0, ramp_hits: 0, state: SkyrailState::HitRamp, ramp_up: false, hit_seed: random_seed() }
    }

    /// The program a hit plays: the playfield washing from the mode's color
    /// to dark, the colors shuffled by the mode's seed.
    pub fn hit_effect(&self) -> (e: EffectSpec)
        ensures
            e == EffectSpec::PlayfieldWash(ExclusiveMode::SkyrailStation, self@.hit_seed),
    {
        EffectSpec::PlayfieldWash(ExclusiveMode::SkyrailStation, self.hit_seed)
    }

    /// A shot the stage asked for: points, flashers, and the stage moves on.
    pub fn advance(&mut self, acts: &mut Vec<Action>)
        requires
            skyrail_wf(old(self)@),
        ensures
            skyrail_wf(final(self)@),
            final(self)@ == advanced(old(self)@),
            final(acts)@ == old(acts)@ + advance_actions(old(self)@),
    {
        acts.push(Action::AddPoints(points::EXL_MODE_HIT));
        acts.push(Action::Effect(EffectSlot::Hit, EffectOp::Play));
        acts.push(Action::FlashersFlash(3, FlasherPattern::Alternating(NamedColor::Blue)));
        match self.state {
            SkyrailState::Final => {
                self.target_hits += 1;
                if self.target_hits == 5 {
                    self.state = SkyrailState::Complete;
                    self.ramp_down(acts);
                    acts.push(Action::AddPoints(points::EXL_COMPLETION));
                    acts.push(Action::Effect(EffectSlot::Hit, EffectOp::Stop));
                    acts.push(Action::Effect(EffectSlot::Hit, EffectOp::Replace(EffectSpec::SkyrailComplete)));
                    assert(final(acts)@ =~= old(acts)@ + advance_actions(old(self)@));
                    return;
                }
            },
            SkyrailState::HitTarget => {
                self.target_hits += 1;
                self.state = SkyrailState::HitRamp;
                acts.push(Action::Effect(EffectSlot::Attention, EffectOp::Stop));
                acts.push(Action::Effect(EffectSlot::Attention, EffectOp::Replace(EffectSpec::SkyrailRampPulse)));
                self.ramp_down(acts);
            },
            SkyrailState::HitRamp => {
                self.ramp_hits += 1;
                if self.ramp_hits == 3 {
                    acts.push(Action::MultiballAddBalls(1));
                    self.state = SkyrailState::Final;
                    acts.push(Action::Effect(EffectSlot::Intensity, EffectOp::Play));
                    acts.push(Action::Effect(EffectSlot::Attention, EffectOp::Stop));
                    acts.push(Action::Effect(EffectSlot::Attention, EffectOp::Replace(EffectSpec::SkyrailTargetsFinal)));
                } else {
                    self.state = SkyrailState::HitTarget;
                    acts.push(Action::Effect(EffectSlot::Attention, EffectOp::Stop));
                    acts.push(Action::Effect(EffectSlot::Attention, EffectOp::Replace(EffectSpec::SkyrailTargets)));
                }
                self.ramp_up(250, acts);
                acts.push(Action::RaiseDropTargets);
            },
            _ => {},
        }
        acts.push(Action::Effect(EffectSlot::Progress, EffectOp::Replace(EffectSpec::ProgressBar(
            ExclusiveMode::SkyrailStation,
            self.target_hits + self.ramp_hits,
            8,
        ))));
        assert(final(acts)@ =~= old(acts)@ + advance_actions(old(self)@));
    }

    fn ramp_up(&mut self, delay_ms: u64, acts: &mut Vec<Action>)
        ensures
            final(self)@ == ramp_up_state(old(self)@, delay_ms),
            final(acts)@ == old(acts)@ + ramp_up_actions(old(self)@, delay_ms),
    {
        if !self.ramp_up {
            if delay_ms > 0 {
                acts.push(Action::Cue(Timer::RampUp, CueTiming::Once(delay_ms)));
            } else {
                acts.push(Action::LiftRampUp);
                self.ramp_up = true;
            }
        }
        assert(final(acts)@ =~= old(acts)@ + ramp_up_actions(old(self)@, delay_ms));
    }

    fn ramp_down(&mut self, acts: &mut Vec<Action>)
        ensures
            final(self)@ == ramp_down_state(old(self)@),
            final(acts)@ == old(acts)@ + ramp_down_actions(old(self)@),
    {
        if self.ramp_up {
            acts.push(Action::LiftRampDown);
            self.ramp_up = false;
        }
        assert(final(acts)@ =~= old(acts)@ + ramp_down_actions(old(self)@));
    }

    /// The turn went on before the mode was done: it gives the playfield
    /// back, drops the ramp and is offered again at the lift ramp.
    fn revert_to_startable(&mut self, modes: &mut ModeManager, lift: &mut LiftRampStartable, acts: &mut Vec<Action>)
        ensures
            final(self)@ == ramp_down_state(old(self)@),
            final(modes)@ == released_exclusive(old(modes)@, ExclusiveMode::SkyrailStation),
            final(lift)@ == lift_made_startable(old(lift)@, ExclusiveMode::SkyrailStation, 0),
            final(acts)@ == old(acts)@ + release_actions(old(modes)@, ExclusiveMode::SkyrailStation)
                + ramp_down_actions(old(self)@)
                + lift_make_startable_actions(old(lift)@, ExclusiveMode::SkyrailStation, 0)
                + seq![Action::DespawnSelf],
    {
        modes.release_exclusive(&ExclusiveMode::SkyrailStation, acts);
        self.ramp_down(acts);
        lift.make_startable(ExclusiveMode::SkyrailStation, 0, acts);
        acts.push(Action::DespawnSelf);
        assert(final(acts)@ =~= old(acts)@ + release_actions(old(modes)@, ExclusiveMode::SkyrailStation)
            + ramp_down_actions(old(self)@)
            + lift_make_startable_actions(old(lift)@, ExclusiveMode::SkyrailStation, 0)
            + seq![Action::DespawnSelf]);
    }

    fn complete(&mut self, modes: &mut ModeManager, acts: &mut Vec<Action>)
        ensures
            final(self)@ == old(self)@,
            final(modes)@ == completed_exclusive(old(modes)@, ExclusiveMode::SkyrailStation),
            final(acts)@ == old(acts)@ + complete_exclusive_actions(old(modes)@, ExclusiveMode::SkyrailStation)
                + seq![Action::ReplaceSelf(SystemKind::SkyrailStationQualification)],
    {
        modes.complete_exclusive(ExclusiveMode::SkyrailStation, acts);
        acts.push(Action::ReplaceSelf(SystemKind::SkyrailStationQualification));
        assert(final(acts)@ =~= old(acts)@ + complete_exclusive_actions(old(modes)@, ExclusiveMode::SkyrailStation)
            + seq![Action::ReplaceSelf(SystemKind::SkyrailStationQualification)]);
    }

    /// Runs only while Skyrail Station holds the playfield.
    pub fn is_active(&self, current_mode: &Option<ExclusiveMode>) -> (b: bool)
        ensures
            b == (*current_mode == Some(ExclusiveMode::SkyrailStation)),
    {
        match current_mode {
            Some(m) => *m == ExclusiveMode::SkyrailStation,
            None => false,
        }
    }

    /// A ball in the lift scoop scores a little and is ejected; the ramp
    /// timer raises the ramp; ramp and target shots count when asked for;
    /// the turn going on reverts the mode to startable.
    pub fn on_event(
        &mut self,
        event: &Signal,
        modes: &mut ModeManager,
        lift: &mut LiftRampStartable,
        acts: &mut Vec<Action>,
    )
        requires
            skyrail_wf(old(self)@),
        ensures
            skyrail_wf(final(self)@),
            *event == Signal::LiftRampScoopBallEnter ==> final(self)@ == old(self)@ && final(modes)@ == old(modes)@
                && final(lift)@ == old(lift)@ && final(acts)@ == old(acts)@ + seq![Action::AddPoints(500), Action::LiftRampEject],
            *event == Signal::Timer(Timer::RampUp) ==> final(self)@ == ramp_up_state(old(self)@, 0) && final(modes)@
                == old(modes)@ && final(lift)@ == old(lift)@ && final(acts)@ == old(acts)@ + ramp_up_actions(old(self)@, 0),
            ((*event == Signal::LiftRampHit && old(self)@.state == SkyrailState::HitRamp) || (*event == Signal::DropBankTargetHit
                && (old(self)@.state == SkyrailState::HitTarget || old(self)@.state == SkyrailState::Final))) ==> {
                &&& final(self)@ == advanced(old(self)@)
                &&& final(acts)@ == old(acts)@ + advance_actions(old(self)@)
                &&& final(modes)@ == old(modes)@ && final(lift)@ == old(lift)@
            },
            *event == Signal::PlayerTurnActive ==> {
                &&& final(self)@ == ramp_down_state(old(self)@)
                &&& final(modes)@ == released_exclusive(old(modes)@, ExclusiveMode::SkyrailStation)
                &&& final(lift)@ == lift_made_startable(old(lift)@, ExclusiveMode::SkyrailStation, 0)
                &&& final(acts)@ == old(acts)@ + release_actions(old(modes)@, ExclusiveMode::SkyrailStation)
                    + ramp_down_actions(old(self)@)
                    + lift_make_startable_actions(old(lift)@, ExclusiveMode::SkyrailStation, 0)
                    + seq![Action::DespawnSelf]
            },
            !(*event == Signal::LiftRampScoopBallEnter || *event == Signal::Timer(Timer::RampUp) || (*event
                == Signal::LiftRampHit && old(self)@.state == SkyrailState::HitRamp) || (*event == Signal::DropBankTargetHit
                && (old(self)@.state == SkyrailState::HitTarget || old(self)@.state == SkyrailState::Final)) || *event
                == Signal::PlayerTurnActive) ==> final(self)@ == old(self)@ && final(modes)@ == old(modes)@ && final(lift)@
                == old(lift)@ && final(acts)@ == old(acts)@,
    {
        if *event == Signal::LiftRampScoopBallEnter {
            acts.push(Action::AddPoints(500));
            acts.push(Action::LiftRampEject);
            assert(final(acts)@ =~= old(acts)@ + seq![Action::AddPoints(500), Action::LiftRampEject]);
        } else if *event == Signal::Timer(Timer::RampUp) {
            self.ramp_up(0, acts);
        } else if *event == Signal::LiftRampHit && self.state == SkyrailState::HitRamp {
            self.advance(acts);
        } else if *event == Signal::DropBankTargetHit && (self.state == SkyrailState::HitTarget || self.state
            == SkyrailState::Final) {
            self.advance(acts);
        } else if *event == Signal::PlayerTurnActive {
            self.revert_to_startable(modes, lift, acts);
        }
    }

    /// Coming back into play raises the ramp again if it was up and shows the LEDs.
    pub fn on_reactivate(&self, acts: &mut Vec<Action>)
        ensures
            final(acts)@ == old(acts)@ + (if self@.ramp_up { seq![Action::LiftRampUp] } else { seq![] }) + seq![
                Action::ActivateLedDeclarations,
            ],
    {
        if self.ramp_up {
            acts.push(Action::LiftRampUp);
        }
        acts.push(Action::ActivateLedDeclarations);
        assert(final(acts)@ =~= old(acts)@ + (if self@.ramp_up { seq![Action::LiftRampUp] } else { seq![] }) + seq![
            Action::ActivateLedDeclarations,
        ]);
    }

    /// Going out of play drops a raised ramp and hides the LEDs.
    pub fn on_deactivate(&self, acts: &mut Vec<Action>)
        ensures
            final(acts)@ == old(acts)@ + (if self@.ramp_up { seq![Action::LiftRampDown] } else { seq![] }) + seq![
                Action::DeactivateLedDeclarations,
            ],
    {
        if self.ramp_up {
            acts.push(Action::LiftRampDown);
        }
        acts.push(Action::DeactivateLedDeclarations);
        assert(final(acts)@ =~= old(acts)@ + (if self@.ramp_up { seq![Action::LiftRampDown] } else { seq![] }) + seq![
            Action::DeactivateLedDeclarations,
        ]);
    }

    /// Once complete and the completion sweep ended, the mode completes.
    pub fn on_tick(&mut self, hit_effect_complete: bool, modes: &mut ModeManager, acts: &mut Vec<Action>)
        ensures
            final(self)@ == old(self)@,
            (old(self)@.state == SkyrailState::Complete && hit_effect_complete) ==> {
                &&& final(modes)@ == completed_exclusive(old(modes)@, ExclusiveMode::SkyrailStation)
                &&& final(acts)@ == old(acts)@ + complete_exclusive_actions(old(modes)@, ExclusiveMode::SkyrailStation)
                    + seq![Action::ReplaceSelf(SystemKind::SkyrailStationQualification)]
            },
            !(old(self)@.state == SkyrailState::Complete && hit_effect_complete) ==> final(modes)@ == old(modes)@
                && final(acts)@ == old(acts)@,
    {
        if self.state == SkyrailState::Complete && hit_effect_complete {
            self.complete(modes, acts);
        }
    }
}

/// Whatever the shots, the stage counts stay consistent: the mode is
/// complete exactly when three ramp shots and five target hits were made,
/// and the progress bar never passes its eight steps.
pub proof fn lemma_skyrail_progress_bounded(v: SkyrailStationModeView)
    requires
        skyrail_wf(v),
    ensures
        skyrail_wf(advanced(v)),
        v.target_hits + v.ramp_hits <= 8,
        (v.state == SkyrailState::Complete) <==> (v.ramp_hits == 3 && v.target_hits == 5),
{
}

} // verus!
