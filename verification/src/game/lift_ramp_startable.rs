use vstd::prelude::*;
use std::collections::VecDeque;
use crate::effects::EffectOp;
use crate::effects::EffectSlot;
use crate::game::exclusive_mode::ExclusiveMode;
use crate::game::mode_manager::{ModeManager, ModeManagerView, after_crossfade, crossfade_actions};
use crate::game::points;
use crate::signals::{Action, CueTiming, Signal, Timer};

verus! {

/// Where the lift ramp stands in offering a mode.
#[derive(Debug, Clone, Copy, PartialEq, Eq, Structural)]
pub enum LiftState {
    Pending,
    Startable,
    RampDown,
    Inactive,
}

/// Starts qualified exclusive modes through the lift ramp's scoop. The ramp
/// rises while a mode is on offer and drops when the offer times out; each
/// drop lengthens the next offer.
pub struct LiftRampStartable {
    /// The mode whose startable effects exist; no code path builds them.
    effects: Option<ExclusiveMode>,
    state: LiftState,
    ramp_up_duration_ms: u64,
    ramp_downs: u8,
    cue_id: Option<u64>,
    additional_modes: VecDeque<ExclusiveMode>,
    current_mode: Option<ExclusiveMode>,
}

pub struct LiftRampStartableView {
    pub effects: Option<ExclusiveMode>,
    pub state: LiftState,
    pub ramp_up_duration_ms: u64,
    pub ramp_downs: u8,
    pub cue_id: Option<u64>,
    pub additional_modes: Seq<ExclusiveMode>,
    pub current_mode: Option<ExclusiveMode>,
}

impl View for LiftRampStartable {
    type V = LiftRampStartableView;

    closed spec fn view(&self) -> LiftRampStartableView {
        LiftRampStartableView {
            effects: self.effects,
            state: self.state,
            ramp_up_duration_ms: self.ramp_up_duration_ms,
            ramp_downs: self.ramp_downs,
            cue_id: self.cue_id,
            additional_modes: self.additional_modes@,
            current_mode: self.current_mode,
        }
    }
}

/// The state after raising the ramp.
pub open spec fn ramped_up(v: LiftRampStartableView) -> LiftRampStartableView {
    LiftRampStartableView { state: LiftState::Startable, ..v }
}

pub open spec fn ramp_up_actions(v: LiftRampStartableView) -> Seq<Action> {
    seq![Action::LiftRampUp, Action::Cue(Timer::LiftRampTimeOut, CueTiming::Once(v.ramp_up_duration_ms))]
}

/// The state after dropping the ramp: one more drop, a five seconds longer
/// next offer, and the timeout forgotten.
pub open spec fn ramped_down(v: LiftRampStartableView) -> LiftRampStartableView {
    LiftRampStartableView {
        ramp_downs: (v.ramp_downs + 1) as u8,
        ramp_up_duration_ms: (v.ramp_up_duration_ms + 5000) as u64,
        state: LiftState::RampDown,
        cue_id: None,
        ..v
    }
}

pub open spec fn ramp_down_actions(v: LiftRampStartableView) -> Seq<Action> {
    match v.cue_id {
        Some(id) => seq![Action::CancelCue(id), Action::LiftRampDown],
        None => seq![Action::LiftRampDown],
    }
}

/// The state after `mode` qualified: offered with the ramp raised (held
/// pending through a non-zero delay) if no mode is current, else queued.
pub open spec fn lift_made_startable(v: LiftRampStartableView, mode: ExclusiveMode, delay_ms: u64) -> LiftRampStartableView {
    if v.current_mode.is_none() {
        let up = ramped_up(LiftRampStartableView { current_mode: Some(mode), ..v });
        if delay_ms > 0 {
            LiftRampStartableView { state: LiftState::Pending, ..up }
        } else {
            up
        }
    } else {
        LiftRampStartableView { additional_modes: v.additional_modes.push(mode), ..v }
    }
}

pub open spec fn lift_make_startable_actions(v: LiftRampStartableView, mode: ExclusiveMode, delay_ms: u64) -> Seq<Action> {
    if v.current_mode.is_none() {
        ramp_up_actions(v) + if delay_ms > 0 {
            seq![Action::Cue(Timer::LiftRampResume, CueTiming::Once(delay_ms))]
        } else {
            seq![]
        }
    } else {
        seq![]
    }
}

/// The counters that a drop of the ramp raises are below their maximum.
pub open spec fn can_ramp_down(v: LiftRampStartableView) -> bool {
    v.ramp_downs < 255 && v.ramp_up_duration_ms <= u64::MAX - 5000
}

impl LiftRampStartable {
    pub fn new() -> (s: Self)
        ensures
            s@.effects.is_none(),
            s@.state == LiftState::Pending,
            s@.ramp_up_duration_ms == 20_000,
            s@.ramp_downs == 0,
            s@.cue_id.is_none(),
            s@.additional_modes == Seq::<ExclusiveMode>::empty(),
            s@.current_mode.is_none(),
    {
        LiftRampStartable {
            effects: None,
            state: LiftState::Pending,
            ramp_up_duration_ms: 20_000,
            ramp_downs: 0,
            cue_id: None,
            additional_modes: VecDeque::new(),
            current_mode: None,
        }
    }

    fn begin(&mut self, acts: &mut Vec<Action>)
        ensures
            final(self)@ == ramped_up(old(self)@),
            final(acts)@ == old(acts)@ + ramp_up_actions(old(self)@),
    {
        self.state = LiftState::Startable;
        self.ramp_up(acts);
    }

    /// Offers `mode` with the ramp raised, or queues it behind the current one.
    pub fn make_startable(&mut self, mode: ExclusiveMode, activation_delay_ms: u64, acts: &mut Vec<Action>)
        ensures
            final(self)@ == lift_made_startable(old(self)@, mode, activation_delay_ms),
            final(acts)@ == old(acts)@ + lift_make_startable_actions(old(self)@, mode, activation_delay_ms),
    {
        if self.current_mode.is_none() {
            self.current_mode = Some(mode);
            self.state = LiftState::Startable;
            self.ramp_up(acts);
            if activation_delay_ms > 0 {
                self.state = LiftState::Pending;
                acts.push(Action::Cue(Timer::LiftRampResume, CueTiming::Once(activation_delay_ms)));
            }
        } else {
            self.additional_modes.push_back(mode);
        }
        assert(final(acts)@ =~= old(acts)@ + lift_make_startable_actions(old(self)@, mode, activation_delay_ms));
    }

    /// Keeps the id the host gave the ramp's timeout just scheduled.
    pub fn record_cue(&mut self, timer: Timer, id: u64)
        ensures
            timer == Timer::LiftRampTimeOut ==> final(self)@ == (LiftRampStartableView { cue_id: Some(id), ..old(self)@ }),
            timer != Timer::LiftRampTimeOut ==> final(self)@ == old(self)@,
    {
        if timer == Timer::LiftRampTimeOut {
            self.cue_id = Some(id);
        }
    }

    fn advance_mode(&mut self)
        ensures
            final(self)@ == (LiftRampStartableView {
                current_mode: if old(self)@.additional_modes.len() > 0 { Some(old(self)@.additional_modes[0]) } else { None },
                additional_modes: if old(self)@.additional_modes.len() > 0 { old(self)@.additional_modes.drop_first() } else { old(self)@.additional_modes },
                ..old(self)@
            }),
    {
        self.current_mode = None;
        let next_mode = self.additional_modes.pop_front();
        if let Some(next_mode) = next_mode {
            self.current_mode = Some(next_mode);
        }
    }

    /// The ball entered the lift ramp's scoop: the current mode takes the
    /// playfield if it can, and the ramp drops and ejects the ball.
    fn queue_start(&mut self, modes: &mut ModeManager, acts: &mut Vec<Action>)
        ensures
            final(self)@ == old(self)@,
            match old(self)@.current_mode {
                Some(mode) => match old(modes)@.exclusive_mode {
                    None => {
                        let taken = ModeManagerView { exclusive_mode: Some(mode), ..old(modes)@ };
                        &&& final(modes)@ == after_crossfade(taken)
                        &&& final(acts)@ == old(acts)@ + crossfade_actions(taken)
                            + seq![Action::EmitExclusiveModeStarted(mode)]
                            + (if old(self)@.effects.is_some() { seq![Action::Effect(EffectSlot::Hit, EffectOp::Play)] } else { seq![] })
                            + seq![
                            Action::LiftRampDown,
                            Action::LiftRampEject,
                            Action::PlaySfx(mode.spec_start_sound()),
                            Action::AddPoints(points::EXCL_START),
                        ]
                    },
                    Some(_) => {
                        &&& final(modes)@ == old(modes)@
                        &&& final(acts)@ == old(acts)@
                    },
                },
                None => {
                    &&& final(modes)@ == old(modes)@
                    &&& final(acts)@ == old(acts)@
                },
            },
    {
        if let Some(current) = self.current_mode {
            if let Ok(..) = modes.take_exclusive(current, acts) {
                let ghost acts1 = acts@;
                if self.effects.is_some() {
                    acts.push(Action::Effect(EffectSlot::Hit, EffectOp::Play));
                }
                let ghost acts2 = acts@;
                acts.push(Action::LiftRampDown);
                acts.push(Action::LiftRampEject);
                acts.push(Action::PlaySfx(current.start_sound()));
                acts.push(Action::AddPoints(points::EXCL_START));
                proof {
                    let taken = ModeManagerView { exclusive_mode: Some(current), ..old(modes)@ };
                    assert(acts2 =~= acts1 + (if old(self)@.effects.is_some() { seq![Action::Effect(EffectSlot::Hit, EffectOp::Play)] } else { seq![] }));
                    assert(final(acts)@ =~= old(acts)@ + crossfade_actions(taken)
                        + seq![Action::EmitExclusiveModeStarted(current)]
                        + (if old(self)@.effects.is_some() { seq![Action::Effect(EffectSlot::Hit, EffectOp::Play)] } else { seq![] })
                        + seq![
                        Action::LiftRampDown,
                        Action::LiftRampEject,
                        Action::PlaySfx(current.spec_start_sound()),
                        Action::AddPoints(points::EXCL_START),
                    ]);
                }
            }
        }
    }

    fn ramp_up(&mut self, acts: &mut Vec<Action>)
        ensures
            final(self)@ == ramped_up(old(self)@),
            final(acts)@ == old(acts)@ + ramp_up_actions(old(self)@),
    {
        self.state = LiftState::Startable;
        acts.push(Action::LiftRampUp);
        acts.push(Action::Cue(Timer::LiftRampTimeOut, CueTiming::Once(self.ramp_up_duration_ms)));
        assert(final(acts)@ =~= old(acts)@ + ramp_up_actions(old(self)@));
    }

    fn ramp_down(&mut self, acts: &mut Vec<Action>)
        requires
            can_ramp_down(old(self)@),
        ensures
            final(self)@ == ramped_down(old(self)@),
            final(acts)@ == old(acts)@ + ramp_down_actions(old(self)@),
    {
        self.ramp_downs += 1;
        self.ramp_up_duration_ms = self.ramp_up_duration_ms + 5000;
        self.state = LiftState::RampDown;
        if let Some(cue_id) = self.cue_id {
            acts.push(Action::CancelCue(cue_id));
            self.cue_id = None;
        }
        acts.push(Action::LiftRampDown);
        assert(final(acts)@ =~= old(acts)@ + ramp_down_actions(old(self)@));
    }

    /// Runs unless it went inactive; while a mode is on offer, only when no
    /// other exclusive mode holds the playfield.
    pub fn is_active(&self, current_mode: &Option<ExclusiveMode>) -> (b: bool)
        ensures
            b == (self@.state != LiftState::Inactive && match self@.current_mode {
                Some(offer) => current_mode.is_none() || *current_mode == Some(offer),
                None => current_mode.is_none(),
            }),
    {
        if self.state == LiftState::Inactive {
            return false;
        }
        if let Some(current) = self.current_mode {
            match current_mode {
                None => true,
                Some(m) => *m == current,
            }
        } else {
            current_mode.is_none()
        }
    }

    /// Going out of play hides the LEDs and drops a raised ramp.
    pub fn on_deactivate(&mut self, acts: &mut Vec<Action>)
        requires
            can_ramp_down(old(self)@),
        ensures
            old(self)@.state == LiftState::Startable ==> {
                &&& final(self)@ == ramped_down(old(self)@)
                &&& final(acts)@ == old(acts)@.push(Action::DeactivateLedDeclarations) + ramp_down_actions(old(self)@)
            },
            old(self)@.state != LiftState::Startable ==> {
                &&& final(self)@ == old(self)@
                &&& final(acts)@ == old(acts)@.push(Action::DeactivateLedDeclarations)
            },
    {
        acts.push(Action::DeactivateLedDeclarations);
        if self.state == LiftState::Startable {
            self.ramp_down(acts);
        }
    }

    /// Coming back into play shows the LEDs and raises the ramp again.
    pub fn on_reactivate(&mut self, acts: &mut Vec<Action>)
        ensures
            old(self)@.state == LiftState::Startable ==> {
                &&& final(self)@ == ramped_up(old(self)@)
                &&& final(acts)@ == old(acts)@.push(Action::ActivateLedDeclarations) + ramp_up_actions(old(self)@)
            },
            old(self)@.state != LiftState::Startable ==> {
                &&& final(self)@ == old(self)@
                &&& final(acts)@ == old(acts)@.push(Action::ActivateLedDeclarations)
            },
    {
        acts.push(Action::ActivateLedDeclarations);
        if self.state == LiftState::Startable {
            self.ramp_up(acts);
        }
    }

    /// Once the hit animation of a started mode finished, the mode's system
    /// starts, the next queued mode becomes current and this goes inactive.
    pub fn on_tick(&mut self, hit_effect_complete: bool, acts: &mut Vec<Action>)
        requires
            hit_effect_complete && old(self)@.effects.is_some() ==> match old(self)@.current_mode {
                Some(m) => m.has_mode_system(),
                None => true,
            },
        ensures
            ({
                let fires = old(self)@.effects.is_some() && hit_effect_complete && old(self)@.current_mode.is_some();
                if fires {
                    let mode = old(self)@.current_mode->0;
                    &&& final(self)@ == (LiftRampStartableView {
                        state: LiftState::Inactive,
                        current_mode: if old(self)@.additional_modes.len() > 0 { Some(old(self)@.additional_modes[0]) } else { None },
                        additional_modes: if old(self)@.additional_modes.len() > 0 { old(self)@.additional_modes.drop_first() } else { old(self)@.additional_modes },
                        ..old(self)@
                    })
                    &&& final(acts)@ == old(acts)@ + seq![
                        Action::Effect(EffectSlot::Attention, EffectOp::Stop),
                        Action::Effect(EffectSlot::Hit, EffectOp::Stop),
                        Action::Spawn(mode.mode_system()),
                    ]
                } else {
                    &&& final(self)@ == old(self)@
                    &&& final(acts)@ == old(acts)@
                }
            }),
    {
        if self.effects.is_some() && hit_effect_complete {
            if let Some(current) = self.current_mode {
                acts.push(Action::Effect(EffectSlot::Attention, EffectOp::Stop));
                acts.push(Action::Effect(EffectSlot::Hit, EffectOp::Stop));
                self.advance_mode();
                current.start(acts);
                self.state = LiftState::Inactive;
                assert(final(acts)@ =~= old(acts)@ + seq![
                    Action::Effect(EffectSlot::Attention, EffectOp::Stop),
                    Action::Effect(EffectSlot::Hit, EffectOp::Stop),
                    Action::Spawn(current.mode_system()),
                ]);
            }
        }
    }

    /// A ball in the scoop starts the offer; a ramp shot while the ramp is
    /// down raises it; a timeout or the end of the turn drops it; the start
    /// timer raises it; the end of an exclusive mode makes it startable.
    pub fn on_event(&mut self, event: &Signal, modes: &mut ModeManager, acts: &mut Vec<Action>)
        requires
            can_ramp_down(old(self)@),
        ensures
            (old(self)@.state == LiftState::Startable && *event == Signal::LiftRampScoopBallEnter) ==> {
                &&& final(self)@ == old(self)@
                &&& match old(self)@.current_mode {
                    Some(mode) => match old(modes)@.exclusive_mode {
                        None => {
                            let taken = ModeManagerView { exclusive_mode: Some(mode), ..old(modes)@ };
                            &&& final(modes)@ == after_crossfade(taken)
                            &&& final(acts)@ == old(acts)@ + crossfade_actions(taken)
                                + seq![Action::EmitExclusiveModeStarted(mode)]
                                + (if old(self)@.effects.is_some() { seq![Action::Effect(EffectSlot::Hit, EffectOp::Play)] } else { seq![] })
                                + seq![
                                Action::LiftRampDown,
                                Action::LiftRampEject,
                                Action::PlaySfx(mode.spec_start_sound()),
                                Action::AddPoints(points::EXCL_START),
                            ]
                        },
                        Some(_) => final(modes)@ == old(modes)@ && final(acts)@ == old(acts)@,
                    },
                    None => final(modes)@ == old(modes)@ && final(acts)@ == old(acts)@,
                }
            },
            !(old(self)@.state == LiftState::Startable && *event == Signal::LiftRampScoopBallEnter) ==> {
                &&& final(modes)@ == old(modes)@
                &&& if old(self)@.state == LiftState::RampDown && *event == Signal::LiftRampHit {
                    &&& final(self)@ == ramped_up(old(self)@)
                    &&& final(acts)@ == old(acts)@ + ramp_up_actions(old(self)@)
                } else if *event == Signal::Timer(Timer::LiftRampTimeOut) || *event == Signal::PlayerTurnEnding {
                    &&& final(self)@ == ramped_down(old(self)@)
                    &&& final(acts)@ == old(acts)@ + ramp_down_actions(old(self)@)
                } else if *event == Signal::Timer(Timer::LiftRampStart) {
                    &&& final(self)@ == ramped_up(old(self)@)
                    &&& final(acts)@ == old(acts)@ + ramp_up_actions(old(self)@)
                } else if *event == Signal::ExclusiveModeEnded {
                    &&& final(self)@ == (LiftRampStartableView { state: LiftState::Startable, ..old(self)@ })
                    &&& final(acts)@ == old(acts)@
                } else {
                    &&& final(self)@ == old(self)@
                    &&& final(acts)@ == old(acts)@
                }
            },
    {
        if self.state == LiftState::Startable && *event == Signal::LiftRampScoopBallEnter {
            self.queue_start(modes, acts);
        } else if self.state == LiftState::RampDown && *event == Signal::LiftRampHit {
            self.ramp_up(acts);
        } else if *event == Signal::Timer(Timer::LiftRampTimeOut) || *event == Signal::PlayerTurnEnding {
            self.ramp_down(acts);
        } else if *event == Signal::Timer(Timer::LiftRampStart) {
            self.begin(acts);
        } else if *event == Signal::ExclusiveModeEnded {
            self.state = LiftState::Startable;
        }
    }
}

} // verus!

verus! {

/// Each time the offer times out and the ramp drops, the next offer lasts
/// five seconds longer, and the drop is counted.
pub proof fn lemma_each_drop_lengthens_offer(v: LiftRampStartableView)
    requires
        can_ramp_down(v),
    ensures
        ramped_down(v).ramp_up_duration_ms == v.ramp_up_duration_ms + 5000,
        ramped_down(v).ramp_downs == v.ramp_downs + 1,
        ramp_up_actions(ramped_up(ramped_down(v))) == seq![
            Action::LiftRampUp,
            Action::Cue(Timer::LiftRampTimeOut, CueTiming::Once((v.ramp_up_duration_ms + 5000) as u64)),
        ],
{
}

/// Modes that qualify while another is current wait behind it in the order
/// they qualified, and nothing is asked of the host for them.
pub proof fn lemma_lift_queues_in_order(v: LiftRampStartableView, first: ExclusiveMode, second: ExclusiveMode, d1: u64, d2: u64)
    requires
        v.current_mode is Some,
    ensures
        lift_made_startable(lift_made_startable(v, first, d1), second, d2).additional_modes == v.additional_modes.push(
            first,
        ).push(second),
        lift_make_startable_actions(v, first, d1) == Seq::<Action>::empty(),
{
}

} // verus!
