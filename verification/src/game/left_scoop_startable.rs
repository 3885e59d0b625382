use vstd::prelude::*;
use std::collections::VecDeque;
use crate::effects::{EffectOp, EffectSlot, EffectSpec};
use crate::game::exclusive_mode::ExclusiveMode;
use crate::game::mode_manager::{ModeManager, ModeManagerView, after_crossfade, crossfade_actions};
use crate::game::points;
use crate::signals::{Action, CueTiming, Signal, Timer};

verus! {

/// Where a mode stands on its way through the left scoop.
#[derive(Debug, Clone, Copy, PartialEq, Eq, Structural)]
pub enum ScoopState {
    OpenForStarting,
    /// Waiting for the activation delay before the mode can be started.
    Pending(ExclusiveMode),
    /// The mode can be started: the scoop listens for a ball.
    Startable(ExclusiveMode),
    /// A ball landed in the scoop; waiting for the hit animation to finish.
    Starting(ExclusiveMode),
}

/// Starts qualified exclusive modes when the ball enters the left (lower)
/// scoop, one at a time and in the order they qualified.
pub struct LeftScoopStartable {
    /// The mode whose colors the startable effects were built in.
    effects: Option<ExclusiveMode>,
    state: ScoopState,
    cue_id: Option<u64>,
    /// Modes that qualified while another one was being offered.
    additional_modes: VecDeque<ExclusiveMode>,
}

pub struct LeftScoopStartableView {
    pub effects: Option<ExclusiveMode>,
    pub state: ScoopState,
    pub cue_id: Option<u64>,
    pub additional_modes: Seq<ExclusiveMode>,
}

impl View for LeftScoopStartable {
    type V = LeftScoopStartableView;

    closed spec fn view(&self) -> LeftScoopStartableView {
        LeftScoopStartableView {
            effects: self.effects,
            state: self.state,
            cue_id: self.cue_id,
            additional_modes: self.additional_modes@,
        }
    }
}

/// Effects exist whenever a mode is on offer.
pub open spec fn scoop_wf(v: LeftScoopStartableView) -> bool {
    v.state != ScoopState::OpenForStarting ==> v.effects.is_some()
}

/// The actions that build the startable effects in a mode's colors.
pub open spec fn build_effect_actions(mode: ExclusiveMode) -> Seq<Action> {
    seq![
        Action::Effect(EffectSlot::Hit, EffectOp::Replace(EffectSpec::StartableHit(mode))),
        Action::Effect(EffectSlot::Attention, EffectOp::Replace(EffectSpec::StartableAttention(mode))),
    ]
}

/// The state after `mode` qualified: offered after its delay if the scoop
/// is open, else queued behind the modes already waiting.
pub open spec fn made_startable(v: LeftScoopStartableView, mode: ExclusiveMode, delay_ms: u64) -> LeftScoopStartableView {
    if v.state == ScoopState::OpenForStarting {
        LeftScoopStartableView { state: ScoopState::Pending(mode), effects: Some(mode), ..v }
    } else {
        LeftScoopStartableView { additional_modes: v.additional_modes.push(mode), ..v }
    }
}

pub open spec fn make_startable_actions(v: LeftScoopStartableView, mode: ExclusiveMode, delay_ms: u64) -> Seq<Action> {
    if v.state == ScoopState::OpenForStarting {
        build_effect_actions(mode) + seq![Action::Cue(Timer::BecomeStartable, CueTiming::Once(delay_ms))]
    } else {
        seq![]
    }
}

/// The offer of `mode` once its delay passed: effects are built only if
/// none exist.
pub open spec fn offered(v: LeftScoopStartableView, mode: ExclusiveMode) -> LeftScoopStartableView {
    LeftScoopStartableView {
        state: ScoopState::Startable(mode),
        effects: if v.effects.is_none() { Some(mode) } else { v.effects },
        ..v
    }
}

pub open spec fn offered_actions(v: LeftScoopStartableView, mode: ExclusiveMode) -> Seq<Action> {
    if v.effects.is_none() { build_effect_actions(mode) } else { seq![] }
}

/// After a mode started: the next queued mode is offered, else the scoop opens.
pub open spec fn advanced(v: LeftScoopStartableView) -> LeftScoopStartableView {
    if v.additional_modes.len() > 0 {
        offered(LeftScoopStartableView { additional_modes: v.additional_modes.drop_first(), ..v }, v.additional_modes[0])
    } else {
        LeftScoopStartableView { state: ScoopState::OpenForStarting, ..v }
    }
}

pub open spec fn advanced_actions(v: LeftScoopStartableView) -> Seq<Action> {
    if v.additional_modes.len() > 0 {
        offered_actions(v, v.additional_modes[0])
    } else {
        seq![]
    }
}

impl LeftScoopStartable {
    pub fn new() -> (s: Self)
        ensures
            s@.effects.is_none(),
            s@.state == ScoopState::OpenForStarting,
            s@.cue_id.is_none(),
            s@.additional_modes == Seq::<ExclusiveMode>::empty(),
            scoop_wf(s@),
    {
        LeftScoopStartable {
            effects: None,
            state: ScoopState::OpenForStarting,
            cue_id: None,
            additional_modes: VecDeque::new(),
        }
    }

    /// Offers `mode` after `activation_delay_ms`, or queues it behind the
    /// mode on offer.
    pub fn make_startable(&mut self, mode: ExclusiveMode, activation_delay_ms: u64, acts: &mut Vec<Action>)
        requires
            scoop_wf(old(self)@),
        ensures
            scoop_wf(final(self)@),
            final(self)@ == made_startable(old(self)@, mode, activation_delay_ms),
            final(acts)@ == old(acts)@ + make_startable_actions(old(self)@, mode, activation_delay_ms),
    {
        match self.state {
            ScoopState::OpenForStarting => {
                self.state = ScoopState::Pending(mode);
                self.effects = Some(mode);
                acts.push(Action::Effect(EffectSlot::Hit, EffectOp::Replace(EffectSpec::StartableHit(mode))));
                acts.push(Action::Effect(EffectSlot::Attention, EffectOp::Replace(EffectSpec::StartableAttention(mode))));
                acts.push(Action::Cue(Timer::BecomeStartable, CueTiming::Once(activation_delay_ms)));
                proof {
                    assert(final(acts)@ =~= old(acts)@ + make_startable_actions(old(self)@, mode, activation_delay_ms));
                }
            },
            _ => {
                self.additional_modes.push_back(mode);
                assert(final(acts)@ =~= old(acts)@ + make_startable_actions(old(self)@, mode, activation_delay_ms));
            },
        }
    }

    /// Keeps the id the host gave the activation timer just scheduled.
    pub fn record_cue(&mut self, timer: Timer, id: u64)
        requires
            scoop_wf(old(self)@),
        ensures
            scoop_wf(final(self)@),
            timer == Timer::BecomeStartable ==> final(self)@ == (LeftScoopStartableView { cue_id: Some(id), ..old(self)@ }),
            timer != Timer::BecomeStartable ==> final(self)@ == old(self)@,
    {
        if timer == Timer::BecomeStartable {
            self.cue_id = Some(id);
        }
    }

    fn transition_to_startable(&mut self, mode: ExclusiveMode, acts: &mut Vec<Action>)
        ensures
            final(self)@ == offered(old(self)@, mode),
            final(acts)@ == old(acts)@ + offered_actions(old(self)@, mode),
    {
        self.state = ScoopState::Startable(mode);
        if self.effects.is_none() {
            self.effects = Some(mode);
            acts.push(Action::Effect(EffectSlot::Hit, EffectOp::Replace(EffectSpec::StartableHit(mode))));
            acts.push(Action::Effect(EffectSlot::Attention, EffectOp::Replace(EffectSpec::StartableAttention(mode))));
            proof {
                assert(final(acts)@ =~= old(acts)@ + offered_actions(old(self)@, mode));
            }
        } else {
            assert(final(acts)@ =~= old(acts)@ + offered_actions(old(self)@, mode));
        }
    }

    fn advance_mode(&mut self, acts: &mut Vec<Action>)
        ensures
            final(self)@ == advanced(old(self)@),
            final(acts)@ == old(acts)@ + advanced_actions(old(self)@),
    {
        if let Some(mode) = self.additional_modes.pop_front() {
            self.transition_to_startable(mode, acts);
        } else {
            self.state = ScoopState::OpenForStarting;
            assert(final(acts)@ =~= old(acts)@ + advanced_actions(old(self)@));
        }
    }

    /// The ball entered the scoop while a mode is on offer: the mode takes
    /// the playfield if it can and starts its hit animation.
    fn start(&mut self, modes: &mut ModeManager, acts: &mut Vec<Action>)
        requires
            scoop_wf(old(self)@),
        ensures
            scoop_wf(final(self)@),
            match old(self)@.state {
                ScoopState::Startable(mode) => match old(modes)@.exclusive_mode {
                    None => {
                        let taken = ModeManagerView { exclusive_mode: Some(mode), ..old(modes)@ };
                        &&& final(modes)@ == after_crossfade(taken)
                        &&& final(self)@ == (LeftScoopStartableView { state: ScoopState::Starting(mode), ..old(self)@ })
                        &&& final(acts)@ == old(acts)@ + crossfade_actions(taken)
                            + seq![
                            Action::EmitExclusiveModeStarted(mode),
                            Action::Effect(EffectSlot::Hit, EffectOp::Play),
                            Action::PlaySfx(mode.spec_start_sound()),
                            Action::AddPoints(points::EXCL_START),
                        ]
                    },
                    Some(_) => {
                        &&& final(modes)@ == old(modes)@
                        &&& final(self)@ == old(self)@
                        &&& final(acts)@ == old(acts)@
                    },
                },
                _ => {
                    &&& final(modes)@ == old(modes)@
                    &&& final(self)@ == old(self)@
                    &&& final(acts)@ == old(acts)@
                },
            },
    {
        if let ScoopState::Startable(mode) = self.state {
            let ghost acts0 = acts@;
            if let Ok(..) = modes.take_exclusive(mode, acts) {
                self.state = ScoopState::Starting(mode);
                acts.push(Action::Effect(EffectSlot::Hit, EffectOp::Play));
                acts.push(Action::PlaySfx(mode.start_sound()));
                acts.push(Action::AddPoints(points::EXCL_START));
                proof {
                    let taken = ModeManagerView { exclusive_mode: Some(mode), ..old(modes)@ };
                    assert(final(acts)@ =~= old(acts)@ + crossfade_actions(taken)
                        + seq![
                        Action::EmitExclusiveModeStarted(mode),
                        Action::Effect(EffectSlot::Hit, EffectOp::Play),
                        Action::PlaySfx(mode.spec_start_sound()),
                        Action::AddPoints(points::EXCL_START),
                    ]);
                }
            }
        }
    }

    /// Runs only while no exclusive mode holds the playfield, or while the
    /// mode it is starting does.
    pub fn is_active(&self, current_mode: &Option<ExclusiveMode>) -> (b: bool)
        ensures
            b == match (self@.state, *current_mode) {
                (ScoopState::Starting(starting), Some(active)) => active == starting,
                (_, Some(_)) => false,
                _ => true,
            },
    {
        match (&self.state, current_mode) {
            (ScoopState::Starting(starting), Some(active)) => *active == *starting,
            (_, Some(_)) => false,
            _ => true,
        }
    }

    /// Once the hit animation of a starting mode finished, the mode's system
    /// starts and the next queued mode is offered.
    pub fn on_tick(&mut self, hit_effect_complete: bool, acts: &mut Vec<Action>)
        requires
            scoop_wf(old(self)@),
            hit_effect_complete ==> match old(self)@.state {
                ScoopState::Starting(mode) => mode.has_mode_system(),
                _ => true,
            },
        ensures
            scoop_wf(final(self)@),
            ({
                let fires = old(self)@.effects.is_some() && hit_effect_complete
                    && old(self)@.state is Starting;
                if fires {
                    let mode = old(self)@.state->Starting_0;
                    &&& final(self)@ == advanced(old(self)@)
                    &&& final(acts)@ == old(acts)@ + seq![
                        Action::Effect(EffectSlot::Attention, EffectOp::Stop),
                        Action::Effect(EffectSlot::Hit, EffectOp::Stop),
                        Action::Spawn(mode.mode_system()),
                    ] + advanced_actions(old(self)@)
                } else {
                    &&& final(self)@ == old(self)@
                    &&& final(acts)@ == old(acts)@
                }
            }),
    {
        if self.effects.is_some() && hit_effect_complete {
            if let ScoopState::Starting(mode) = self.state {
                acts.push(Action::Effect(EffectSlot::Attention, EffectOp::Stop));
                acts.push(Action::Effect(EffectSlot::Hit, EffectOp::Stop));
                mode.start(acts);
                let ghost acts1 = acts@;
                self.advance_mode(acts);
                proof {
                    assert(final(acts)@ =~= old(acts)@ + seq![
                        Action::Effect(EffectSlot::Attention, EffectOp::Stop),
                        Action::Effect(EffectSlot::Hit, EffectOp::Stop),
                        Action::Spawn(mode.mode_system()),
                    ] + advanced_actions(old(self)@));
                }
            }
        }
    }

    /// A ball in the scoop starts the mode on offer; the activation timer
    /// makes a pending mode startable.
    pub fn on_event(&mut self, event: &Signal, modes: &mut ModeManager, acts: &mut Vec<Action>)
        requires
            scoop_wf(old(self)@),
        ensures
            scoop_wf(final(self)@),
            (old(self)@.state is Startable && *event == Signal::LowerScoopBallEnter) ==> {
                let mode = old(self)@.state->Startable_0;
                match old(modes)@.exclusive_mode {
                    None => {
                        let taken = ModeManagerView { exclusive_mode: Some(mode), ..old(modes)@ };
                        &&& final(modes)@ == after_crossfade(taken)
                        &&& final(self)@ == (LeftScoopStartableView { state: ScoopState::Starting(mode), ..old(self)@ })
                        &&& final(acts)@ == old(acts)@ + crossfade_actions(taken)
                            + seq![
                            Action::EmitExclusiveModeStarted(mode),
                            Action::Effect(EffectSlot::Hit, EffectOp::Play),
                            Action::PlaySfx(mode.spec_start_sound()),
                            Action::AddPoints(points::EXCL_START),
                        ]
                    },
                    Some(_) => {
                        &&& final(modes)@ == old(modes)@
                        &&& final(self)@ == old(self)@
                        &&& final(acts)@ == old(acts)@
                    },
                }
            },
            !(old(self)@.state is Startable && *event == Signal::LowerScoopBallEnter) ==> {
                &&& final(modes)@ == old(modes)@
                &&& if *event == Signal::Timer(Timer::BecomeStartable) && old(self)@.state is Pending {
                    let mode = old(self)@.state->Pending_0;
                    &&& final(self)@ == offered(old(self)@, mode)
                    &&& final(acts)@ == old(acts)@ + offered_actions(old(self)@, mode)
                } else {
                    &&& final(self)@ == old(self)@
                    &&& final(acts)@ == old(acts)@
                }
            },
    {
        let startable = match self.state {
            ScoopState::Startable(_) => true,
            _ => false,
        };
        if startable && *event == Signal::LowerScoopBallEnter {
            self.start(modes, acts);
        } else if *event == Signal::Timer(Timer::BecomeStartable) {
            if let ScoopState::Pending(mode) = self.state {
                self.transition_to_startable(mode, acts);
            }
        }
    }
}

} // verus!

verus! {

/// Modes that qualify while another is on offer wait their turn and are
/// offered one after the other in the order they qualified.
pub proof fn lemma_scoop_offers_in_order(
    v: LeftScoopStartableView,
    first: ExclusiveMode,
    second: ExclusiveMode,
    d1: u64,
    d2: u64,
)
    requires
        v.state != ScoopState::OpenForStarting,
        v.additional_modes.len() == 0,
    ensures
        advanced(made_startable(made_startable(v, first, d1), second, d2)).state == ScoopState::Startable(first),
        advanced(advanced(made_startable(made_startable(v, first, d1), second, d2))).state == ScoopState::Startable(
            second,
        ),
        advanced(advanced(advanced(made_startable(made_startable(v, first, d1), second, d2)))).state
            == ScoopState::OpenForStarting,
{
    let q = made_startable(made_startable(v, first, d1), second, d2);
    assert(q.additional_modes =~= seq![first, second]);
    assert(q.additional_modes.drop_first() =~= seq![second]);
    assert(q.additional_modes.drop_first().drop_first() =~= Seq::<ExclusiveMode>::empty());
}

} // verus!
