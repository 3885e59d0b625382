use vstd::prelude::*;
use crate::effects::{EffectOp, EffectSlot, EffectSpec, HexTarget};
use crate::game::exclusive_mode_manager::{ExclusiveMode, ExclusiveModeManager, crossfade_actions};
use crate::signals::{Action, CueTiming, NamedColor, Signal, Timer};

verus! {

/// Each qualifying arc ramp shot.
pub const QUAL_HIT_PTS: u32 = 5_000;
/// Starting the combo.
pub const START_PTS: u32 = 10_000;
/// Each combo shot, times the shot's number in the combo.
pub const COMBO_BASE_PTS: u32 = 5_000;

/// Where the first-generation Hydro Core stands.
#[derive(Debug, Clone, Copy, PartialEq, Eq, Structural)]
pub enum HydroCoreState {
    /// Counting arc ramp shots.
    Qualification(u8),
    /// Waiting for the ball in the lower scoop.
    Startable,
    /// Waiting for the given combo shot, with the id of its timer once known.
    ComboShot(u8, Option<u64>),
}

/// The first-generation Hydro Core: two arc ramp shots light the lower
/// scoop, which starts a timed combo (lift ramp, arc ramp, center orbit,
/// right orbit, arc ramp).
pub struct HydroCoreSystem {
    state: HydroCoreState,
    combo_hits: Vec<u8>,
}

pub struct HydroCoreSystemView {
    pub state: HydroCoreState,
    pub combo_hits: Set<u8>,
}

impl View for HydroCoreSystem {
    type V = HydroCoreSystemView;

    closed spec fn view(&self) -> HydroCoreSystemView {
        HydroCoreSystemView { state: self.state, combo_hits: self.combo_hits@.to_set() }
    }
}

/// The hex that shows the combo's next shot, for shots two to five.
pub open spec fn combo_hex(shot: u8) -> HexTarget {
    if shot == 2 {
        HexTarget::ArcRamp
    } else if shot == 3 {
        HexTarget::CenterOrbit
    } else if shot == 4 {
        HexTarget::RightOrbit
    } else {
        HexTarget::ArcRamp
    }
}

/// What making combo shot `current` scores: its points the first time it
/// is made, nothing after.
pub open spec fn combo_points(hits: Set<u8>, current: u8) -> Seq<Action> {
    if hits.contains(current) {
        seq![]
    } else {
        seq![Action::AddPoints((COMBO_BASE_PTS * current) as u32)]
    }
}

/// A combo shot scores only the first time it is made: making it records
/// it, and once recorded it scores nothing more.
pub proof fn lemma_combo_points_once(hits: Set<u8>, current: u8)
    ensures
        combo_points(hits.insert(current), current) == Seq::<Action>::empty(),
        !hits.contains(current) ==> combo_points(hits, current) == seq![
            Action::AddPoints((COMBO_BASE_PTS * current) as u32),
        ],
{
}

/// Waiting for `shot` with a fresh twenty-second timer.
pub open spec fn start_combo_actions() -> Seq<Action> {
    seq![
        Action::Cue(Timer::ComboTimeUp, CueTiming::Once(20_000)),
        Action::Effect(EffectSlot::Attention, EffectOp::Stop),
        Action::Effect(EffectSlot::Attention, EffectOp::Replace(EffectSpec::ComboHex(HexTarget::LiftRamp))),
    ]
}

pub open spec fn cancel_actions(id: Option<u64>) -> Seq<Action> {
    match id {
        Some(i) => seq![Action::CancelCue(i)],
        None => seq![],
    }
}

/// The actions of going back to qualifying.
pub open spec fn to_qualification_actions() -> Seq<Action> {
    seq![
        Action::Effect(EffectSlot::Arc, EffectOp::Stop),
        Action::Effect(EffectSlot::GeneralIllumination, EffectOp::Stop),
        Action::Effect(EffectSlot::Attention, EffectOp::Stop),
        Action::Effect(EffectSlot::Attention, EffectOp::Replace(EffectSpec::QualificationHex)),
    ]
}

impl HydroCoreSystem {
    pub fn new() -> (s: Self)
        ensures
            s@.state == HydroCoreState::Qualification(0),
            s@.combo_hits == Set::<u8>::empty(),
    {
        let s = HydroCoreSystem { state: HydroCoreState::Qualification(0), combo_hits: Vec::new() };
        assert(s.combo_hits@.to_set() =~= Set::<u8>::empty());
        s
    }

    /// Keeps the id the host gave the combo timer just scheduled.
    pub fn record_cue(&mut self, timer: Timer, id: u64)
        ensures
            (timer == Timer::ComboTimeUp && old(self)@.state is ComboShot) ==> final(self)@ == (HydroCoreSystemView {
                state: HydroCoreState::ComboShot(old(self)@.state->ComboShot_0, Some(id)),
                ..old(self)@
            }),
            !(timer == Timer::ComboTimeUp && old(self)@.state is ComboShot) ==> final(self)@ == old(self)@,
    {
        if timer == Timer::ComboTimeUp {
            if let HydroCoreState::ComboShot(shot, _) = self.state {
                self.state = HydroCoreState::ComboShot(shot, Some(id));
            }
        }
    }

    fn to_qualification(&mut self, acts: &mut Vec<Action>)
        ensures
            final(self)@ == (HydroCoreSystemView { state: HydroCoreState::Qualification(0), combo_hits: Set::empty() }),
            final(acts)@ == old(acts)@ + to_qualification_actions(),
    {
        self.combo_hits = Vec::new();
        acts.push(Action::Effect(EffectSlot::Arc, EffectOp::Stop));
        acts.push(Action::Effect(EffectSlot::GeneralIllumination, EffectOp::Stop));
        self.state = HydroCoreState::Qualification(0);
        acts.push(Action::Effect(EffectSlot::Attention, EffectOp::Stop));
        acts.push(Action::Effect(EffectSlot::Attention, EffectOp::Replace(EffectSpec::QualificationHex)));
        assert(self.combo_hits@.to_set() =~= Set::<u8>::empty());
        assert(final(acts)@ =~= old(acts)@ + to_qualification_actions());
    }

    fn to_startable(&mut self, acts: &mut Vec<Action>)
        ensures
            final(self)@ == (HydroCoreSystemView { state: HydroCoreState::Startable, ..old(self)@ }),
            final(acts)@ == old(acts)@ + seq![
                Action::Effect(EffectSlot::Attention, EffectOp::Stop),
                Action::Effect(EffectSlot::Attention, EffectOp::Replace(EffectSpec::ScoopBoltsFlash(NamedColor::Cyan))),
            ],
    {
        self.state = HydroCoreState::Startable;
        acts.push(Action::Effect(EffectSlot::Attention, EffectOp::Stop));
        acts.push(Action::Effect(EffectSlot::Attention, EffectOp::Replace(EffectSpec::ScoopBoltsFlash(NamedColor::Cyan))));
        assert(final(acts)@ =~= old(acts)@ + seq![
            Action::Effect(EffectSlot::Attention, EffectOp::Stop),
            Action::Effect(EffectSlot::Attention, EffectOp::Replace(EffectSpec::ScoopBoltsFlash(NamedColor::Cyan))),
        ]);
    }

    /// The ball in the scoop takes the playfield for Hydro Core; the combo
    /// starts from its first shot, scoring the start unless a combo runs.
    fn to_combo(&mut self, manager: &mut ExclusiveModeManager, acts: &mut Vec<Action>)
        ensures
            old(manager).mode().is_some() ==> {
                &&& final(manager).mode() == old(manager).mode()
                &&& final(self)@ == old(self)@
                &&& final(acts)@ == old(acts)@
            },
            old(manager).mode().is_none() ==> {
                &&& final(manager).mode() == Some(ExclusiveMode::HydroCore)
                &&& final(self)@ == (HydroCoreSystemView { state: HydroCoreState::ComboShot(1, None), ..old(self)@ })
                &&& final(acts)@ == old(acts)@ + crossfade_actions(ExclusiveMode::HydroCore) + (if old(self)@.state is ComboShot {
                    seq![]
                } else {
                    seq![
                        Action::AddPoints(START_PTS),
                        Action::Effect(EffectSlot::Arc, EffectOp::Play),
                        Action::Effect(EffectSlot::GeneralIllumination, EffectOp::Play),
                    ]
                }) + start_combo_actions()
            },
    {
        match manager.take_exclusive(ExclusiveMode::HydroCore, acts) {
            Ok(..) => {
                let ghost acts1 = acts@;
                let in_combo = match self.state {
                    HydroCoreState::ComboShot(..) => true,
                    _ => false,
                };
                if !in_combo {
                    acts.push(Action::AddPoints(START_PTS));
                    acts.push(Action::Effect(EffectSlot::Arc, EffectOp::Play));
                    acts.push(Action::Effect(EffectSlot::GeneralIllumination, EffectOp::Play));
                }
                let ghost acts2 = acts@;
                self.start_combo(1, acts);
                assert(acts2 =~= acts1 + (if old(self)@.state is ComboShot {
                    seq![]
                } else {
                    seq![
                        Action::AddPoints(START_PTS),
                        Action::Effect(EffectSlot::Arc, EffectOp::Play),
                        Action::Effect(EffectSlot::GeneralIllumination, EffectOp::Play),
                    ]
                }));
            },
            _ => {},
        }
    }

    fn start_combo(&mut self, shot: u8, acts: &mut Vec<Action>)
        ensures
            final(self)@ == (HydroCoreSystemView { state: HydroCoreState::ComboShot(shot, None), ..old(self)@ }),
            final(acts)@ == old(acts)@ + start_combo_actions(),
    {
        acts.push(Action::Cue(Timer::ComboTimeUp, CueTiming::Once(20_000)));
        self.state = HydroCoreState::ComboShot(shot, None);
        acts.push(Action::Effect(EffectSlot::Attention, EffectOp::Stop));
        acts.push(Action::Effect(EffectSlot::Attention, EffectOp::Replace(EffectSpec::ComboHex(HexTarget::LiftRamp))));
        assert(final(acts)@ =~= old(acts)@ + start_combo_actions());
    }

    /// Combo shot `current` was made: points the first time it is made, then
    /// the next shot with a fresh timer.
    fn advance_combo(&mut self, current: u8, cue_id: Option<u64>, acts: &mut Vec<Action>)
        requires
            1 <= current <= 4,
        ensures
            final(self)@ == (HydroCoreSystemView {
                state: HydroCoreState::ComboShot((current + 1) as u8, None),
                combo_hits: old(self)@.combo_hits.insert(current),
            }),
            final(acts)@ == old(acts)@ + cancel_actions(cue_id) + combo_points(old(self)@.combo_hits, current) + start_combo_actions() + seq![
                Action::Effect(EffectSlot::Attention, EffectOp::Stop),
                Action::Effect(EffectSlot::Attention, EffectOp::Replace(EffectSpec::ComboHex(combo_hex((current + 1) as u8)))),
            ],
    {
        if let Some(id) = cue_id {
            acts.push(Action::CancelCue(id));
        }
        let ghost acts1 = acts@;
        if !contains_u8(&self.combo_hits, current) {
            acts.push(Action::AddPoints(COMBO_BASE_PTS * current as u32));
            insert_u8(&mut self.combo_hits, current);
        } else {
            assert(self.combo_hits@.to_set() =~= old(self)@.combo_hits.insert(current));
        }
        let ghost acts2 = acts@;
        let next_shot = current + 1;
        self.start_combo(next_shot, acts);
        acts.push(Action::Effect(EffectSlot::Attention, EffectOp::Stop));
        let hex = if next_shot == 2 {
            HexTarget::ArcRamp
        } else if next_shot == 3 {
            HexTarget::CenterOrbit
        } else if next_shot == 4 {
            HexTarget::RightOrbit
        } else {
            HexTarget::ArcRamp
        };
        acts.push(Action::Effect(EffectSlot::Attention, EffectOp::Replace(EffectSpec::ComboHex(hex))));
        assert(final(acts)@ =~= old(acts)@ + cancel_actions(cue_id) + combo_points(old(self)@.combo_hits, current) + start_combo_actions() + seq![
            Action::Effect(EffectSlot::Attention, EffectOp::Stop),
            Action::Effect(EffectSlot::Attention, EffectOp::Replace(EffectSpec::ComboHex(combo_hex((current + 1) as u8)))),
        ]);
    }

    /// Runs only while no exclusive mode holds the playfield.
    pub fn is_active(&self, current_mode: &Option<ExclusiveMode>) -> (b: bool)
        ensures
            b == current_mode.is_none(),
    {
        current_mode.is_none()
    }

    /// Qualifying arc ramp shots score; the ball in the scoop starts the
    /// combo; each combo shot advances it and the last completes it; the
    /// combo timer restarts the combo.
    pub fn on_event(&mut self, event: &Signal, manager: &mut ExclusiveModeManager, acts: &mut Vec<Action>)
        requires
            old(self)@.state is Qualification ==> old(self)@.state->Qualification_0 < 255,
        ensures
            (old(self)@.state is Qualification && *event == Signal::ArcRampHit) ==> {
                let hits = (old(self)@.state->Qualification_0 + 1) as u8;
                &&& final(manager).mode() == old(manager).mode()
                &&& hits == 2 ==> {
                    &&& final(self)@ == (HydroCoreSystemView { state: HydroCoreState::Startable, ..old(self)@ })
                    &&& final(acts)@ == old(acts)@ + seq![
                        Action::AddPoints(QUAL_HIT_PTS),
                        Action::Effect(EffectSlot::Attention, EffectOp::Stop),
                        Action::Effect(EffectSlot::Attention, EffectOp::Replace(EffectSpec::ScoopBoltsFlash(NamedColor::Cyan))),
                    ]
                }
                &&& hits != 2 ==> {
                    &&& final(self)@ == old(self)@
                    &&& final(acts)@ == old(acts)@.push(Action::AddPoints(QUAL_HIT_PTS))
                }
            },
            (old(self)@.state == HydroCoreState::Startable && *event == Signal::LowerScoopBallEnter) ==> {
                &&& old(manager).mode().is_some() ==> final(manager).mode() == old(manager).mode()
                    && final(self)@ == old(self)@ && final(acts)@ == old(acts)@
                &&& old(manager).mode().is_none() ==> final(manager).mode() == Some(ExclusiveMode::HydroCore)
                    && final(self)@ == (HydroCoreSystemView { state: HydroCoreState::ComboShot(1, None), ..old(self)@ })
                    && final(acts)@ == old(acts)@ + crossfade_actions(ExclusiveMode::HydroCore) + seq![
                        Action::AddPoints(START_PTS),
                        Action::Effect(EffectSlot::Arc, EffectOp::Play),
                        Action::Effect(EffectSlot::GeneralIllumination, EffectOp::Play),
                    ] + start_combo_actions()
            },
            (old(self)@.state is ComboShot && 1 <= old(self)@.state->ComboShot_0 <= 4
                && *event == combo_signal(old(self)@.state->ComboShot_0)) ==> {
                let current = old(self)@.state->ComboShot_0;
                &&& final(manager).mode() == old(manager).mode()
                &&& final(self)@ == (HydroCoreSystemView {
                    state: HydroCoreState::ComboShot((current + 1) as u8, None),
                    combo_hits: old(self)@.combo_hits.insert(current),
                })
                &&& final(acts)@ == old(acts)@ + cancel_actions(old(self)@.state->ComboShot_1)
                    + combo_points(old(self)@.combo_hits, current) + start_combo_actions() + seq![
                    Action::Effect(EffectSlot::Attention, EffectOp::Stop),
                    Action::Effect(EffectSlot::Attention, EffectOp::Replace(EffectSpec::ComboHex(combo_hex((current + 1) as u8)))),
                ]
            },
            (old(self)@.state is ComboShot && old(self)@.state->ComboShot_0 == 5 && *event == Signal::ArcRampHit) ==> {
                &&& final(manager).mode() == old(manager).mode()
                &&& final(self)@ == (HydroCoreSystemView { state: HydroCoreState::Qualification(0), combo_hits: Set::empty() })
                &&& final(acts)@ == old(acts)@ + cancel_actions(old(self)@.state->ComboShot_1) + to_qualification_actions()
            },
            !handled_shot(old(self)@.state, *event) && *event == Signal::Timer(Timer::ComboTimeUp) ==> {
                &&& final(manager).mode() == old(manager).mode()
                &&& final(self)@ == (HydroCoreSystemView { state: HydroCoreState::ComboShot(1, None), ..old(self)@ })
                &&& final(acts)@ == old(acts)@ + start_combo_actions()
            },
            !handled_shot(old(self)@.state, *event) && *event != Signal::Timer(Timer::ComboTimeUp) ==> {
                &&& final(manager).mode() == old(manager).mode()
                &&& final(self)@ == old(self)@
                &&& final(acts)@ == old(acts)@
            },
    {
        match (self.state, event) {
            (HydroCoreState::Qualification(hits), Signal::ArcRampHit) => {
                let hits = hits + 1;
                acts.push(Action::AddPoints(QUAL_HIT_PTS));
                if hits == 2 {
                    self.to_startable(acts);
                    assert(final(acts)@ =~= old(acts)@ + seq![
                        Action::AddPoints(QUAL_HIT_PTS),
                        Action::Effect(EffectSlot::Attention, EffectOp::Stop),
                        Action::Effect(EffectSlot::Attention, EffectOp::Replace(EffectSpec::ScoopBoltsFlash(NamedColor::Cyan))),
                    ]);
                }
            },
            (HydroCoreState::Startable, Signal::LowerScoopBallEnter) => {
                self.to_combo(manager, acts);
            },
            (HydroCoreState::ComboShot(1, id), Signal::LiftRampHit) => {
                self.advance_combo(1, id, acts);
            },
            (HydroCoreState::ComboShot(2, id), Signal::ArcRampHit) => {
                self.advance_combo(2, id, acts);
            },
            (HydroCoreState::ComboShot(3, id), Signal::CenterOrbitHit) => {
                self.advance_combo(3, id, acts);
            },
            (HydroCoreState::ComboShot(4, id), Signal::RightOrbitHit) => {
                self.advance_combo(4, id, acts);
            },
            (HydroCoreState::ComboShot(5, id), Signal::ArcRampHit) => {
                if let Some(i) = id {
                    acts.push(Action::CancelCue(i));
                }
                let ghost acts1 = acts@;
                self.to_qualification(acts);
                assert(acts1 =~= old(acts)@ + cancel_actions(id));
            },
            (_, Signal::Timer(Timer::ComboTimeUp)) => {
                self.start_combo(1, acts);
            },
            _ => {},
        }
    }
}

/// The shot that continues the first-generation combo from each step.
pub open spec fn combo_signal(shot: u8) -> Signal {
    if shot == 1 {
        Signal::LiftRampHit
    } else if shot == 2 {
        Signal::ArcRampHit
    } else if shot == 3 {
        Signal::CenterOrbitHit
    } else if shot == 4 {
        Signal::RightOrbitHit
    } else {
        Signal::ArcRampHit
    }
}

/// The event is one that the system reacts to in its state, other than the
/// combo timer.
pub open spec fn handled_shot(state: HydroCoreState, event: Signal) -> bool {
    match state {
        HydroCoreState::Qualification(_) => event == Signal::ArcRampHit,
        HydroCoreState::Startable => event == Signal::LowerScoopBallEnter,
        HydroCoreState::ComboShot(shot, _) => 1 <= shot <= 5 && event == combo_signal(shot),
    }
}

fn contains_u8(v: &Vec<u8>, x: u8) -> (r: bool)
    ensures
        r == v@.to_set().contains(x),
{
    let mut i: usize = 0;
    while i < v.len()
        invariant
            0 <= i <= v@.len(),
            forall|j: int| 0 <= j < i ==> v@[j] != x,
        decreases v@.len() - i,
    {
        if v[i] == x {
            assert(v@.contains(x));
            return true;
        }
        i = i + 1;
    }
    false
}

fn insert_u8(v: &mut Vec<u8>, x: u8)
    ensures
        final(v)@.to_set() == old(v)@.to_set().insert(x),
{
    if !contains_u8(v, x) {
        v.push(x);
        assert(v@.to_set() =~= old(v)@.to_set().insert(x)) by {
            assert forall|y: u8| v@.contains(y) <==> (old(v)@.contains(y) || y == x) by {
                if old(v)@.contains(y) {
                    let k = choose|k: int| 0 <= k < old(v)@.len() && old(v)@[k] == y;
                    assert(v@[k] == y);
                }
                if y == x {
                    assert(v@[v@.len() - 1] == y);
                }
                if v@.contains(y) && y != x {
                    let k = choose|k: int| 0 <= k < v@.len() && v@[k] == y;
                    assert(old(v)@[k] == y);
                }
            }
        }
    } else {
        assert(v@.to_set() =~= old(v)@.to_set().insert(x));
    }
}

} // verus!
