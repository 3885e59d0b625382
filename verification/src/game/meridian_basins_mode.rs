use vstd::prelude::*;
use crate::effects::{EffectOp, EffectSlot, EffectSpec};
use crate::game::exclusive_mode::ExclusiveMode;
use crate::game::lift_ramp_startable::{LiftRampStartable, lift_made_startable, lift_make_startable_actions};
use crate::game::mode_manager::{ModeManager, completed_exclusive, complete_exclusive_actions, released_exclusive, release_actions};
use crate::game::points;
use crate::signals::{Action, CueTiming, PopBumper, Signal, Sound, SystemKind, Timer};

verus! {

/// Hits that complete Meridian Basins.
pub const REQUIRED_HITS: u8 = 6;

/// Every shot of the playfield that Meridian Basins can light.
#[derive(Debug, Clone, Copy, PartialEq, Eq, Structural, Hash)]
pub enum ModeShots {
    LeftOrbit,
    DomeRamp,
    LeftPop,
    ArcRamp,
    CaptiveBall,
    CenterOrbit,
    LiftRamp,
    UpperRightPop,
    RightOrbit,
    LowerRightPop,
}

impl ModeShots {
    /// The shots left to right across the playfield.
    pub open spec fn ordered_seq() -> Seq<ModeShots> {
        seq![
            ModeShots::LeftOrbit,
            ModeShots::DomeRamp,
            ModeShots::LeftPop,
            ModeShots::ArcRamp,
            ModeShots::CaptiveBall,
            ModeShots::CenterOrbit,
            ModeShots::LiftRamp,
            ModeShots::UpperRightPop,
            ModeShots::RightOrbit,
            ModeShots::LowerRightPop,
        ]
    }

    pub open spec fn order_index(self) -> int {
        match self {
            ModeShots::LeftOrbit => 0,
            ModeShots::DomeRamp => 1,
            ModeShots::LeftPop => 2,
            ModeShots::ArcRamp => 3,
            ModeShots::CaptiveBall => 4,
            ModeShots::CenterOrbit => 5,
            ModeShots::LiftRamp => 6,
            ModeShots::UpperRightPop => 7,
            ModeShots::RightOrbit => 8,
            ModeShots::LowerRightPop => 9,
        }
    }

    pub fn ordered() -> (v: Vec<ModeShots>)
        ensures
            v@ == Self::ordered_seq(),
    {
        vec![
            ModeShots::LeftOrbit,
            ModeShots::DomeRamp,
            ModeShots::LeftPop,
            ModeShots::ArcRamp,
            ModeShots::CaptiveBall,
            ModeShots::CenterOrbit,
            ModeShots::LiftRamp,
            ModeShots::UpperRightPop,
            ModeShots::RightOrbit,
            ModeShots::LowerRightPop,
        ]
    }
}

/// The three lit shots after `first`: the next three going right, wrapping.
pub open spec fn next_set(first: ModeShots) -> Seq<ModeShots> {
    let i = first.order_index();
    seq![
        ModeShots::ordered_seq()[(i + 1) % 10],
        ModeShots::ordered_seq()[(i + 2) % 10],
        ModeShots::ordered_seq()[(i + 3) % 10],
    ]
}

/// The shot made by an event, if the event is a mode shot.
pub open spec fn shot_of(event: Signal) -> Option<ModeShots> {
    match event {
        Signal::LeftOrbitHit => Some(ModeShots::LeftOrbit),
        Signal::DomeRampHit => Some(ModeShots::DomeRamp),
        Signal::ArcRampHit => Some(ModeShots::ArcRamp),
        Signal::CenterOrbitHit => Some(ModeShots::CenterOrbit),
        Signal::LiftRampHit => Some(ModeShots::LiftRamp),
        Signal::RightOrbitHit => Some(ModeShots::RightOrbit),
        Signal::CaptiveBallHit => Some(ModeShots::CaptiveBall),
        Signal::Switch(sw) => match sw.pop {
            Some(PopBumper::Left) => Some(ModeShots::LeftPop),
            Some(PopBumper::UpperRight) => Some(ModeShots::UpperRightPop),
            Some(PopBumper::LowerRight) => Some(ModeShots::LowerRightPop),
            None => None,
        },
        _ => None,
    }
}

/// The Meridian Basins mode: three shots are lit and move one step right
/// every 2.25 seconds; six lit shots complete the mode.
pub struct MeridianBasinsMode {
    hits: u8,
    current_shots: Vec<ModeShots>,
}

pub struct MeridianBasinsModeView {
    pub hits: u8,
    pub current_shots: Seq<ModeShots>,
}

impl View for MeridianBasinsMode {
    type V = MeridianBasinsModeView;

    closed spec fn view(&self) -> MeridianBasinsModeView {
        MeridianBasinsModeView { hits: self.hits, current_shots: self.current_shots@ }
    }
}

/// Three shots are lit and another hit can be counted.
pub open spec fn meridian_wf(v: MeridianBasinsModeView) -> bool {
    v.current_shots.len() == 3 && v.hits < 255
}

/// What a hit of a lit shot asks of the host.
pub open spec fn lit_hit_actions(hits: u8) -> Seq<Action> {
    seq![
        Action::Effect(EffectSlot::Progress, EffectOp::Replace(EffectSpec::ProgressBar(ExclusiveMode::MeridianBasins, hits, REQUIRED_HITS))),
        Action::PlaySfx(Sound::RandomLaneHit),
        Action::AddPoints(points::EXL_MODE_HIT),
    ] + (if hits == 4 {
        seq![Action::Effect(EffectSlot::Intensity, EffectOp::Play)]
    } else if hits == REQUIRED_HITS {
        seq![
            Action::PlaySfx(Sound::ArpHit1),
            Action::Effect(EffectSlot::Hit, EffectOp::Replace(EffectSpec::PlayfieldFlash(ExclusiveMode::MeridianBasins, 4))),
            Action::AddPoints(points::EXL_COMPLETION),
        ]
    } else {
        seq![]
    }) + seq![Action::Effect(EffectSlot::Hit, EffectOp::Play)]
}

impl MeridianBasinsMode {
    pub fn new() -> (m: Self)
        ensures
            m@.hits == 0,
            m@.current_shots == seq![ModeShots::LeftOrbit, ModeShots::DomeRamp, ModeShots::LeftOrbit],
            meridian_wf(m@),
    {
        let m = MeridianBasinsMode {
            hits: 0,
            current_shots: vec![ModeShots::LeftOrbit, ModeShots::DomeRamp, ModeShots::LeftOrbit],
        };
        assert(m.current_shots@ =~= seq![ModeShots::LeftOrbit, ModeShots::DomeRamp, ModeShots::LeftOrbit]);
        m
    }

    /// The turn ended before the mode was done: it gives the playfield back
    /// and is offered again at the lift ramp.
    fn revert_to_startable(&mut self, modes: &mut ModeManager, lift: &mut LiftRampStartable, acts: &mut Vec<Action>)
        ensures
            final(self)@ == old(self)@,
            final(modes)@ == released_exclusive(old(modes)@, ExclusiveMode::MeridianBasins),
            final(lift)@ == lift_made_startable(old(lift)@, ExclusiveMode::MeridianBasins, 0),
            final(acts)@ == old(acts)@ + release_actions(old(modes)@, ExclusiveMode::MeridianBasins)
                + lift_make_startable_actions(old(lift)@, ExclusiveMode::MeridianBasins, 0) + seq![Action::DespawnSelf],
    {
        modes.release_exclusive(&ExclusiveMode::MeridianBasins, acts);
        lift.make_startable(ExclusiveMode::MeridianBasins, 0, acts);
        acts.push(Action::DespawnSelf);
        assert(final(acts)@ =~= old(acts)@ + release_actions(old(modes)@, ExclusiveMode::MeridianBasins)
            + lift_make_startable_actions(old(lift)@, ExclusiveMode::MeridianBasins, 0) + seq![Action::DespawnSelf]);
    }

    fn contains_shot(&self, shot: ModeShots) -> (b: bool)
        ensures
            b == self@.current_shots.contains(shot),
    {
        let mut i: usize = 0;
        while i < self.current_shots.len()
            invariant
                0 <= i <= self@.current_shots.len(),
                forall|j: int| 0 <= j < i ==> self@.current_shots[j] != shot,
            decreases self@.current_shots.len() - i,
        {
            if self.current_shots[i] == shot {
                assert(self@.current_shots[i as int] == shot);
                return true;
            }
            i = i + 1;
        }
        false
    }

    /// A lit shot counts a hit: points, progress, the intensity effect at
    /// four hits, the completion at six. Unlit shots do nothing.
    fn on_shot_hit(&mut self, shot: ModeShots, acts: &mut Vec<Action>)
        requires
            meridian_wf(old(self)@),
        ensures
            old(self)@.current_shots.contains(shot) ==> {
                &&& final(self)@ == (MeridianBasinsModeView { hits: (old(self)@.hits + 1) as u8, ..old(self)@ })
                &&& final(acts)@ == old(acts)@ + lit_hit_actions((old(self)@.hits + 1) as u8)
            },
            !old(self)@.current_shots.contains(shot) ==> final(self)@ == old(self)@ && final(acts)@ == old(acts)@,
    {
        if self.contains_shot(shot) {
            self.hits += 1;
            acts.push(Action::Effect(EffectSlot::Progress, EffectOp::Replace(EffectSpec::ProgressBar(ExclusiveMode::MeridianBasins, self.hits, REQUIRED_HITS))));
            acts.push(Action::PlaySfx(Sound::RandomLaneHit));
            acts.push(Action::AddPoints(points::EXL_MODE_HIT));
            if self.hits == 4 {
                acts.push(Action::Effect(EffectSlot::Intensity, EffectOp::Play));
            } else if self.is_complete() {
                acts.push(Action::PlaySfx(Sound::ArpHit1));
                acts.push(Action::Effect(EffectSlot::Hit, EffectOp::Replace(EffectSpec::PlayfieldFlash(ExclusiveMode::MeridianBasins, 4))));
                acts.push(Action::AddPoints(points::EXL_COMPLETION));
            }
            acts.push(Action::Effect(EffectSlot::Hit, EffectOp::Play));
            assert(final(acts)@ =~= old(acts)@ + lit_hit_actions((old(self)@.hits + 1) as u8));
        }
    }

    fn complete(&mut self, modes: &mut ModeManager, acts: &mut Vec<Action>)
        ensures
            final(self)@ == old(self)@,
            final(modes)@ == completed_exclusive(old(modes)@, ExclusiveMode::MeridianBasins),
            final(acts)@ == old(acts)@ + complete_exclusive_actions(old(modes)@, ExclusiveMode::MeridianBasins)
                + seq![Action::ReplaceSelf(SystemKind::MeridianBasinsQualification)],
    {
        modes.complete_exclusive(ExclusiveMode::MeridianBasins, acts);
        acts.push(Action::ReplaceSelf(SystemKind::MeridianBasinsQualification));
        assert(final(acts)@ =~= old(acts)@ + complete_exclusive_actions(old(modes)@, ExclusiveMode::MeridianBasins)
            + seq![Action::ReplaceSelf(SystemKind::MeridianBasinsQualification)]);
    }

    fn is_complete(&self) -> (b: bool)
        ensures
            b == (self@.hits == REQUIRED_HITS),
    {
        self.hits == REQUIRED_HITS
    }

    /// The lit shots move one step to the right.
    fn advance(&mut self, acts: &mut Vec<Action>)
        requires
            meridian_wf(old(self)@),
        ensures
            meridian_wf(final(self)@),
            final(self)@ == (MeridianBasinsModeView { current_shots: next_set(old(self)@.current_shots[0]), ..old(self)@ }),
            final(acts)@ == old(acts)@ + seq![
                Action::Effect(EffectSlot::Attention, EffectOp::Stop),
                Action::Effect(EffectSlot::Attention, EffectOp::Replace(EffectSpec::ModeShotsPulse(
                    next_set(old(self)@.current_shots[0])[0],
                    next_set(old(self)@.current_shots[0])[1],
                    next_set(old(self)@.current_shots[0])[2],
                ))),
            ],
    {
        let ordered = ModeShots::ordered();
        let first = self.current_shots[0];
        let start = position_of(first);
        let a = ordered[Self::wrap_shot_idx(start + 1)];
        let b = ordered[Self::wrap_shot_idx(start + 2)];
        let c = ordered[Self::wrap_shot_idx(start + 3)];
        self.current_shots = vec![a, b, c];
        acts.push(Action::Effect(EffectSlot::Attention, EffectOp::Stop));
        acts.push(Action::Effect(EffectSlot::Attention, EffectOp::Replace(EffectSpec::ModeShotsPulse(a, b, c))));
        assert(self.current_shots@ =~= next_set(first));
        assert(final(acts)@ =~= old(acts)@ + seq![
            Action::Effect(EffectSlot::Attention, EffectOp::Stop),
            Action::Effect(EffectSlot::Attention, EffectOp::Replace(EffectSpec::ModeShotsPulse(a, b, c))),
        ]);
    }

    /// Wraps an index past the end of `ModeShots::ordered()` to the front.
    fn wrap_shot_idx(idx: usize) -> (r: usize)
        ensures
            r == idx % 10,
        decreases idx,
    {
        let len: usize = 10;
        if idx >= len {
            Self::wrap_shot_idx(idx - len)
        } else {
            idx
        }
    }

    /// Runs only while Meridian Basins holds the playfield.
    pub fn is_active(&self, current_mode: &Option<ExclusiveMode>) -> (b: bool)
        ensures
            b == (*current_mode == Some(ExclusiveMode::MeridianBasins)),
    {
        match current_mode {
            Some(m) => *m == ExclusiveMode::MeridianBasins,
            None => false,
        }
    }

    /// The lit shots start moving every 2.25 seconds.
    pub fn on_spawn(&self, acts: &mut Vec<Action>)
        ensures
            final(acts)@ == old(acts)@.push(Action::Cue(Timer::NextSet, CueTiming::Loop(2250))),
    {
        acts.push(Action::Cue(Timer::NextSet, CueTiming::Loop(2250)));
    }

    /// Once six hits are made and the completion flash ended, the mode completes.
    pub fn on_tick(&mut self, hit_effect_complete: bool, modes: &mut ModeManager, acts: &mut Vec<Action>)
        ensures
            final(self)@ == old(self)@,
            (old(self)@.hits == REQUIRED_HITS && hit_effect_complete) ==> {
                &&& final(modes)@ == completed_exclusive(old(modes)@, ExclusiveMode::MeridianBasins)
                &&& final(acts)@ == old(acts)@ + complete_exclusive_actions(old(modes)@, ExclusiveMode::MeridianBasins)
                    + seq![Action::ReplaceSelf(SystemKind::MeridianBasinsQualification)]
            },
            !(old(self)@.hits == REQUIRED_HITS && hit_effect_complete) ==> final(modes)@ == old(modes)@ && final(acts)@
                == old(acts)@,
    {
        if self.is_complete() && hit_effect_complete {
            self.complete(modes, acts);
        }
    }

    /// The set timer moves the lit shots; shots count when lit; the next
    /// turn beginning reverts the mode to startable.
    pub fn on_event(
        &mut self,
        event: &Signal,
        modes: &mut ModeManager,
        lift: &mut LiftRampStartable,
        acts: &mut Vec<Action>,
    )
        requires
            meridian_wf(old(self)@),
        ensures
            *event == Signal::Timer(Timer::NextSet) ==> {
                &&& final(self)@ == (MeridianBasinsModeView { current_shots: next_set(old(self)@.current_shots[0]), ..old(self)@ })
                &&& final(modes)@ == old(modes)@ && final(lift)@ == old(lift)@
            },
            shot_of(*event) is Some ==> {
                let shot = shot_of(*event)->0;
                &&& final(modes)@ == old(modes)@ && final(lift)@ == old(lift)@
                &&& old(self)@.current_shots.contains(shot) ==> {
                    &&& final(self)@ == (MeridianBasinsModeView { hits: (old(self)@.hits + 1) as u8, ..old(self)@ })
                    &&& final(acts)@ == old(acts)@ + lit_hit_actions((old(self)@.hits + 1) as u8)
                }
                &&& !old(self)@.current_shots.contains(shot) ==> final(self)@ == old(self)@ && final(acts)@ == old(acts)@
            },
            *event == Signal::PlayerTurnBeginning ==> {
                &&& final(self)@ == old(self)@
                &&& final(modes)@ == released_exclusive(old(modes)@, ExclusiveMode::MeridianBasins)
                &&& final(lift)@ == lift_made_startable(old(lift)@, ExclusiveMode::MeridianBasins, 0)
                &&& final(acts)@ == old(acts)@ + release_actions(old(modes)@, ExclusiveMode::MeridianBasins)
                    + lift_make_startable_actions(old(lift)@, ExclusiveMode::MeridianBasins, 0) + seq![Action::DespawnSelf]
            },
            (*event != Signal::Timer(Timer::NextSet) && shot_of(*event) is None && *event != Signal::PlayerTurnBeginning) ==> {
                &&& final(self)@ == old(self)@
                &&& final(modes)@ == old(modes)@ && final(lift)@ == old(lift)@
                &&& final(acts)@ == old(acts)@
            },
    {
        match event {
            Signal::Timer(Timer::NextSet) => self.advance(acts),
            Signal::LeftOrbitHit => self.on_shot_hit(ModeShots::LeftOrbit, acts),
            Signal::DomeRampHit => self.on_shot_hit(ModeShots::DomeRamp, acts),
            Signal::ArcRampHit => self.on_shot_hit(ModeShots::ArcRamp, acts),
            Signal::CenterOrbitHit => self.on_shot_hit(ModeShots::CenterOrbit, acts),
            Signal::LiftRampHit => self.on_shot_hit(ModeShots::LiftRamp, acts),
            Signal::RightOrbitHit => self.on_shot_hit(ModeShots::RightOrbit, acts),
            Signal::CaptiveBallHit => self.on_shot_hit(ModeShots::CaptiveBall, acts),
            Signal::Switch(sw) => match sw.pop {
                Some(PopBumper::Left) => self.on_shot_hit(ModeShots::LeftPop, acts),
                Some(PopBumper::UpperRight) => self.on_shot_hit(ModeShots::UpperRightPop, acts),
                Some(PopBumper::LowerRight) => self.on_shot_hit(ModeShots::LowerRightPop, acts),
                None => {},
            },
            Signal::PlayerTurnBeginning => self.revert_to_startable(modes, lift, acts),
            _ => {},
        }
    }
}

/// Where `shot` stands in `ModeShots::ordered()`.
fn position_of(shot: ModeShots) -> (idx: usize)
    ensures
        idx == shot.order_index(),
{
    let ordered = ModeShots::ordered();
    let mut i: usize = 0;
    while i < ordered.len()
        invariant
            ordered@ == ModeShots::ordered_seq(),
            0 <= i <= 10,
            i <= shot.order_index(),
        decreases 10 - i,
    {
        if ordered[i] == shot {
            return i;
        }
        i = i + 1;
    }
    i
}

} // verus!

verus! {

/// The first lit shot after one move.
#[verifier::opaque]
pub open spec fn lead_after_move(first: ModeShots) -> ModeShots {
    next_set(first)[0]
}

/// The lit shots are three neighbours going right of the lead, and a move
/// makes the lead's right neighbour the new lead.
pub proof fn lemma_lit_shots_move_one_step(first: ModeShots)
    ensures
        lead_after_move(first).order_index() == (first.order_index() + 1) % 10,
        next_set(first)[1].order_index() == (first.order_index() + 2) % 10,
        next_set(first)[2].order_index() == (first.order_index() + 3) % 10,
{
    reveal(lead_after_move);
    match first {
        ModeShots::LeftOrbit => {},
        ModeShots::DomeRamp => {},
        ModeShots::LeftPop => {},
        ModeShots::ArcRamp => {},
        ModeShots::CaptiveBall => {},
        ModeShots::CenterOrbit => {},
        ModeShots::LiftRamp => {},
        ModeShots::UpperRightPop => {},
        ModeShots::RightOrbit => {},
        ModeShots::LowerRightPop => {},
    }
}

/// Where each lead moves.
proof fn lemma_lead_moves()
    ensures
        lead_after_move(ModeShots::LeftOrbit) == ModeShots::DomeRamp,
        lead_after_move(ModeShots::DomeRamp) == ModeShots::LeftPop,
        lead_after_move(ModeShots::LeftPop) == ModeShots::ArcRamp,
        lead_after_move(ModeShots::ArcRamp) == ModeShots::CaptiveBall,
        lead_after_move(ModeShots::CaptiveBall) == ModeShots::CenterOrbit,
        lead_after_move(ModeShots::CenterOrbit) == ModeShots::LiftRamp,
        lead_after_move(ModeShots::LiftRamp) == ModeShots::UpperRightPop,
        lead_after_move(ModeShots::UpperRightPop) == ModeShots::RightOrbit,
        lead_after_move(ModeShots::RightOrbit) == ModeShots::LowerRightPop,
        lead_after_move(ModeShots::LowerRightPop) == ModeShots::LeftOrbit,
{
    reveal(lead_after_move);
}

/// After ten moves the lead is back where it started.
pub proof fn lemma_lit_shots_period(first: ModeShots)
    ensures
        lead_after_move(lead_after_move(lead_after_move(lead_after_move(lead_after_move(lead_after_move(
            lead_after_move(lead_after_move(lead_after_move(lead_after_move(first))))))))))
            == first,
{
    lemma_lead_moves();
    match first {
        ModeShots::LeftOrbit => {},
        ModeShots::DomeRamp => {},
        ModeShots::LeftPop => {},
        ModeShots::ArcRamp => {},
        ModeShots::CaptiveBall => {},
        ModeShots::CenterOrbit => {},
        ModeShots::LiftRamp => {},
        ModeShots::UpperRightPop => {},
        ModeShots::RightOrbit => {},
        ModeShots::LowerRightPop => {},
    }
}

} // verus!
