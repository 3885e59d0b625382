use vstd::prelude::*;
use crate::chance::random_seed;
use crate::effects::{EffectOp, EffectSlot, EffectSpec};
use crate::signals::{Action, CueTiming, LedTarget, NamedColor, Scoop, Signal, Sound, SystemKind, Timer};

verus! {

/// Points for each orbit made during the first two coverage qualifications.
pub const ORBIT_PTS: u32 = 10_000;
/// Points once all three orbits are made.
pub const ORBITS_COMPLETE_PTS: u32 = 20_000;
/// Points for reaching a scoop in the last coverage qualification.
pub const SCOOP_PTS: u32 = 50_000;
/// How long the lift ramp stays up for the last coverage qualification.
pub const HURRY_UP_MS: u64 = 25_000;

/// First coverage qualification: the three orbit hexes light white and any
/// orbit moves on to the second qualification with that orbit made.
pub struct CityCoverageQualification1;

impl CityCoverageQualification1 {
    pub fn new() -> (q: Self) {
        CityCoverageQualification1
    }

    pub fn on_spawn(&self, acts: &mut Vec<Action>)
        ensures
            final(acts)@ == old(acts)@ + seq![
                Action::DeclareLeds(LedTarget::LeftOrbitHexCenter, NamedColor::White),
                Action::DeclareLeds(LedTarget::CenterOrbitHexCenter, NamedColor::White),
                Action::DeclareLeds(LedTarget::RightOrbitHexCenter, NamedColor::White),
            ],
    {
        acts.push(Action::DeclareLeds(LedTarget::LeftOrbitHexCenter, NamedColor::White));
        acts.push(Action::DeclareLeds(LedTarget::CenterOrbitHexCenter, NamedColor::White));
        acts.push(Action::DeclareLeds(LedTarget::RightOrbitHexCenter, NamedColor::White));
        assert(final(acts)@ =~= old(acts)@ + seq![
            Action::DeclareLeds(LedTarget::LeftOrbitHexCenter, NamedColor::White),
            Action::DeclareLeds(LedTarget::CenterOrbitHexCenter, NamedColor::White),
            Action::DeclareLeds(LedTarget::RightOrbitHexCenter, NamedColor::White),
        ]);
    }

    pub fn on_event(&self, event: &Signal, acts: &mut Vec<Action>)
        ensures
            is_orbit_hit(*event) ==> final(acts)@ == old(acts)@ + seq![
                Action::PlaySfx(Sound::RandomLaneHit),
                Action::AddPoints(ORBIT_PTS),
                Action::ReplaceSelf(
                    SystemKind::CityCoverageQualification2 {
                        left_orbit_hit: *event == Signal::LeftOrbitHit,
                        center_orbit_hit: *event == Signal::CenterOrbitHit,
                        right_orbit_hit: *event == Signal::RightOrbitHit,
                    },
                ),
            ],
            !is_orbit_hit(*event) ==> final(acts)@ == old(acts)@,
    {
        if *event == Signal::LeftOrbitHit || *event == Signal::CenterOrbitHit || *event == Signal::RightOrbitHit {
            acts.push(Action::PlaySfx(Sound::RandomLaneHit));
            acts.push(Action::AddPoints(ORBIT_PTS));
            acts.push(
                Action::ReplaceSelf(
                    SystemKind::CityCoverageQualification2 {
                        left_orbit_hit: *event == Signal::LeftOrbitHit,
                        center_orbit_hit: *event == Signal::CenterOrbitHit,
                        right_orbit_hit: *event == Signal::RightOrbitHit,
                    },
                ),
            );
            assert(final(acts)@ =~= old(acts)@ + seq![
                Action::PlaySfx(Sound::RandomLaneHit),
                Action::AddPoints(ORBIT_PTS),
                Action::ReplaceSelf(
                    SystemKind::CityCoverageQualification2 {
                        left_orbit_hit: *event == Signal::LeftOrbitHit,
                        center_orbit_hit: *event == Signal::CenterOrbitHit,
                        right_orbit_hit: *event == Signal::RightOrbitHit,
                    },
                ),
            ]);
        }
    }
}

pub open spec fn is_orbit_hit(event: Signal) -> bool {
    event == Signal::LeftOrbitHit || event == Signal::CenterOrbitHit || event == Signal::RightOrbitHit
}

/// Second coverage qualification: every orbit not made yet has a chase
/// along its lane; making all three, once the hit animation has played out,
/// moves on to the third qualification.
pub struct CityCoverageQualification2 {
    left_pending: bool,
    center_pending: bool,
    right_pending: bool,
    shuffle_seed: u64,
}

pub struct CityCoverageQualification2View {
    /// The left orbit still has its chase, waiting to be made.
    pub left_pending: bool,
    pub center_pending: bool,
    pub right_pending: bool,
    /// The order in which the hit animation blinks the circle lights.
    pub shuffle_seed: u64,
}

impl View for CityCoverageQualification2 {
    type V = CityCoverageQualification2View;

    closed spec fn view(&self) -> CityCoverageQualification2View {
        CityCoverageQualification2View {
            left_pending: self.left_pending,
            center_pending: self.center_pending,
            right_pending: self.right_pending,
            shuffle_seed: self.shuffle_seed,
        }
    }
}

pub open spec fn lane_chase_actions(pending: bool, slot: EffectSlot) -> Seq<Action> {
    if pending {
        seq![Action::Effect(slot, EffectOp::Replace(EffectSpec::OrbitLaneChase))]
    } else {
        seq![]
    }
}

pub open spec fn all_orbits_made(v: CityCoverageQualification2View) -> bool {
    !v.left_pending && !v.center_pending && !v.right_pending
}

pub open spec fn orbit_made_actions(slot: EffectSlot) -> Seq<Action> {
    seq![
        Action::Effect(EffectSlot::ShotHit, EffectOp::Play),
        Action::PlaySfx(Sound::RandomLaneHit),
        Action::AddPoints(ORBIT_PTS),
        Action::Effect(slot, EffectOp::Stop),
    ]
}

impl CityCoverageQualification2 {
    /// The orbits already made come in as hit; the hit animation gets a
    /// random blink order.
    pub fn new(left_orbit_hit: bool, center_orbit_hit: bool, right_orbit_hit: bool) -> (q: Self)
        ensures
            q@.left_pending == !left_orbit_hit,
            q@.center_pending == !center_orbit_hit,
            q@.right_pending == !right_orbit_hit,
    {
        CityCoverageQualification2 {
            left_pending: !left_orbit_hit,
            center_pending: !center_orbit_hit,
            right_pending: !right_orbit_hit,
            shuffle_seed: random_seed(),
        }
    }

    /// Builds the lane chases of the orbits still to make and the stopped hit animation.
    pub fn on_spawn(&self, acts: &mut Vec<Action>)
        ensures
            final(acts)@ == old(acts)@ + lane_chase_actions(self@.left_pending, EffectSlot::LeftOrbitLane)
                + lane_chase_actions(self@.center_pending, EffectSlot::CenterOrbitLane)
                + lane_chase_actions(self@.right_pending, EffectSlot::RightOrbitLane) + seq![
                Action::Effect(EffectSlot::ShotHit, EffectOp::Replace(EffectSpec::CircleShuffle(self@.shuffle_seed))),
            ],
    {
        if self.left_pending {
            acts.push(Action::Effect(EffectSlot::LeftOrbitLane, EffectOp::Replace(EffectSpec::OrbitLaneChase)));
        }
        if self.center_pending {
            acts.push(Action::Effect(EffectSlot::CenterOrbitLane, EffectOp::Replace(EffectSpec::OrbitLaneChase)));
        }
        if self.right_pending {
            acts.push(Action::Effect(EffectSlot::RightOrbitLane, EffectOp::Replace(EffectSpec::OrbitLaneChase)));
        }
        acts.push(Action::Effect(EffectSlot::ShotHit, EffectOp::Replace(EffectSpec::CircleShuffle(self.shuffle_seed))));
        assert(final(acts)@ =~= old(acts)@ + lane_chase_actions(self@.left_pending, EffectSlot::LeftOrbitLane)
            + lane_chase_actions(self@.center_pending, EffectSlot::CenterOrbitLane)
            + lane_chase_actions(self@.right_pending, EffectSlot::RightOrbitLane) + seq![
            Action::Effect(EffectSlot::ShotHit, EffectOp::Replace(EffectSpec::CircleShuffle(self@.shuffle_seed))),
        ]);
    }

    /// Runs while the turn is in play.
    pub fn is_active(&self, turn_active: bool) -> (b: bool)
        ensures
            b == turn_active,
    {
        turn_active
    }

    /// All three orbits made and the hit animation over: pays out and moves
    /// on to the third qualification.
    pub fn on_tick(&self, hit_effect_complete: bool, acts: &mut Vec<Action>)
        ensures
            (all_orbits_made(self@) && hit_effect_complete) ==> final(acts)@ == old(acts)@ + seq![
                Action::AddPoints(ORBITS_COMPLETE_PTS),
                Action::ReplaceSelf(SystemKind::CityCoverageQualification3),
            ],
            !(all_orbits_made(self@) && hit_effect_complete) ==> final(acts)@ == old(acts)@,
    {
        if !self.left_pending && !self.center_pending && !self.right_pending && hit_effect_complete {
            acts.push(Action::AddPoints(ORBITS_COMPLETE_PTS));
            acts.push(Action::ReplaceSelf(SystemKind::CityCoverageQualification3));
            assert(final(acts)@ =~= old(acts)@ + seq![
                Action::AddPoints(ORBITS_COMPLETE_PTS),
                Action::ReplaceSelf(SystemKind::CityCoverageQualification3),
            ]);
        }
    }

    /// An orbit still pending is made: its chase stops and the hit animation
    /// starts over. The animation has just started, so the qualification
    /// completes on a later tick, never on the hit itself.
    pub fn on_event(&mut self, event: &Signal, acts: &mut Vec<Action>)
        ensures
            (*event == Signal::LeftOrbitHit && old(self)@.left_pending) ==> {
                &&& final(self)@ == (CityCoverageQualification2View { left_pending: false, ..old(self)@ })
                &&& final(acts)@ == old(acts)@ + orbit_made_actions(EffectSlot::LeftOrbitLane)
            },
            (*event == Signal::CenterOrbitHit && old(self)@.center_pending) ==> {
                &&& final(self)@ == (CityCoverageQualification2View { center_pending: false, ..old(self)@ })
                &&& final(acts)@ == old(acts)@ + orbit_made_actions(EffectSlot::CenterOrbitLane)
            },
            (*event == Signal::RightOrbitHit && old(self)@.right_pending) ==> {
                &&& final(self)@ == (CityCoverageQualification2View { right_pending: false, ..old(self)@ })
                &&& final(acts)@ == old(acts)@ + orbit_made_actions(EffectSlot::RightOrbitLane)
            },
            !((*event == Signal::LeftOrbitHit && old(self)@.left_pending) || (*event == Signal::CenterOrbitHit
                && old(self)@.center_pending) || (*event == Signal::RightOrbitHit && old(self)@.right_pending))
                ==> final(self)@ == old(self)@ && final(acts)@ == old(acts)@,
    {
        if *event == Signal::LeftOrbitHit && self.left_pending {
            Self::orbit_made(EffectSlot::LeftOrbitLane, acts);
            self.left_pending = false;
        } else if *event == Signal::CenterOrbitHit && self.center_pending {
            Self::orbit_made(EffectSlot::CenterOrbitLane, acts);
            self.center_pending = false;
        } else if *event == Signal::RightOrbitHit && self.right_pending {
            Self::orbit_made(EffectSlot::RightOrbitLane, acts);
            self.right_pending = false;
        }
    }

    fn orbit_made(slot: EffectSlot, acts: &mut Vec<Action>)
        ensures
            final(acts)@ == old(acts)@ + orbit_made_actions(slot),
    {
        acts.push(Action::Effect(EffectSlot::ShotHit, EffectOp::Play));
        acts.push(Action::PlaySfx(Sound::RandomLaneHit));
        acts.push(Action::AddPoints(ORBIT_PTS));
        acts.push(Action::Effect(slot, EffectOp::Stop));
        assert(final(acts)@ =~= old(acts)@ + orbit_made_actions(slot));
    }
}

/// Third coverage qualification: the lift ramp rises for a hurry-up and
/// either scoop completes the qualification.
pub struct CityCoverageQualification3 {
    lift_ramp_flashing: bool,
}

pub open spec fn scoop_complete_actions(lift_ramp_flashing: bool) -> Seq<Action> {
    seq![Action::PlaySfx(Sound::LaneHitComplete), Action::AddPoints(SCOOP_PTS)] + (if lift_ramp_flashing {
        seq![Action::Effect(EffectSlot::LiftRampBolt, EffectOp::Stop)]
    } else {
        seq![]
    }) + seq![Action::Effect(EffectSlot::LowerScoopBolts, EffectOp::Stop), Action::LowerScoopAutoEject]
}

impl CityCoverageQualification3 {
    pub closed spec fn lift_ramp_flashing(&self) -> bool {
        self.lift_ramp_flashing
    }

    pub fn new() -> (q: Self)
        ensures
            q.lift_ramp_flashing(),
    {
        CityCoverageQualification3 { lift_ramp_flashing: true }
    }

    /// Raises the lift ramp, sets the lower scoop to start modes, starts the
    /// hurry-up clock and the two bolt flashers.
    pub fn on_spawn(&self, acts: &mut Vec<Action>)
        ensures
            final(acts)@ == old(acts)@ + seq![
                Action::Effect(EffectSlot::LiftRampBolt, EffectOp::Replace(EffectSpec::HurryUpBoltFlash)),
                Action::Effect(EffectSlot::LowerScoopBolts, EffectOp::Replace(EffectSpec::HurryUpBoltFlash)),
                Action::LowerScoopModeStart,
                Action::LiftRampUp,
                Action::Cue(Timer::LiftRampHurryUpDone, CueTiming::Once(HURRY_UP_MS)),
            ],
    {
        acts.push(Action::Effect(EffectSlot::LiftRampBolt, EffectOp::Replace(EffectSpec::HurryUpBoltFlash)));
        acts.push(Action::Effect(EffectSlot::LowerScoopBolts, EffectOp::Replace(EffectSpec::HurryUpBoltFlash)));
        acts.push(Action::LowerScoopModeStart);
        acts.push(Action::LiftRampUp);
        acts.push(Action::Cue(Timer::LiftRampHurryUpDone, CueTiming::Once(HURRY_UP_MS)));
        assert(final(acts)@ =~= old(acts)@ + seq![
            Action::Effect(EffectSlot::LiftRampBolt, EffectOp::Replace(EffectSpec::HurryUpBoltFlash)),
            Action::Effect(EffectSlot::LowerScoopBolts, EffectOp::Replace(EffectSpec::HurryUpBoltFlash)),
            Action::LowerScoopModeStart,
            Action::LiftRampUp,
            Action::Cue(Timer::LiftRampHurryUpDone, CueTiming::Once(HURRY_UP_MS)),
        ]);
    }

    /// Reaching a scoop: pays out, stops the flashers and sets the lower
    /// scoop back to ejecting balls.
    pub fn complete(&mut self, acts: &mut Vec<Action>)
        ensures
            !final(self).lift_ramp_flashing(),
            final(acts)@ == old(acts)@ + scoop_complete_actions(old(self).lift_ramp_flashing()),
    {
        acts.push(Action::PlaySfx(Sound::LaneHitComplete));
        acts.push(Action::AddPoints(SCOOP_PTS));
        if self.lift_ramp_flashing {
            acts.push(Action::Effect(EffectSlot::LiftRampBolt, EffectOp::Stop));
        }
        self.lift_ramp_flashing = false;
        acts.push(Action::Effect(EffectSlot::LowerScoopBolts, EffectOp::Stop));
        acts.push(Action::LowerScoopAutoEject);
        assert(final(acts)@ =~= old(acts)@ + scoop_complete_actions(old(self).lift_ramp_flashing()));
    }

    /// The hurry-up running out lowers the ramp; a ball in the lower scoop
    /// completes; a ball in the lift ramp's scoop lowers the ramp and completes.
    pub fn on_event(&mut self, event: &Signal, acts: &mut Vec<Action>)
        ensures
            *event == Signal::Timer(Timer::LiftRampHurryUpDone) ==> {
                &&& !final(self).lift_ramp_flashing()
                &&& final(acts)@ == old(acts)@ + seq![Action::LiftRampDown] + (if old(self).lift_ramp_flashing() {
                    seq![Action::Effect(EffectSlot::LiftRampBolt, EffectOp::Stop)]
                } else {
                    seq![]
                })
            },
            *event == Signal::ScoopBallEntered(Scoop::LowerScoop) ==> {
                &&& !final(self).lift_ramp_flashing()
                &&& final(acts)@ == old(acts)@ + scoop_complete_actions(old(self).lift_ramp_flashing())
            },
            *event == Signal::ScoopBallEntered(Scoop::LiftRamp) ==> {
                &&& !final(self).lift_ramp_flashing()
                &&& final(acts)@ == old(acts)@ + seq![Action::LiftRampDown] + scoop_complete_actions(
                    old(self).lift_ramp_flashing(),
                )
            },
            !(*event == Signal::Timer(Timer::LiftRampHurryUpDone) || *event == Signal::ScoopBallEntered(Scoop::LowerScoop)
                || *event == Signal::ScoopBallEntered(Scoop::LiftRamp)) ==> {
                &&& final(self).lift_ramp_flashing() == old(self).lift_ramp_flashing()
                &&& final(acts)@ == old(acts)@
            },
    {
        match event {
            Signal::Timer(Timer::LiftRampHurryUpDone) => {
                acts.push(Action::LiftRampDown);
                if self.lift_ramp_flashing {
                    acts.push(Action::Effect(EffectSlot::LiftRampBolt, EffectOp::Stop));
                }
                self.lift_ramp_flashing = false;
                assert(final(acts)@ =~= old(acts)@ + seq![Action::LiftRampDown] + (if old(self).lift_ramp_flashing() {
                    seq![Action::Effect(EffectSlot::LiftRampBolt, EffectOp::Stop)]
                } else {
                    seq![]
                }));
            },
            Signal::ScoopBallEntered(Scoop::LowerScoop) => {
                self.complete(acts);
            },
            Signal::ScoopBallEntered(Scoop::LiftRamp) => {
                acts.push(Action::LiftRampDown);
                self.complete(acts);
                assert(final(acts)@ =~= old(acts)@ + seq![Action::LiftRampDown] + scoop_complete_actions(
                    old(self).lift_ramp_flashing(),
                ));
            },
            _ => {},
        }
    }
}

} // verus!
