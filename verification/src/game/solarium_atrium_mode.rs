use vstd::prelude::*;
use crate::effects::{EffectOp, EffectSlot, EffectSpec, FlasherPattern};
use crate::game::exclusive_mode::ExclusiveMode;
use crate::game::left_scoop_startable::{LeftScoopStartable, scoop_wf, made_startable, make_startable_actions};
use crate::game::mode_manager::{ModeManager, completed_exclusive, complete_exclusive_actions, released_exclusive, release_actions};
use crate::game::points;
use crate::signals::{Action, NamedColor, Signal, Sound, SystemKind};

verus! {

/// Ramp shots that complete Solarium Atrium.
pub const REQUIRED_HITS: u8 = 6;

/// The ramps that count in Solarium Atrium.
#[derive(Debug, Clone, Copy, PartialEq, Eq, Structural)]
pub enum Ramp {
    DomeRamp,
    ArcRamp,
    LiftRamp,
}

/// Points for a ramp shot: double when the dome and lift ramps alternate.
pub open spec fn ramp_points(last: Option<Ramp>, ramp: Ramp) -> u32 {
    match (last, ramp) {
        (Some(Ramp::DomeRamp), Ramp::LiftRamp) => (points::EXL_MODE_HIT * 2) as u32,
        (Some(Ramp::LiftRamp), Ramp::DomeRamp) => (points::EXL_MODE_HIT * 2) as u32,
        _ => points::EXL_MODE_HIT,
    }
}

/// The Solarium Atrium mode: six ramp shots, alternating dome and lift
/// ramps scoring double.
pub struct SolariumAtriumMode {
    ramp_hits: u8,
    last_ramp: Option<Ramp>,
}

pub struct SolariumAtriumModeView {
    pub ramp_hits: u8,
    pub last_ramp: Option<Ramp>,
}

impl View for SolariumAtriumMode {
    type V = SolariumAtriumModeView;

    closed spec fn view(&self) -> SolariumAtriumModeView {
        SolariumAtriumModeView { ramp_hits: self.ramp_hits, last_ramp: self.last_ramp }
    }
}

/// What a ramp shot asks of the host, with the count after the shot.
pub open spec fn ramp_hit_actions(last: Option<Ramp>, ramp: Ramp, hits: u8) -> Seq<Action> {
    seq![
        Action::Effect(EffectSlot::Hit, EffectOp::Reset),
        Action::FlashersFlash(3, FlasherPattern::Alternating(NamedColor::Purple)),
        Action::AddPoints(ramp_points(last, ramp)),
    ] + (if hits == REQUIRED_HITS - 2 {
        seq![Action::Effect(EffectSlot::Intensity, EffectOp::Play)]
    } else if hits == REQUIRED_HITS {
        seq![
            Action::PlaySfx(Sound::ArpHit1),
            Action::Effect(EffectSlot::Hit, EffectOp::Replace(EffectSpec::PlayfieldFlash(ExclusiveMode::SolariumAtrium, 4))),
        ]
    } else {
        seq![]
    }) + seq![
        Action::Effect(EffectSlot::Hit, EffectOp::Play),
        Action::Effect(EffectSlot::Progress, EffectOp::Replace(EffectSpec::ProgressBar(ExclusiveMode::SolariumAtrium, hits, REQUIRED_HITS))),
    ]
}

/// The ramp an event is a shot of.
pub open spec fn ramp_of(event: Signal) -> Option<Ramp> {
    match event {
        Signal::DomeRampHit => Some(Ramp::DomeRamp),
        Signal::ArcRampHit => Some(Ramp::ArcRamp),
        Signal::LiftRampHit => Some(Ramp::LiftRamp),
        _ => None,
    }
}

impl SolariumAtriumMode {
    pub fn new() -> (m: Self)
        ensures
            m@.ramp_hits == 0,
            m@.last_ramp.is_none(),
    {
        SolariumAtriumMode { ramp_hits: 0, last_ramp: None }
    }

    fn revert_to_startable(&mut self, modes: &mut ModeManager, scoop: &mut LeftScoopStartable, acts: &mut Vec<Action>)
        requires
            scoop_wf(old(scoop)@),
        ensures
            final(self)@ == old(self)@,
            scoop_wf(final(scoop)@),
            final(modes)@ == released_exclusive(old(modes)@, ExclusiveMode::SolariumAtrium),
            final(scoop)@ == made_startable(old(scoop)@, ExclusiveMode::SolariumAtrium, 0),
            final(acts)@ == old(acts)@ + release_actions(old(modes)@, ExclusiveMode::SolariumAtrium)
                + make_startable_actions(old(scoop)@, ExclusiveMode::SolariumAtrium, 0) + seq![Action::DespawnSelf],
    {
        modes.release_exclusive(&ExclusiveMode::SolariumAtrium, acts);
        scoop.make_startable(ExclusiveMode::SolariumAtrium, 0, acts);
        acts.push(Action::DespawnSelf);
        assert(final(acts)@ =~= old(acts)@ + release_actions(old(modes)@, ExclusiveMode::SolariumAtrium)
            + make_startable_actions(old(scoop)@, ExclusiveMode::SolariumAtrium, 0) + seq![Action::DespawnSelf]);
    }

    fn ramp_hit(&mut self, ramp: Ramp, acts: &mut Vec<Action>)
        requires
            old(self)@.ramp_hits < 255,
        ensures
            final(self)@ == (SolariumAtriumModeView { ramp_hits: (old(self)@.ramp_hits + 1) as u8, last_ramp: Some(ramp) }),
            final(acts)@ == old(acts)@ + ramp_hit_actions(old(self)@.last_ramp, ramp, (old(self)@.ramp_hits + 1) as u8),
    {
        self.ramp_hits += 1;
        acts.push(Action::Effect(EffectSlot::Hit, EffectOp::Reset));
        acts.push(Action::FlashersFlash(3, FlasherPattern::Alternating(NamedColor::Purple)));
        let points = match (&self.last_ramp, &ramp) {
            (Some(Ramp::DomeRamp), Ramp::LiftRamp) => points::EXL_MODE_HIT * 2,
            (Some(Ramp::LiftRamp), Ramp::DomeRamp) => points::EXL_MODE_HIT * 2,
            _ => points::EXL_MODE_HIT,
        };
        acts.push(Action::AddPoints(points));
        if self.ramp_hits == REQUIRED_HITS - 2 {
            acts.push(Action::Effect(EffectSlot::Intensity, EffectOp::Play));
        } else if self.ramp_hits == REQUIRED_HITS {
            acts.push(Action::PlaySfx(Sound::ArpHit1));
            acts.push(Action::Effect(EffectSlot::Hit, EffectOp::Replace(EffectSpec::PlayfieldFlash(ExclusiveMode::SolariumAtrium, 4))));
        }
        acts.push(Action::Effect(EffectSlot::Hit, EffectOp::Play));
        self.last_ramp = Some(ramp);
        acts.push(Action::Effect(EffectSlot::Progress, EffectOp::Replace(EffectSpec::ProgressBar(ExclusiveMode::SolariumAtrium, self.ramp_hits, REQUIRED_HITS))));
        assert(final(acts)@ =~= old(acts)@ + ramp_hit_actions(old(self)@.last_ramp, ramp, (old(self)@.ramp_hits + 1) as u8));
    }

    fn complete(&mut self, modes: &mut ModeManager, acts: &mut Vec<Action>)
        ensures
            final(self)@ == old(self)@,
            final(modes)@ == completed_exclusive(old(modes)@, ExclusiveMode::SolariumAtrium),
            final(acts)@ == old(acts)@ + seq![Action::AddPoints(points::EXL_COMPLETION)]
                + complete_exclusive_actions(old(modes)@, ExclusiveMode::SolariumAtrium)
                + seq![Action::ReplaceSelf(SystemKind::SolariumAtriumQualification)],
    {
        acts.push(Action::AddPoints(points::EXL_COMPLETION));
        modes.complete_exclusive(ExclusiveMode::SolariumAtrium, acts);
        acts.push(Action::ReplaceSelf(SystemKind::SolariumAtriumQualification));
        assert(final(acts)@ =~= old(acts)@ + seq![Action::AddPoints(points::EXL_COMPLETION)]
            + complete_exclusive_actions(old(modes)@, ExclusiveMode::SolariumAtrium)
            + seq![Action::ReplaceSelf(SystemKind::SolariumAtriumQualification)]);
    }

    fn is_complete(&self) -> (b: bool)
        ensures
            b == (self@.ramp_hits == REQUIRED_HITS),
    {
        self.ramp_hits == REQUIRED_HITS
    }

    /// Runs only while Solarium Atrium holds the playfield.
    pub fn is_active(&self, current_mode: &Option<ExclusiveMode>) -> (b: bool)
        ensures
            b == (*current_mode == Some(ExclusiveMode::SolariumAtrium)),
    {
        match current_mode {
            Some(m) => *m == ExclusiveMode::SolariumAtrium,
            None => false,
        }
    }

    /// The turn going on reverts the mode to startable; ramp shots count.
    pub fn on_event(
        &mut self,
        event: &Signal,
        modes: &mut ModeManager,
        scoop: &mut LeftScoopStartable,
        acts: &mut Vec<Action>,
    )
        requires
            scoop_wf(old(scoop)@),
            old(self)@.ramp_hits < 255,
        ensures
            scoop_wf(final(scoop)@),
            *event == Signal::PlayerTurnActive ==> {
                &&& final(self)@ == old(self)@
                &&& final(modes)@ == released_exclusive(old(modes)@, ExclusiveMode::SolariumAtrium)
                &&& final(scoop)@ == made_startable(old(scoop)@, ExclusiveMode::SolariumAtrium, 0)
                &&& final(acts)@ == old(acts)@ + release_actions(old(modes)@, ExclusiveMode::SolariumAtrium)
                    + make_startable_actions(old(scoop)@, ExclusiveMode::SolariumAtrium, 0) + seq![Action::DespawnSelf]
            },
            ramp_of(*event) is Some ==> {
                let ramp = ramp_of(*event)->0;
                &&& final(self)@ == (SolariumAtriumModeView { ramp_hits: (old(self)@.ramp_hits + 1) as u8, last_ramp: Some(ramp) })
                &&& final(acts)@ == old(acts)@ + ramp_hit_actions(old(self)@.last_ramp, ramp, (old(self)@.ramp_hits + 1) as u8)
                &&& final(modes)@ == old(modes)@ && final(scoop)@ == old(scoop)@
            },
            (*event != Signal::PlayerTurnActive && ramp_of(*event) is None) ==> final(self)@ == old(self)@ && final(modes)@
                == old(modes)@ && final(scoop)@ == old(scoop)@ && final(acts)@ == old(acts)@,
    {
        match event {
            Signal::PlayerTurnActive => self.revert_to_startable(modes, scoop, acts),
            Signal::DomeRampHit => self.ramp_hit(Ramp::DomeRamp, acts),
            Signal::ArcRampHit => self.ramp_hit(Ramp::ArcRamp, acts),
            Signal::LiftRampHit => self.ramp_hit(Ramp::LiftRamp, acts),
            _ => {},
        }
    }

    /// Once six ramps are made and the completion flash ended, the mode completes.
    pub fn on_tick(&mut self, hit_effect_complete: bool, modes: &mut ModeManager, acts: &mut Vec<Action>)
        ensures
            final(self)@ == old(self)@,
            (hit_effect_complete && old(self)@.ramp_hits == REQUIRED_HITS) ==> {
                &&& final(modes)@ == completed_exclusive(old(modes)@, ExclusiveMode::SolariumAtrium)
                &&& final(acts)@ == old(acts)@ + seq![Action::AddPoints(points::EXL_COMPLETION)]
                    + complete_exclusive_actions(old(modes)@, ExclusiveMode::SolariumAtrium)
                    + seq![Action::ReplaceSelf(SystemKind::SolariumAtriumQualification)]
            },
            !(hit_effect_complete && old(self)@.ramp_hits == REQUIRED_HITS) ==> final(modes)@ == old(modes)@
                && final(acts)@ == old(acts)@,
    {
        if hit_effect_complete && self.is_complete() {
            self.complete(modes, acts);
        }
    }
}

/// A ramp shot scores double exactly when it alternates between the dome
/// and lift ramps: 300 000 for a lift ramp right after a dome ramp or a dome
/// ramp right after a lift ramp, 150 000 for any other shot, the first one,
/// a repeated ramp and every arc ramp shot included. The points are the
/// third thing a shot asks for.
pub proof fn lemma_alternating_ramps_score_double(last: Option<Ramp>, ramp: Ramp, hits: u8)
    ensures
        ramp_points(last, ramp) == (if (last == Some(Ramp::DomeRamp) && ramp == Ramp::LiftRamp)
            || (last == Some(Ramp::LiftRamp) && ramp == Ramp::DomeRamp) {
            300_000u32
        } else {
            150_000u32
        }),
        last == Some(ramp) ==> ramp_points(last, ramp) == 150_000,
        ramp_hit_actions(last, ramp, hits)[2] == Action::AddPoints(ramp_points(last, ramp)),
{
}

} // verus!
