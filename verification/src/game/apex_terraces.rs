use vstd::prelude::*;
use crate::effects::{EffectOp, EffectSlot, EffectSpec, FlasherPattern};
use crate::game::mode_manager::{
    ModeManager,
    NonExclusiveMode,
    activated_non_exclusive,
    activate_non_exclusive_actions,
    completed_non_exclusive,
    complete_non_exclusive_actions,
};
use crate::signals::{Action, CueTiming, NamedColor, PopBumper, Signal, Sound, SystemKind, Timer};

verus! {

/// Each target hit while collecting.
pub const TARGET_PTS: u32 = 75_000;

/// Whether Apex Terraces is collecting target hits or paying jackpots.
#[derive(Debug, Clone, Copy, PartialEq, Eq, Structural)]
pub enum ApexState {
    AccumulatingTargets,
    Jackpot,
}

/// The targets of Apex Terraces: the three pop targets and the target by
/// the left inlane.
#[derive(Debug, Clone, Copy, PartialEq, Eq, Structural)]
pub enum Target {
    Pop(PopBumper),
    LowerSling,
}

/// The Apex Terraces mode: one lower sling target and two of each pop
/// target light a 45-second jackpot round in which each target pays by how
/// often it was hit, up to five times.
pub struct ApexTerracesMode {
    state: ApexState,
    lower_sling_hits: u8,
    left_hits: u8,
    upper_right_hits: u8,
    lower_right_hits: u8,
    has_progress: bool,
    has_jackpot_effect: bool,
}

pub struct ApexTerracesModeView {
    pub state: ApexState,
    pub lower_sling_hits: u8,
    pub left_hits: u8,
    pub upper_right_hits: u8,
    pub lower_right_hits: u8,
    pub has_progress: bool,
    pub has_jackpot_effect: bool,
}

impl View for ApexTerracesMode {
    type V = ApexTerracesModeView;

    closed spec fn view(&self) -> ApexTerracesModeView {
        ApexTerracesModeView {
            state: self.state,
            lower_sling_hits: self.lower_sling_hits,
            left_hits: self.left_hits,
            upper_right_hits: self.upper_right_hits,
            lower_right_hits: self.lower_right_hits,
            has_progress: self.has_progress,
            has_jackpot_effect: self.has_jackpot_effect,
        }
    }
}

/// How often a target was hit.
pub open spec fn hit_count(v: ApexTerracesModeView, t: Target) -> u8 {
    match t {
        Target::LowerSling => v.lower_sling_hits,
        Target::Pop(PopBumper::Left) => v.left_hits,
        Target::Pop(PopBumper::UpperRight) => v.upper_right_hits,
        Target::Pop(PopBumper::LowerRight) => v.lower_right_hits,
    }
}

/// One more hit of `t`.
pub open spec fn with_hit(v: ApexTerracesModeView, t: Target) -> ApexTerracesModeView {
    match t {
        Target::LowerSling => ApexTerracesModeView { lower_sling_hits: (v.lower_sling_hits + 1) as u8, ..v },
        Target::Pop(PopBumper::Left) => ApexTerracesModeView { left_hits: (v.left_hits + 1) as u8, ..v },
        Target::Pop(PopBumper::UpperRight) => ApexTerracesModeView { upper_right_hits: (v.upper_right_hits + 1) as u8, ..v },
        Target::Pop(PopBumper::LowerRight) => ApexTerracesModeView { lower_right_hits: (v.lower_right_hits + 1) as u8, ..v },
    }
}

/// The jackpot is lit: the lower sling target hit at least once and each
/// pop target at least twice.
pub open spec fn qualified(v: ApexTerracesModeView) -> bool {
    v.lower_sling_hits > 0 && v.left_hits > 1 && v.upper_right_hits > 1 && v.lower_right_hits > 1
}

/// A target's pulse: 1.75 seconds divided by its hits, counting at most five.
pub open spec fn pulse_ms(hits: u8) -> Option<u64> {
    if hits == 0 {
        None
    } else {
        Some((1750int / (if hits < 5 { hits } else { 5u8 }) as int) as u64)
    }
}

/// Jackpot value of a target: its hits, at most five, times its base value.
pub open spec fn jackpot_value(v: ApexTerracesModeView, t: Target) -> u32 {
    let hits = hit_count(v, t);
    let capped: int = if hits < 5 { hits as int } else { 5 };
    (capped * match t {
        Target::LowerSling => 500_000int,
        Target::Pop(PopBumper::Left) => 100_000int,
        Target::Pop(PopBumper::UpperRight) => 100_000int,
        Target::Pop(PopBumper::LowerRight) => 250_000int,
    }) as u32
}

/// The jackpot round only runs once lit.
pub open spec fn apex_wf(v: ApexTerracesModeView) -> bool {
    v.state == ApexState::Jackpot ==> qualified(v) && v.has_jackpot_effect
}

/// Every count can grow by one more hit.
pub open spec fn counts_below_max(v: ApexTerracesModeView) -> bool {
    v.lower_sling_hits < 255 && v.left_hits < 255 && v.upper_right_hits < 255 && v.lower_right_hits < 255
}

/// The state after a target hit while collecting: lit once qualified.
pub open spec fn target_hit_state(v: ApexTerracesModeView, t: Target) -> ApexTerracesModeView {
    let counted = with_hit(v, t);
    if qualified(counted) {
        ApexTerracesModeView { state: ApexState::Jackpot, has_jackpot_effect: true, ..counted }
    } else {
        ApexTerracesModeView { has_progress: true, ..counted }
    }
}

/// What a target hit while collecting asks of the host: points, and either
/// the jackpot round with its music or the refreshed progress pulses.
pub open spec fn target_hit_actions(v: ApexTerracesModeView, m: crate::game::mode_manager::ModeManagerView, t: Target) -> Seq<Action> {
    let counted = with_hit(v, t);
    if qualified(counted) {
        seq![Action::AddPoints(TARGET_PTS), Action::PlaySfx(Sound::ArpHit1)]
            + activate_non_exclusive_actions(m, NonExclusiveMode::ApexTerraces) + seq![
            Action::Cue(Timer::JackpotOver, CueTiming::Once(45_000)),
            Action::Effect(EffectSlot::Jackpot, EffectOp::Replace(EffectSpec::JackpotFlash)),
        ]
    } else {
        seq![Action::AddPoints(TARGET_PTS), Action::PlaySfx(Sound::HitOrganic2)]
            + (if v.has_progress { seq![Action::Effect(EffectSlot::Progress, EffectOp::Stop)] } else { seq![] })
            + seq![Action::Effect(EffectSlot::Progress, EffectOp::Replace(EffectSpec::TargetPulses(
            pulse_ms(counted.lower_sling_hits),
            pulse_ms(counted.left_hits),
            pulse_ms(counted.upper_right_hits),
            pulse_ms(counted.lower_right_hits),
        )))]
    }
}

/// The target a switch belongs to.
pub open spec fn target_of(event: Signal) -> Option<Target> {
    match event {
        Signal::Switch(sw) => match sw.pop_target {
            Some(p) => Some(Target::Pop(p)),
            None => if sw.lower_sling_target { Some(Target::LowerSling) } else { None },
        },
        _ => None,
    }
}

impl ApexTerracesMode {
    /// Whether every target's hit count can still count one more hit.
    pub fn hit_counts_below_max(&self) -> (b: bool)
        ensures
            b == counts_below_max(self@),
    {
        self.lower_sling_hits < 255 && self.left_hits < 255 && self.upper_right_hits < 255 && self.lower_right_hits < 255
    }

    pub fn new() -> (m: Self)
        ensures
            m@ == (ApexTerracesModeView {
                state: ApexState::AccumulatingTargets,
                lower_sling_hits: 0,
                left_hits: 0,
                upper_right_hits: 0,
                lower_right_hits: 0,
                has_progress: false,
                has_jackpot_effect: false,
            }),
            apex_wf(m@),
    {
        ApexTerracesMode {
            state: ApexState::AccumulatingTargets,
            lower_sling_hits: 0,
            left_hits: 0,
            upper_right_hits: 0,
            lower_right_hits: 0,
            has_progress: false,
            has_jackpot_effect: false,
        }
    }

    fn hits_of(&self, t: Target) -> (h: u8)
        ensures
            h == hit_count(self@, t),
    {
        match t {
            Target::LowerSling => self.lower_sling_hits,
            Target::Pop(PopBumper::Left) => self.left_hits,
            Target::Pop(PopBumper::UpperRight) => self.upper_right_hits,
            Target::Pop(PopBumper::LowerRight) => self.lower_right_hits,
        }
    }

    fn jackpot_qualifications_met(&self) -> (b: bool)
        ensures
            b == qualified(self@),
    {
        self.lower_sling_hits > 0 && self.left_hits > 1 && self.upper_right_hits > 1 && self.lower_right_hits > 1
    }

    fn pulse(hits: u8) -> (p: Option<u64>)
        ensures
            p == pulse_ms(hits),
    {
        if hits == 0 {
            None
        } else {
            let capped: u8 = if hits < 5 { hits } else { 5 };
            Some(1750u64 / capped as u64)
        }
    }

    /// A target hit while collecting: points, the count, and either the
    /// jackpot round or the refreshed progress pulses.
    fn on_target_hit(&mut self, target: Target, modes: &mut ModeManager, acts: &mut Vec<Action>)
        requires
            counts_below_max(old(self)@),
            old(self)@.state == ApexState::AccumulatingTargets,
        ensures
            apex_wf(final(self)@),
            final(self)@ == target_hit_state(old(self)@, target),
            final(modes)@ == (if qualified(with_hit(old(self)@, target)) {
                activated_non_exclusive(old(modes)@, NonExclusiveMode::ApexTerraces)
            } else {
                old(modes)@
            }),
            final(acts)@ == old(acts)@ + target_hit_actions(old(self)@, old(modes)@, target),
    {
        acts.push(Action::AddPoints(TARGET_PTS));
        match target {
            Target::LowerSling => self.lower_sling_hits += 1,
            Target::Pop(PopBumper::Left) => self.left_hits += 1,
            Target::Pop(PopBumper::UpperRight) => self.upper_right_hits += 1,
            Target::Pop(PopBumper::LowerRight) => self.lower_right_hits += 1,
        }
        if self.jackpot_qualifications_met() {
            acts.push(Action::PlaySfx(Sound::ArpHit1));
            self.start_jackpot(modes, acts);
            assert(final(acts)@ =~= old(acts)@ + target_hit_actions(old(self)@, old(modes)@, target));
        } else {
            acts.push(Action::PlaySfx(Sound::HitOrganic2));
            let ghost acts1 = acts@;
            if self.has_progress {
                acts.push(Action::Effect(EffectSlot::Progress, EffectOp::Stop));
            }
            let ghost acts2 = acts@;
            let spec = EffectSpec::TargetPulses(
                Self::pulse(self.lower_sling_hits),
                Self::pulse(self.left_hits),
                Self::pulse(self.upper_right_hits),
                Self::pulse(self.lower_right_hits),
            );
            self.has_progress = true;
            acts.push(Action::Effect(EffectSlot::Progress, EffectOp::Replace(spec)));
            assert(acts2 =~= acts1 + (if old(self)@.has_progress { seq![Action::Effect(EffectSlot::Progress, EffectOp::Stop)] } else { seq![] }));
            assert(final(acts)@ =~= old(acts)@ + target_hit_actions(old(self)@, old(modes)@, target));
        }
    }

    fn start_jackpot(&mut self, modes: &mut ModeManager, acts: &mut Vec<Action>)
        ensures
            final(self)@ == (ApexTerracesModeView { state: ApexState::Jackpot, has_jackpot_effect: true, ..old(self)@ }),
            final(modes)@ == activated_non_exclusive(old(modes)@, NonExclusiveMode::ApexTerraces),
            final(acts)@ == old(acts)@ + activate_non_exclusive_actions(old(modes)@, NonExclusiveMode::ApexTerraces) + seq![
                Action::Cue(Timer::JackpotOver, CueTiming::Once(45_000)),
                Action::Effect(EffectSlot::Jackpot, EffectOp::Replace(EffectSpec::JackpotFlash)),
            ],
    {
        modes.non_exclusive_active(NonExclusiveMode::ApexTerraces, acts);
        acts.push(Action::Cue(Timer::JackpotOver, CueTiming::Once(45_000)));
        self.has_jackpot_effect = true;
        acts.push(Action::Effect(EffectSlot::Jackpot, EffectOp::Replace(EffectSpec::JackpotFlash)));
        self.state = ApexState::Jackpot;
        assert(final(acts)@ =~= old(acts)@ + activate_non_exclusive_actions(old(modes)@, NonExclusiveMode::ApexTerraces) + seq![
            Action::Cue(Timer::JackpotOver, CueTiming::Once(45_000)),
            Action::Effect(EffectSlot::Jackpot, EffectOp::Replace(EffectSpec::JackpotFlash)),
        ]);
    }

    /// A target hit during the jackpot round pays its jackpot.
    fn on_jackpot_hit(&mut self, target: Target, acts: &mut Vec<Action>)
        requires
            apex_wf(old(self)@),
            old(self)@.state == ApexState::Jackpot,
        ensures
            final(self)@ == old(self)@,
            final(acts)@ == old(acts)@ + seq![
                Action::Effect(EffectSlot::Jackpot, EffectOp::Reset),
                Action::Effect(EffectSlot::Jackpot, EffectOp::Play),
                Action::FlashersFlash(2, FlasherPattern::Solid(NamedColor::Green)),
                Action::AddPoints(jackpot_value(old(self)@, target)),
                Action::PlaySfx(Sound::ArpHit1),
            ],
    {
        if self.has_jackpot_effect {
            acts.push(Action::Effect(EffectSlot::Jackpot, EffectOp::Reset));
            acts.push(Action::Effect(EffectSlot::Jackpot, EffectOp::Play));
        }
        acts.push(Action::FlashersFlash(2, FlasherPattern::Solid(NamedColor::Green)));
        let hits = self.hits_of(target);
        let capped: u32 = if hits < 5 { hits as u32 } else { 5 };
        let value: u32 = match target {
            Target::LowerSling => capped * 500_000,
            Target::Pop(PopBumper::Left) => capped * 100_000,
            Target::Pop(PopBumper::UpperRight) => capped * 100_000,
            Target::Pop(PopBumper::LowerRight) => capped * 250_000,
        };
        acts.push(Action::AddPoints(value));
        if self.jackpot_qualifications_met() {
            acts.push(Action::PlaySfx(Sound::ArpHit1));
        } else {
            acts.push(Action::PlaySfx(Sound::HitOrganic2));
        }
        assert(final(acts)@ =~= old(acts)@ + seq![
            Action::Effect(EffectSlot::Jackpot, EffectOp::Reset),
            Action::Effect(EffectSlot::Jackpot, EffectOp::Play),
            Action::FlashersFlash(2, FlasherPattern::Solid(NamedColor::Green)),
            Action::AddPoints(jackpot_value(old(self)@, target)),
            Action::PlaySfx(Sound::ArpHit1),
        ]);
    }

    /// The jackpot timer completes the mode, which restarts; target switches
    /// count or pay by the mode's state.
    pub fn on_event(&mut self, event: &Signal, modes: &mut ModeManager, acts: &mut Vec<Action>)
        requires
            apex_wf(old(self)@),
            counts_below_max(old(self)@),
        ensures
            apex_wf(final(self)@),
            *event == Signal::Timer(Timer::JackpotOver) ==> {
                &&& final(self)@ == old(self)@
                &&& final(modes)@ == completed_non_exclusive(old(modes)@, NonExclusiveMode::ApexTerraces)
                &&& final(acts)@ == old(acts)@ + complete_non_exclusive_actions(old(modes)@, NonExclusiveMode::ApexTerraces)
                    + seq![Action::ReplaceSelf(SystemKind::ApexTerracesMode)]
            },
            (target_of(*event) is Some && old(self)@.state == ApexState::Jackpot) ==> {
                &&& final(self)@ == old(self)@
                &&& final(modes)@ == old(modes)@
                &&& final(acts)@ == old(acts)@ + seq![
                    Action::Effect(EffectSlot::Jackpot, EffectOp::Reset),
                    Action::Effect(EffectSlot::Jackpot, EffectOp::Play),
                    Action::FlashersFlash(2, FlasherPattern::Solid(NamedColor::Green)),
                    Action::AddPoints(jackpot_value(old(self)@, target_of(*event)->0)),
                    Action::PlaySfx(Sound::ArpHit1),
                ]
            },
            (target_of(*event) is Some && old(self)@.state == ApexState::AccumulatingTargets) ==> {
                let target = target_of(*event)->0;
                &&& final(self)@ == target_hit_state(old(self)@, target)
                &&& final(modes)@ == (if qualified(with_hit(old(self)@, target)) {
                    activated_non_exclusive(old(modes)@, NonExclusiveMode::ApexTerraces)
                } else {
                    old(modes)@
                })
                &&& final(acts)@ == old(acts)@ + target_hit_actions(old(self)@, old(modes)@, target)
            },
            (*event != Signal::Timer(Timer::JackpotOver) && target_of(*event) is None) ==> final(self)@ == old(self)@
                && final(modes)@ == old(modes)@ && final(acts)@ == old(acts)@,
    {
        if *event == Signal::Timer(Timer::JackpotOver) {
            modes.complete_non_exclusive(NonExclusiveMode::ApexTerraces, acts);
            acts.push(Action::ReplaceSelf(SystemKind::ApexTerracesMode));
            assert(final(acts)@ =~= old(acts)@ + complete_non_exclusive_actions(old(modes)@, NonExclusiveMode::ApexTerraces)
                + seq![Action::ReplaceSelf(SystemKind::ApexTerracesMode)]);
        } else if let Signal::Switch(sw) = event {
            let target_hit = if let Some(pop_hit) = sw.pop_target {
                Some(Target::Pop(pop_hit))
            } else if sw.lower_sling_target {
                Some(Target::LowerSling)
            } else {
                None
            };
            if let Some(target) = target_hit {
                match self.state {
                    ApexState::AccumulatingTargets => {
                        self.on_target_hit(target, modes, acts);
                    },
                    ApexState::Jackpot => self.on_jackpot_hit(target, acts),
                }
            }
        }
    }
}

/// What a jackpot pays: each target's own hit count, capped at five, times
/// its base value: 500 000 for the lower sling target, 100 000 for the left
/// and for the upper right pop target, 250 000 for the lower right pop
/// target. So for equal hits the left and upper right pops pay the same and
/// the lower right pop pays more.
pub proof fn lemma_jackpot_pays_by_hits(v: ApexTerracesModeView)
    ensures
        jackpot_value(v, Target::LowerSling) == (if v.lower_sling_hits < 5 { v.lower_sling_hits as int } else { 5 }) * 500_000,
        jackpot_value(v, Target::Pop(PopBumper::Left)) == (if v.left_hits < 5 { v.left_hits as int } else { 5 }) * 100_000,
        jackpot_value(v, Target::Pop(PopBumper::UpperRight)) == (if v.upper_right_hits < 5 { v.upper_right_hits as int } else { 5 }) * 100_000,
        jackpot_value(v, Target::Pop(PopBumper::LowerRight)) == (if v.lower_right_hits < 5 { v.lower_right_hits as int } else { 5 }) * 250_000,
        v.left_hits == v.upper_right_hits ==> jackpot_value(v, Target::Pop(PopBumper::Left)) == jackpot_value(v, Target::Pop(PopBumper::UpperRight)),
        v.left_hits == v.lower_right_hits && v.left_hits > 0 ==> jackpot_value(v, Target::Pop(PopBumper::Left)) < jackpot_value(v, Target::Pop(PopBumper::LowerRight)),
{
}

} // verus!
