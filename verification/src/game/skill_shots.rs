use vstd::prelude::*;
use crate::effects::{EffectOp, EffectSlot, EffectSpec};
use crate::signals::{Action, CueTiming, DropBankTarget, Signal, Sound, SwitchClosed, SystemKind, Timer};

verus! {

/// Points for the lit drop target.
pub const DROP_BANK_PTS: u32 = 50_000;
/// Points for any other drop target.
pub const DROP_BANK_CONSOLATION_PTS: u32 = 5_000;
/// Points for the secret left outlane skill shot.
pub const LEFT_OUTLANE_PTS: u32 = 500_000;
/// Points for the left pop skill shot.
pub const LEFT_POP_PTS: u32 = 150_000;
/// How long a drop target stays lit before the next one.
pub const DROP_TARGET_MS: u64 = 1_750;

/// A playfield switch that ends a pending skill shot once the ball is in play.
pub open spec fn cancels_skill_shot(sw: SwitchClosed, turn_active: bool) -> bool {
    sw.playfield && !sw.does_not_cancel_skillshot && turn_active
}

/// Starts the three skill shots at the beginning of every turn.
pub struct SkillshotManager;

impl SkillshotManager {
    pub fn new() -> (m: Self) {
        SkillshotManager
    }

    pub fn on_event(&self, event: &Signal, acts: &mut Vec<Action>)
        ensures
            *event == Signal::PlayerTurnBeginning ==> final(acts)@ == old(acts)@ + seq![
                Action::Spawn(SystemKind::LeftPopSkillShot),
                Action::Spawn(SystemKind::LeftOutlaneSkillShot),
                Action::Spawn(SystemKind::DropBankSkillShot),
            ],
            *event != Signal::PlayerTurnBeginning ==> final(acts)@ == old(acts)@,
    {
        if *event == Signal::PlayerTurnBeginning {
            acts.push(Action::Spawn(SystemKind::LeftPopSkillShot));
            acts.push(Action::Spawn(SystemKind::LeftOutlaneSkillShot));
            acts.push(Action::Spawn(SystemKind::DropBankSkillShot));
            assert(final(acts)@ =~= old(acts)@ + seq![
                Action::Spawn(SystemKind::LeftPopSkillShot),
                Action::Spawn(SystemKind::LeftOutlaneSkillShot),
                Action::Spawn(SystemKind::DropBankSkillShot),
            ]);
        }
    }
}

/// Lights the drop targets in turn; hitting the lit one scores the skill shot.
pub struct DropBankSkillShot {
    target: DropBankTarget,
    hit_effect: bool,
    hit: bool,
}

pub struct DropBankSkillShotView {
    /// The lit target.
    pub target: DropBankTarget,
    /// The hit program was built.
    pub hit_effect: bool,
    pub hit: bool,
}

impl View for DropBankSkillShot {
    type V = DropBankSkillShotView;

    closed spec fn view(&self) -> DropBankSkillShotView {
        DropBankSkillShotView { target: self.target, hit_effect: self.hit_effect, hit: self.hit }
    }
}

/// Lighting the next target and timing it.
pub open spec fn next_target_actions(target: DropBankTarget) -> Seq<Action> {
    seq![
        Action::Effect(EffectSlot::Attention, EffectOp::Stop),
        Action::Effect(EffectSlot::Attention, EffectOp::Replace(EffectSpec::DropTargetFlash(target.spec_next()))),
        Action::Cue(Timer::NextDropTarget, CueTiming::Once(DROP_TARGET_MS)),
    ]
}

pub open spec fn target_hit_actions(lit: DropBankTarget, target: DropBankTarget) -> Seq<Action> {
    if target == lit {
        seq![
            Action::PlaySfx(Sound::ArpHit1),
            Action::AddPoints(DROP_BANK_PTS),
            Action::Effect(EffectSlot::Hit, EffectOp::Replace(EffectSpec::DropBankRotate)),
            Action::DespawnSelf,
        ]
    } else {
        seq![Action::AddPoints(DROP_BANK_CONSOLATION_PTS), Action::DespawnSelf]
    }
}

impl DropBankSkillShot {
    /// The first target lit, nothing hit.
    pub fn new() -> (s: Self)
        ensures
            s@ == (DropBankSkillShotView { target: DropBankTarget::Target1, hit_effect: false, hit: false }),
    {
        DropBankSkillShot { target: DropBankTarget::Target1, hit_effect: false, hit: false }
    }

    /// The first target's flasher, which spawning replaces at once.
    pub fn on_spawn(&mut self, acts: &mut Vec<Action>)
        ensures
            final(self)@ == (DropBankSkillShotView { target: old(self)@.target.spec_next(), ..old(self)@ }),
            final(acts)@ == old(acts)@ + seq![
                Action::Effect(EffectSlot::Attention, EffectOp::Replace(EffectSpec::DropTargetFlash(old(self)@.target))),
            ] + next_target_actions(old(self)@.target),
    {
        acts.push(Action::Effect(EffectSlot::Attention, EffectOp::Replace(EffectSpec::DropTargetFlash(self.target))));
        self.next(acts);
        assert(final(acts)@ =~= old(acts)@ + seq![
            Action::Effect(EffectSlot::Attention, EffectOp::Replace(EffectSpec::DropTargetFlash(old(self)@.target))),
        ] + next_target_actions(old(self)@.target));
    }

    fn next(&mut self, acts: &mut Vec<Action>)
        ensures
            final(self)@ == (DropBankSkillShotView { target: old(self)@.target.spec_next(), ..old(self)@ }),
            final(acts)@ == old(acts)@ + next_target_actions(old(self)@.target),
    {
        self.target = self.target.next();
        acts.push(Action::Effect(EffectSlot::Attention, EffectOp::Stop));
        acts.push(Action::Effect(EffectSlot::Attention, EffectOp::Replace(EffectSpec::DropTargetFlash(self.target))));
        acts.push(Action::Cue(Timer::NextDropTarget, CueTiming::Once(DROP_TARGET_MS)));
        assert(final(acts)@ =~= old(acts)@ + next_target_actions(old(self)@.target));
    }

    fn on_target_hit(&mut self, target: DropBankTarget, acts: &mut Vec<Action>)
        ensures
            final(self)@ == (DropBankSkillShotView {
                hit: true,
                hit_effect: old(self)@.hit_effect || target == old(self)@.target,
                ..old(self)@
            }),
            final(acts)@ == old(acts)@ + target_hit_actions(old(self)@.target, target),
    {
        self.hit = true;
        if target == self.target {
            acts.push(Action::PlaySfx(Sound::ArpHit1));
            acts.push(Action::AddPoints(DROP_BANK_PTS));
            self.hit_effect = true;
            acts.push(Action::Effect(EffectSlot::Hit, EffectOp::Replace(EffectSpec::DropBankRotate)));
        } else {
            acts.push(Action::AddPoints(DROP_BANK_CONSOLATION_PTS));
        }
        acts.push(Action::DespawnSelf);
        assert(final(acts)@ =~= old(acts)@ + target_hit_actions(old(self)@.target, target));
    }

    /// A drop target scores (the lit one fully); the timer lights the next
    /// target; any other playfield switch in play ends the skill shot.
    pub fn on_event(&mut self, event: &Signal, turn_active: bool, acts: &mut Vec<Action>)
        ensures
            (*event matches Signal::Switch(sw) && sw.drop_target is Some) ==> {
                let t = event->Switch_0.drop_target->0;
                &&& final(self)@ == (DropBankSkillShotView {
                    hit: true,
                    hit_effect: old(self)@.hit_effect || t == old(self)@.target,
                    ..old(self)@
                })
                &&& final(acts)@ == old(acts)@ + target_hit_actions(old(self)@.target, t)
            },
            *event == Signal::Timer(Timer::NextDropTarget) ==> {
                &&& final(self)@ == (DropBankSkillShotView { target: old(self)@.target.spec_next(), ..old(self)@ })
                &&& final(acts)@ == old(acts)@ + next_target_actions(old(self)@.target)
            },
            (*event matches Signal::Switch(sw) && sw.drop_target is None && cancels_skill_shot(sw, turn_active)) ==> {
                &&& final(self)@ == old(self)@
                &&& final(acts)@ == old(acts)@.push(Action::DespawnSelf)
            },
            !((*event matches Signal::Switch(sw) && (sw.drop_target is Some || cancels_skill_shot(sw, turn_active)))
                || *event == Signal::Timer(Timer::NextDropTarget)) ==> final(self)@ == old(self)@ && final(acts)@
                == old(acts)@,
    {
        match event {
            Signal::Switch(sw) => {
                if let Some(t) = sw.drop_target {
                    self.on_target_hit(t, acts);
                } else if sw.playfield && !sw.does_not_cancel_skillshot && turn_active {
                    acts.push(Action::DespawnSelf);
                }
            },
            Signal::Timer(Timer::NextDropTarget) => {
                self.next(acts);
            },
            _ => {},
        }
    }

    /// Once the lit target was hit and its animation ended, the skill shot goes.
    pub fn on_tick(&self, hit_effect_complete: bool, acts: &mut Vec<Action>)
        ensures
            (self@.hit_effect && self@.hit && hit_effect_complete) ==> final(acts)@ == old(acts)@.push(Action::DespawnSelf),
            !(self@.hit_effect && self@.hit && hit_effect_complete) ==> final(acts)@ == old(acts)@,
    {
        if self.hit_effect && self.hit && hit_effect_complete {
            acts.push(Action::DespawnSelf);
        }
    }
}

/// The secret skill shot: the left outlane before any other switch.
pub struct LeftOutlaneSkillShot {
    hit: bool,
}

impl LeftOutlaneSkillShot {
    pub closed spec fn is_hit(&self) -> bool {
        self.hit
    }

    pub fn new() -> (s: Self)
        ensures
            !s.is_hit(),
    {
        LeftOutlaneSkillShot { hit: false }
    }

    pub fn on_event(&mut self, event: &Signal, turn_active: bool, acts: &mut Vec<Action>)
        ensures
            *event == Signal::LeftOutlaneRollover ==> {
                &&& final(self).is_hit()
                &&& final(acts)@ == old(acts)@ + seq![
                    Action::Effect(EffectSlot::Hit, EffectOp::Replace(EffectSpec::LanesFlash)),
                    Action::AddPoints(LEFT_OUTLANE_PTS),
                    Action::DespawnSelf,
                ]
            },
            (*event matches Signal::Switch(sw) && cancels_skill_shot(sw, turn_active)) ==> {
                &&& final(self).is_hit() == old(self).is_hit()
                &&& final(acts)@ == old(acts)@.push(Action::DespawnSelf)
            },
            !(*event == Signal::LeftOutlaneRollover || (*event matches Signal::Switch(sw) && cancels_skill_shot(sw, turn_active)))
                ==> final(self).is_hit() == old(self).is_hit() && final(acts)@ == old(acts)@,
    {
        match event {
            Signal::LeftOutlaneRollover => {
                self.hit = true;
                acts.push(Action::Effect(EffectSlot::Hit, EffectOp::Replace(EffectSpec::LanesFlash)));
                acts.push(Action::AddPoints(LEFT_OUTLANE_PTS));
                acts.push(Action::DespawnSelf);
                assert(final(acts)@ =~= old(acts)@ + seq![
                    Action::Effect(EffectSlot::Hit, EffectOp::Replace(EffectSpec::LanesFlash)),
                    Action::AddPoints(LEFT_OUTLANE_PTS),
                    Action::DespawnSelf,
                ]);
            },
            Signal::Switch(sw) => {
                if sw.playfield && !sw.does_not_cancel_skillshot && turn_active {
                    acts.push(Action::DespawnSelf);
                }
            },
            _ => {},
        }
    }

    pub fn on_tick(&self, hit_effect_complete: bool, acts: &mut Vec<Action>)
        ensures
            (self.is_hit() && hit_effect_complete) ==> final(acts)@ == old(acts)@.push(Action::DespawnSelf),
            !(self.is_hit() && hit_effect_complete) ==> final(acts)@ == old(acts)@,
    {
        if self.hit && hit_effect_complete {
            acts.push(Action::DespawnSelf);
        }
    }
}

/// The left pop skill shot: the left pop's spoon before any switch but the
/// right pass lane.
pub struct LeftPopSkillShot {
    hit: bool,
}

/// A playfield switch other than the right pass lane ends the left pop skill
/// shot once the ball is in play.
pub open spec fn cancels_left_pop(sw: SwitchClosed, turn_active: bool) -> bool {
    sw.playfield && !sw.right_pass_lane && turn_active
}

impl LeftPopSkillShot {
    pub closed spec fn is_hit(&self) -> bool {
        self.hit
    }

    pub fn new() -> (s: Self)
        ensures
            !s.is_hit(),
    {
        LeftPopSkillShot { hit: false }
    }

    /// The left spinner ray rotating red, asking for the shot.
    pub fn on_spawn(&self, acts: &mut Vec<Action>)
        ensures
            final(acts)@ == old(acts)@.push(Action::Effect(EffectSlot::Attention, EffectOp::Replace(EffectSpec::LeftRayRotate))),
    {
        acts.push(Action::Effect(EffectSlot::Attention, EffectOp::Replace(EffectSpec::LeftRayRotate)));
    }

    pub fn on_event(&mut self, event: &Signal, turn_active: bool, acts: &mut Vec<Action>)
        ensures
            (*event matches Signal::Switch(sw) && sw.left_pop_spoon) ==> {
                &&& final(self).is_hit()
                &&& final(acts)@ == old(acts)@ + seq![
                    Action::Effect(EffectSlot::Hit, EffectOp::Replace(EffectSpec::PopsRaysRotate)),
                    Action::AddPoints(LEFT_POP_PTS),
                    Action::DespawnSelf,
                ]
            },
            (*event matches Signal::Switch(sw) && !sw.left_pop_spoon && cancels_left_pop(sw, turn_active)) ==> {
                &&& final(self).is_hit() == old(self).is_hit()
                &&& final(acts)@ == old(acts)@.push(Action::DespawnSelf)
            },
            !(*event matches Signal::Switch(sw) && (sw.left_pop_spoon || cancels_left_pop(sw, turn_active))) ==> {
                &&& final(self).is_hit() == old(self).is_hit()
                &&& final(acts)@ == old(acts)@
            },
    {
        if let Signal::Switch(sw) = event {
            if sw.left_pop_spoon {
                self.hit = true;
                acts.push(Action::Effect(EffectSlot::Hit, EffectOp::Replace(EffectSpec::PopsRaysRotate)));
                acts.push(Action::AddPoints(LEFT_POP_PTS));
                acts.push(Action::DespawnSelf);
                assert(final(acts)@ =~= old(acts)@ + seq![
                    Action::Effect(EffectSlot::Hit, EffectOp::Replace(EffectSpec::PopsRaysRotate)),
                    Action::AddPoints(LEFT_POP_PTS),
                    Action::DespawnSelf,
                ]);
            } else if sw.playfield && !sw.right_pass_lane && turn_active {
                acts.push(Action::DespawnSelf);
            }
        }
    }

    pub fn on_tick(&self, hit_effect_complete: bool, acts: &mut Vec<Action>)
        ensures
            (self.is_hit() && hit_effect_complete) ==> final(acts)@ == old(acts)@.push(Action::DespawnSelf),
            !(self.is_hit() && hit_effect_complete) ==> final(acts)@ == old(acts)@,
    {
        if self.hit && hit_effect_complete {
            acts.push(Action::DespawnSelf);
        }
    }
}

} // verus!
