use vstd::prelude::*;
use crate::effects::{EffectOp, EffectSlot, EffectSpec, FlasherPattern};
use crate::game::exclusive_mode::ExclusiveMode;
use crate::game::left_scoop_startable::LeftScoopStartable;
use crate::game::left_scoop_startable::{scoop_wf, made_startable, make_startable_actions};
use crate::game::mode_manager::{ModeManager, completed_exclusive, complete_exclusive_actions, released_exclusive, release_actions};
use crate::game::points;
use crate::signals::{Action, CueTiming, Signal, Sound, StartVia, SystemKind, Timer};

verus! {

/// Time to make a timed combo shot before any handicap.
pub const BASE_SHOT_TIME_MS: u64 = 25_000;

/// The Hydro Core mode: a combo of five shots in a fixed order (lift ramp,
/// arc ramp, left orbit, center orbit, dome ramp). Shots two to four are
/// timed; each missed timer restarts the combo with five more seconds per
/// attempt so far.
pub struct HydroCoreMode {
    current_combo_shot: u8,
    /// Shots recorded as already scored.
    combo_shots_seen: Vec<u8>,
    combo_attempts: u16,
    cue_id: Option<u64>,
    mode_complete: bool,
    /// Whether a combo timer effect was built.
    has_progress: bool,
}

pub struct HydroCoreModeView {
    pub current_combo_shot: u8,
    pub combo_shots_seen: Set<u8>,
    pub combo_attempts: u16,
    pub cue_id: Option<u64>,
    pub mode_complete: bool,
    pub has_progress: bool,
}

impl View for HydroCoreMode {
    type V = HydroCoreModeView;

    closed spec fn view(&self) -> HydroCoreModeView {
        HydroCoreModeView {
            current_combo_shot: self.current_combo_shot,
            combo_shots_seen: self.combo_shots_seen@.to_set(),
            combo_attempts: self.combo_attempts,
            cue_id: self.cue_id,
            mode_complete: self.mode_complete,
            has_progress: self.has_progress,
        }
    }
}

/// The time allowed for a timed shot after `attempts` restarts.
pub open spec fn combo_time_ms(attempts: u16) -> u64 {
    (BASE_SHOT_TIME_MS + 5000 * attempts) as u64
}

/// The state after moving the combo to `shot`; the sixth shot is the purge.
pub open spec fn combo_advanced(v: HydroCoreModeView, shot: u8) -> HydroCoreModeView {
    let cleared = HydroCoreModeView { cue_id: None, ..v };
    if shot == 6 {
        HydroCoreModeView { mode_complete: true, ..cleared }
    } else if 1 < shot < 5 {
        HydroCoreModeView { has_progress: true, current_combo_shot: shot, ..cleared }
    } else {
        HydroCoreModeView { current_combo_shot: shot, ..cleared }
    }
}

/// What moving the combo to `shot` asks of the host.
pub open spec fn combo_advance_actions(v: HydroCoreModeView, shot: u8) -> Seq<Action> {
    let clear = match v.cue_id {
        Some(id) => seq![Action::CancelCue(id)],
        None => seq![],
    };
    let stop = (if v.has_progress { seq![Action::Effect(EffectSlot::Progress, EffectOp::Stop)] } else { seq![] })
        + seq![
        Action::Effect(EffectSlot::Attention, EffectOp::Stop),
        Action::Effect(EffectSlot::Hit, EffectOp::Stop),
    ];
    if shot == 6 {
        clear + stop + seq![
            Action::PlaySfx(Sound::HydroCorePurged),
            Action::Effect(EffectSlot::Hit, EffectOp::Stop),
            Action::Effect(EffectSlot::Hit, EffectOp::Replace(EffectSpec::ComboCompleteFlash)),
        ]
    } else {
        let timer = if 1 < shot < 5 {
            seq![
                Action::Effect(EffectSlot::Progress, EffectOp::Replace(EffectSpec::ComboTimer(combo_time_ms(v.combo_attempts)))),
                Action::Cue(Timer::ComboTimeUp, CueTiming::Once(combo_time_ms(v.combo_attempts))),
            ]
        } else {
            seq![]
        };
        let programs = seq![
            Action::Effect(EffectSlot::Attention, EffectOp::Replace(EffectSpec::ComboAttention(shot))),
            Action::Effect(EffectSlot::Hit, EffectOp::Replace(EffectSpec::ComboRing(shot))),
        ] + if shot == 4 { seq![Action::Effect(EffectSlot::Intensity, EffectOp::Play)] } else { seq![] };
        clear + stop + seq![Action::PlaySfx(Sound::RandomLaneHit)] + timer + programs
    }
}

/// The combo starts over from the first shot, counting one more attempt.
pub open spec fn combo_restarted(v: HydroCoreModeView) -> HydroCoreModeView {
    combo_advanced(HydroCoreModeView { combo_attempts: (v.combo_attempts + 1) as u16, ..v }, 1)
}

pub open spec fn combo_restart_actions(v: HydroCoreModeView) -> Seq<Action> {
    combo_advance_actions(HydroCoreModeView { combo_attempts: (v.combo_attempts + 1) as u16, ..v }, 1)
        + seq![Action::Effect(EffectSlot::Intensity, EffectOp::Stop)]
}

/// The current shot of the combo was made and the combo moves on to the next
/// shot. Combo points score only the first time a shot is made: the shot is
/// recorded as seen, and a shot already seen scores nothing, also after the
/// combo restarted.
pub open spec fn combo_hit_state(v: HydroCoreModeView) -> HydroCoreModeView {
    let adv = combo_advanced(v, (v.current_combo_shot + 1) as u8);
    HydroCoreModeView { combo_shots_seen: v.combo_shots_seen.insert(v.current_combo_shot), ..adv }
}

pub open spec fn combo_hit_actions(v: HydroCoreModeView) -> Seq<Action> {
    let adv = combo_advanced(v, (v.current_combo_shot + 1) as u8);
    seq![Action::Effect(EffectSlot::Hit, EffectOp::Reset), Action::Effect(EffectSlot::Hit, EffectOp::Play)]
        + combo_advance_actions(v, (v.current_combo_shot + 1) as u8)
        + seq![Action::FlashersRotate(2, FlasherPattern::ModeSweep(ExclusiveMode::HydroCore))]
        + if !v.combo_shots_seen.contains(v.current_combo_shot) {
        seq![Action::AddPoints((points::EXL_MODE_HIT * adv.current_combo_shot) as u32)]
    } else {
        seq![]
    }
}

/// The shot that continues the combo from each step.
pub open spec fn combo_shot_signal(shot: u8) -> Signal {
    if shot == 1 {
        Signal::LiftRampHit
    } else if shot == 2 {
        Signal::ArcRampHit
    } else if shot == 3 {
        Signal::LeftOrbitHit
    } else if shot == 4 {
        Signal::CenterOrbitHit
    } else {
        Signal::DomeRampHit
    }
}

/// The combo step is one of the five shots, and a restart can be counted.
pub open spec fn hydro_core_wf(v: HydroCoreModeView) -> bool {
    1 <= v.current_combo_shot <= 5 && v.combo_attempts < u16::MAX
}

impl HydroCoreMode {
    pub fn new() -> (m: Self)
        ensures
            m@.current_combo_shot == 1,
            m@.combo_shots_seen == Set::<u8>::empty(),
            m@.combo_attempts == 0,
            m@.cue_id.is_none(),
            !m@.mode_complete,
            !m@.has_progress,
    {
        let m = HydroCoreMode {
            current_combo_shot: 1,
            combo_shots_seen: Vec::new(),
            combo_attempts: 0,
            cue_id: None,
            mode_complete: false,
            has_progress: false,
        };
        assert(m.combo_shots_seen@.to_set() =~= Set::<u8>::empty());
        m
    }

    /// Keeps the id the host gave the combo timer just scheduled.
    pub fn record_cue(&mut self, timer: Timer, id: u64)
        ensures
            timer == Timer::ComboTimeUp ==> final(self)@ == (HydroCoreModeView { cue_id: Some(id), ..old(self)@ }),
            timer != Timer::ComboTimeUp ==> final(self)@ == old(self)@,
    {
        if timer == Timer::ComboTimeUp {
            self.cue_id = Some(id);
        }
    }

    fn restart_combo(&mut self, acts: &mut Vec<Action>)
        requires
            old(self)@.combo_attempts < u16::MAX,
        ensures
            final(self)@ == combo_restarted(old(self)@),
            final(acts)@ == old(acts)@ + combo_restart_actions(old(self)@),
    {
        self.combo_attempts += 1;
        self.advance_combo(1, acts);
        acts.push(Action::Effect(EffectSlot::Intensity, EffectOp::Stop));
        assert(final(acts)@ =~= old(acts)@ + combo_restart_actions(old(self)@));
    }

    fn clear_cue(&mut self, acts: &mut Vec<Action>)
        ensures
            final(self)@ == (HydroCoreModeView { cue_id: None, ..old(self)@ }),
            final(acts)@ == old(acts)@ + match old(self)@.cue_id {
                Some(id) => seq![Action::CancelCue(id)],
                None => seq![],
            },
    {
        if let Some(cue_id) = self.cue_id {
            acts.push(Action::CancelCue(cue_id));
            self.cue_id = None;
        }
        assert(final(acts)@ =~= old(acts)@ + match old(self)@.cue_id {
            Some(id) => seq![Action::CancelCue(id)],
            None => seq![],
        });
    }

    fn advance_combo(&mut self, shot: u8, acts: &mut Vec<Action>)
        requires
            1 <= shot <= 6,
        ensures
            final(self)@ == combo_advanced(old(self)@, shot),
            final(acts)@ == old(acts)@ + combo_advance_actions(old(self)@, shot),
    {
        self.clear_cue(acts);
        let ghost acts_cleared = acts@;
        if self.has_progress {
            acts.push(Action::Effect(EffectSlot::Progress, EffectOp::Stop));
        }
        acts.push(Action::Effect(EffectSlot::Attention, EffectOp::Stop));
        acts.push(Action::Effect(EffectSlot::Hit, EffectOp::Stop));
        let ghost acts_stopped = acts@;
        if shot == 6 {
            acts.push(Action::PlaySfx(Sound::HydroCorePurged));
            acts.push(Action::Effect(EffectSlot::Hit, EffectOp::Stop));
            acts.push(Action::Effect(EffectSlot::Hit, EffectOp::Replace(EffectSpec::ComboCompleteFlash)));
            self.mode_complete = true;
            assert(final(acts)@ =~= old(acts)@ + combo_advance_actions(old(self)@, shot));
            return;
        }
        acts.push(Action::PlaySfx(Sound::RandomLaneHit));
        let ghost acts_sfx = acts@;
        if shot > 1 && shot < 5 {
            let final_time = BASE_SHOT_TIME_MS + 5000 * self.combo_attempts as u64;
            self.has_progress = true;
            acts.push(Action::Effect(EffectSlot::Progress, EffectOp::Replace(EffectSpec::ComboTimer(final_time))));
            acts.push(Action::Cue(Timer::ComboTimeUp, CueTiming::Once(final_time)));
        }
        self.current_combo_shot = shot;
        acts.push(Action::Effect(EffectSlot::Attention, EffectOp::Replace(EffectSpec::ComboAttention(shot))));
        acts.push(Action::Effect(EffectSlot::Hit, EffectOp::Replace(EffectSpec::ComboRing(shot))));
        if shot == 4 {
            acts.push(Action::Effect(EffectSlot::Intensity, EffectOp::Play));
        }
        assert(final(acts)@ =~= old(acts)@ + combo_advance_actions(old(self)@, shot));
    }

    fn combo_hit(&mut self, acts: &mut Vec<Action>)
        requires
            hydro_core_wf(old(self)@),
        ensures
            final(self)@ == combo_hit_state(old(self)@),
            final(acts)@ == old(acts)@ + combo_hit_actions(old(self)@),
    {
        acts.push(Action::Effect(EffectSlot::Hit, EffectOp::Reset));
        acts.push(Action::Effect(EffectSlot::Hit, EffectOp::Play));
        let made = self.current_combo_shot;
        self.advance_combo(made + 1, acts);
        acts.push(Action::FlashersRotate(2, FlasherPattern::ModeSweep(ExclusiveMode::HydroCore)));
        if !contains_u8(&self.combo_shots_seen, made) {
            acts.push(Action::AddPoints(points::EXL_MODE_HIT * self.current_combo_shot as u32));
            insert_u8(&mut self.combo_shots_seen, made);
        } else {
            assert(self.combo_shots_seen@.to_set() =~= old(self)@.combo_shots_seen.insert(made));
        }
        assert(final(acts)@ =~= old(acts)@ + combo_hit_actions(old(self)@));
    }

    fn combo_time_up(&mut self, acts: &mut Vec<Action>)
        requires
            hydro_core_wf(old(self)@),
        ensures
            final(self)@ == combo_restarted(old(self)@),
            final(acts)@ == old(acts)@ + seq![Action::PlaySfx(Sound::HitOrganicLow1)] + combo_restart_actions(old(self)@),
    {
        acts.push(Action::PlaySfx(Sound::HitOrganicLow1));
        self.restart_combo(acts);
        assert(final(acts)@ =~= old(acts)@ + seq![Action::PlaySfx(Sound::HitOrganicLow1)] + combo_restart_actions(old(self)@));
    }

    /// Runs only while Hydro Core holds the playfield.
    pub fn is_active(&self, current_mode: &Option<ExclusiveMode>) -> (b: bool)
        ensures
            b == (*current_mode == Some(ExclusiveMode::HydroCore)),
    {
        match current_mode {
            Some(m) => *m == ExclusiveMode::HydroCore,
            None => false,
        }
    }

    /// The mode begins with the first combo attempt.
    pub fn on_spawn(&mut self, acts: &mut Vec<Action>)
        requires
            old(self)@.combo_attempts < u16::MAX,
        ensures
            final(self)@ == combo_restarted(old(self)@),
            final(acts)@ == old(acts)@ + combo_restart_actions(old(self)@),
    {
        self.restart_combo(acts);
    }

    /// Once the purge flash ended, the mode completes: points, the
    /// completion recorded, and the qualification takes over again.
    pub fn on_tick(&mut self, hit_effect_complete: bool, modes: &mut ModeManager, acts: &mut Vec<Action>)
        ensures
            final(self)@ == old(self)@,
            !(old(self)@.mode_complete && hit_effect_complete) ==> final(modes)@ == old(modes)@ && final(acts)@ == old(acts)@,
            (old(self)@.mode_complete && hit_effect_complete) ==> {
                &&& final(modes)@ == completed_exclusive(old(modes)@, ExclusiveMode::HydroCore)
                &&& final(acts)@ == old(acts)@ + seq![Action::AddPoints(points::EXL_COMPLETION)]
                    + complete_exclusive_actions(old(modes)@, ExclusiveMode::HydroCore)
                    + seq![Action::ReplaceSelf(SystemKind::HydroCoreQualification)]
            },
    {
        if self.mode_complete && hit_effect_complete {
            self.complete(modes, acts);
        }
    }

    fn complete(&mut self, modes: &mut ModeManager, acts: &mut Vec<Action>)
        ensures
            final(self)@ == old(self)@,
            final(modes)@ == completed_exclusive(old(modes)@, ExclusiveMode::HydroCore),
            final(acts)@ == old(acts)@ + seq![Action::AddPoints(points::EXL_COMPLETION)]
                + complete_exclusive_actions(old(modes)@, ExclusiveMode::HydroCore)
                + seq![Action::ReplaceSelf(SystemKind::HydroCoreQualification)],
    {
        acts.push(Action::AddPoints(points::EXL_COMPLETION));
        modes.complete_exclusive(ExclusiveMode::HydroCore, acts);
        acts.push(Action::ReplaceSelf(SystemKind::HydroCoreQualification));
        assert(final(acts)@ =~= old(acts)@ + seq![Action::AddPoints(points::EXL_COMPLETION)]
            + complete_exclusive_actions(old(modes)@, ExclusiveMode::HydroCore)
            + seq![Action::ReplaceSelf(SystemKind::HydroCoreQualification)]);
    }

    /// The turn ended before the combo was done: the mode gives the playfield
    /// back and is offered again at the left scoop.
    fn revert_to_startable(&mut self, modes: &mut ModeManager, scoop: &mut LeftScoopStartable, acts: &mut Vec<Action>)
        requires
            scoop_wf(old(scoop)@),
        ensures
            final(self)@ == old(self)@,
            scoop_wf(final(scoop)@),
            final(modes)@ == released_exclusive(old(modes)@, ExclusiveMode::HydroCore),
            final(scoop)@ == made_startable(old(scoop)@, ExclusiveMode::HydroCore, 0),
            final(acts)@ == old(acts)@ + release_actions(old(modes)@, ExclusiveMode::HydroCore)
                + make_startable_actions(old(scoop)@, ExclusiveMode::HydroCore, 0) + seq![Action::DespawnSelf],
    {
        modes.release_exclusive(&ExclusiveMode::HydroCore, acts);
        scoop.make_startable(ExclusiveMode::HydroCore, 0, acts);
        acts.push(Action::DespawnSelf);
        assert(final(acts)@ =~= old(acts)@ + release_actions(old(modes)@, ExclusiveMode::HydroCore)
            + make_startable_actions(old(scoop)@, ExclusiveMode::HydroCore, 0) + seq![Action::DespawnSelf]);
    }

    /// The combo's next shot advances it; the combo timer restarts it; the
    /// end of the turn reverts the mode to startable.
    pub fn on_event(
        &mut self,
        event: &Signal,
        modes: &mut ModeManager,
        scoop: &mut LeftScoopStartable,
        acts: &mut Vec<Action>,
    )
        requires
            hydro_core_wf(old(self)@),
            scoop_wf(old(scoop)@),
        ensures
            scoop_wf(final(scoop)@),
            *event == combo_shot_signal(old(self)@.current_combo_shot) ==> {
                &&& final(self)@ == combo_hit_state(old(self)@)
                &&& final(acts)@ == old(acts)@ + combo_hit_actions(old(self)@)
                &&& final(modes)@ == old(modes)@
            },
            (*event != combo_shot_signal(old(self)@.current_combo_shot) && *event == Signal::Timer(Timer::ComboTimeUp)) ==> {
                &&& final(self)@ == combo_restarted(old(self)@)
                &&& final(acts)@ == old(acts)@ + seq![Action::PlaySfx(Sound::HitOrganicLow1)] + combo_restart_actions(old(self)@)
                &&& final(modes)@ == old(modes)@
            },
            (*event != combo_shot_signal(old(self)@.current_combo_shot) && *event == Signal::PlayerTurnEnding) ==> {
                &&& final(self)@ == old(self)@
                &&& final(modes)@ == released_exclusive(old(modes)@, ExclusiveMode::HydroCore)
                &&& final(scoop)@ == made_startable(old(scoop)@, ExclusiveMode::HydroCore, 0)
                &&& final(acts)@ == old(acts)@ + release_actions(old(modes)@, ExclusiveMode::HydroCore)
                    + make_startable_actions(old(scoop)@, ExclusiveMode::HydroCore, 0) + seq![Action::DespawnSelf]
            },
            (*event != combo_shot_signal(old(self)@.current_combo_shot) && *event != Signal::Timer(Timer::ComboTimeUp)
                && *event != Signal::PlayerTurnEnding) ==> {
                &&& final(self)@ == old(self)@
                &&& final(acts)@ == old(acts)@
                &&& final(modes)@ == old(modes)@
            },
    {
        let shot = self.current_combo_shot;
        if (shot == 1 && *event == Signal::LiftRampHit) || (shot == 2 && *event == Signal::ArcRampHit) || (shot == 3
            && *event == Signal::LeftOrbitHit) || (shot == 4 && *event == Signal::CenterOrbitHit) || (shot == 5
            && *event == Signal::DomeRampHit) {
            self.combo_hit(acts);
        } else if *event == Signal::Timer(Timer::ComboTimeUp) {
            self.combo_time_up(acts);
        } else if *event == Signal::PlayerTurnEnding {
            self.revert_to_startable(modes, scoop, acts);
        }
    }
}

fn contains_u8(v: &Vec<u8>, x: u8) -> (r: bool)
    ensures
        r == v@.to_set().contains(x),
{
    let mut i: usize = 0;
    while i < v.len()
        invariant
            0 <= i <= v@.len(),
            forall|j: int| 0 <= j < i ==> v@[j] != x,
        decreases v@.len() - i,
    {
        if v[i] == x {
            assert(v@.contains(x));
            return true;
        }
        i = i + 1;
    }
    false
}

fn insert_u8(v: &mut Vec<u8>, x: u8)
    ensures
        final(v)@.to_set() == old(v)@.to_set().insert(x),
{
    if !contains_u8(v, x) {
        v.push(x);
        assert(v@.to_set() =~= old(v)@.to_set().insert(x)) by {
            assert forall|y: u8| v@.contains(y) <==> (old(v)@.contains(y) || y == x) by {
                if old(v)@.contains(y) {
                    let k = choose|k: int| 0 <= k < old(v)@.len() && old(v)@[k] == y;
                    assert(v@[k] == y);
                }
                if y == x {
                    assert(v@[v@.len() - 1] == y);
                }
                if v@.contains(y) && y != x {
                    let k = choose|k: int| 0 <= k < v@.len() && v@[k] == y;
                    assert(old(v)@[k] == y);
                }
            }
        }
    } else {
        assert(v@.to_set() =~= old(v)@.to_set().insert(x));
    }
}

} // verus!

verus! {

/// Each failed attempt gives the next try at a timed shot more time, five
/// seconds per attempt, so the combo stays completable.
pub proof fn lemma_combo_time_grows(a: u16, b: u16)
    requires
        a < b,
    ensures
        combo_time_ms(a) < combo_time_ms(b),
        combo_time_ms(b) == combo_time_ms(a) + 5000 * (b - a),
{
}

/// A restart counts one more attempt.
pub proof fn lemma_restart_counts_attempt(v: HydroCoreModeView)
    requires
        v.combo_attempts < u16::MAX,
    ensures
        combo_restarted(v).combo_attempts == v.combo_attempts + 1,
        combo_restarted(v).current_combo_shot == 1,
{
}

/// The first and the last shot of the combo are not timed: moving the combo
/// to either schedules no timer.
pub proof fn lemma_first_and_last_untimed(v: HydroCoreModeView, shot: u8)
    requires
        shot == 1 || shot == 5,
    ensures
        forall|i: int| 0 <= i < combo_advance_actions(v, shot).len() ==> !(#[trigger] combo_advance_actions(v, shot)[i] is Cue),
        combo_advanced(v, shot).has_progress == v.has_progress,
{
    let clear = match v.cue_id {
        Some(id) => seq![Action::CancelCue(id)],
        None => seq![],
    };
    let stop = (if v.has_progress { seq![Action::Effect(EffectSlot::Progress, EffectOp::Stop)] } else { seq![] })
        + seq![
        Action::Effect(EffectSlot::Attention, EffectOp::Stop),
        Action::Effect(EffectSlot::Hit, EffectOp::Stop),
    ];
    let programs = seq![
        Action::Effect(EffectSlot::Attention, EffectOp::Replace(EffectSpec::ComboAttention(shot))),
        Action::Effect(EffectSlot::Hit, EffectOp::Replace(EffectSpec::ComboRing(shot))),
    ];
    let all = clear + stop + seq![Action::PlaySfx(Sound::RandomLaneHit)] + programs;
    assert(combo_advance_actions(v, shot) =~= all);
    assert forall|i: int| 0 <= i < all.len() implies !(#[trigger] all[i] is Cue) by {
        if i < clear.len() {
            assert(all[i] == clear[i]);
        } else if i < clear.len() + stop.len() {
            assert(all[i] == stop[i - clear.len()]);
        } else if i == clear.len() + stop.len() {
        } else {
            assert(all[i] == programs[i - clear.len() - stop.len() - 1]);
        }
    }
}

} // verus!
