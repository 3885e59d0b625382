use vstd::prelude::*;
use crate::effects::{EffectOp, EffectSlot, EffectSpec};
use crate::game::mode_manager::{
    ModeManager,
    ModeManagerView,
    NonExclusiveMode,
    activated_non_exclusive,
    activate_non_exclusive_actions,
    completed_non_exclusive,
    complete_non_exclusive_actions,
};
use crate::signals::{Action, CueTiming, PopBumper, Signal, Sound, SystemKind, Timer};

verus! {

/// Each spinner spin while qualifying.
pub const QUAL_HIT: u32 = 1_000;
/// Qualifying Nimbus Promenade.
pub const START: u32 = 50_000;
/// Spinner spins that qualify Nimbus Promenade.
pub const REQUIRED_HITS: u8 = 12;
/// Each lit pop hit during Nimbus Promenade.
pub const POP_PTS: u32 = 50_000;
/// Completing Nimbus Promenade.
pub const COMPLETION_PTS: u32 = 15_000_000;

/// Qualifies Nimbus Promenade with twelve spins of the vertical spinner.
pub struct NimbusPromenadeQualification {
    hits: u8,
    shutdown: bool,
}

pub struct NimbusPromenadeQualificationView {
    pub hits: u8,
    pub shutdown: bool,
}

impl View for NimbusPromenadeQualification {
    type V = NimbusPromenadeQualificationView;

    closed spec fn view(&self) -> NimbusPromenadeQualificationView {
        NimbusPromenadeQualificationView { hits: self.hits, shutdown: self.shutdown }
    }
}

/// What a spin asks of the host, with the count after the spin.
pub open spec fn spin_actions(hits: u8, hit_effect_complete: bool) -> Seq<Action> {
    seq![Action::AddPoints(QUAL_HIT)] + (if hit_effect_complete {
        seq![Action::Effect(EffectSlot::Hit, EffectOp::Reset)]
    } else {
        seq![]
    }) + seq![
        Action::Effect(EffectSlot::Hit, EffectOp::Play),
        Action::Effect(EffectSlot::Progress, EffectOp::Stop),
        Action::Effect(EffectSlot::Progress, EffectOp::Replace(EffectSpec::SpinnerProgress((hits / REQUIRED_HITS) as u8))),
    ] + if hits == REQUIRED_HITS { seq![Action::AddPoints(START)] } else { seq![] }
}

impl NimbusPromenadeQualification {
    /// The hits counted so far.
    pub fn hits(&self) -> (h: u8)
        ensures
            h == self@.hits,
    {
        self.hits
    }

    pub fn new() -> (q: Self)
        ensures
            q@.hits == 0,
            !q@.shutdown,
    {
        NimbusPromenadeQualification { hits: 0, shutdown: false }
    }

    fn spinner_hit(&mut self, hit_effect_complete: bool, acts: &mut Vec<Action>)
        requires
            old(self)@.hits < 255,
        ensures
            final(self)@ == (NimbusPromenadeQualificationView {
                hits: (old(self)@.hits + 1) as u8,
                shutdown: old(self)@.shutdown || old(self)@.hits + 1 == REQUIRED_HITS,
            }),
            final(acts)@ == old(acts)@ + spin_actions((old(self)@.hits + 1) as u8, hit_effect_complete),
    {
        self.hits += 1;
        acts.push(Action::AddPoints(QUAL_HIT));
        if hit_effect_complete {
            acts.push(Action::Effect(EffectSlot::Hit, EffectOp::Reset));
        }
        acts.push(Action::Effect(EffectSlot::Hit, EffectOp::Play));
        acts.push(Action::Effect(EffectSlot::Progress, EffectOp::Stop));
        acts.push(Action::Effect(EffectSlot::Progress, EffectOp::Replace(EffectSpec::SpinnerProgress(self.hits / REQUIRED_HITS))));
        if self.hits == REQUIRED_HITS {
            acts.push(Action::AddPoints(START));
            self.shutdown = true;
        }
        assert(final(acts)@ =~= old(acts)@ + spin_actions((old(self)@.hits + 1) as u8, hit_effect_complete));
    }

    /// A spin of the vertical spinner counts.
    pub fn on_event(&mut self, event: &Signal, hit_effect_complete: bool, acts: &mut Vec<Action>)
        requires
            old(self)@.hits < 255,
        ensures
            *event == Signal::VerticalSpinnerHit ==> {
                &&& final(self)@ == (NimbusPromenadeQualificationView {
                    hits: (old(self)@.hits + 1) as u8,
                    shutdown: old(self)@.shutdown || old(self)@.hits + 1 == REQUIRED_HITS,
                })
                &&& final(acts)@ == old(acts)@ + spin_actions((old(self)@.hits + 1) as u8, hit_effect_complete)
            },
            *event != Signal::VerticalSpinnerHit ==> final(self)@ == old(self)@ && final(acts)@ == old(acts)@,
    {
        if *event == Signal::VerticalSpinnerHit {
            self.spinner_hit(hit_effect_complete, acts);
        }
    }
}

/// The Nimbus Promenade mode: one pop at a time is lit and the light moves
/// on, ever faster; hitting the lit pop scores and moves it on at once.
pub struct NimbusPromenadeMode {
    cycle_time_ms: u64,
    current_pop: PopBumper,
    hits: u8,
    complete: bool,
    cue_id: Option<u64>,
}

pub struct NimbusPromenadeModeView {
    pub cycle_time_ms: u64,
    pub current_pop: PopBumper,
    pub hits: u8,
    pub complete: bool,
    pub cue_id: Option<u64>,
}

impl View for NimbusPromenadeMode {
    type V = NimbusPromenadeModeView;

    closed spec fn view(&self) -> NimbusPromenadeModeView {
        NimbusPromenadeModeView {
            cycle_time_ms: self.cycle_time_ms,
            current_pop: self.current_pop,
            hits: self.hits,
            complete: self.complete,
            cue_id: self.cue_id,
        }
    }
}

/// The light moves to the next pop and its timer restarts, unless complete.
pub open spec fn advanced(v: NimbusPromenadeModeView) -> NimbusPromenadeModeView {
    if v.complete {
        NimbusPromenadeModeView { cue_id: None, ..v }
    } else {
        NimbusPromenadeModeView { cue_id: None, current_pop: v.current_pop.spec_next(), ..v }
    }
}

pub open spec fn advance_actions(v: NimbusPromenadeModeView) -> Seq<Action> {
    (match v.cue_id {
        Some(id) => seq![Action::CancelCue(id)],
        None => seq![],
    }) + if v.complete {
        seq![]
    } else {
        seq![
            Action::Cue(Timer::NextPop, CueTiming::Once(v.cycle_time_ms)),
            Action::Effect(EffectSlot::Attention, EffectOp::Stop),
            Action::Effect(EffectSlot::Attention, EffectOp::Replace(EffectSpec::PopPulse(v.current_pop.spec_next(), v.hits))),
        ]
    }
}

/// The light speeds up by 0.2 seconds per pop hit, down to just under 0.6 seconds.
pub open spec fn sped_up(v: NimbusPromenadeModeView) -> NimbusPromenadeModeView {
    if v.cycle_time_ms > 600 {
        NimbusPromenadeModeView { cycle_time_ms: (v.cycle_time_ms - 200) as u64, ..v }
    } else {
        v
    }
}

/// Hits of the lit pop that complete the mode, by the pop lit after the hit.
pub open spec fn required_hits(lit: PopBumper) -> u8 {
    if lit == PopBumper::Left { 4 } else { 3 }
}

/// The lit pop was hit: counted, then the light moves on.
pub open spec fn lit_hit_state(v: NimbusPromenadeModeView) -> NimbusPromenadeModeView {
    let moved = advanced(NimbusPromenadeModeView { hits: (v.hits + 1) as u8, ..sped_up(v) });
    if moved.hits == required_hits(moved.current_pop) {
        NimbusPromenadeModeView { complete: true, ..moved }
    } else {
        moved
    }
}

/// The mode manager after a lit pop hit: the mode is recorded once complete.
pub open spec fn lit_hit_modes(v: NimbusPromenadeModeView, m: ModeManagerView) -> ModeManagerView {
    let moved = advanced(NimbusPromenadeModeView { hits: (v.hits + 1) as u8, ..sped_up(v) });
    if moved.hits == required_hits(moved.current_pop) {
        completed_non_exclusive(m, NonExclusiveMode::NimbusPromenade)
    } else {
        m
    }
}

/// What a lit pop hit asks of the host.
pub open spec fn lit_hit_actions(v: NimbusPromenadeModeView, m: ModeManagerView) -> Seq<Action> {
    let counted = NimbusPromenadeModeView { hits: (v.hits + 1) as u8, ..sped_up(v) };
    let moved = advanced(counted);
    seq![
        Action::AddPoints(POP_PTS),
        Action::Effect(EffectSlot::Hit, EffectOp::Reset),
        Action::Effect(EffectSlot::Hit, EffectOp::Play),
    ] + advance_actions(counted) + if moved.hits == required_hits(moved.current_pop) {
        completion_actions() + complete_non_exclusive_actions(m, NonExclusiveMode::NimbusPromenade)
    } else {
        seq![]
    }
}

pub open spec fn completion_actions() -> Seq<Action> {
    seq![
        Action::AddPoints(COMPLETION_PTS),
        Action::PlaySfx(Sound::LaneHitComplete),
        Action::Effect(EffectSlot::Hit, EffectOp::Stop),
        Action::Effect(EffectSlot::Hit, EffectOp::Replace(EffectSpec::NimbusCompleteFlash)),
    ]
}

/// The pop an event is a hit of: its spoon switch, else its target.
pub open spec fn pop_of(event: Signal) -> Option<PopBumper> {
    match event {
        Signal::Switch(sw) => match sw.pop {
            Some(p) => Some(p),
            None => sw.pop_target,
        },
        _ => None,
    }
}

impl NimbusPromenadeMode {
    /// The hits counted so far.
    pub fn hits(&self) -> (h: u8)
        ensures
            h == self@.hits,
    {
        self.hits
    }

    pub fn new() -> (m: Self)
        ensures
            m@ == (NimbusPromenadeModeView {
                cycle_time_ms: 1500,
                current_pop: PopBumper::Left,
                hits: 0,
                complete: false,
                cue_id: None,
            }),
    {
        NimbusPromenadeMode { cycle_time_ms: 1500, current_pop: PopBumper::Left, hits: 0, complete: false, cue_id: None }
    }

    /// Keeps the id the host gave the light's timer just scheduled.
    pub fn record_cue(&mut self, timer: Timer, id: u64)
        ensures
            timer == Timer::NextPop ==> final(self)@ == (NimbusPromenadeModeView { cue_id: Some(id), ..old(self)@ }),
            timer != Timer::NextPop ==> final(self)@ == old(self)@,
    {
        if timer == Timer::NextPop {
            self.cue_id = Some(id);
        }
    }

    fn clear_cue(&mut self, acts: &mut Vec<Action>)
        ensures
            final(self)@ == (NimbusPromenadeModeView { cue_id: None, ..old(self)@ }),
            final(acts)@ == old(acts)@ + match old(self)@.cue_id {
                Some(id) => seq![Action::CancelCue(id)],
                None => seq![],
            },
    {
        if let Some(cue_id) = self.cue_id {
            acts.push(Action::CancelCue(cue_id));
            self.cue_id = None;
        }
        assert(final(acts)@ =~= old(acts)@ + match old(self)@.cue_id {
            Some(id) => seq![Action::CancelCue(id)],
            None => seq![],
        });
    }

    fn advance(&mut self, acts: &mut Vec<Action>)
        ensures
            final(self)@ == advanced(old(self)@),
            final(acts)@ == old(acts)@ + advance_actions(old(self)@),
    {
        self.clear_cue(acts);
        if !self.complete {
            acts.push(Action::Cue(Timer::NextPop, CueTiming::Once(self.cycle_time_ms)));
            self.current_pop = self.current_pop.next();
            acts.push(Action::Effect(EffectSlot::Attention, EffectOp::Stop));
            acts.push(Action::Effect(EffectSlot::Attention, EffectOp::Replace(EffectSpec::PopPulse(self.current_pop, self.hits))));
        }
        assert(final(acts)@ =~= old(acts)@ + advance_actions(old(self)@));
    }

    fn complete(&mut self, acts: &mut Vec<Action>)
        ensures
            final(self)@ == (NimbusPromenadeModeView { complete: true, ..old(self)@ }),
            final(acts)@ == old(acts)@ + completion_actions(),
    {
        acts.push(Action::AddPoints(COMPLETION_PTS));
        acts.push(Action::PlaySfx(Sound::LaneHitComplete));
        acts.push(Action::Effect(EffectSlot::Hit, EffectOp::Stop));
        acts.push(Action::Effect(EffectSlot::Hit, EffectOp::Replace(EffectSpec::NimbusCompleteFlash)));
        self.complete = true;
        assert(final(acts)@ =~= old(acts)@ + completion_actions());
    }

    /// A pop was hit: the light speeds up, and the lit pop scores, moves the
    /// light on and may complete the mode.
    fn on_pop_hit(&mut self, pop: PopBumper, modes: &mut ModeManager, acts: &mut Vec<Action>)
        requires
            old(self)@.hits < 255,
        ensures
            pop != old(self)@.current_pop ==> final(self)@ == sped_up(old(self)@) && final(modes)@ == old(modes)@
                && final(acts)@ == old(acts)@,
            pop == old(self)@.current_pop ==> {
                &&& final(self)@ == lit_hit_state(old(self)@)
                &&& final(modes)@ == lit_hit_modes(old(self)@, old(modes)@)
                &&& final(acts)@ == old(acts)@ + lit_hit_actions(old(self)@, old(modes)@)
            },
    {
        if self.cycle_time_ms > 600 {
            self.cycle_time_ms -= 200;
        }
        if pop == self.current_pop {
            acts.push(Action::AddPoints(POP_PTS));
            self.hits += 1;
            acts.push(Action::Effect(EffectSlot::Hit, EffectOp::Reset));
            acts.push(Action::Effect(EffectSlot::Hit, EffectOp::Play));
            let ghost acts1 = acts@;
            self.advance(acts);
            let required: u8 = match self.current_pop {
                PopBumper::Left => 4,
                _ => 3,
            };
            if self.hits == required {
                self.complete(acts);
                modes.complete_non_exclusive(NonExclusiveMode::NimbusPromenade, acts);
            }
            assert(final(acts)@ =~= old(acts)@ + lit_hit_actions(old(self)@, old(modes)@));
        }
    }

    /// Runs while the turn is in play.
    pub fn is_active(&self, turn_active: bool) -> (b: bool)
        ensures
            b == turn_active,
    {
        turn_active
    }

    /// The mode starts its light timer, claims the music and adds a ball.
    pub fn on_spawn(&self, modes: &mut ModeManager, acts: &mut Vec<Action>)
        ensures
            final(modes)@ == activated_non_exclusive(old(modes)@, NonExclusiveMode::NimbusPromenade),
            final(acts)@ == old(acts)@ + seq![Action::Cue(Timer::NextPop, CueTiming::Once(1750))]
                + activate_non_exclusive_actions(old(modes)@, NonExclusiveMode::NimbusPromenade)
                + seq![Action::MultiballAddBalls(1)],
    {
        acts.push(Action::Cue(Timer::NextPop, CueTiming::Once(1750)));
        modes.non_exclusive_active(NonExclusiveMode::NimbusPromenade, acts);
        acts.push(Action::MultiballAddBalls(1));
        assert(final(acts)@ =~= old(acts)@ + seq![Action::Cue(Timer::NextPop, CueTiming::Once(1750))]
            + activate_non_exclusive_actions(old(modes)@, NonExclusiveMode::NimbusPromenade)
            + seq![Action::MultiballAddBalls(1)]);
    }

    /// The light's timer moves it on; a pop's spoon or target switch is a hit of that pop.
    pub fn on_event(&mut self, event: &Signal, modes: &mut ModeManager, acts: &mut Vec<Action>)
        requires
            old(self)@.hits < 255,
        ensures
            *event == Signal::Timer(Timer::NextPop) ==> final(self)@ == advanced(old(self)@) && final(acts)@ == old(acts)@
                + advance_actions(old(self)@) && final(modes)@ == old(modes)@,
            pop_of(*event) is Some && pop_of(*event)->0 != old(self)@.current_pop ==> final(self)@ == sped_up(old(self)@)
                && final(modes)@ == old(modes)@ && final(acts)@ == old(acts)@,
            pop_of(*event) is Some && pop_of(*event)->0 == old(self)@.current_pop ==> final(self)@ == lit_hit_state(
                old(self)@,
            ) && final(modes)@ == lit_hit_modes(old(self)@, old(modes)@) && final(acts)@ == old(acts)@ + lit_hit_actions(
                old(self)@,
                old(modes)@,
            ),
            *event != Signal::Timer(Timer::NextPop) && pop_of(*event) is None ==> final(self)@ == old(self)@ && final(modes)@
                == old(modes)@ && final(acts)@ == old(acts)@,
    {
        match event {
            Signal::Timer(Timer::NextPop) => self.advance(acts),
            Signal::Switch(sw) => {
                if let Some(pop) = sw.pop {
                    self.on_pop_hit(pop, modes, acts);
                } else if let Some(pop) = sw.pop_target {
                    self.on_pop_hit(pop, modes, acts);
                }
            },
            _ => {},
        }
    }

    /// Once complete and the completion flash ended, the qualification takes over again.
    pub fn on_tick(&self, hit_effect_complete: bool, acts: &mut Vec<Action>)
        ensures
            (hit_effect_complete && self@.complete) ==> final(acts)@ == old(acts)@.push(
                Action::ReplaceSelf(SystemKind::NimbusPromenadeQualification),
            ),
            !(hit_effect_complete && self@.complete) ==> final(acts)@ == old(acts)@,
    {
        if hit_effect_complete && self.complete {
            acts.push(Action::ReplaceSelf(SystemKind::NimbusPromenadeQualification));
        }
    }
}

} // verus!
