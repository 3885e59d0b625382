use vstd::prelude::*;
use core::marker::PhantomData;
use crate::effects::{EffectOp, EffectSlot};
use crate::game::exclusive_mode::ExclusiveMode;
use crate::game::points;
use crate::signals::{Action, Signal, Sound, StartVia, SystemKind};

verus! {

/// The rules by which one exclusive mode qualifies: how many qualifying
/// shots it takes, which shots count, and what qualifying does.
pub trait ExclusiveModeQualifier {
    spec fn spec_required_hits() -> u8;

    spec fn spec_hit_sound() -> Sound;

    spec fn spec_is_qualifying_shot(event: Signal) -> bool;

    spec fn spec_qualified_actions() -> Seq<Action>;

    spec fn spec_mode() -> ExclusiveMode;

    /// The mode this qualifies for.
    fn mode() -> (m: ExclusiveMode)
        ensures
            m == Self::spec_mode(),
    ;

    fn required_hits() -> (r: u8)
        ensures
            r == Self::spec_required_hits(),
    ;

    /// The sound of the hit that completes the qualification.
    fn hit_sound() -> (s: Sound)
        ensures
            s == Self::spec_hit_sound(),
    ;

    fn is_qualifying_shot(event: &Signal) -> (b: bool)
        ensures
            b == Self::spec_is_qualifying_shot(*event),
    ;

    /// What happens once the mode qualified.
    fn on_qualified(acts: &mut Vec<Action>)
        ensures
            final(acts)@ == old(acts)@ + Self::spec_qualified_actions(),
    ;
}

/// Counts qualifying shots toward an exclusive mode while no exclusive mode
/// runs; when enough are made and the hit animation ends, the mode is
/// offered for starting.
pub struct ExclusiveModeQualification<T: ExclusiveModeQualifier> {
    hits: u8,
    _t: PhantomData<T>,
}

impl<T: ExclusiveModeQualifier> ExclusiveModeQualification<T> {
    pub closed spec fn hits(&self) -> u8 {
        self.hits
    }

    pub fn new() -> (q: Self)
        ensures
            q.hits() == 0,
    {
        ExclusiveModeQualification { hits: 0, _t: PhantomData }
    }

    fn on_qualifying_hit(&mut self, acts: &mut Vec<Action>)
        requires
            old(self).hits() < 255,
        ensures
            final(self).hits() == old(self).hits() + 1,
            final(acts)@ == old(acts)@ + seq![
                Action::AddPoints(points::EXCL_QUAL_HIT),
                Action::Effect(EffectSlot::Hit, EffectOp::Reset),
                Action::Effect(EffectSlot::Hit, EffectOp::Play),
            ] + if final(self).hits() == T::spec_required_hits() {
                seq![Action::PlaySfx(T::spec_hit_sound())]
            } else {
                seq![]
            },
    {
        self.hits += 1;
        acts.push(Action::AddPoints(points::EXCL_QUAL_HIT));
        acts.push(Action::Effect(EffectSlot::Hit, EffectOp::Reset));
        acts.push(Action::Effect(EffectSlot::Hit, EffectOp::Play));
        let ghost acts1 = acts@;
        if self.hits == T::required_hits() {
            acts.push(Action::PlaySfx(T::hit_sound()));
        }
        assert(final(acts)@ =~= old(acts)@ + seq![
            Action::AddPoints(points::EXCL_QUAL_HIT),
            Action::Effect(EffectSlot::Hit, EffectOp::Reset),
            Action::Effect(EffectSlot::Hit, EffectOp::Play),
        ] + if final(self).hits() == T::spec_required_hits() {
            seq![Action::PlaySfx(T::spec_hit_sound())]
        } else {
            seq![]
        });
    }

    /// Runs only while no exclusive mode holds the playfield.
    pub fn is_active(&self, current_mode: &Option<ExclusiveMode>) -> (b: bool)
        ensures
            b == current_mode.is_none(),
    {
        current_mode.is_none()
    }

    /// With the required hits made and the hit animation over, the attention
    /// effect stops and the mode is qualified.
    pub fn on_tick(&self, hit_effect_complete: bool, acts: &mut Vec<Action>)
        ensures
            (self.hits() == T::spec_required_hits() && hit_effect_complete) ==> final(acts)@ == old(acts)@
                + seq![Action::Effect(EffectSlot::Attention, EffectOp::Stop)] + T::spec_qualified_actions(),
            !(self.hits() == T::spec_required_hits() && hit_effect_complete) ==> final(acts)@ == old(acts)@,
    {
        if self.hits == T::required_hits() && hit_effect_complete {
            acts.push(Action::Effect(EffectSlot::Attention, EffectOp::Stop));
            T::on_qualified(acts);
            assert(final(acts)@ =~= old(acts)@ + seq![Action::Effect(EffectSlot::Attention, EffectOp::Stop)]
                + T::spec_qualified_actions());
        }
    }

    /// A qualifying shot counts one hit.
    pub fn on_event(&mut self, event: &Signal, acts: &mut Vec<Action>)
        requires
            old(self).hits() < 255,
        ensures
            T::spec_is_qualifying_shot(*event) ==> {
                &&& final(self).hits() == old(self).hits() + 1
                &&& final(acts)@ == old(acts)@ + seq![
                    Action::AddPoints(points::EXCL_QUAL_HIT),
                    Action::Effect(EffectSlot::Hit, EffectOp::Reset),
                    Action::Effect(EffectSlot::Hit, EffectOp::Play),
                ] + if final(self).hits() == T::spec_required_hits() {
                    seq![Action::PlaySfx(T::spec_hit_sound())]
                } else {
                    seq![]
                }
            },
            !T::spec_is_qualifying_shot(*event) ==> final(self).hits() == old(self).hits() && final(acts)@
                == old(acts)@,
    {
        if T::is_qualifying_shot(event) {
            self.on_qualifying_hit(acts);
        }
    }
}

/// Hydro Core qualifies with two arc ramp shots and is started at the left scoop.
pub struct HydroCoreQualifier;

impl ExclusiveModeQualifier for HydroCoreQualifier {
    open spec fn spec_required_hits() -> u8 {
        2
    }

    open spec fn spec_hit_sound() -> Sound {
        Sound::HydroCoreOnline
    }

    open spec fn spec_is_qualifying_shot(event: Signal) -> bool {
        event == Signal::ArcRampHit
    }

    open spec fn spec_qualified_actions() -> Seq<Action> {
        seq![Action::MakeStartable(StartVia::LeftScoop, ExclusiveMode::HydroCore, 2500)]
    }

    open spec fn spec_mode() -> ExclusiveMode {
        ExclusiveMode::HydroCore
    }

    fn mode() -> (m: ExclusiveMode) {
        ExclusiveMode::HydroCore
    }

    fn required_hits() -> (r: u8) {
        2
    }

    fn hit_sound() -> (s: Sound) {
        Sound::HydroCoreOnline
    }

    fn is_qualifying_shot(event: &Signal) -> (b: bool) {
        *event == Signal::ArcRampHit
    }

    fn on_qualified(acts: &mut Vec<Action>) {
        acts.push(Action::MakeStartable(StartVia::LeftScoop, ExclusiveMode::HydroCore, 2500));
        assert(final(acts)@ =~= old(acts)@ + Self::spec_qualified_actions());
    }
}

/// Meridian Basins qualifies with two orbit shots and is started at the lift ramp.
pub struct MeridianBasinsQualifier;

impl ExclusiveModeQualifier for MeridianBasinsQualifier {
    open spec fn spec_required_hits() -> u8 {
        2
    }

    open spec fn spec_hit_sound() -> Sound {
        Sound::LaneHit3
    }

    open spec fn spec_is_qualifying_shot(event: Signal) -> bool {
        event == Signal::LeftOrbitHit || event == Signal::CenterOrbitHit || event == Signal::RightOrbitHit
    }

    open spec fn spec_qualified_actions() -> Seq<Action> {
        seq![
            Action::MakeStartable(StartVia::LiftRamp, ExclusiveMode::MeridianBasins, 300),
            Action::DespawnSelf,
        ]
    }

    open spec fn spec_mode() -> ExclusiveMode {
        ExclusiveMode::MeridianBasins
    }

    fn mode() -> (m: ExclusiveMode) {
        ExclusiveMode::MeridianBasins
    }

    fn required_hits() -> (r: u8) {
        2
    }

    fn hit_sound() -> (s: Sound) {
        Sound::LaneHit3
    }

    fn is_qualifying_shot(event: &Signal) -> (b: bool) {
        *event == Signal::LeftOrbitHit || *event == Signal::CenterOrbitHit || *event == Signal::RightOrbitHit
    }

    fn on_qualified(acts: &mut Vec<Action>) {
        acts.push(Action::MakeStartable(StartVia::LiftRamp, ExclusiveMode::MeridianBasins, 300));
        acts.push(Action::DespawnSelf);
        assert(final(acts)@ =~= old(acts)@ + Self::spec_qualified_actions());
    }
}

/// Skyrail Station qualifies with two lift ramp shots and is started at the lift ramp.
pub struct SkyrailStationQualifier;

impl ExclusiveModeQualifier for SkyrailStationQualifier {
    open spec fn spec_required_hits() -> u8 {
        2
    }

    open spec fn spec_hit_sound() -> Sound {
        Sound::LaneHit2
    }

    open spec fn spec_is_qualifying_shot(event: Signal) -> bool {
        event == Signal::LiftRampHit
    }

    open spec fn spec_qualified_actions() -> Seq<Action> {
        seq![
            Action::MakeStartable(StartVia::LiftRamp, ExclusiveMode::SkyrailStation, 300),
            Action::DespawnSelf,
        ]
    }

    open spec fn spec_mode() -> ExclusiveMode {
        ExclusiveMode::SkyrailStation
    }

    fn mode() -> (m: ExclusiveMode) {
        ExclusiveMode::SkyrailStation
    }

    fn required_hits() -> (r: u8) {
        2
    }

    fn hit_sound() -> (s: Sound) {
        Sound::LaneHit2
    }

    fn is_qualifying_shot(event: &Signal) -> (b: bool) {
        *event == Signal::LiftRampHit
    }

    fn on_qualified(acts: &mut Vec<Action>) {
        acts.push(Action::MakeStartable(StartVia::LiftRamp, ExclusiveMode::SkyrailStation, 300));
        acts.push(Action::DespawnSelf);
        assert(final(acts)@ =~= old(acts)@ + Self::spec_qualified_actions());
    }
}

/// Solarium Atrium qualifies with two dome ramp shots and is started at the left scoop.
pub struct SolariumAtriumQualifier;

impl ExclusiveModeQualifier for SolariumAtriumQualifier {
    open spec fn spec_required_hits() -> u8 {
        2
    }

    open spec fn spec_hit_sound() -> Sound {
        Sound::LaneHit3
    }

    open spec fn spec_is_qualifying_shot(event: Signal) -> bool {
        event == Signal::DomeRampHit
    }

    open spec fn spec_qualified_actions() -> Seq<Action> {
        seq![
            Action::MakeStartable(StartVia::LeftScoop, ExclusiveMode::SolariumAtrium, 300),
            Action::DespawnSelf,
        ]
    }

    open spec fn spec_mode() -> ExclusiveMode {
        ExclusiveMode::SolariumAtrium
    }

    fn mode() -> (m: ExclusiveMode) {
        ExclusiveMode::SolariumAtrium
    }

    fn required_hits() -> (r: u8) {
        2
    }

    fn hit_sound() -> (s: Sound) {
        Sound::LaneHit3
    }

    fn is_qualifying_shot(event: &Signal) -> (b: bool) {
        *event == Signal::DomeRampHit
    }

    fn on_qualified(acts: &mut Vec<Action>) {
        acts.push(Action::MakeStartable(StartVia::LeftScoop, ExclusiveMode::SolariumAtrium, 300));
        acts.push(Action::DespawnSelf);
        assert(final(acts)@ =~= old(acts)@ + Self::spec_qualified_actions());
    }
}

/// Spore Multiball qualifies with two hits of the captive ball's target and
/// is then offered at the captive ball.
pub struct SporeMultiballQualifier;

impl ExclusiveModeQualifier for SporeMultiballQualifier {
    open spec fn spec_required_hits() -> u8 {
        2
    }

    open spec fn spec_hit_sound() -> Sound {
        Sound::LaneHit3
    }

    open spec fn spec_is_qualifying_shot(event: Signal) -> bool {
        event matches Signal::Switch(sw) && sw.captive_ball_target
    }

    open spec fn spec_qualified_actions() -> Seq<Action> {
        seq![Action::ReplaceSelf(SystemKind::SporeMultiballStartable)]
    }

    open spec fn spec_mode() -> ExclusiveMode {
        ExclusiveMode::SporeMultiball
    }

    fn mode() -> (m: ExclusiveMode) {
        ExclusiveMode::SporeMultiball
    }

    fn required_hits() -> (r: u8) {
        2
    }

    fn hit_sound() -> (s: Sound) {
        Sound::LaneHit3
    }

    fn is_qualifying_shot(event: &Signal) -> (b: bool) {
        match event {
            Signal::Switch(sw) => sw.captive_ball_target,
            _ => false,
        }
    }

    fn on_qualified(acts: &mut Vec<Action>) {
        acts.push(Action::ReplaceSelf(SystemKind::SporeMultiballStartable));
        assert(final(acts)@ =~= old(acts)@ + Self::spec_qualified_actions());
    }
}

pub type HydroCoreQualification = ExclusiveModeQualification<HydroCoreQualifier>;

pub type MeridianBasinsQualification = ExclusiveModeQualification<MeridianBasinsQualifier>;

pub type SkyrailStationQualification = ExclusiveModeQualification<SkyrailStationQualifier>;

pub type SolariumAtriumQualification = ExclusiveModeQualification<SolariumAtriumQualifier>;

pub type SporeMultiballQualification = ExclusiveModeQualification<SporeMultiballQualifier>;

/// Hydro Core counts exactly the arc ramp shot: two of them qualify it, with the
/// Hydro Core online sound, and it is then offered at the left scoop.
pub proof fn lemma_hydro_core_qualifies_at_arc_ramp(event: Signal)
    ensures
        HydroCoreQualifier::spec_is_qualifying_shot(event) <==> event == Signal::ArcRampHit,
        HydroCoreQualifier::spec_required_hits() == 2,
        HydroCoreQualifier::spec_hit_sound() == Sound::HydroCoreOnline,
        HydroCoreQualifier::spec_qualified_actions() == seq![Action::MakeStartable(StartVia::LeftScoop, ExclusiveMode::HydroCore, 2500)],
{
}

/// Meridian Basins counts exactly the three orbit shots: two of them qualify it,
/// and it is then offered at the lift ramp.
pub proof fn lemma_meridian_basins_qualifies_at_orbits(event: Signal)
    ensures
        MeridianBasinsQualifier::spec_is_qualifying_shot(event) <==> (event == Signal::LeftOrbitHit || event == Signal::CenterOrbitHit || event == Signal::RightOrbitHit),
        MeridianBasinsQualifier::spec_required_hits() == 2,
        MeridianBasinsQualifier::spec_hit_sound() == Sound::LaneHit3,
        MeridianBasinsQualifier::spec_qualified_actions() == seq![Action::MakeStartable(StartVia::LiftRamp, ExclusiveMode::MeridianBasins, 300), Action::DespawnSelf],
{
}

/// Skyrail Station counts exactly the lift ramp shot: two of them qualify it,
/// and it is then offered at the lift ramp.
pub proof fn lemma_skyrail_station_qualifies_at_lift_ramp(event: Signal)
    ensures
        SkyrailStationQualifier::spec_is_qualifying_shot(event) <==> event == Signal::LiftRampHit,
        SkyrailStationQualifier::spec_required_hits() == 2,
        SkyrailStationQualifier::spec_hit_sound() == Sound::LaneHit2,
        SkyrailStationQualifier::spec_qualified_actions() == seq![Action::MakeStartable(StartVia::LiftRamp, ExclusiveMode::SkyrailStation, 300), Action::DespawnSelf],
{
}

/// Solarium Atrium counts exactly the dome ramp shot: two of them qualify it,
/// and it is then offered at the left scoop.
pub proof fn lemma_solarium_atrium_qualifies_at_dome_ramp(event: Signal)
    ensures
        SolariumAtriumQualifier::spec_is_qualifying_shot(event) <==> event == Signal::DomeRampHit,
        SolariumAtriumQualifier::spec_required_hits() == 2,
        SolariumAtriumQualifier::spec_hit_sound() == Sound::LaneHit3,
        SolariumAtriumQualifier::spec_qualified_actions() == seq![Action::MakeStartable(StartVia::LeftScoop, ExclusiveMode::SolariumAtrium, 300), Action::DespawnSelf],
{
}

/// Spore multiball counts exactly a switch event of the captive ball target:
/// two of them qualify it, and its startable system takes over.
pub proof fn lemma_spore_multiball_qualifies_at_captive_ball(event: Signal)
    ensures
        SporeMultiballQualifier::spec_is_qualifying_shot(event) <==> (event is Switch && event->Switch_0.captive_ball_target),
        SporeMultiballQualifier::spec_required_hits() == 2,
        SporeMultiballQualifier::spec_hit_sound() == Sound::LaneHit3,
        SporeMultiballQualifier::spec_qualified_actions() == seq![Action::ReplaceSelf(SystemKind::SporeMultiballStartable)],
{
}

} // verus!
