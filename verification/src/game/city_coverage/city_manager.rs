use vstd::prelude::*;
use crate::effects::{EffectOp, EffectSlot, EffectSpec};
use crate::game::city_coverage::city_shot::CityShot;
use crate::game::city_coverage::regions::{CityRegion, CityRegions, HydroCore, MeridianBasins, completed, started};
use crate::signals::{Action, MapRegion, MusicTrack, NamedColor, Signal, SystemKind};

verus! {

/// Points for covering a whole region.
pub const REGION_COMPLETE_PTS: u32 = 100_000;

/// Tracks which city region the spores cover, lights the city map and
/// rewards a covered region.
pub struct CityManager {
    active_region: Option<CityRegions>,
    region_effect: Option<MapRegion>,
    refresh_map: bool,
    meridian_basins: MeridianBasins,
    hydro_core: HydroCore,
}

pub struct CityManagerView {
    pub active_region: Option<CityRegions>,
    /// The region whose breathing program the manager holds, if any.
    pub region_effect: Option<MapRegion>,
    pub refresh_map: bool,
    pub meridian_amounts: Seq<(CityShot, u64)>,
    pub hydro_amounts: Seq<(CityShot, u64)>,
}

impl View for CityManager {
    type V = CityManagerView;

    closed spec fn view(&self) -> CityManagerView {
        CityManagerView {
            active_region: self.active_region,
            region_effect: self.region_effect,
            refresh_map: self.refresh_map,
            meridian_amounts: self.meridian_basins.spec_amounts(),
            hydro_amounts: self.hydro_core.spec_amounts(),
        }
    }
}

/// The coverage of the active region, for the regions that hold coverage.
pub open spec fn active_amounts(v: CityManagerView) -> Option<Seq<(CityShot, u64)>> {
    match v.active_region {
        Some(CityRegions::MeridianBasins) => Some(v.meridian_amounts),
        Some(CityRegions::HydroCore) => Some(v.hydro_amounts),
        _ => None,
    }
}

/// How one region shows on the city map: breathing while active, green once
/// covered, yellow once started.
pub open spec fn region_map_actions(
    active: Option<CityRegions>,
    region: CityRegions,
    map: MapRegion,
    amounts: Seq<(CityShot, u64)>,
) -> Seq<Action> {
    if active == Some(region) {
        seq![Action::Effect(EffectSlot::ActiveRegion, EffectOp::Replace(EffectSpec::RegionBreathe(map)))]
    } else if completed(amounts) {
        seq![Action::DeclareMapRegion(map, NamedColor::Green)]
    } else if started(amounts) {
        seq![Action::DeclareMapRegion(map, NamedColor::Yellow)]
    } else {
        seq![]
    }
}

pub open spec fn city_map_actions(v: CityManagerView) -> Seq<Action> {
    (if v.active_region.is_none() && v.region_effect.is_some() {
        seq![Action::Effect(EffectSlot::ActiveRegion, EffectOp::Stop)]
    } else {
        seq![]
    }) + region_map_actions(v.active_region, CityRegions::MeridianBasins, MapRegion::MeridianBasins, v.meridian_amounts)
        + region_map_actions(v.active_region, CityRegions::HydroCore, MapRegion::HydroCore, v.hydro_amounts)
}

/// The breathing program follows the active region.
pub open spec fn city_map_state(v: CityManagerView) -> CityManagerView {
    if v.active_region == Some(CityRegions::MeridianBasins) {
        CityManagerView { region_effect: Some(MapRegion::MeridianBasins), ..v }
    } else if v.active_region == Some(CityRegions::HydroCore) {
        CityManagerView { region_effect: Some(MapRegion::HydroCore), ..v }
    } else {
        v
    }
}

/// A completed region pays out and hands the playfield back to the first
/// coverage qualification.
pub open spec fn region_completed_state(v: CityManagerView) -> CityManagerView {
    CityManagerView { active_region: None, refresh_map: true, ..v }
}

pub open spec fn region_completed_actions() -> Seq<Action> {
    seq![Action::AddPoints(REGION_COMPLETE_PTS), Action::Spawn(SystemKind::CityCoverageQualification1)]
}

/// Whether spreading spore on the active region finds it covered.
pub open spec fn region_found_complete(v: CityManagerView) -> bool {
    match active_amounts(v) {
        Some(a) => completed(a),
        None => false,
    }
}

/// The manager after spore was spread on its active region. Spreading leaves
/// a region's coverage as it was, so only a region already covered changes
/// anything.
pub open spec fn biospore_state(v: CityManagerView) -> CityManagerView {
    if region_found_complete(v) {
        region_completed_state(v)
    } else {
        v
    }
}

pub open spec fn biospore_actions(v: CityManagerView) -> Seq<Action> {
    if region_found_complete(v) {
        region_completed_actions()
    } else {
        seq![]
    }
}

/// Both tier-one regions have shots; every manager has them.
pub open spec fn regions_have_shots(v: CityManagerView) -> bool {
    v.meridian_amounts.len() > 0 && v.hydro_amounts.len() > 0
}

/// Spreading spore pays out a covered region once: after it the manager has
/// no active region, so spreading again changes nothing.
pub proof fn lemma_biospore_settles(v: CityManagerView)
    ensures
        biospore_state(biospore_state(v)) == biospore_state(v),
        biospore_actions(biospore_state(v)) == Seq::<Action>::empty(),
{
}

impl CityManager {
    /// No active region, both tier-one regions uncovered.
    pub fn new() -> (m: Self)
        ensures
            m@.active_region.is_none(),
            m@.region_effect.is_none(),
            !m@.refresh_map,
            m@.meridian_amounts == seq![(CityShot::LeftOrbit, 0u64), (CityShot::CenterOrbit, 0u64), (CityShot::RightOrbit, 0u64)],
            m@.hydro_amounts == seq![(CityShot::LeftRamp, 0u64), (CityShot::ArcRamp, 0u64), (CityShot::LiftRamp, 0u64)],
    {
        CityManager {
            active_region: None,
            region_effect: None,
            refresh_map: false,
            meridian_basins: MeridianBasins::new(),
            hydro_core: HydroCore::new(),
        }
    }

    pub fn active_region(&self) -> (r: Option<CityRegions>)
        ensures
            r == self@.active_region,
    {
        self.active_region
    }

    /// Enters `region`; the spore that covers it is brought in when there is none yet.
    pub fn activate_region(&mut self, region: CityRegions, spore_exists: bool, acts: &mut Vec<Action>)
        ensures
            final(self)@ == (CityManagerView { active_region: Some(region), refresh_map: true, ..old(self)@ }),
            final(acts)@ == old(acts)@ + if spore_exists { seq![] } else { seq![Action::Spawn(SystemKind::PinkSpore)] },
    {
        self.active_region = Some(region);
        self.refresh_map = true;
        if !spore_exists {
            acts.push(Action::Spawn(SystemKind::PinkSpore));
        }
        assert(final(acts)@ =~= old(acts)@ + if spore_exists { seq![] } else { seq![Action::Spawn(SystemKind::PinkSpore)] });
    }

    /// The coverage of the active region's shots.
    pub fn shot_amounts(&self) -> (r: Option<Vec<(CityShot, u64)>>)
        ensures
            match active_amounts(self@) {
                Some(a) => r.is_some() && r.unwrap()@ == a,
                None => r.is_none(),
            },
    {
        match self.active_region {
            Some(CityRegions::MeridianBasins) => Some(self.meridian_basins.shot_amounts()),
            Some(CityRegions::HydroCore) => Some(self.hydro_core.shot_amounts()),
            _ => None,
        }
    }

    /// Spreads spore on `shot` of the active region; the region keeps its
    /// coverage (see `CityRegion::apply_biospore`), and a region found
    /// covered pays out and stops being active.
    pub fn apply_biospore(&mut self, shot: CityShot, amount: u64, acts: &mut Vec<Action>)
        ensures
            final(self)@.meridian_amounts == old(self)@.meridian_amounts,
            final(self)@.hydro_amounts == old(self)@.hydro_amounts,
            final(self)@ == biospore_state(old(self)@),
            final(acts)@ == old(acts)@ + biospore_actions(old(self)@),
    {
        let complete = match self.active_region {
            Some(CityRegions::MeridianBasins) => {
                self.meridian_basins.apply_biospore(shot, amount);
                Some(self.meridian_basins.is_complete())
            },
            Some(CityRegions::HydroCore) => {
                self.hydro_core.apply_biospore(shot, amount);
                Some(self.hydro_core.is_complete())
            },
            _ => None,
        };
        if complete == Some(true) {
            acts.push(Action::AddPoints(REGION_COMPLETE_PTS));
            self.active_region = None;
            self.refresh_map = true;
            acts.push(Action::Spawn(SystemKind::CityCoverageQualification1));
            assert(final(acts)@ =~= old(acts)@ + region_completed_actions());
        }
    }

    fn render_map(&mut self, acts: &mut Vec<Action>)
        ensures
            final(self)@ == city_map_state(old(self)@),
            final(acts)@ == old(acts)@ + city_map_actions(old(self)@),
    {
        let ghost v = self@;
        if self.active_region.is_none() && self.region_effect.is_some() {
            acts.push(Action::Effect(EffectSlot::ActiveRegion, EffectOp::Stop));
        }
        let ghost after_stop = acts@;
        if self.active_region == Some(CityRegions::MeridianBasins) {
            self.region_effect = Some(MapRegion::MeridianBasins);
            acts.push(Action::Effect(EffectSlot::ActiveRegion, EffectOp::Replace(EffectSpec::RegionBreathe(MapRegion::MeridianBasins))));
        } else if self.meridian_basins.is_complete() {
            acts.push(Action::DeclareMapRegion(MapRegion::MeridianBasins, NamedColor::Green));
        } else if self.meridian_basins.is_started() {
            acts.push(Action::DeclareMapRegion(MapRegion::MeridianBasins, NamedColor::Yellow));
        }
        assert(acts@ =~= after_stop + region_map_actions(v.active_region, CityRegions::MeridianBasins, MapRegion::MeridianBasins, v.meridian_amounts));
        let ghost after_meridian = acts@;
        if self.active_region == Some(CityRegions::HydroCore) {
            self.region_effect = Some(MapRegion::HydroCore);
            acts.push(Action::Effect(EffectSlot::ActiveRegion, EffectOp::Replace(EffectSpec::RegionBreathe(MapRegion::HydroCore))));
        } else if self.hydro_core.is_complete() {
            acts.push(Action::DeclareMapRegion(MapRegion::HydroCore, NamedColor::Green));
        } else if self.hydro_core.is_started() {
            acts.push(Action::DeclareMapRegion(MapRegion::HydroCore, NamedColor::Yellow));
        }
        assert(acts@ =~= after_meridian + region_map_actions(v.active_region, CityRegions::HydroCore, MapRegion::HydroCore, v.hydro_amounts));
        assert(final(acts)@ =~= old(acts)@ + city_map_actions(v));
    }

    /// Starts the machine's default track again when the manager comes back.
    pub fn on_reactivate(&self, acts: &mut Vec<Action>)
        ensures
            final(acts)@ == old(acts)@.push(Action::PlayMusicNow(MusicTrack::Default)),
    {
        acts.push(Action::PlayMusicNow(MusicTrack::Default));
    }

    /// Brought in with the game: the second coverage qualification starts
    /// with no orbit hit yet.
    pub fn on_spawn(&self, acts: &mut Vec<Action>)
        ensures
            final(acts)@ == old(acts)@.push(
                Action::Spawn(
                    SystemKind::CityCoverageQualification2 {
                        left_orbit_hit: false,
                        center_orbit_hit: false,
                        right_orbit_hit: false,
                    },
                ),
            ),
    {
        acts.push(
            Action::Spawn(
                SystemKind::CityCoverageQualification2 {
                    left_orbit_hit: false,
                    center_orbit_hit: false,
                    right_orbit_hit: false,
                },
            ),
        );
    }

    /// Redraws the city map when something changed since the last tick.
    pub fn on_tick(&mut self, acts: &mut Vec<Action>)
        ensures
            old(self)@.refresh_map ==> {
                &&& final(self)@ == (CityManagerView { refresh_map: false, ..city_map_state(old(self)@) })
                &&& final(acts)@ == old(acts)@ + city_map_actions(old(self)@)
            },
            !old(self)@.refresh_map ==> final(self)@ == old(self)@ && final(acts)@ == old(acts)@,
    {
        if self.refresh_map {
            self.render_map(acts);
            self.refresh_map = false;
        }
    }

    /// A spore shot changes coverage, so the map is redrawn.
    pub fn on_event(&mut self, event: &Signal)
        ensures
            (*event is SporeShot) ==> final(self)@ == (CityManagerView { refresh_map: true, ..old(self)@ }),
            !(*event is SporeShot) ==> final(self)@ == old(self)@,
    {
        if let Signal::SporeShot(_) = event {
            self.refresh_map = true;
        }
    }
}

} // verus!
