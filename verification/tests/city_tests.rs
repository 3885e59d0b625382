use neon_blue::effects::{EffectOp, EffectSlot, EffectSpec};
use neon_blue::game::city_coverage::city_manager::CityManager;
use neon_blue::game::city_coverage::city_shot::CityShot;
use neon_blue::game::city_coverage::coverage_qualification::{
    CityCoverageQualification1, CityCoverageQualification2, CityCoverageQualification3,
};
use neon_blue::game::city_coverage::regions::{CityRegion, CityRegions, HydroCore, MeridianBasins};
use neon_blue::game::spores::{most_depleted_index, PinkSpore, SporeNode};
use neon_blue::signals::{Action, CueTiming, LedTarget, MapRegion, MusicTrack, NamedColor, Scoop, Signal, Sound, SystemKind, Timer};

#[test]
fn ordered_only_keeps_playfield_order() {
    assert_eq!(
        CityShot::ordered_only(vec![CityShot::RightOrbit, CityShot::LeftOrbit, CityShot::LeftOrbit]),
        vec![CityShot::LeftOrbit, CityShot::RightOrbit]
    );
    assert_eq!(CityShot::ordered_only(vec![]), Vec::<CityShot>::new());
    let all = CityShot::ordered();
    assert_eq!(CityShot::ordered_only(all.clone()), all);
    let once = CityShot::ordered_only(vec![CityShot::LiftRamp, CityShot::ArcRamp]);
    assert_eq!(CityShot::ordered_only(once.clone()), once);
}

#[test]
fn regions_start_uncovered() {
    let m = MeridianBasins::new();
    assert_eq!(
        m.shot_amounts(),
        vec![(CityShot::LeftOrbit, 0), (CityShot::CenterOrbit, 0), (CityShot::RightOrbit, 0)]
    );
    assert!(!m.is_started());
    assert!(!m.is_complete());
    let mut h = HydroCore::new();
    h.apply_biospore(CityShot::LeftRamp, 6);
    // spreading works on a copy: the region keeps its coverage
    assert_eq!(h.shot_amounts(), vec![(CityShot::LeftRamp, 0), (CityShot::ArcRamp, 0), (CityShot::LiftRamp, 0)]);
    assert!(!h.is_started());
}

#[test]
fn city_manager_activates_and_draws_region() {
    let mut city = CityManager::new();
    assert_eq!(city.shot_amounts(), None);
    let mut acts = Vec::new();
    city.on_spawn(&mut acts);
    assert_eq!(
        acts,
        vec![Action::Spawn(SystemKind::CityCoverageQualification2 {
            left_orbit_hit: false,
            center_orbit_hit: false,
            right_orbit_hit: false,
        })]
    );
    let mut acts = Vec::new();
    city.activate_region(CityRegions::MeridianBasins, false, &mut acts);
    assert_eq!(acts, vec![Action::Spawn(SystemKind::PinkSpore)]);
    assert_eq!(city.active_region(), Some(CityRegions::MeridianBasins));
    assert_eq!(
        city.shot_amounts(),
        Some(vec![(CityShot::LeftOrbit, 0), (CityShot::CenterOrbit, 0), (CityShot::RightOrbit, 0)])
    );
    let mut acts = Vec::new();
    city.apply_biospore(CityShot::LeftOrbit, 6, &mut acts);
    assert!(acts.is_empty());
    city.on_tick(&mut acts);
    assert_eq!(
        acts,
        vec![Action::Effect(
            EffectSlot::ActiveRegion,
            EffectOp::Replace(EffectSpec::RegionBreathe(MapRegion::MeridianBasins))
        )]
    );
    let mut acts = Vec::new();
    city.on_tick(&mut acts);
    assert!(acts.is_empty());
    city.on_event(&Signal::SporeShot(CityShot::LeftOrbit));
    city.on_tick(&mut acts);
    assert_eq!(acts.len(), 1);
    let mut acts = Vec::new();
    city.activate_region(CityRegions::HydroCore, true, &mut acts);
    assert!(acts.is_empty());
    city.on_tick(&mut acts);
    assert_eq!(
        acts,
        vec![Action::Effect(
            EffectSlot::ActiveRegion,
            EffectOp::Replace(EffectSpec::RegionBreathe(MapRegion::HydroCore))
        )]
    );
    let mut acts = Vec::new();
    city.on_reactivate(&mut acts);
    assert_eq!(acts, vec![Action::PlayMusicNow(MusicTrack::Default)]);
}

#[test]
fn pink_spore_without_region_only_announces() {
    let mut city = CityManager::new();
    let mut spore = PinkSpore::new();
    let mut acts = Vec::new();
    spore.handle_event(&Signal::CenterOrbitHit, &mut city, &mut acts);
    assert_eq!(acts, vec![Action::EmitSporeShot(CityShot::CenterOrbit)]);
    let mut acts = Vec::new();
    spore.handle_event(&Signal::ArcRampHit, &mut city, &mut acts);
    assert!(acts.is_empty());
    spore.on_tick(16, &mut city, &mut acts);
    assert!(acts.is_empty());
}

#[test]
fn most_depleted_node_is_least_time_left_first_on_tie() {
    let nodes = vec![
        SporeNode::Locked,
        SporeNode::Decaying(30_000),
        SporeNode::Decaying(1_000),
        SporeNode::Decaying(1_000),
        SporeNode::Locked,
        SporeNode::Decaying(45_000),
    ];
    assert_eq!(most_depleted_index(&nodes), Some(2));
    let nodes = vec![SporeNode::Decaying(500), SporeNode::Decaying(0), SporeNode::Decaying(10)];
    assert_eq!(most_depleted_index(&nodes), Some(1));
    assert_eq!(most_depleted_index(&vec![SporeNode::Locked, SporeNode::Locked]), None);
    assert_eq!(most_depleted_index(&vec![]), None);
}

#[test]
fn first_coverage_qualification_passes_orbit_on() {
    let q = CityCoverageQualification1::new();
    let mut acts = Vec::new();
    q.on_spawn(&mut acts);
    assert_eq!(
        acts,
        vec![
            Action::DeclareLeds(LedTarget::LeftOrbitHexCenter, NamedColor::White),
            Action::DeclareLeds(LedTarget::CenterOrbitHexCenter, NamedColor::White),
            Action::DeclareLeds(LedTarget::RightOrbitHexCenter, NamedColor::White),
        ]
    );
    let mut acts = Vec::new();
    q.on_event(&Signal::CenterOrbitHit, &mut acts);
    assert_eq!(
        acts,
        vec![
            Action::PlaySfx(Sound::RandomLaneHit),
            Action::AddPoints(10_000),
            Action::ReplaceSelf(SystemKind::CityCoverageQualification2 {
                left_orbit_hit: false,
                center_orbit_hit: true,
                right_orbit_hit: false,
            }),
        ]
    );
    let mut acts = Vec::new();
    q.on_event(&Signal::ArcRampHit, &mut acts);
    assert!(acts.is_empty());
}

#[test]
fn second_coverage_qualification_needs_all_orbits() {
    let mut q = CityCoverageQualification2::new(true, false, false);
    let mut acts = Vec::new();
    q.on_spawn(&mut acts);
    assert_eq!(acts.len(), 3);
    assert_eq!(acts[0], Action::Effect(EffectSlot::CenterOrbitLane, EffectOp::Replace(EffectSpec::OrbitLaneChase)));
    assert_eq!(acts[1], Action::Effect(EffectSlot::RightOrbitLane, EffectOp::Replace(EffectSpec::OrbitLaneChase)));
    assert!(matches!(acts[2], Action::Effect(EffectSlot::ShotHit, EffectOp::Replace(EffectSpec::CircleShuffle(_)))));
    let mut acts = Vec::new();
    q.on_event(&Signal::LeftOrbitHit, &mut acts);
    assert!(acts.is_empty());
    q.on_event(&Signal::CenterOrbitHit, &mut acts);
    assert_eq!(
        acts,
        vec![
            Action::Effect(EffectSlot::ShotHit, EffectOp::Play),
            Action::PlaySfx(Sound::RandomLaneHit),
            Action::AddPoints(10_000),
            Action::Effect(EffectSlot::CenterOrbitLane, EffectOp::Stop),
        ]
    );
    let mut acts = Vec::new();
    q.on_tick(true, &mut acts);
    assert!(acts.is_empty());
    q.on_event(&Signal::RightOrbitHit, &mut acts);
    let mut acts = Vec::new();
    q.on_tick(false, &mut acts);
    assert!(acts.is_empty());
    q.on_tick(true, &mut acts);
    assert_eq!(acts, vec![Action::AddPoints(20_000), Action::ReplaceSelf(SystemKind::CityCoverageQualification3)]);
}

#[test]
fn third_coverage_qualification_completes_at_a_scoop() {
    let mut q = CityCoverageQualification3::new();
    let mut acts = Vec::new();
    q.on_spawn(&mut acts);
    assert_eq!(
        acts,
        vec![
            Action::Effect(EffectSlot::LiftRampBolt, EffectOp::Replace(EffectSpec::HurryUpBoltFlash)),
            Action::Effect(EffectSlot::LowerScoopBolts, EffectOp::Replace(EffectSpec::HurryUpBoltFlash)),
            Action::LowerScoopModeStart,
            Action::LiftRampUp,
            Action::Cue(Timer::LiftRampHurryUpDone, CueTiming::Once(25_000)),
        ]
    );
    let mut acts = Vec::new();
    q.on_event(&Signal::ScoopBallEntered(Scoop::LiftRamp), &mut acts);
    assert_eq!(
        acts,
        vec![
            Action::LiftRampDown,
            Action::PlaySfx(Sound::LaneHitComplete),
            Action::AddPoints(50_000),
            Action::Effect(EffectSlot::LiftRampBolt, EffectOp::Stop),
            Action::Effect(EffectSlot::LowerScoopBolts, EffectOp::Stop),
            Action::LowerScoopAutoEject,
        ]
    );
    let mut q = CityCoverageQualification3::new();
    let mut acts = Vec::new();
    q.on_event(&Signal::Timer(Timer::LiftRampHurryUpDone), &mut acts);
    assert_eq!(acts, vec![Action::LiftRampDown, Action::Effect(EffectSlot::LiftRampBolt, EffectOp::Stop)]);
    let mut acts = Vec::new();
    q.on_event(&Signal::ScoopBallEntered(Scoop::LowerScoop), &mut acts);
    assert_eq!(
        acts,
        vec![
            Action::PlaySfx(Sound::LaneHitComplete),
            Action::AddPoints(50_000),
            Action::Effect(EffectSlot::LowerScoopBolts, EffectOp::Stop),
            Action::LowerScoopAutoEject,
        ]
    );
}

#[test]
fn pink_spore_spreads_on_a_fresh_spore() {
    let mut spore = PinkSpore::new();
    let current = vec![(CityShot::LeftOrbit, 0), (CityShot::CenterOrbit, 0), (CityShot::RightOrbit, 0)];
    let r = spore.apply(CityShot::LeftOrbit, &current);
    assert_eq!(r, vec![(CityShot::LeftOrbit, 2), (CityShot::RightOrbit, 1), (CityShot::CenterOrbit, 1)]);
    let single = vec![(CityShot::ArcRamp, 0)];
    assert_eq!(spore.apply(CityShot::ArcRamp, &single), vec![(CityShot::ArcRamp, 2)]);
}

#[test]
fn pink_spore_extra_hits_decay() {
    let mut city = CityManager::new();
    let mut acts = Vec::new();
    city.activate_region(CityRegions::MeridianBasins, true, &mut acts);
    let mut spore = PinkSpore::new();
    let mut acts = Vec::new();
    spore.handle_event(&Signal::LeftOrbitHit, &mut city, &mut acts);
    assert_eq!(acts, vec![Action::EmitSporeShot(CityShot::LeftOrbit)]);
    // the region keeps its own coverage
    assert_eq!(
        city.shot_amounts(),
        Some(vec![(CityShot::LeftOrbit, 0), (CityShot::CenterOrbit, 0), (CityShot::RightOrbit, 0)])
    );
    let mut acts = Vec::new();
    spore.on_tick(1_000, &mut city, &mut acts);
    assert_eq!(
        acts,
        vec![
            Action::DeclareLeds(LedTarget::SporeNode(CityShot::LeftOrbit, 0), NamedColor::Magenta),
            Action::DeclareFadingSporeNode(CityShot::LeftOrbit, 1, 44_000),
            Action::DeclareFadingSporeNode(CityShot::RightOrbit, 0, 44_000),
            Action::DeclareFadingSporeNode(CityShot::CenterOrbit, 0, 44_000),
        ]
    );
    let mut acts = Vec::new();
    spore.on_tick(44_000, &mut city, &mut acts);
    assert_eq!(
        acts,
        vec![
            Action::DeclareLeds(LedTarget::SporeNode(CityShot::LeftOrbit, 0), NamedColor::Magenta),
            Action::UndeclareLeds(LedTarget::SporeNode(CityShot::LeftOrbit, 1)),
            Action::UndeclareLeds(LedTarget::SporeNode(CityShot::RightOrbit, 0)),
            Action::UndeclareLeds(LedTarget::SporeNode(CityShot::CenterOrbit, 0)),
        ]
    );
    // the locked node stays lit; the decayed extra hits are released
    assert_eq!(city.active_region(), Some(CityRegions::MeridianBasins));
}

#[test]
fn spreading_keeps_region_coverage() {
    let mut city = CityManager::new();
    let mut acts = Vec::new();
    city.activate_region(CityRegions::HydroCore, true, &mut acts);
    city.apply_biospore(CityShot::LeftRamp, 6, &mut acts);
    city.apply_biospore(CityShot::ArcRamp, 6, &mut acts);
    city.apply_biospore(CityShot::LiftRamp, 6, &mut acts);
    assert!(acts.is_empty());
    assert_eq!(city.active_region(), Some(CityRegions::HydroCore));
    assert_eq!(
        city.shot_amounts(),
        Some(vec![(CityShot::LeftRamp, 0), (CityShot::ArcRamp, 0), (CityShot::LiftRamp, 0)])
    );
}
