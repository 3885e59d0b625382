use neon_blue::effects::{EffectOp, EffectSlot, EffectSpec, HexTarget};
use neon_blue::game::exclusive_mode::ExclusiveMode;
use neon_blue::game::exclusive_mode_manager::ExclusiveModeManager;
use neon_blue::game::hydro_core_system::HydroCoreSystem;
use neon_blue::game::left_scoop_startable::LeftScoopStartable;
use neon_blue::game::mode_manager::ModeManager;
#[test]
fn hydro_core_combo_points_score_once_per_shot() {
    let mut mode = HydroCoreMode::new();
    let mut modes = ModeManager::new();
    let mut scoop = LeftScoopStartable::new();
    let mut acts = Vec::new();
    mode.on_spawn(&mut acts);
    let mut acts = Vec::new();
    mode.on_event(&Signal::LiftRampHit, &mut modes, &mut scoop, &mut acts);
    assert!(acts.contains(&Action::AddPoints(300_000)));
    let mut acts = Vec::new();
    mode.on_event(&Signal::Timer(Timer::ComboTimeUp), &mut modes, &mut scoop, &mut acts);
    // after the restart the first shot is made again: no combo points
    let mut acts = Vec::new();
    mode.on_event(&Signal::LiftRampHit, &mut modes, &mut scoop, &mut acts);
    assert!(!acts.iter().any(|a| matches!(a, Action::AddPoints(..))));
    // the second shot has not scored yet
    let mut acts = Vec::new();
    mode.on_event(&Signal::ArcRampHit, &mut modes, &mut scoop, &mut acts);
    assert!(acts.contains(&Action::AddPoints(450_000)));
}

use neon_blue::game::qualification::{HydroCoreQualifier, ExclusiveModeQualification};
use neon_blue::signals::{Action, CueTiming, MusicTrack, NamedColor, Signal, Sound, StartVia, SystemKind, Timer};

#[test]
fn hydro_core_qualifies_with_two_arc_ramps() {
    let mut q: ExclusiveModeQualification<HydroCoreQualifier> = ExclusiveModeQualification::new();
    let mut acts = Vec::new();
    q.on_event(&Signal::ArcRampHit, &mut acts);
    assert_eq!(
        acts,
        vec![
            Action::AddPoints(50_250),
            Action::Effect(EffectSlot::Hit, EffectOp::Reset),
            Action::Effect(EffectSlot::Hit, EffectOp::Play),
        ]
    );
    let mut acts = Vec::new();
    q.on_tick(true, &mut acts);
    assert!(acts.is_empty());
    q.on_event(&Signal::LiftRampHit, &mut acts);
    assert!(acts.is_empty());
    q.on_event(&Signal::ArcRampHit, &mut acts);
    assert_eq!(acts.last(), Some(&Action::PlaySfx(Sound::HydroCoreOnline)));
    let mut acts = Vec::new();
    q.on_tick(false, &mut acts);
    assert!(acts.is_empty());
    q.on_tick(true, &mut acts);
    assert_eq!(
        acts,
        vec![
            Action::Effect(EffectSlot::Attention, EffectOp::Stop),
            Action::MakeStartable(StartVia::LeftScoop, ExclusiveMode::HydroCore, 2500),
        ]
    );
    assert!(q.is_active(&None));
    assert!(!q.is_active(&Some(ExclusiveMode::Wizard)));
}

#[test]
fn left_scoop_starts_modes_in_order_they_qualified() {
    let mut scoop = LeftScoopStartable::new();
    let mut modes = ModeManager::new();
    let mut acts = Vec::new();
    scoop.make_startable(ExclusiveMode::HydroCore, 2500, &mut acts);
    assert_eq!(
        acts,
        vec![
            Action::Effect(EffectSlot::Hit, EffectOp::Replace(EffectSpec::StartableHit(ExclusiveMode::HydroCore))),
            Action::Effect(
                EffectSlot::Attention,
                EffectOp::Replace(EffectSpec::StartableAttention(ExclusiveMode::HydroCore))
            ),
            Action::Cue(Timer::BecomeStartable, CueTiming::Once(2500)),
        ]
    );
    let mut acts = Vec::new();
    scoop.make_startable(ExclusiveMode::SolariumAtrium, 0, &mut acts);
    assert!(acts.is_empty());
    // a ball before the delay passed starts nothing
    scoop.on_event(&Signal::LowerScoopBallEnter, &mut modes, &mut acts);
    assert!(acts.is_empty());
    scoop.on_event(&Signal::Timer(Timer::BecomeStartable), &mut modes, &mut acts);
    assert!(acts.is_empty());
    scoop.on_event(&Signal::LowerScoopBallEnter, &mut modes, &mut acts);
    assert_eq!(
        acts,
        vec![
            Action::PlayMusic(MusicTrack::HydroCore, 750),
            Action::EmitExclusiveModeStarted(ExclusiveMode::HydroCore),
            Action::Effect(EffectSlot::Hit, EffectOp::Play),
            Action::PlaySfx(Sound::HydroCoreOnline),
            Action::AddPoints(350_000),
        ]
    );
    let mut acts = Vec::new();
    scoop.on_tick(false, &mut acts);
    assert!(acts.is_empty());
    scoop.on_tick(true, &mut acts);
    assert_eq!(
        acts,
        vec![
            Action::Effect(EffectSlot::Attention, EffectOp::Stop),
            Action::Effect(EffectSlot::Hit, EffectOp::Stop),
            Action::Spawn(SystemKind::HydroCoreMode),
        ]
    );
    // the second mode is on offer now, but Hydro Core holds the playfield
    let mut acts = Vec::new();
    scoop.on_event(&Signal::LowerScoopBallEnter, &mut modes, &mut acts);
    assert!(acts.is_empty());
    modes.release_exclusive(&ExclusiveMode::HydroCore, &mut acts);
    let mut acts = Vec::new();
    scoop.on_event(&Signal::LowerScoopBallEnter, &mut modes, &mut acts);
    assert!(acts.contains(&Action::EmitExclusiveModeStarted(ExclusiveMode::SolariumAtrium)));
    assert!(acts.contains(&Action::PlaySfx(Sound::ArpHit1)));
}

#[test]
fn hydro_core_system_qualification_hits_score_but_do_not_add_up() {
    let mut hc = HydroCoreSystem::new();
    let mut manager = ExclusiveModeManager::new();
    assert!(hc.is_active(manager.current_mode()));
    for _ in 0..3 {
        let mut acts = Vec::new();
        hc.on_event(&Signal::ArcRampHit, &mut manager, &mut acts);
        // each arc ramp scores; the count it reaches is not kept, so the
        // scoop never lights
        assert_eq!(acts, vec![Action::AddPoints(5_000)]);
    }
    let mut acts = Vec::new();
    hc.on_event(&Signal::LowerScoopBallEnter, &mut manager, &mut acts);
    assert!(acts.is_empty());
    assert_eq!(*manager.current_mode(), None);
    hc.on_event(&Signal::Timer(Timer::ComboTimeUp), &mut manager, &mut acts);
    assert_eq!(
        acts,
        vec![
            Action::Cue(Timer::ComboTimeUp, CueTiming::Once(20_000)),
            Action::Effect(EffectSlot::Attention, EffectOp::Stop),
            Action::Effect(EffectSlot::Attention, EffectOp::Replace(EffectSpec::ComboHex(HexTarget::LiftRamp))),
        ]
    );
    // the timer put the combo at its first shot: the lift ramp now scores
    let mut acts = Vec::new();
    hc.on_event(&Signal::LiftRampHit, &mut manager, &mut acts);
    assert_eq!(acts[0], Action::AddPoints(5_000));
    let mut acts = Vec::new();
    hc.on_event(&Signal::Timer(Timer::ComboTimeUp), &mut manager, &mut acts);
    let mut acts = Vec::new();
    hc.on_event(&Signal::LiftRampHit, &mut manager, &mut acts);
    // made once already: no points the second time
    assert!(!acts.iter().any(|a| matches!(a, Action::AddPoints(_))));
    let mut acts = Vec::new();
    hc.on_event(&Signal::ArcRampHit, &mut manager, &mut acts);
    assert!(acts.contains(&Action::AddPoints(10_000)));
}

use neon_blue::effects::FlasherPattern;
use neon_blue::game::apex_terraces::ApexTerracesMode;
use neon_blue::game::spore_multiball::SporeMultiballMode;
use neon_blue::signals::{MapRegion, PopBumper, SwitchClosed};

fn switch() -> SwitchClosed {
    SwitchClosed {
        pop: None,
        pop_target: None,
        drop_target: None,
        lower_sling_target: false,
        captive_ball_target: false,
        left_pop_spoon: false,
        left_flipper: false,
        right_flipper: false,
        playfield: true,
        slingshot: false,
        does_not_cancel_skillshot: false,
        right_pass_lane: false,
    }
}

fn pop_target(p: PopBumper) -> Signal {
    let mut sw = switch();
    sw.pop_target = Some(p);
    Signal::Switch(sw)
}

fn sling_target() -> Signal {
    let mut sw = switch();
    sw.lower_sling_target = true;
    Signal::Switch(sw)
}

#[test]
fn every_fifth_jackpot_lights_super_jackpot() {
    let mut mode = SporeMultiballMode::new();
    let mut modes = ModeManager::new();
    let mut acts = Vec::new();
    mode.on_spawn(&mut acts);
    assert_eq!(acts, vec![Action::MultiballAddBalls(2)]);
    for _ in 0..4 {
        let mut acts = Vec::new();
        mode.on_event(&Signal::LeftOrbitHit, &mut modes, &mut acts);
        assert_eq!(
            acts,
            vec![
                Action::Effect(EffectSlot::Hit, EffectOp::Reset),
                Action::Effect(EffectSlot::Hit, EffectOp::Play),
                Action::AddPoints(5_000_000),
                Action::PlaySfx(Sound::RandomLaneHit),
            ]
        );
    }
    let mut acts = Vec::new();
    mode.on_event(&Signal::DomeRampHit, &mut modes, &mut acts);
    assert_eq!(
        &acts[4..],
        &[
            Action::Cue(Timer::SuperJackpotOver, CueTiming::Once(20_000)),
            Action::Effect(EffectSlot::SuperJackpotAttention, EffectOp::Play),
        ]
    );
    mode.record_cue(Timer::SuperJackpotOver, 11);
    let mut acts = Vec::new();
    mode.on_event(&Signal::CaptiveBallHit, &mut modes, &mut acts);
    assert_eq!(
        acts,
        vec![
            Action::AddPoints(25_000_000),
            Action::PlaySfx(Sound::ArpHit1),
            Action::Effect(EffectSlot::SuperJackpotHit, EffectOp::Reset),
            Action::Effect(EffectSlot::SuperJackpotHit, EffectOp::Play),
            Action::Effect(EffectSlot::SuperJackpotAttention, EffectOp::Stop),
        ]
    );
    // unlit, the captive ball pays nothing
    let mut acts = Vec::new();
    mode.on_event(&Signal::CaptiveBallHit, &mut modes, &mut acts);
    assert!(acts.is_empty());
}

#[test]
fn apex_targets_light_jackpot_paid_by_hits() {
    let mut apex = ApexTerracesMode::new();
    let mut modes = ModeManager::new();
    let mut acts = Vec::new();
    apex.on_event(&sling_target(), &mut modes, &mut acts);
    assert_eq!(
        acts,
        vec![
            Action::AddPoints(75_000),
            Action::PlaySfx(Sound::HitOrganic2),
            Action::Effect(EffectSlot::Progress, EffectOp::Replace(EffectSpec::TargetPulses(Some(1750), None, None, None))),
        ]
    );
    let mut acts = Vec::new();
    apex.on_event(&pop_target(PopBumper::Left), &mut modes, &mut acts);
    apex.on_event(&pop_target(PopBumper::Left), &mut modes, &mut acts);
    assert_eq!(
        acts.last(),
        Some(&Action::Effect(
            EffectSlot::Progress,
            EffectOp::Replace(EffectSpec::TargetPulses(Some(1750), Some(875), None, None))
        ))
    );
    for p in [PopBumper::UpperRight, PopBumper::UpperRight, PopBumper::LowerRight] {
        let mut acts = Vec::new();
        apex.on_event(&pop_target(p), &mut modes, &mut acts);
    }
    let mut acts = Vec::new();
    apex.on_event(&pop_target(PopBumper::LowerRight), &mut modes, &mut acts);
    assert_eq!(
        acts,
        vec![
            Action::AddPoints(75_000),
            Action::PlaySfx(Sound::ArpHit1),
            Action::Cue(Timer::JackpotOver, CueTiming::Once(45_000)),
            Action::Effect(EffectSlot::Jackpot, EffectOp::Replace(EffectSpec::JackpotFlash)),
        ]
    );
    let mut acts = Vec::new();
    apex.on_event(&pop_target(PopBumper::LowerRight), &mut modes, &mut acts);
    assert_eq!(
        acts,
        vec![
            Action::Effect(EffectSlot::Jackpot, EffectOp::Reset),
            Action::Effect(EffectSlot::Jackpot, EffectOp::Play),
            Action::FlashersFlash(2, FlasherPattern::Solid(NamedColor::Green)),
            Action::AddPoints(500_000),
            Action::PlaySfx(Sound::ArpHit1),
        ]
    );
    let mut acts = Vec::new();
    apex.on_event(&sling_target(), &mut modes, &mut acts);
    assert!(acts.contains(&Action::AddPoints(500_000)));
    let mut acts = Vec::new();
    apex.on_event(&Signal::Timer(Timer::JackpotOver), &mut modes, &mut acts);
    assert!(acts.contains(&Action::DeclareMapRegion(MapRegion::ApexTerraces, NamedColor::Green)));
    assert_eq!(acts.last(), Some(&Action::ReplaceSelf(SystemKind::ApexTerracesMode)));
}

use neon_blue::game::hydro_core_mode::HydroCoreMode;

#[test]
fn hydro_core_combo_gives_more_time_after_each_miss() {
    let mut mode = HydroCoreMode::new();
    let mut modes = ModeManager::new();
    let mut scoop = LeftScoopStartable::new();
    let mut acts = Vec::new();
    mode.on_spawn(&mut acts);
    // the first shot is not timed
    assert!(!acts.iter().any(|a| matches!(a, Action::Cue(..))));
    let mut acts = Vec::new();
    mode.on_event(&Signal::LiftRampHit, &mut modes, &mut scoop, &mut acts);
    assert!(acts.contains(&Action::Cue(Timer::ComboTimeUp, CueTiming::Once(30_000))));
    assert!(acts.contains(&Action::AddPoints(300_000)));
    mode.record_cue(Timer::ComboTimeUp, 2);
    let mut acts = Vec::new();
    mode.on_event(&Signal::Timer(Timer::ComboTimeUp), &mut modes, &mut scoop, &mut acts);
    assert!(acts.contains(&Action::PlaySfx(Sound::HitOrganicLow1)));
    assert!(acts.contains(&Action::CancelCue(2)));
    let mut acts = Vec::new();
    mode.on_event(&Signal::LiftRampHit, &mut modes, &mut scoop, &mut acts);
    assert!(acts.contains(&Action::Cue(Timer::ComboTimeUp, CueTiming::Once(35_000))));
}

use neon_blue::game::qualification::{
    ExclusiveModeQualifier, MeridianBasinsQualifier, SkyrailStationQualifier,
    SolariumAtriumQualifier, SporeMultiballQualifier,
};

#[test]
fn qualifiers_name_their_modes() {
    assert_eq!(HydroCoreQualifier::mode(), ExclusiveMode::HydroCore);
    assert_eq!(MeridianBasinsQualifier::mode(), ExclusiveMode::MeridianBasins);
    assert_eq!(SkyrailStationQualifier::mode(), ExclusiveMode::SkyrailStation);
    assert_eq!(SolariumAtriumQualifier::mode(), ExclusiveMode::SolariumAtrium);
    assert_eq!(SporeMultiballQualifier::mode(), ExclusiveMode::SporeMultiball);
}

use neon_blue::game::skyrail_station_mode::SkyrailStationMode;

#[test]
fn skyrail_hit_wash_carries_its_seed() {
    let m = SkyrailStationMode::new();
    let e = m.hit_effect();
    assert!(matches!(e, EffectSpec::PlayfieldWash(ExclusiveMode::SkyrailStation, _)));
    assert_eq!(m.hit_effect(), e);
}

use neon_blue::game::nimbus_promenade::NimbusPromenadeQualification;

#[test]
fn hit_counters_start_below_their_limit() {
    assert!(ApexTerracesMode::new().hit_counts_below_max());
    let mut q = NimbusPromenadeQualification::new();
    assert_eq!(q.hits(), 0);
    let mut acts = Vec::new();
    q.on_event(&Signal::VerticalSpinnerHit, true, &mut acts);
    assert_eq!(q.hits(), 1);
}
