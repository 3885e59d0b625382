use neon_blue::effects::{EffectOp, EffectSlot, EffectSpec};
use neon_blue::game::activate_playfield::{activate_playfield, ActivatePlayfield};
use neon_blue::game::basic_points::BasicPoints;
use neon_blue::game::end_of_ball::{EndOfBallSystem, InterruptResult};
use neon_blue::game::exclusive_mode::ExclusiveMode;
use neon_blue::game::exclusive_mode_manager::{ExclusiveMode as FirstExclusiveMode, ExclusiveModeManager};
use neon_blue::game::mode_manager::{ModeManager, NonExclusiveMode};
use neon_blue::game::playfield_illumination::{IlluminationColor, PlayfieldIllumination};
use neon_blue::game::skill_shots::{DropBankSkillShot, LeftOutlaneSkillShot, LeftPopSkillShot, SkillshotManager};
use neon_blue::game::starters::{ExclusiveModeStarter, HydroCoreStarter, SkyrailStationStarter};
use neon_blue::signals::{
    Action, Coil, CueTiming, DriverSwitch, DropBankTarget, LedTarget, MapRegion, MusicTrack, NamedColor, PopBumper,
    Signal, Sound, SwitchClosed, SystemKind, Timer,
};

fn switch() -> SwitchClosed {
    SwitchClosed {
        pop: None,
        pop_target: None,
        drop_target: None,
        lower_sling_target: false,
        captive_ball_target: false,
        left_pop_spoon: false,
        left_flipper: false,
        right_flipper: false,
        playfield: false,
        slingshot: false,
        does_not_cancel_skillshot: false,
        right_pass_lane: false,
    }
}

#[test]
fn mode_manager_gives_playfield_to_one_mode() {
    let mut modes = ModeManager::new();
    let mut acts = Vec::new();
    assert_eq!(modes.take_exclusive(ExclusiveMode::HydroCore, &mut acts), Ok(()));
    assert_eq!(
        acts,
        vec![Action::PlayMusic(MusicTrack::HydroCore, 750), Action::EmitExclusiveModeStarted(ExclusiveMode::HydroCore)]
    );
    let mut acts = Vec::new();
    assert_eq!(
        modes.take_exclusive(ExclusiveMode::SkyrailStation, &mut acts),
        Err("Cannot start SkyrailStation because HydroCore already has exclusive.".to_string())
    );
    assert!(acts.is_empty());
    assert_eq!(*modes.current_mode(), Some(ExclusiveMode::HydroCore));
    modes.release_exclusive(&ExclusiveMode::SkyrailStation, &mut acts);
    assert!(acts.is_empty());
    assert_eq!(*modes.current_mode(), Some(ExclusiveMode::HydroCore));
    modes.release_exclusive(&ExclusiveMode::HydroCore, &mut acts);
    assert_eq!(acts, vec![Action::PlayMusic(MusicTrack::Default, 750), Action::EmitExclusiveModeEnded]);
    assert_eq!(*modes.current_mode(), None);
}

#[test]
fn mode_manager_records_completions_on_map() {
    let mut modes = ModeManager::new();
    let mut acts = Vec::new();
    modes.take_exclusive(ExclusiveMode::SolariumAtrium, &mut acts).unwrap();
    let mut acts = Vec::new();
    modes.complete_exclusive(ExclusiveMode::SolariumAtrium, &mut acts);
    assert_eq!(acts[0], Action::PlayMusic(MusicTrack::Default, 750));
    assert_eq!(acts[1], Action::EmitExclusiveModeEnded);
    assert_eq!(acts[2], Action::DeclareMapRegion(MapRegion::NimbusPromenade, NamedColor::Off));
    assert_eq!(acts[7], Action::DeclareMapRegion(MapRegion::SolariumAtriums, NamedColor::Purple));
    assert_eq!(acts.len(), 8);
    let mut acts = Vec::new();
    modes.complete_non_exclusive(NonExclusiveMode::ApexTerraces, &mut acts);
    assert!(acts.contains(&Action::DeclareMapRegion(MapRegion::ApexTerraces, NamedColor::Green)));
    assert!(acts.contains(&Action::DeclareMapRegion(MapRegion::SolariumAtriums, NamedColor::Purple)));
}

#[test]
fn mode_manager_music_follows_oldest_mode() {
    let mut modes = ModeManager::new();
    let mut acts = Vec::new();
    modes.on_event(&Signal::PlayerTurnBeginning, &mut acts);
    assert_eq!(acts, vec![Action::PlayMusic(MusicTrack::Default, 750)]);
    let mut acts = Vec::new();
    modes.on_event(&Signal::PlayerTurnBeginning, &mut acts);
    assert!(acts.is_empty());
    modes.non_exclusive_active(NonExclusiveMode::NimbusPromenade, &mut acts);
    assert_eq!(acts, vec![Action::PlayMusic(MusicTrack::NimbusPromenade, 750)]);
    let mut acts = Vec::new();
    modes.non_exclusive_inactive(&NonExclusiveMode::NimbusPromenade, &mut acts);
    assert_eq!(acts, vec![Action::PlayMusic(MusicTrack::Default, 750)]);
    let mut acts = Vec::new();
    modes.on_event(&Signal::PlayerTurnEnding, &mut acts);
    assert_eq!(acts, vec![Action::StopMusic(500)]);
}

#[test]
fn first_mode_manager_refuses_second_mode() {
    let mut m = ExclusiveModeManager::new();
    let mut acts = Vec::new();
    assert_eq!(m.take_exclusive(FirstExclusiveMode::SolariumAtrium, &mut acts), Ok(()));
    assert!(acts.is_empty());
    assert_eq!(
        m.take_exclusive(FirstExclusiveMode::HydroCore, &mut acts),
        Err("Cannot start HydroCore because SolariumAtrium is already exclusive.".to_string())
    );
    m.release_exclusive(FirstExclusiveMode::SolariumAtrium, &mut acts);
    assert_eq!(acts, vec![Action::PlayMusic(MusicTrack::Default, 1000)]);
    let mut acts = Vec::new();
    assert_eq!(m.take_exclusive(FirstExclusiveMode::HydroCore, &mut acts), Ok(()));
    assert_eq!(acts, vec![Action::PlayMusic(MusicTrack::HydroCore, 1000)]);
}

#[test]
fn exclusive_mode_sound_color_and_start() {
    assert_eq!(ExclusiveMode::HydroCore.start_sound(), Sound::HydroCoreOnline);
    assert_eq!(ExclusiveMode::Wizard.start_sound(), Sound::ArpHit1);
    assert_eq!(ExclusiveMode::MeridianBasins.color(), NamedColor::Orange);
    let mut acts = Vec::new();
    ExclusiveMode::SkyrailStation.start(&mut acts);
    assert_eq!(acts, vec![Action::Spawn(SystemKind::SkyrailStationMode)]);
}

#[test]
fn skill_shots_start_each_turn() {
    let mut acts = Vec::new();
    SkillshotManager::new().on_event(&Signal::PlayerTurnBeginning, &mut acts);
    assert_eq!(
        acts,
        vec![
            Action::Spawn(SystemKind::LeftPopSkillShot),
            Action::Spawn(SystemKind::LeftOutlaneSkillShot),
            Action::Spawn(SystemKind::DropBankSkillShot),
        ]
    );
}

#[test]
fn drop_bank_skill_shot_scores_lit_target() {
    let mut shot = DropBankSkillShot::new();
    let mut acts = Vec::new();
    shot.on_spawn(&mut acts);
    assert_eq!(
        acts,
        vec![
            Action::Effect(EffectSlot::Attention, EffectOp::Replace(EffectSpec::DropTargetFlash(DropBankTarget::Target1))),
            Action::Effect(EffectSlot::Attention, EffectOp::Stop),
            Action::Effect(EffectSlot::Attention, EffectOp::Replace(EffectSpec::DropTargetFlash(DropBankTarget::Target2))),
            Action::Cue(Timer::NextDropTarget, CueTiming::Once(1750)),
        ]
    );
    let mut sw = switch();
    sw.drop_target = Some(DropBankTarget::Target2);
    sw.playfield = true;
    let mut acts = Vec::new();
    shot.on_event(&Signal::Switch(sw), true, &mut acts);
    assert_eq!(
        acts,
        vec![
            Action::PlaySfx(Sound::ArpHit1),
            Action::AddPoints(50_000),
            Action::Effect(EffectSlot::Hit, EffectOp::Replace(EffectSpec::DropBankRotate)),
            Action::DespawnSelf,
        ]
    );
    let mut acts = Vec::new();
    shot.on_tick(true, &mut acts);
    assert_eq!(acts, vec![Action::DespawnSelf]);
}

#[test]
fn drop_bank_skill_shot_consolation_and_cancel() {
    let mut shot = DropBankSkillShot::new();
    let mut acts = Vec::new();
    shot.on_event(&Signal::Timer(Timer::NextDropTarget), true, &mut acts);
    let mut sw = switch();
    sw.drop_target = Some(DropBankTarget::Target3);
    let mut acts = Vec::new();
    shot.on_event(&Signal::Switch(sw), true, &mut acts);
    assert_eq!(acts, vec![Action::AddPoints(5_000), Action::DespawnSelf]);
    let mut acts = Vec::new();
    shot.on_tick(true, &mut acts);
    assert!(acts.is_empty());
    let mut other = DropBankSkillShot::new();
    let mut sw = switch();
    sw.playfield = true;
    let mut acts = Vec::new();
    other.on_event(&Signal::Switch(sw), false, &mut acts);
    assert!(acts.is_empty());
    other.on_event(&Signal::Switch(sw), true, &mut acts);
    assert_eq!(acts, vec![Action::DespawnSelf]);
}

#[test]
fn left_outlane_and_left_pop_skill_shots() {
    let mut outlane = LeftOutlaneSkillShot::new();
    let mut acts = Vec::new();
    outlane.on_event(&Signal::LeftOutlaneRollover, true, &mut acts);
    assert_eq!(
        acts,
        vec![
            Action::Effect(EffectSlot::Hit, EffectOp::Replace(EffectSpec::LanesFlash)),
            Action::AddPoints(500_000),
            Action::DespawnSelf,
        ]
    );
    let mut sw = switch();
    sw.playfield = true;
    sw.does_not_cancel_skillshot = true;
    let mut acts = Vec::new();
    LeftOutlaneSkillShot::new().on_event(&Signal::Switch(sw), true, &mut acts);
    assert!(acts.is_empty());

    let mut pop = LeftPopSkillShot::new();
    let mut acts = Vec::new();
    pop.on_spawn(&mut acts);
    assert_eq!(acts, vec![Action::Effect(EffectSlot::Attention, EffectOp::Replace(EffectSpec::LeftRayRotate))]);
    let mut lane = switch();
    lane.playfield = true;
    lane.right_pass_lane = true;
    let mut acts = Vec::new();
    pop.on_event(&Signal::Switch(lane), true, &mut acts);
    assert!(acts.is_empty());
    let mut spoon = switch();
    spoon.left_pop_spoon = true;
    spoon.playfield = true;
    spoon.pop = Some(PopBumper::Left);
    pop.on_event(&Signal::Switch(spoon), true, &mut acts);
    assert_eq!(
        acts,
        vec![
            Action::Effect(EffectSlot::Hit, EffectOp::Replace(EffectSpec::PopsRaysRotate)),
            Action::AddPoints(150_000),
            Action::DespawnSelf,
        ]
    );
}

#[test]
fn end_of_ball_passes_turn() {
    let eob = EndOfBallSystem::new();
    let mut acts = Vec::new();
    eob.on_spawn(&mut acts);
    assert_eq!(acts, vec![Action::RegisterGameEndedInterrupt(1)]);
    let mut acts = Vec::new();
    eob.on_event(&Signal::PlayerTurnEnding, &mut acts);
    assert_eq!(acts, vec![Action::StopMusic(500), Action::PlaySfx(Sound::LaneHitComplete), Action::AdvanceTurn]);
}

#[test]
fn end_of_game_waits_for_initials() {
    let mut eob = EndOfBallSystem::new();
    let scores = vec![("PLAYER 1".to_string(), 100), ("PLAYER 2".to_string(), 9000)];
    let mut acts = Vec::new();
    let r = eob.on_game_ended_interrupt(scores.clone(), Some(vec![None, Some(3)]), &mut acts);
    assert_eq!(r, InterruptResult::Halt);
    assert_eq!(acts, vec![Action::StartInitialsEntry("PLAYER 2".to_string())]);
    let mut acts = Vec::new();
    eob.on_initials_entered("ABC".to_string(), true, &mut acts);
    assert_eq!(acts, vec![Action::SetHighScore(3, "ABC".to_string(), 9000), Action::EmitGameEnded(scores)]);
    let mut acts = Vec::new();
    eob.on_initials_entered("ABC".to_string(), true, &mut acts);
    assert!(acts.is_empty());
}

#[test]
fn end_of_game_without_table_is_held() {
    let mut eob = EndOfBallSystem::new();
    let mut acts = Vec::new();
    let r = eob.on_game_ended_interrupt(vec![("PLAYER 1".to_string(), 5)], None, &mut acts);
    assert_eq!(r, InterruptResult::Halt);
    assert!(acts.is_empty());
}

#[test]
fn illumination_tints_arc_ramp() {
    let mut light = PlayfieldIllumination::new();
    let mut acts = Vec::new();
    light.on_render(&mut acts);
    assert_eq!(
        acts,
        vec![
            Action::DeclareLeds(LedTarget::GeneralIllumination, NamedColor::White),
            Action::DeclareLeds(LedTarget::ArcRampArc, NamedColor::White),
            Action::DeclareLeds(LedTarget::ArcRampSubway, NamedColor::White),
        ]
    );
    light.on_event(&Signal::ExclusiveModeStarted(ExclusiveMode::HydroCore));
    let mut acts = Vec::new();
    light.on_render(&mut acts);
    assert_eq!(acts[1], Action::DeclareLedsLightened(LedTarget::ArcRampArc, ExclusiveMode::HydroCore));
    assert_eq!(acts[2], Action::DeclareLedsLightened(LedTarget::ArcRampSubway, ExclusiveMode::HydroCore));
    light.clear_color();
    light.set_color(IlluminationColor::ModeTint(ExclusiveMode::Wizard));
    let mut acts = Vec::new();
    light.on_render(&mut acts);
    assert_eq!(acts[1], Action::DeclareLedsLightened(LedTarget::ArcRampArc, ExclusiveMode::Wizard));
}

#[test]
fn basic_points_for_switches() {
    let points = BasicPoints::new();
    let mut sling = switch();
    sling.slingshot = true;
    sling.playfield = true;
    let mut acts = Vec::new();
    points.on_event(&Signal::Switch(sling), &mut acts);
    assert_eq!(acts, vec![Action::AddPoints(100)]);
    let mut pf = switch();
    pf.playfield = true;
    let mut acts = Vec::new();
    points.on_event(&Signal::Switch(pf), &mut acts);
    assert_eq!(acts, vec![Action::AddPoints(10)]);
    let mut acts = Vec::new();
    points.on_event(&Signal::Switch(switch()), &mut acts);
    points.on_event(&Signal::GameStarted, &mut acts);
    assert!(acts.is_empty());
}

#[test]
fn playfield_drivers_activate() {
    let drivers = activate_playfield();
    assert_eq!(drivers.len(), 12);
    assert_eq!(drivers[0], (Coil::LeftSling, DriverSwitch::LeftSling));
    assert_eq!(drivers[11], (Coil::LowerScoop, DriverSwitch::LowerScoopOpto));
    let mut acts = Vec::new();
    ActivatePlayfield::new().on_event(&Signal::GameStarted, &mut acts);
    assert_eq!(acts.len(), 9);
    assert_eq!(acts[8], Action::ActivateDriver(Coil::LowerScoop, DriverSwitch::ActionButton));
    let mut acts = Vec::new();
    ActivatePlayfield::new().on_event(&Signal::PlayerTurnEnding, &mut acts);
    assert!(acts.is_empty());
}

#[test]
fn starters() {
    assert_eq!(HydroCoreStarter::start_sound(), Sound::HydroCoreOnline);
    assert_eq!(HydroCoreStarter::mode(), ExclusiveMode::HydroCore);
    assert_eq!(HydroCoreStarter::mode_color(), NamedColor::Cyan);
    let mut acts = Vec::new();
    HydroCoreStarter::on_start(&mut acts);
    assert_eq!(acts, vec![Action::ReplaceSelf(SystemKind::HydroCoreMode)]);
    assert!(HydroCoreStarter::is_startable_event(&Signal::LowerScoopBallEnter));
    assert!(!HydroCoreStarter::is_startable_event(&Signal::LiftRampHit));
    assert_eq!(SkyrailStationStarter::mode(), ExclusiveMode::HydroCore);
    assert_eq!(SkyrailStationStarter::mode_color(), NamedColor::Blue);
    let mut acts = Vec::new();
    SkyrailStationStarter::on_start(&mut acts);
    assert!(acts.is_empty());
}

#[test]
fn pops_and_drop_targets_cycle() {
    assert_eq!(PopBumper::Left.next().next().next(), PopBumper::Left);
    assert_eq!(DropBankTarget::Target3.next(), DropBankTarget::Target1);
    assert_eq!(MusicTrack::HydroCore.path(), "/userdata/home/armsom/music/inzo-wonder.mp3");
}
