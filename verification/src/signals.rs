use vstd::prelude::*;

verus! {

/// Sound effects the game asks the sound system to play.
#[derive(Debug, Clone, Copy, PartialEq, Eq, Structural)]
pub enum Sound {
    HydroCoreOnline,
    HydroCorePurged,
    ArpHit1,
    HitOrganic2,
    HitOrganic3,
    HitOrganicLow1,
    LaneHit2,
    LaneHit3,
    LaneHitComplete,
    /// One of the lane-hit sounds, picked at random by the sound library.
    RandomLaneHit,
}

/// Colors by name; the host turns them into LED colors.
#[derive(Debug, Clone, Copy, PartialEq, Eq, Structural)]
pub enum NamedColor {
    /// The LED's default, unlit color.
    Off,
    White,
    Cyan,
    Blue,
    Purple,
    Orange,
    Yellow,
    Red,
    Magenta,
    Green,
}

/// Background music tracks.
#[derive(Debug, Clone, Copy, PartialEq, Eq, Structural)]
pub enum MusicTrack {
    Default,
    HydroCore,
    SkyrailStation,
    SolariumAtrium,
    MeridianBasins,
    SporeMultiball,
    NimbusPromenade,
}

impl MusicTrack {
    /// Where the track's file lies on the machine.
    pub fn path(&self) -> (p: &'static str)
        ensures
            *self == MusicTrack::Default ==> p@ == "/userdata/home/armsom/music/colyn-rushing.mp3"@,
            *self == MusicTrack::HydroCore ==> p@ == "/userdata/home/armsom/music/inzo-wonder.mp3"@,
            *self == MusicTrack::SkyrailStation ==> p@
                == "/userdata/home/armsom/music/deadmau5-arguru2k19.mp3"@,
            *self == MusicTrack::SolariumAtrium ==> p@
                == "/userdata/home/armsom/music/fehrplay-arcadia.mp3"@,
            *self == MusicTrack::MeridianBasins ==> p@
                == "/userdata/home/armsom/music/glitch-mob-cant-kill-us.mp3"@,
            *self == MusicTrack::SporeMultiball ==> p@
                == "/userdata/home/armsom/music/rezmau5-infraliminal.mp3"@,
            *self == MusicTrack::NimbusPromenade ==> p@
                == "/userdata/home/armsom/music/wice-5omething.mp3"@,
    {
        match self {
            MusicTrack::Default => "/userdata/home/armsom/music/colyn-rushing.mp3",
            MusicTrack::HydroCore => "/userdata/home/armsom/music/inzo-wonder.mp3",
            MusicTrack::SkyrailStation => "/userdata/home/armsom/music/deadmau5-arguru2k19.mp3",
            MusicTrack::SolariumAtrium => "/userdata/home/armsom/music/fehrplay-arcadia.mp3",
            MusicTrack::MeridianBasins => "/userdata/home/armsom/music/glitch-mob-cant-kill-us.mp3",
            MusicTrack::SporeMultiball => "/userdata/home/armsom/music/rezmau5-infraliminal.mp3",
            MusicTrack::NimbusPromenade => "/userdata/home/armsom/music/wice-5omething.mp3",
        }
    }
}

} // verus!

verus! {

/// Timed events a system schedules for itself.
#[derive(Debug, Clone, Copy, PartialEq, Eq, Structural)]
pub enum Timer {
    NextScreen,
    ComboTimeUp,
    NextSet,
    NextPop,
    NextDropTarget,
    JackpotOver,
    SuperJackpotOver,
    RampUp,
    BecomeStartable,
    LiftRampStart,
    LiftRampResume,
    LiftRampTimeOut,
    LiftRampHurryUpDone,
}

/// When a scheduled timer fires: once after the delay, or every delay.
#[derive(Debug, Clone, Copy, PartialEq, Eq, Structural)]
pub enum CueTiming {
    Once(u64),
    Loop(u64),
}

/// The regions of the city map on the playfield.
#[derive(Debug, Clone, Copy, PartialEq, Eq, Structural)]
pub enum MapRegion {
    NimbusPromenade,
    ApexTerraces,
    HydroCore,
    SkyrailStation,
    MeridianBasins,
    SolariumAtriums,
}

/// Systems that one system asks the host to start.
#[derive(Debug, Clone, Copy, PartialEq, Eq, Structural)]
pub enum SystemKind {
    HydroCoreMode,
    SkyrailStationMode,
    SolariumAtriumMode,
    MeridianBasinsMode,
    HydroCoreQualification,
    SkyrailStationQualification,
    SolariumAtriumQualification,
    MeridianBasinsQualification,
    SporeMultiballQualification,
    SporeMultiballStartable,
    SporeMultiballMode,
    NimbusPromenadeQualification,
    ApexTerracesMode,
    CityCoverageQualification1,
    CityCoverageQualification2 { left_orbit_hit: bool, center_orbit_hit: bool, right_orbit_hit: bool },
    CityCoverageQualification3,
    PinkSpore,
    LeftPopSkillShot,
    LeftOutlaneSkillShot,
    DropBankSkillShot,
}

} // verus!

verus! {

/// What a system asks the host to do on its behalf.
#[derive(Debug, Clone, PartialEq, Eq)]
pub enum Action {
    /// Score points for the current player.
    AddPoints(u32),
    PlaySfx(Sound),
    /// Crossfade to a music track over the given milliseconds.
    PlayMusic(MusicTrack, u64),
    /// Fade the music out over the given milliseconds.
    StopMusic(u64),
    /// Schedule a timer for the system itself.
    Cue(Timer, CueTiming),
    /// Cancel a timer by the id the host gave it.
    CancelCue(u64),
    EmitExclusiveModeStarted(crate::game::exclusive_mode::ExclusiveMode),
    EmitExclusiveModeEnded,
    EmitSporeShot(crate::game::city_coverage::city_shot::CityShot),
    /// Light a region of the city map with a color.
    DeclareMapRegion(MapRegion, NamedColor),
    Spawn(SystemKind),
    ReplaceSelf(SystemKind),
    DespawnSelf,
    Effect(crate::effects::EffectSlot, crate::effects::EffectOp),
    LiftRampUp,
    LiftRampDown,
    LiftRampEject,
    RaiseDropTargets,
    LowerScoopAutoEject,
    LowerScoopModeStart,
    MultiballAddBalls(u8),
    /// Flash the flashers the given number of times in a color pattern.
    FlashersFlash(u8, crate::effects::FlasherPattern),
    /// Rotate a color pattern over the flashers the given number of times.
    FlashersRotate(u8, crate::effects::FlasherPattern),
    ActivateLedDeclarations,
    DeactivateLedDeclarations,
    /// Hand the turn to the next player.
    AdvanceTurn,
    /// Offer an exclusive mode for starting after a delay in milliseconds.
    MakeStartable(StartVia, crate::game::exclusive_mode::ExclusiveMode, u64),
    /// Light LEDs in a solid color.
    DeclareLeds(LedTarget, NamedColor),
    /// Release LEDs this system lit.
    UndeclareLeds(LedTarget),
    /// Light a spore node in the spore's color faded by the milliseconds of
    /// decay it has left.
    DeclareFadingSporeNode(crate::game::city_coverage::city_shot::CityShot, usize, u64),
    /// Start a music track without a crossfade.
    PlayMusicNow(MusicTrack),
    /// Ask the player named by the label for initials.
    StartInitialsEntry(String),
    /// Let the end of the game through, with each player's label and score.
    EmitGameEnded(Vec<(String, u32)>),
    /// Write a high score into the table slot the table gave for it.
    SetHighScore(u64, String, u32),
    /// Hold the end of the game for this system, at the given priority.
    RegisterGameEndedInterrupt(u8),
    /// Switch a coil to fire by itself when its switch closes.
    ActivateDriver(Coil, DriverSwitch),
    /// Light LEDs in the lightened color of a mode.
    DeclareLedsLightened(LedTarget, crate::game::exclusive_mode::ExclusiveMode),
}

/// The coils the game hands over to their switches.
#[derive(Debug, Clone, Copy, PartialEq, Eq, Structural)]
pub enum Coil {
    LeftSling,
    RightSling,
    LeftFlipperMain,
    LeftFlipperHold,
    RightFlipperMain,
    RightFlipperHold,
    UpperFlipperMain,
    UpperFlipperHold,
    LowerRightPop,
    UpperRightPop,
    LeftPop,
    LowerScoop,
}

/// The switches that fire coils by themselves.
#[derive(Debug, Clone, Copy, PartialEq, Eq, Structural)]
pub enum DriverSwitch {
    LeftSling,
    RightSling,
    LeftFlipper1,
    RightFlipper1,
    RightFlipper2,
    LowerRightPopSpoon,
    UpperRightPopSpoon,
    LeftPopSpoon,
    LowerScoopOpto,
    ActionButton,
}

/// Groups of LEDs that systems light directly.
#[derive(Debug, Clone, Copy, PartialEq, Eq, Structural)]
pub enum LedTarget {
    LeftOrbitHexCenter,
    CenterOrbitHexCenter,
    RightOrbitHexCenter,
    GeneralIllumination,
    ArcRampArc,
    ArcRampSubway,
    /// The node LED of a shot's hexagon, by index.
    SporeNode(crate::game::city_coverage::city_shot::CityShot, usize),
}

/// The playfield feature through which a qualified mode is started.
#[derive(Debug, Clone, Copy, PartialEq, Eq, Structural)]
pub enum StartVia {
    LeftScoop,
    LiftRamp,
}

} // verus!

verus! {

/// The three pop bumpers of the pop cluster.
#[derive(Debug, Clone, Copy, PartialEq, Eq, Structural, Hash)]
pub enum PopBumper {
    Left,
    UpperRight,
    LowerRight,
}

impl PopBumper {
    /// The pop after `self` going round the cluster.
    pub open spec fn spec_next(self) -> PopBumper {
        match self {
            PopBumper::Left => PopBumper::UpperRight,
            PopBumper::UpperRight => PopBumper::LowerRight,
            PopBumper::LowerRight => PopBumper::Left,
        }
    }

    pub fn next(&self) -> (p: PopBumper)
        ensures
            p == self.spec_next(),
    {
        match self {
            PopBumper::Left => PopBumper::UpperRight,
            PopBumper::UpperRight => PopBumper::LowerRight,
            PopBumper::LowerRight => PopBumper::Left,
        }
    }
}

/// The three targets of the drop bank.
#[derive(Debug, Clone, Copy, PartialEq, Eq, Structural, Hash)]
pub enum DropBankTarget {
    Target1,
    Target2,
    Target3,
}

impl DropBankTarget {
    /// The target after `self` along the bank, wrapping to the first.
    pub open spec fn spec_next(self) -> DropBankTarget {
        match self {
            DropBankTarget::Target1 => DropBankTarget::Target2,
            DropBankTarget::Target2 => DropBankTarget::Target3,
            DropBankTarget::Target3 => DropBankTarget::Target1,
        }
    }

    pub fn next(&self) -> (t: DropBankTarget)
        ensures
            t == self.spec_next(),
    {
        match self {
            DropBankTarget::Target1 => DropBankTarget::Target2,
            DropBankTarget::Target2 => DropBankTarget::Target3,
            DropBankTarget::Target3 => DropBankTarget::Target1,
        }
    }
}

/// Which scoop a ball entered.
#[derive(Debug, Clone, Copy, PartialEq, Eq, Structural)]
pub enum Scoop {
    LowerScoop,
    LiftRamp,
    Other,
}

/// A switch that closed, by what the game rules read of it: which playfield
/// feature it belongs to and the tags it carries.
#[derive(Debug, Clone, Copy, PartialEq, Eq, Structural)]
pub struct SwitchClosed {
    /// The pop bumper whose spoon switch this is.
    pub pop: Option<PopBumper>,
    /// The pop bumper whose standup target switch this is.
    pub pop_target: Option<PopBumper>,
    /// The drop bank target whose switch this is.
    pub drop_target: Option<DropBankTarget>,
    /// The standup target by the left inlane (below the sling).
    pub lower_sling_target: bool,
    /// The captive ball's target switch.
    pub captive_ball_target: bool,
    /// The left pop bumper's spoon switch.
    pub left_pop_spoon: bool,
    /// The cabinet's first left flipper button.
    pub left_flipper: bool,
    /// The cabinet's first right flipper button.
    pub right_flipper: bool,
    /// Tagged as a playfield switch.
    pub playfield: bool,
    /// Tagged as a slingshot switch.
    pub slingshot: bool,
    /// Tagged as not cancelling a pending skill shot.
    pub does_not_cancel_skillshot: bool,
    /// Tagged as a right pass lane switch.
    pub right_pass_lane: bool,
}

/// The events of the machine that the game rules react to.
#[derive(Debug, Clone, Copy, PartialEq, Eq, Structural)]
pub enum Signal {
    LeftOrbitHit,
    CenterOrbitHit,
    RightOrbitHit,
    ArcRampHit,
    DomeRampHit,
    LiftRampHit,
    CaptiveBallHit,
    VerticalSpinnerHit,
    LeftOutlaneRollover,
    DropBankTargetHit,
    LowerScoopBallEnter,
    LiftRampScoopBallEnter,
    ScoopBallEntered(Scoop),
    Switch(SwitchClosed),
    PlayerTurnBeginning,
    PlayerTurnActive,
    PlayerTurnEnding,
    GameStarted,
    MultiballEnded,
    ExclusiveModeStarted(crate::game::exclusive_mode::ExclusiveMode),
    ExclusiveModeEnded,
    SporeShot(crate::game::city_coverage::city_shot::CityShot),
    Timer(Timer),
}

} // verus!
