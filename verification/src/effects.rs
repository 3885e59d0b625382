use vstd::prelude::*;
use crate::game::exclusive_mode::ExclusiveMode;

verus! {

/// The LED programs a system owns.
#[derive(Debug, Clone, Copy, PartialEq, Eq, Structural)]
pub enum EffectSlot {
    Attention,
    Hit,
    Intensity,
    Progress,
    Arc,
    Jackpot,
    SuperJackpotAttention,
    SuperJackpotHit,
    LiftRampBolt,
    LowerScoopBolts,
    LeftOrbitLane,
    CenterOrbitLane,
    RightOrbitLane,
    ShotHit,
    ActiveRegion,
    GeneralIllumination,
}

/// Operations on an LED program.
#[derive(Debug, Clone, PartialEq, Eq)]
pub enum EffectOp {
    Play,
    Stop,
    Reset,
    /// Replace the program in the slot by a newly built one.
    Replace(EffectSpec),
}

/// Color patterns for the flasher lamps.
#[derive(Debug, Clone, Copy, PartialEq, Eq, Structural)]
pub enum FlasherPattern {
    /// A solid color.
    Solid(crate::signals::NamedColor),
    /// The color alternating with off.
    Alternating(crate::signals::NamedColor),
    /// The mode color, a lighter shade of it, then off twice.
    ModeSweep(ExclusiveMode),
}

/// The LED programs the game builds, with the parameters its rules decide.
#[derive(Debug, Clone, PartialEq, Eq)]
pub enum EffectSpec {
    /// The scoop, its hex and the subway flashing in the mode's color.
    StartableAttention(ExclusiveMode),
    /// The playfield washing from the mode's color to dark, once.
    StartableHit(ExclusiveMode),
    /// A mode's hit: the playfield washing from the mode's color to dark
    /// once, the colors shuffled by the seed.
    PlayfieldWash(ExclusiveMode, u64),
    /// Hydro Core: the attention ring on the hex of the combo's next shot
    /// (1 lift ramp, 2 arc ramp, 3 left orbit, 4 center orbit, 5 dome ramp).
    ComboAttention(u8),
    /// Hydro Core: the ring around the hex of the combo's next shot.
    ComboRing(u8),
    /// Hydro Core: the remaining time for the next combo shot, in milliseconds.
    ComboTimer(u64),
    /// Hydro Core: the whole machine flashing seven times once the core is purged.
    ComboCompleteFlash,
    /// The arc ramp's hex center lit white while qualifying.
    QualificationHex,
    /// The lower scoop's bolts flashing in a color.
    ScoopBoltsFlash(crate::signals::NamedColor),
    /// The white spinning hex of the combo's next shot.
    ComboHex(HexTarget),
    /// Meridian Basins: the three lit shots pulsing in the mode's color.
    ModeShotsPulse(crate::game::meridian_basins_mode::ModeShots, crate::game::meridian_basins_mode::ModeShots, crate::game::meridian_basins_mode::ModeShots),
    /// The playfield flashing the mode's color the given number of times.
    PlayfieldFlash(ExclusiveMode, u8),
    /// The spore count bar filled in the mode's color to `hits` out of `of`.
    ProgressBar(ExclusiveMode, u8, u8),
    /// Skyrail Station: the lift ramp's hex pulsing, asking for the ramp.
    SkyrailRampPulse,
    /// Skyrail Station: one light of each drop target flashing, asking for a target.
    SkyrailTargets,
    /// Skyrail Station: the drop targets chasing, asking for the final targets.
    SkyrailTargetsFinal,
    /// Skyrail Station: the machine sweeping in the mode's color, then fading out.
    SkyrailComplete,
    /// Apex Terraces: each hit target pulsing green with the given period in
    /// milliseconds, in the order lower sling, left, upper right and lower
    /// right pop target; `None` for a target not hit yet.
    TargetPulses(Option<u64>, Option<u64>, Option<u64>, Option<u64>),
    /// Apex Terraces: the four targets flashing green three times.
    JackpotFlash,
    /// Nimbus Promenade: the lit pop, its target and the first `hits` lights
    /// of its ray pulsing magenta.
    PopPulse(crate::signals::PopBumper, u8),
    /// Nimbus Promenade: the whole machine flashing from magenta to red twice.
    NimbusCompleteFlash,
    /// Nimbus Promenade qualification: the first `count` spinner lights rotating.
    SpinnerProgress(u8),
    /// The active city region breathing white on the city map.
    RegionBreathe(crate::signals::MapRegion),
    /// City coverage: the white chase along an orbit's lane, asking for the orbit.
    OrbitLaneChase,
    /// City coverage: the circle lights blinking white in a shuffled order
    /// given by the seed, rotating, three times over.
    CircleShuffle(u64),
    /// City coverage: a bolt flashing white and cyan, asking for the scoop.
    HurryUpBoltFlash,
    /// Drop bank skill shot: the target's lights flashing purple to blue.
    DropTargetFlash(crate::signals::DropBankTarget),
    /// Drop bank skill shot: the three targets' lights rotating red to blue three times.
    DropBankRotate,
    /// Left outlane skill shot: the outlane and inlane lights flashing purple five times.
    LanesFlash,
    /// Left pop skill shot: the left spinner ray rotating red.
    LeftRayRotate,
    /// Left pop skill shot: the spinner rays and pop lights rotating red five times.
    PopsRaysRotate,
}

/// The shots that carry a hexagon of LEDs.
#[derive(Debug, Clone, Copy, PartialEq, Eq, Structural)]
pub enum HexTarget {
    LeftOrbit,
    DomeRamp,
    ArcRamp,
    CenterOrbit,
    LiftRamp,
    RightOrbit,
}

} // verus!
