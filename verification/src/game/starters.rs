use vstd::prelude::*;
use crate::effects::EffectSpec;
use crate::game::exclusive_mode::ExclusiveMode;
use crate::signals::{Action, NamedColor, Signal, Sound, SystemKind};

verus! {

/// How a qualified exclusive mode starts: its start sound, the mode, its
/// color, and what starting it does.
pub trait ExclusiveModeStarter {
    spec fn spec_start_sound() -> Sound;

    spec fn spec_mode() -> ExclusiveMode;

    spec fn spec_mode_color() -> NamedColor;

    spec fn spec_start_actions() -> Seq<Action>;

    fn start_sound() -> (s: Sound)
        ensures
            s == Self::spec_start_sound(),
    ;

    fn mode() -> (m: ExclusiveMode)
        ensures
            m == Self::spec_mode(),
    ;

    fn mode_color() -> (c: NamedColor)
        ensures
            c == Self::spec_mode_color(),
    ;

    fn on_start(acts: &mut Vec<Action>)
        ensures
            final(acts)@ == old(acts)@ + Self::spec_start_actions(),
    ;
}

/// Starts Hydro Core from the lower scoop.
pub struct HydroCoreStarter;

impl ExclusiveModeStarter for HydroCoreStarter {
    open spec fn spec_start_sound() -> Sound {
        Sound::HydroCoreOnline
    }

    open spec fn spec_mode() -> ExclusiveMode {
        ExclusiveMode::HydroCore
    }

    open spec fn spec_mode_color() -> NamedColor {
        NamedColor::Cyan
    }

    open spec fn spec_start_actions() -> Seq<Action> {
        seq![Action::ReplaceSelf(SystemKind::HydroCoreMode)]
    }

    fn start_sound() -> (s: Sound) {
        Sound::HydroCoreOnline
    }

    fn mode() -> (m: ExclusiveMode) {
        ExclusiveMode::HydroCore
    }

    fn mode_color() -> (c: NamedColor) {
        NamedColor::Cyan
    }

    /// The mode takes the starter's place.
    fn on_start(acts: &mut Vec<Action>) {
        acts.push(Action::ReplaceSelf(SystemKind::HydroCoreMode));
        assert(final(acts)@ =~= old(acts)@ + seq![Action::ReplaceSelf(SystemKind::HydroCoreMode)]);
    }
}

impl HydroCoreStarter {
    /// A ball in the lower scoop starts the mode.
    pub fn is_startable_event(event: &Signal) -> (b: bool)
        ensures
            b == (*event == Signal::LowerScoopBallEnter),
    {
        *event == Signal::LowerScoopBallEnter
    }

    /// The scoop's bolts, the arc ramp's hex center and the subway flashing
    /// the mode's color.
    pub fn attention_effect() -> (e: EffectSpec)
        ensures
            e == EffectSpec::StartableAttention(ExclusiveMode::HydroCore),
    {
        EffectSpec::StartableAttention(ExclusiveMode::HydroCore)
    }

    /// The playfield washing from the mode's color to dark.
    pub fn hit_effect() -> (e: EffectSpec)
        ensures
            e == EffectSpec::StartableHit(ExclusiveMode::HydroCore),
    {
        EffectSpec::StartableHit(ExclusiveMode::HydroCore)
    }
}

/// Starts Skyrail Station from the lift ramp. It announces itself with the
/// Hydro Core sound and mode, and starting it does nothing yet.
pub struct SkyrailStationStarter;

impl ExclusiveModeStarter for SkyrailStationStarter {
    open spec fn spec_start_sound() -> Sound {
        Sound::HydroCoreOnline
    }

    open spec fn spec_mode() -> ExclusiveMode {
        ExclusiveMode::HydroCore
    }

    open spec fn spec_mode_color() -> NamedColor {
        NamedColor::Blue
    }

    open spec fn spec_start_actions() -> Seq<Action> {
        seq![]
    }

    fn start_sound() -> (s: Sound) {
        Sound::HydroCoreOnline
    }

    fn mode() -> (m: ExclusiveMode) {
        ExclusiveMode::HydroCore
    }

    fn mode_color() -> (c: NamedColor) {
        NamedColor::Blue
    }

    fn on_start(acts: &mut Vec<Action>) {
    }
}

} // verus!
