use vstd::prelude::*;
use crate::signals::{Action, NamedColor, Sound, SystemKind};

verus! {

/// The modes of which at most one runs at a time.
#[derive(Debug, Clone, Copy, PartialEq, Eq, Structural, Hash)]
pub enum ExclusiveMode {
    SolariumAtrium,
    HydroCore,
    SkyrailStation,
    MeridianBasins,
    SporeMultiball,
    Wizard,
}

impl ExclusiveMode {
    /// The sound played when the mode starts.
    pub open spec fn spec_start_sound(self) -> Sound {
        match self {
            ExclusiveMode::HydroCore => Sound::HydroCoreOnline,
            _ => Sound::ArpHit1,
        }
    }

    /// The color that stands for the mode.
    pub open spec fn spec_color(self) -> NamedColor {
        match self {
            ExclusiveMode::HydroCore => NamedColor::Cyan,
            ExclusiveMode::SkyrailStation => NamedColor::Blue,
            ExclusiveMode::SolariumAtrium => NamedColor::Purple,
            ExclusiveMode::MeridianBasins => NamedColor::Orange,
            ExclusiveMode::SporeMultiball => NamedColor::Yellow,
            ExclusiveMode::Wizard => NamedColor::Red,
        }
    }

    /// Whether a mode system exists that starting the mode spawns.
    pub open spec fn has_mode_system(self) -> bool {
        match self {
            ExclusiveMode::SporeMultiball | ExclusiveMode::Wizard => false,
            _ => true,
        }
    }

    /// The system that runs the mode.
    pub open spec fn mode_system(self) -> SystemKind {
        match self {
            ExclusiveMode::HydroCore => SystemKind::HydroCoreMode,
            ExclusiveMode::SkyrailStation => SystemKind::SkyrailStationMode,
            ExclusiveMode::SolariumAtrium => SystemKind::SolariumAtriumMode,
            _ => SystemKind::MeridianBasinsMode,
        }
    }

    pub fn start_sound(&self) -> (s: Sound)
        ensures
            s == self.spec_start_sound(),
    {
        match self {
            ExclusiveMode::HydroCore => Sound::HydroCoreOnline,
            _ => Sound::ArpHit1,
        }
    }

    pub fn color(&self) -> (c: NamedColor)
        ensures
            c == self.spec_color(),
    {
        match self {
            ExclusiveMode::HydroCore => NamedColor::Cyan,
            ExclusiveMode::SkyrailStation => NamedColor::Blue,
            ExclusiveMode::SolariumAtrium => NamedColor::Purple,
            ExclusiveMode::MeridianBasins => NamedColor::Orange,
            ExclusiveMode::SporeMultiball => NamedColor::Yellow,
            ExclusiveMode::Wizard => NamedColor::Red,
        }
    }

    /// Spawns the system that runs the mode.
    pub fn start(&self, acts: &mut Vec<Action>)
        requires
            self.has_mode_system(),
        ensures
            final(acts)@ == old(acts)@.push(Action::Spawn(self.mode_system())),
    {
        let kind = match self {
            ExclusiveMode::HydroCore => SystemKind::HydroCoreMode,
            ExclusiveMode::SkyrailStation => SystemKind::SkyrailStationMode,
            ExclusiveMode::SolariumAtrium => SystemKind::SolariumAtriumMode,
            _ => SystemKind::MeridianBasinsMode,
        };
        acts.push(Action::Spawn(kind));
    }
}

} // verus!
