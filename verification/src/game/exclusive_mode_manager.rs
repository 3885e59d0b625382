use vstd::prelude::*;
use crate::signals::{Action, MusicTrack};

verus! {

/// The exclusive modes known to the first-generation mode manager, with
/// `NoExclusive` standing for "no exclusive mode".
#[derive(Debug, Clone, Copy, PartialEq, Eq, Structural, Hash)]
pub enum ExclusiveMode {
    SolariumAtrium,
    HydroCore,
    SkyrailStation,
    MeridianBasins,
    SporeCountMultiball,
    Wizard,
    NoExclusive,
}

/// The music a mode has, if any: the default track for no mode and the
/// Hydro Core track; the others have none.
pub open spec fn mode_music(m: ExclusiveMode) -> Option<MusicTrack> {
    match m {
        ExclusiveMode::NoExclusive => Some(MusicTrack::Default),
        ExclusiveMode::HydroCore => Some(MusicTrack::HydroCore),
        _ => None,
    }
}

/// Crossfading to a mode's music, if it has any.
pub open spec fn crossfade_actions(m: ExclusiveMode) -> Seq<Action> {
    match mode_music(m) {
        Some(t) => seq![Action::PlayMusic(t, 1000)],
        None => seq![],
    }
}

/// The name of a mode as it reads in messages: the variant's name.
pub open spec fn mode_name(m: ExclusiveMode) -> Seq<char> {
    match m {
        ExclusiveMode::SolariumAtrium => "SolariumAtrium"@,
        ExclusiveMode::HydroCore => "HydroCore"@,
        ExclusiveMode::SkyrailStation => "SkyrailStation"@,
        ExclusiveMode::MeridianBasins => "MeridianBasins"@,
        ExclusiveMode::SporeCountMultiball => "SporeCountMultiball"@,
        ExclusiveMode::Wizard => "Wizard"@,
        ExclusiveMode::NoExclusive => "NoExclusive"@,
    }
}

/// The message of a refused `take_exclusive`, naming the mode asked for and
/// the mode that holds the playfield.
pub open spec fn already_exclusive_message(requested: ExclusiveMode, holder: ExclusiveMode) -> Seq<char> {
    "Cannot start "@ + mode_name(requested) + " because "@ + mode_name(holder) + " is already exclusive."@
}

/// The name of a mode, as `mode_name` gives it.
pub fn name_of(m: ExclusiveMode) -> (s: &'static str)
    ensures
        s@ == mode_name(m),
{
    match m {
        ExclusiveMode::SolariumAtrium => "SolariumAtrium",
        ExclusiveMode::HydroCore => "HydroCore",
        ExclusiveMode::SkyrailStation => "SkyrailStation",
        ExclusiveMode::MeridianBasins => "MeridianBasins",
        ExclusiveMode::SporeCountMultiball => "SporeCountMultiball",
        ExclusiveMode::Wizard => "Wizard",
        ExclusiveMode::NoExclusive => "NoExclusive",
    }
}

/// Builds the refusal message.
fn already_exclusive(requested: ExclusiveMode, holder: ExclusiveMode) -> (msg: String)
    ensures
        msg@ == already_exclusive_message(requested, holder),
{
    let mut msg = String::from_str("Cannot start ");
    msg.append(name_of(requested));
    msg.append(" because ");
    msg.append(name_of(holder));
    msg.append(" is already exclusive.");
    msg
}

/// The first-generation arbiter of the exclusive mode and its music.
pub struct ExclusiveModeManager {
    exclusive_mode: Option<ExclusiveMode>,
}

impl ExclusiveModeManager {
    pub closed spec fn mode(&self) -> Option<ExclusiveMode> {
        self.exclusive_mode
    }

    pub fn new() -> (m: Self)
        ensures
            m.mode().is_none(),
    {
        ExclusiveModeManager { exclusive_mode: None }
    }

    pub fn current_mode(&self) -> (m: &Option<ExclusiveMode>)
        ensures
            *m == self.mode(),
    {
        &self.exclusive_mode
    }

    fn crossfade_music(mode: &ExclusiveMode, acts: &mut Vec<Action>)
        ensures
            final(acts)@ == old(acts)@ + crossfade_actions(*mode),
    {
        let track = match mode {
            ExclusiveMode::NoExclusive => Some(MusicTrack::Default),
            ExclusiveMode::HydroCore => Some(MusicTrack::HydroCore),
            _ => None,
        };
        if let Some(t) = track {
            acts.push(Action::PlayMusic(t, 1000));
        }
        assert(final(acts)@ =~= old(acts)@ + crossfade_actions(*mode));
    }

    /// Gives the playfield to `mode` unless some mode already holds it.
    pub fn take_exclusive(&mut self, mode: ExclusiveMode, acts: &mut Vec<Action>) -> (r: Result<(), String>)
        ensures
            match old(self).mode() {
                Some(holder) => {
                    &&& r matches Err(msg) && msg@ == already_exclusive_message(mode, holder)
                    &&& final(self).mode() == old(self).mode()
                    &&& final(acts)@ == old(acts)@
                },
                None => {
                    &&& r is Ok
                    &&& final(self).mode() == Some(mode)
                    &&& final(acts)@ == old(acts)@ + crossfade_actions(mode)
                },
            },
    {
        if let Some(holder) = &self.exclusive_mode {
            Err(already_exclusive(mode, *holder))
        } else {
            Self::crossfade_music(&mode, acts);
            self.exclusive_mode = Some(mode);
            Ok(())
        }
    }

    /// Frees the playfield if `mode` holds it and goes back to the default music.
    pub fn release_exclusive(&mut self, mode: ExclusiveMode, acts: &mut Vec<Action>)
        ensures
            old(self).mode() == Some(mode) ==> final(self).mode().is_none() && final(acts)@ == old(acts)@.push(
                Action::PlayMusic(MusicTrack::Default, 1000),
            ),
            old(self).mode() != Some(mode) ==> final(self).mode() == old(self).mode() && final(acts)@ == old(acts)@,
    {
        let holds = match self.exclusive_mode {
            Some(m) => m == mode,
            None => false,
        };
        if holds {
            self.exclusive_mode = None;
            Self::crossfade_music(&ExclusiveMode::NoExclusive, acts);
            assert(final(acts)@ =~= old(acts)@.push(Action::PlayMusic(MusicTrack::Default, 1000)));
        }
    }

    /// Coming back into play restarts the music of the mode that holds the
    /// playfield, or the default track.
    pub fn on_reactivate(&self, acts: &mut Vec<Action>)
        requires
            match self.mode() {
                Some(m) => mode_music(m).is_some(),
                None => true,
            },
        ensures
            final(acts)@ == old(acts)@.push(Action::PlayMusic(
                match self.mode() {
                    Some(m) => mode_music(m)->0,
                    None => MusicTrack::Default,
                },
                500,
            )),
    {
        let track = match self.exclusive_mode {
            Some(ExclusiveMode::HydroCore) => MusicTrack::HydroCore,
            _ => MusicTrack::Default,
        };
        acts.push(Action::PlayMusic(track, 500));
    }

    /// Going out of play stops the music.
    pub fn on_deactivate(&self, acts: &mut Vec<Action>)
        ensures
            final(acts)@ == old(acts)@.push(Action::StopMusic(500)),
    {
        acts.push(Action::StopMusic(500));
    }
}

} // verus!
