use vstd::prelude::*;
use crate::game::exclusive_mode::ExclusiveMode;
use crate::signals::{Action, MapRegion, MusicTrack, NamedColor, Signal};

verus! {

/// The modes that may run beside others; each claims the music while active.
#[derive(Debug, Clone, Copy, PartialEq, Eq, Structural, Hash)]
pub enum NonExclusiveMode {
    NimbusPromenade,
    ApexTerraces,
}

/// Announces that an exclusive mode took the playfield.
#[derive(Debug, Clone, Copy, PartialEq, Eq, Structural)]
pub struct ExclusiveModeStarted(pub ExclusiveMode);

/// Announces that the exclusive mode gave the playfield back.
#[derive(Debug, Clone, Copy, PartialEq, Eq, Structural)]
pub struct ExclusiveModeEnded;

/// Arbitrates which exclusive mode holds the playfield, which mode's music
/// plays, and which modes the player completed.
pub struct ModeManager {
    exclusive_mode: Option<ExclusiveMode>,
    music_priority: Vec<NonExclusiveMode>,
    exclusive_completions: Vec<ExclusiveMode>,
    non_exclusive_completions: Vec<NonExclusiveMode>,
    current_music: Option<MusicTrack>,
}

/// The state of a `ModeManager`.
pub struct ModeManagerView {
    pub exclusive_mode: Option<ExclusiveMode>,
    /// Active non-exclusive modes, oldest first; the first one picks the music.
    pub music_priority: Seq<NonExclusiveMode>,
    pub exclusive_completions: Set<ExclusiveMode>,
    pub non_exclusive_completions: Set<NonExclusiveMode>,
    pub current_music: Option<MusicTrack>,
}

impl View for ModeManager {
    type V = ModeManagerView;

    closed spec fn view(&self) -> ModeManagerView {
        ModeManagerView {
            exclusive_mode: self.exclusive_mode,
            music_priority: self.music_priority@,
            exclusive_completions: self.exclusive_completions@.to_set(),
            non_exclusive_completions: self.non_exclusive_completions@.to_set(),
            current_music: self.current_music,
        }
    }
}

/// The music of an exclusive mode; the wizard mode has none of its own.
pub open spec fn exclusive_music(m: ExclusiveMode) -> MusicTrack {
    match m {
        ExclusiveMode::HydroCore => MusicTrack::HydroCore,
        ExclusiveMode::SkyrailStation => MusicTrack::SkyrailStation,
        ExclusiveMode::SolariumAtrium => MusicTrack::SolariumAtrium,
        ExclusiveMode::MeridianBasins => MusicTrack::MeridianBasins,
        ExclusiveMode::SporeMultiball => MusicTrack::SporeMultiball,
        ExclusiveMode::Wizard => MusicTrack::Default,
    }
}

/// The music of a non-exclusive mode; Apex Terraces has none of its own.
pub open spec fn non_exclusive_music(m: NonExclusiveMode) -> MusicTrack {
    match m {
        NonExclusiveMode::NimbusPromenade => MusicTrack::NimbusPromenade,
        NonExclusiveMode::ApexTerraces => MusicTrack::Default,
    }
}

/// The music that should play: the exclusive mode's, else the oldest active
/// non-exclusive mode's, else the default track.
pub open spec fn desired_music(v: ModeManagerView) -> MusicTrack {
    match v.exclusive_mode {
        Some(m) => exclusive_music(m),
        None => if v.music_priority.len() > 0 {
            non_exclusive_music(v.music_priority[0])
        } else {
            MusicTrack::Default
        },
    }
}

/// What crossfading asks of the sound system: nothing when the desired
/// track already plays.
pub open spec fn crossfade_actions(v: ModeManagerView) -> Seq<Action> {
    if v.current_music == Some(desired_music(v)) {
        seq![]
    } else {
        seq![Action::PlayMusic(desired_music(v), 750)]
    }
}

/// The state after crossfading to the desired track.
pub open spec fn after_crossfade(v: ModeManagerView) -> ModeManagerView {
    ModeManagerView { current_music: Some(desired_music(v)), ..v }
}

/// The state after `mode` gave the playfield back; unchanged unless it held it.
pub open spec fn released_exclusive(v: ModeManagerView, mode: ExclusiveMode) -> ModeManagerView {
    if v.exclusive_mode == Some(mode) {
        after_crossfade(ModeManagerView { exclusive_mode: None, ..v })
    } else {
        v
    }
}

pub open spec fn release_actions(v: ModeManagerView, mode: ExclusiveMode) -> Seq<Action> {
    if v.exclusive_mode == Some(mode) {
        crossfade_actions(ModeManagerView { exclusive_mode: None, ..v }) + seq![Action::EmitExclusiveModeEnded]
    } else {
        seq![]
    }
}

/// The state after `mode` was completed: released and recorded.
pub open spec fn completed_exclusive(v: ModeManagerView, mode: ExclusiveMode) -> ModeManagerView {
    let released = released_exclusive(v, mode);
    ModeManagerView { exclusive_completions: released.exclusive_completions.insert(mode), ..released }
}

pub open spec fn complete_exclusive_actions(v: ModeManagerView, mode: ExclusiveMode) -> Seq<Action> {
    release_actions(v, mode) + render_map_actions(completed_exclusive(v, mode))
}

/// The queue without `mode`, in order.
pub open spec fn without_mode(s: Seq<NonExclusiveMode>, mode: NonExclusiveMode) -> Seq<NonExclusiveMode> {
    s.filter(other_than(mode))
}

/// Holds of the modes other than `mode`.
pub open spec fn other_than(mode: NonExclusiveMode) -> spec_fn(NonExclusiveMode) -> bool {
    |m: NonExclusiveMode| m != mode
}

/// The state after non-exclusive `mode` stopped: out of the music queue,
/// with the music following.
pub open spec fn dropped_non_exclusive(v: ModeManagerView, mode: NonExclusiveMode) -> ModeManagerView {
    after_crossfade(ModeManagerView { music_priority: without_mode(v.music_priority, mode), ..v })
}

pub open spec fn drop_non_exclusive_actions(v: ModeManagerView, mode: NonExclusiveMode) -> Seq<Action> {
    crossfade_actions(ModeManagerView { music_priority: without_mode(v.music_priority, mode), ..v })
}

/// The state after non-exclusive `mode` was completed: dropped and recorded.
pub open spec fn completed_non_exclusive(v: ModeManagerView, mode: NonExclusiveMode) -> ModeManagerView {
    let dropped = dropped_non_exclusive(v, mode);
    ModeManagerView { non_exclusive_completions: dropped.non_exclusive_completions.insert(mode), ..dropped }
}

pub open spec fn complete_non_exclusive_actions(v: ModeManagerView, mode: NonExclusiveMode) -> Seq<Action> {
    drop_non_exclusive_actions(v, mode) + render_map_actions(completed_non_exclusive(v, mode))
}

/// The state after non-exclusive `mode` became active: queued for the music,
/// which switches to it only from the default track.
pub open spec fn activated_non_exclusive(v: ModeManagerView, mode: NonExclusiveMode) -> ModeManagerView {
    let queued = ModeManagerView { music_priority: v.music_priority.push(mode), ..v };
    if v.current_music == Some(MusicTrack::Default) {
        after_crossfade(queued)
    } else {
        queued
    }
}

pub open spec fn activate_non_exclusive_actions(v: ModeManagerView, mode: NonExclusiveMode) -> Seq<Action> {
    let queued = ModeManagerView { music_priority: v.music_priority.push(mode), ..v };
    if v.current_music == Some(MusicTrack::Default) {
        crossfade_actions(queued)
    } else {
        seq![]
    }
}

/// The state once the music stopped.
pub open spec fn music_stopped(v: ModeManagerView) -> ModeManagerView {
    ModeManagerView { current_music: None, ..v }
}

/// Lights each mode's region of the city map in its color once completed.
pub open spec fn render_map_actions(v: ModeManagerView) -> Seq<Action> {
    seq![
        Action::DeclareMapRegion(MapRegion::NimbusPromenade, if v.non_exclusive_completions.contains(NonExclusiveMode::NimbusPromenade) { NamedColor::Magenta } else { NamedColor::Off }),
        Action::DeclareMapRegion(MapRegion::ApexTerraces, if v.non_exclusive_completions.contains(NonExclusiveMode::ApexTerraces) { NamedColor::Green } else { NamedColor::Off }),
        Action::DeclareMapRegion(MapRegion::HydroCore, if v.exclusive_completions.contains(ExclusiveMode::HydroCore) { ExclusiveMode::HydroCore.spec_color() } else { NamedColor::Off }),
        Action::DeclareMapRegion(MapRegion::SkyrailStation, if v.exclusive_completions.contains(ExclusiveMode::SkyrailStation) { ExclusiveMode::SkyrailStation.spec_color() } else { NamedColor::Off }),
        Action::DeclareMapRegion(MapRegion::MeridianBasins, if v.exclusive_completions.contains(ExclusiveMode::MeridianBasins) { ExclusiveMode::MeridianBasins.spec_color() } else { NamedColor::Off }),
        Action::DeclareMapRegion(MapRegion::SolariumAtriums, if v.exclusive_completions.contains(ExclusiveMode::SolariumAtrium) { ExclusiveMode::SolariumAtrium.spec_color() } else { NamedColor::Off }),
    ]
}

/// The state once `mode` took a free playfield.
pub open spec fn taken_exclusive(v: ModeManagerView, mode: ExclusiveMode) -> ModeManagerView {
    after_crossfade(ModeManagerView { exclusive_mode: Some(mode), ..v })
}

/// A mode that took a free playfield and gives it back leaves the playfield
/// free again, the music queue and the completions as they were, and the
/// music the one the free playfield calls for.
pub proof fn lemma_take_then_release_frees(v: ModeManagerView, mode: ExclusiveMode)
    requires
        v.exclusive_mode.is_none(),
    ensures
        released_exclusive(taken_exclusive(v, mode), mode) == after_crossfade(v),
{
}

/// Only the holder releases the playfield: a release by any other mode
/// changes nothing and asks nothing.
pub proof fn lemma_release_by_other_is_noop(v: ModeManagerView, mode: ExclusiveMode)
    requires
        v.exclusive_mode != Some(mode),
    ensures
        released_exclusive(v, mode) == v,
        release_actions(v, mode) == Seq::<Action>::empty(),
{
}

/// Completions are never lost: completing a mode keeps every earlier
/// completion and adds the mode, exclusive or not.
pub proof fn lemma_completions_only_grow(v: ModeManagerView, e: ExclusiveMode, n: NonExclusiveMode)
    ensures
        completed_exclusive(v, e).exclusive_completions == v.exclusive_completions.insert(e),
        completed_exclusive(v, e).non_exclusive_completions == v.non_exclusive_completions,
        completed_non_exclusive(v, n).non_exclusive_completions == v.non_exclusive_completions.insert(n),
        completed_non_exclusive(v, n).exclusive_completions == v.exclusive_completions,
{
}

/// Crossfading is settled once done: a second crossfade asks nothing more.
pub proof fn lemma_crossfade_settles(v: ModeManagerView)
    ensures
        crossfade_actions(after_crossfade(v)) == Seq::<Action>::empty(),
        after_crossfade(after_crossfade(v)) == after_crossfade(v),
{
}

/// The music follows the oldest active non-exclusive mode: with no exclusive
/// mode, the track is Nimbus Promenade's when it heads the queue and the
/// default track when Apex Terraces does, whatever was queued after it, and
/// the default track with an empty queue. An exclusive mode's own track wins
/// over the queue.
pub proof fn lemma_music_follows_oldest(v: ModeManagerView, later: NonExclusiveMode)
    ensures
        v.exclusive_mode.is_none() && v.music_priority.len() > 0 ==> desired_music(
            ModeManagerView { music_priority: v.music_priority.push(later), ..v },
        ) == desired_music(v),
        v.exclusive_mode.is_none() && v.music_priority.len() > 0 && v.music_priority[0]
            == NonExclusiveMode::NimbusPromenade ==> desired_music(v) == MusicTrack::NimbusPromenade,
        v.exclusive_mode.is_none() && v.music_priority.len() > 0 && v.music_priority[0]
            == NonExclusiveMode::ApexTerraces ==> desired_music(v) == MusicTrack::Default,
        v.exclusive_mode.is_none() && v.music_priority.len() == 0 ==> desired_music(v) == MusicTrack::Default,
        v.exclusive_mode == Some(ExclusiveMode::HydroCore) ==> desired_music(v) == MusicTrack::HydroCore,
        v.exclusive_mode == Some(ExclusiveMode::SkyrailStation) ==> desired_music(v) == MusicTrack::SkyrailStation,
        v.exclusive_mode == Some(ExclusiveMode::SolariumAtrium) ==> desired_music(v) == MusicTrack::SolariumAtrium,
        v.exclusive_mode == Some(ExclusiveMode::MeridianBasins) ==> desired_music(v) == MusicTrack::MeridianBasins,
        v.exclusive_mode == Some(ExclusiveMode::SporeMultiball) ==> desired_music(v) == MusicTrack::SporeMultiball,
        v.exclusive_mode == Some(ExclusiveMode::Wizard) ==> desired_music(v) == MusicTrack::Default,
{
}

/// Giving the playfield back hands the music to the oldest active
/// non-exclusive mode: with Nimbus Promenade heading the queue and its track
/// not already playing, the release crossfades to it, then announces the end.
pub proof fn lemma_release_returns_to_oldest(v: ModeManagerView, mode: ExclusiveMode)
    requires
        v.exclusive_mode == Some(mode),
        v.music_priority.len() > 0,
        v.music_priority[0] == NonExclusiveMode::NimbusPromenade,
        v.current_music != Some(MusicTrack::NimbusPromenade),
    ensures
        release_actions(v, mode) == seq![
            Action::PlayMusic(MusicTrack::NimbusPromenade, 750),
            Action::EmitExclusiveModeEnded,
        ],
        released_exclusive(v, mode).current_music == Some(MusicTrack::NimbusPromenade),
        released_exclusive(v, mode).exclusive_mode.is_none(),
{
    assert(release_actions(v, mode) =~= seq![
        Action::PlayMusic(MusicTrack::NimbusPromenade, 750),
        Action::EmitExclusiveModeEnded,
    ]);
}

/// The name of a mode as it reads in messages: the variant's name.
pub open spec fn mode_name(m: ExclusiveMode) -> Seq<char> {
    match m {
        ExclusiveMode::SolariumAtrium => "SolariumAtrium"@,
        ExclusiveMode::HydroCore => "HydroCore"@,
        ExclusiveMode::SkyrailStation => "SkyrailStation"@,
        ExclusiveMode::MeridianBasins => "MeridianBasins"@,
        ExclusiveMode::SporeMultiball => "SporeMultiball"@,
        ExclusiveMode::Wizard => "Wizard"@,
    }
}

/// The message of a refused `take_exclusive`, naming the mode asked for and
/// the mode that holds the playfield.
pub open spec fn exclusive_conflict_message(requested: ExclusiveMode, holder: ExclusiveMode) -> Seq<char> {
    "Cannot start "@ + mode_name(requested) + " because "@ + mode_name(holder) + " already has exclusive."@
}

/// The name of a mode, as `mode_name` gives it.
pub fn name_of(m: ExclusiveMode) -> (s: &'static str)
    ensures
        s@ == mode_name(m),
{
    match m {
        ExclusiveMode::SolariumAtrium => "SolariumAtrium",
        ExclusiveMode::HydroCore => "HydroCore",
        ExclusiveMode::SkyrailStation => "SkyrailStation",
        ExclusiveMode::MeridianBasins => "MeridianBasins",
        ExclusiveMode::SporeMultiball => "SporeMultiball",
        ExclusiveMode::Wizard => "Wizard",
    }
}

/// Builds the refusal message.
fn conflict_message(requested: ExclusiveMode, holder: ExclusiveMode) -> (msg: String)
    ensures
        msg@ == exclusive_conflict_message(requested, holder),
{
    let mut msg = String::from_str("Cannot start ");
    msg.append(name_of(requested));
    msg.append(" because ");
    msg.append(name_of(holder));
    msg.append(" already has exclusive.");
    msg
}

impl ModeManager {
    pub fn new() -> (m: Self)
        ensures
            m@.exclusive_mode.is_none(),
            m@.music_priority == Seq::<NonExclusiveMode>::empty(),
            m@.exclusive_completions == Set::<ExclusiveMode>::empty(),
            m@.non_exclusive_completions == Set::<NonExclusiveMode>::empty(),
            m@.current_music.is_none(),
    {
        let m = ModeManager {
            exclusive_mode: None,
            music_priority: Vec::new(),
            exclusive_completions: Vec::new(),
            non_exclusive_completions: Vec::new(),
            current_music: None,
        };
        proof {
            assert(m.exclusive_completions@.to_set() =~= Set::<ExclusiveMode>::empty());
            assert(m.non_exclusive_completions@.to_set() =~= Set::<NonExclusiveMode>::empty());
        }
        m
    }

    /// The exclusive mode that holds the playfield, if any.
    pub fn current_mode(&self) -> (m: &Option<ExclusiveMode>)
        ensures
            *m == self@.exclusive_mode,
    {
        &self.exclusive_mode
    }

    /// Plays the desired track unless it already plays.
    fn crossfade_music(&mut self, acts: &mut Vec<Action>)
        ensures
            final(self)@ == after_crossfade(old(self)@),
            final(acts)@ == old(acts)@ + crossfade_actions(old(self)@),
    {
        let track = match (&self.exclusive_mode, self.music_priority.len() > 0) {
            (Some(m), _) => match m {
                ExclusiveMode::HydroCore => MusicTrack::HydroCore,
                ExclusiveMode::SkyrailStation => MusicTrack::SkyrailStation,
                ExclusiveMode::SolariumAtrium => MusicTrack::SolariumAtrium,
                ExclusiveMode::MeridianBasins => MusicTrack::MeridianBasins,
                ExclusiveMode::SporeMultiball => MusicTrack::SporeMultiball,
                ExclusiveMode::Wizard => MusicTrack::Default,
            },
            (None, true) => match self.music_priority[0] {
                NonExclusiveMode::NimbusPromenade => MusicTrack::NimbusPromenade,
                NonExclusiveMode::ApexTerraces => MusicTrack::Default,
            },
            (None, false) => MusicTrack::Default,
        };
        let already_playing = match self.current_music {
            Some(p) => p == track,
            None => false,
        };
        if !already_playing {
            self.current_music = Some(track);
            acts.push(Action::PlayMusic(track, 750));
        }
        proof {
            if already_playing {
                assert(crossfade_actions(old(self)@) =~= seq![]);
            }
        }
    }

    fn stop_music(&mut self, acts: &mut Vec<Action>)
        ensures
            final(self)@ == music_stopped(old(self)@),
            final(acts)@ == old(acts)@.push(Action::StopMusic(500)),
    {
        acts.push(Action::StopMusic(500));
        self.current_music = None;
    }

    fn render_map(&self, acts: &mut Vec<Action>)
        ensures
            final(acts)@ == old(acts)@ + render_map_actions(self@),
    {
        let nimbus = if contains_non_exclusive(&self.non_exclusive_completions, NonExclusiveMode::NimbusPromenade) {
            NamedColor::Magenta
        } else {
            NamedColor::Off
        };
        let apex = if contains_non_exclusive(&self.non_exclusive_completions, NonExclusiveMode::ApexTerraces) {
            NamedColor::Green
        } else {
            NamedColor::Off
        };
        let hydro = self.exclusive_region_color(ExclusiveMode::HydroCore);
        let skyrail = self.exclusive_region_color(ExclusiveMode::SkyrailStation);
        let meridian = self.exclusive_region_color(ExclusiveMode::MeridianBasins);
        let solarium = self.exclusive_region_color(ExclusiveMode::SolariumAtrium);
        acts.push(Action::DeclareMapRegion(MapRegion::NimbusPromenade, nimbus));
        acts.push(Action::DeclareMapRegion(MapRegion::ApexTerraces, apex));
        acts.push(Action::DeclareMapRegion(MapRegion::HydroCore, hydro));
        acts.push(Action::DeclareMapRegion(MapRegion::SkyrailStation, skyrail));
        acts.push(Action::DeclareMapRegion(MapRegion::MeridianBasins, meridian));
        acts.push(Action::DeclareMapRegion(MapRegion::SolariumAtriums, solarium));
        proof {
            assert(final(acts)@ =~= old(acts)@ + render_map_actions(self@));
        }
    }

    fn exclusive_region_color(&self, mode: ExclusiveMode) -> (c: NamedColor)
        ensures
            c == if self@.exclusive_completions.contains(mode) { mode.spec_color() } else { NamedColor::Off },
    {
        if contains_exclusive(&self.exclusive_completions, mode) {
            mode.color()
        } else {
            NamedColor::Off
        }
    }

    /// Gives the playfield to `mode` unless another exclusive mode holds it.
    pub fn take_exclusive(&mut self, mode: ExclusiveMode, acts: &mut Vec<Action>) -> (r: Result<(), String>)
        ensures
            match old(self)@.exclusive_mode {
                Some(holder) => {
                    &&& r matches Err(msg) && msg@ == exclusive_conflict_message(mode, holder)
                    &&& final(self)@ == old(self)@
                    &&& final(acts)@ == old(acts)@
                },
                None => {
                    let taken = ModeManagerView { exclusive_mode: Some(mode), ..old(self)@ };
                    &&& r is Ok
                    &&& final(self)@ == after_crossfade(taken)
                    &&& final(acts)@ == old(acts)@ + crossfade_actions(taken)
                        + seq![Action::EmitExclusiveModeStarted(mode)]
                },
            },
    {
        if let Some(existing) = &self.exclusive_mode {
            Err(conflict_message(mode, *existing))
        } else {
            self.exclusive_mode = Some(mode);
            self.crossfade_music(acts);
            acts.push(Action::EmitExclusiveModeStarted(mode));
            proof {
                let taken = ModeManagerView { exclusive_mode: Some(mode), ..old(self)@ };
                assert(final(acts)@ =~= old(acts)@ + crossfade_actions(taken)
                    + seq![Action::EmitExclusiveModeStarted(mode)]);
            }
            Ok(())
        }
    }

    /// Frees the playfield if `mode` holds it; does nothing otherwise.
    pub fn release_exclusive(&mut self, mode: &ExclusiveMode, acts: &mut Vec<Action>)
        ensures
            final(self)@ == released_exclusive(old(self)@, *mode),
            final(acts)@ == old(acts)@ + release_actions(old(self)@, *mode),
    {
        let holds = match &self.exclusive_mode {
            Some(m) => *m == *mode,
            None => false,
        };
        if holds {
            self.exclusive_mode = None;
            self.crossfade_music(acts);
            acts.push(Action::EmitExclusiveModeEnded);
            proof {
                let released = ModeManagerView { exclusive_mode: None, ..old(self)@ };
                assert(final(acts)@ =~= old(acts)@ + crossfade_actions(released)
                    + seq![Action::EmitExclusiveModeEnded]);
            }
        } else {
            assert(final(acts)@ =~= old(acts)@ + release_actions(old(self)@, *mode));
        }
    }

    /// Releases `mode`, records it as completed and redraws the city map.
    pub fn complete_exclusive(&mut self, mode: ExclusiveMode, acts: &mut Vec<Action>)
        ensures
            final(self)@ == completed_exclusive(old(self)@, mode),
            final(acts)@ == old(acts)@ + complete_exclusive_actions(old(self)@, mode),
    {
        let ghost acts0 = acts@;
        self.release_exclusive(&mode, acts);
        let ghost mid = self@;
        let ghost acts1 = acts@;
        insert_exclusive(&mut self.exclusive_completions, mode);
        self.render_map(acts);
        proof {
            assert(self@ == ModeManagerView { exclusive_completions: mid.exclusive_completions.insert(mode), ..mid });
            assert(final(acts)@ =~= old(acts)@ + complete_exclusive_actions(old(self)@, mode));
        }
    }

    /// Puts `mode` at the back of the music queue; its music starts only if
    /// the default track was playing.
    pub fn non_exclusive_active(&mut self, mode: NonExclusiveMode, acts: &mut Vec<Action>)
        ensures
            final(self)@ == activated_non_exclusive(old(self)@, mode),
            final(acts)@ == old(acts)@ + activate_non_exclusive_actions(old(self)@, mode),
    {
        self.music_priority.push(mode);
        if self.is_default_music_playing() {
            self.crossfade_music(acts);
        } else {
            assert(final(acts)@ =~= old(acts)@ + activate_non_exclusive_actions(old(self)@, mode));
        }
    }

    /// Drops `mode` from the music queue and crossfades to what should play.
    pub fn non_exclusive_inactive(&mut self, mode: &NonExclusiveMode, acts: &mut Vec<Action>)
        ensures
            final(self)@ == dropped_non_exclusive(old(self)@, *mode),
            final(acts)@ == old(acts)@ + drop_non_exclusive_actions(old(self)@, *mode),
    {
        let kept = remove_non_exclusive(&self.music_priority, *mode);
        self.music_priority = kept;
        self.crossfade_music(acts);
    }

    /// Ends `mode`, records it as completed and redraws the city map.
    pub fn complete_non_exclusive(&mut self, mode: NonExclusiveMode, acts: &mut Vec<Action>)
        ensures
            final(self)@ == completed_non_exclusive(old(self)@, mode),
            final(acts)@ == old(acts)@ + complete_non_exclusive_actions(old(self)@, mode),
    {
        self.non_exclusive_inactive(&mode, acts);
        let ghost mid = self@;
        insert_non_exclusive(&mut self.non_exclusive_completions, mode);
        self.render_map(acts);
        proof {
            assert(self@ == ModeManagerView { non_exclusive_completions: mid.non_exclusive_completions.insert(mode), ..mid });
            assert(final(acts)@ =~= old(acts)@ + complete_non_exclusive_actions(old(self)@, mode));
        }
    }

    fn is_default_music_playing(&self) -> (b: bool)
        ensures
            b == (self@.current_music == Some(MusicTrack::Default)),
    {
        match self.current_music {
            Some(p) => p == MusicTrack::Default,
            None => false,
        }
    }

    /// A turn starting brings the music back; a turn ending stops it.
    pub fn on_event(&mut self, event: &Signal, acts: &mut Vec<Action>)
        ensures
            *event == Signal::PlayerTurnBeginning ==> {
                &&& final(self)@ == after_crossfade(old(self)@)
                &&& final(acts)@ == old(acts)@ + crossfade_actions(old(self)@)
            },
            *event == Signal::PlayerTurnEnding ==> {
                &&& final(self)@ == music_stopped(old(self)@)
                &&& final(acts)@ == old(acts)@.push(Action::StopMusic(500))
            },
            *event != Signal::PlayerTurnBeginning && *event != Signal::PlayerTurnEnding ==> {
                &&& final(self)@ == old(self)@
                &&& final(acts)@ == old(acts)@
            },
    {
        match event {
            Signal::PlayerTurnBeginning => self.crossfade_music(acts),
            Signal::PlayerTurnEnding => self.stop_music(acts),
            _ => {},
        }
    }

    /// Coming back into play redraws the city map.
    pub fn on_reactivate(&self, acts: &mut Vec<Action>)
        ensures
            final(acts)@ == old(acts)@ + render_map_actions(self@),
    {
        self.render_map(acts);
    }

    /// Leaving play stops the music.
    pub fn on_despawn(&mut self, acts: &mut Vec<Action>)
        ensures
            final(self)@ == music_stopped(old(self)@),
            final(acts)@ == old(acts)@.push(Action::StopMusic(500)),
    {
        self.stop_music(acts);
    }
}

fn contains_exclusive(v: &Vec<ExclusiveMode>, m: ExclusiveMode) -> (r: bool)
    ensures
        r == v@.to_set().contains(m),
{
    let mut i: usize = 0;
    while i < v.len()
        invariant
            0 <= i <= v@.len(),
            forall|j: int| 0 <= j < i ==> v@[j] != m,
        decreases v@.len() - i,
    {
        if v[i] == m {
            assert(v@.contains(m));
            return true;
        }
        i = i + 1;
    }
    false
}

fn contains_non_exclusive(v: &Vec<NonExclusiveMode>, m: NonExclusiveMode) -> (r: bool)
    ensures
        r == v@.to_set().contains(m),
{
    let mut i: usize = 0;
    while i < v.len()
        invariant
            0 <= i <= v@.len(),
            forall|j: int| 0 <= j < i ==> v@[j] != m,
        decreases v@.len() - i,
    {
        if v[i] == m {
            assert(v@.contains(m));
            return true;
        }
        i = i + 1;
    }
    false
}

fn insert_exclusive(v: &mut Vec<ExclusiveMode>, m: ExclusiveMode)
    ensures
        final(v)@.to_set() == old(v)@.to_set().insert(m),
{
    if !contains_exclusive(v, m) {
        v.push(m);
        proof {
            assert(v@.to_set() =~= old(v)@.to_set().insert(m)) by {
                assert forall|x: ExclusiveMode| v@.contains(x) <==> (old(v)@.contains(x) || x == m) by {
                    if old(v)@.contains(x) {
                        let k = choose|k: int| 0 <= k < old(v)@.len() && old(v)@[k] == x;
                        assert(v@[k] == x);
                    }
                    if x == m {
                        assert(v@[v@.len() - 1] == x);
                    }
                    if v@.contains(x) && x != m {
                        let k = choose|k: int| 0 <= k < v@.len() && v@[k] == x;
                        assert(old(v)@[k] == x);
                    }
                }
            }
        }
    } else {
        assert(v@.to_set() =~= old(v)@.to_set().insert(m));
    }
}

fn insert_non_exclusive(v: &mut Vec<NonExclusiveMode>, m: NonExclusiveMode)
    ensures
        final(v)@.to_set() == old(v)@.to_set().insert(m),
{
    if !contains_non_exclusive(v, m) {
        v.push(m);
        proof {
            assert(v@.to_set() =~= old(v)@.to_set().insert(m)) by {
                assert forall|x: NonExclusiveMode| v@.contains(x) <==> (old(v)@.contains(x) || x == m) by {
                    if old(v)@.contains(x) {
                        let k = choose|k: int| 0 <= k < old(v)@.len() && old(v)@[k] == x;
                        assert(v@[k] == x);
                    }
                    if x == m {
                        assert(v@[v@.len() - 1] == x);
                    }
                    if v@.contains(x) && x != m {
                        let k = choose|k: int| 0 <= k < v@.len() && v@[k] == x;
                        assert(old(v)@[k] == x);
                    }
                }
            }
        }
    } else {
        assert(v@.to_set() =~= old(v)@.to_set().insert(m));
    }
}

/// `v` without the occurrences of `m`, in order.
fn remove_non_exclusive(v: &Vec<NonExclusiveMode>, m: NonExclusiveMode) -> (r: Vec<NonExclusiveMode>)
    ensures
        r@ == without_mode(v@, m),
{
    let ghost pred = other_than(m);
    let mut r: Vec<NonExclusiveMode> = Vec::new();
    let mut i: usize = 0;
    while i < v.len()
        invariant
            0 <= i <= v@.len(),
            pred == other_than(m),
            r@ == v@.take(i as int).filter(pred),
        decreases v@.len() - i,
    {
        let ghost t = v@.take(i + 1);
        assert(t.drop_last() =~= v@.take(i as int));
        assert(t.filter(pred) == if pred(t.last()) {
            t.drop_last().filter(pred).push(t.last())
        } else {
            t.drop_last().filter(pred)
        }) by {
            reveal_with_fuel(Seq::<_>::filter, 1);
        }
        if v[i] != m {
            r.push(v[i]);
        }
        i = i + 1;
    }
    assert(v@.take(v@.len() as int) =~= v@);
    r
}

} // verus!
