use vstd::prelude::*;
use crate::game::exclusive_mode::ExclusiveMode;
use crate::signals::{Action, LedTarget, NamedColor, Signal};

verus! {

/// The color of the arc ramp's lights.
#[derive(Debug, Clone, Copy, PartialEq, Eq, Structural)]
pub enum IlluminationColor {
    White,
    /// The color of a mode, lightened.
    ModeTint(ExclusiveMode),
}

/// The general illumination: white, with the arc ramp in the tint of the
/// running mode.
pub struct PlayfieldIllumination {
    color: IlluminationColor,
    update: bool,
}

pub struct PlayfieldIlluminationView {
    pub color: IlluminationColor,
    /// The lights are to be declared on the next render.
    pub update: bool,
}

impl View for PlayfieldIllumination {
    type V = PlayfieldIlluminationView;

    closed spec fn view(&self) -> PlayfieldIlluminationView {
        PlayfieldIlluminationView { color: self.color, update: self.update }
    }
}

pub open spec fn arc_light_action(target: LedTarget, color: IlluminationColor) -> Action {
    match color {
        IlluminationColor::White => Action::DeclareLeds(target, NamedColor::White),
        IlluminationColor::ModeTint(m) => Action::DeclareLedsLightened(target, m),
    }
}

impl PlayfieldIllumination {
    pub fn new() -> (p: Self)
        ensures
            p@ == (PlayfieldIlluminationView { color: IlluminationColor::White, update: true }),
    {
        PlayfieldIllumination { color: IlluminationColor::White, update: true }
    }

    pub fn set_color(&mut self, color: IlluminationColor)
        ensures
            final(self)@ == (PlayfieldIlluminationView { color, update: true }),
    {
        self.color = color;
        self.update = true;
    }

    pub fn clear_color(&mut self)
        ensures
            final(self)@ == (PlayfieldIlluminationView { color: IlluminationColor::White, update: true }),
    {
        self.color = IlluminationColor::White;
        self.update = true;
    }

    /// A mode starting tints the arc ramp.
    pub fn on_event(&mut self, event: &Signal)
        ensures
            match *event {
                Signal::ExclusiveModeStarted(m) => final(self)@ == (PlayfieldIlluminationView {
                    color: IlluminationColor::ModeTint(m),
                    update: true,
                }),
                _ => final(self)@ == old(self)@,
            },
    {
        if let Signal::ExclusiveModeStarted(m) = event {
            self.set_color(IlluminationColor::ModeTint(*m));
        }
    }

    /// Declares the lights while an update is pending; the flag is never
    /// cleared, so every render declares them.
    pub fn on_render(&self, acts: &mut Vec<Action>)
        ensures
            self@.update ==> final(acts)@ == old(acts)@ + seq![
                Action::DeclareLeds(LedTarget::GeneralIllumination, NamedColor::White),
                arc_light_action(LedTarget::ArcRampArc, self@.color),
                arc_light_action(LedTarget::ArcRampSubway, self@.color),
            ],
            !self@.update ==> final(acts)@ == old(acts)@,
    {
        if self.update {
            acts.push(Action::DeclareLeds(LedTarget::GeneralIllumination, NamedColor::White));
            acts.push(Self::arc_light(LedTarget::ArcRampArc, self.color));
            acts.push(Self::arc_light(LedTarget::ArcRampSubway, self.color));
            assert(final(acts)@ =~= old(acts)@ + seq![
                Action::DeclareLeds(LedTarget::GeneralIllumination, NamedColor::White),
                arc_light_action(LedTarget::ArcRampArc, self@.color),
                arc_light_action(LedTarget::ArcRampSubway, self@.color),
            ]);
        }
    }

    fn arc_light(target: LedTarget, color: IlluminationColor) -> (a: Action)
        ensures
            a == arc_light_action(target, color),
    {
        match color {
            IlluminationColor::White => Action::DeclareLeds(target, NamedColor::White),
            IlluminationColor::ModeTint(m) => Action::DeclareLedsLightened(target, m),
        }
    }
}

} // verus!
