use vstd::prelude::*;
use crate::signals::{Action, Coil, DriverSwitch, Signal};

verus! {

/// The coils the playfield hands to their switches once a game starts:
/// slingshots, flippers (main and hold windings), pops and the lower scoop.
pub open spec fn playfield_drivers() -> Seq<(Coil, DriverSwitch)> {
    seq![
        (Coil::LeftSling, DriverSwitch::LeftSling),
        (Coil::RightSling, DriverSwitch::RightSling),
        (Coil::LeftFlipperMain, DriverSwitch::LeftFlipper1),
        (Coil::LeftFlipperHold, DriverSwitch::LeftFlipper1),
        (Coil::RightFlipperMain, DriverSwitch::RightFlipper1),
        (Coil::RightFlipperHold, DriverSwitch::RightFlipper1),
        (Coil::UpperFlipperMain, DriverSwitch::RightFlipper2),
        (Coil::UpperFlipperHold, DriverSwitch::RightFlipper2),
        (Coil::LowerRightPop, DriverSwitch::LowerRightPopSpoon),
        (Coil::UpperRightPop, DriverSwitch::UpperRightPopSpoon),
        (Coil::LeftPop, DriverSwitch::LeftPopSpoon),
        (Coil::LowerScoop, DriverSwitch::LowerScoopOpto),
    ]
}

/// The drivers of the playfield and the switches that fire them.
pub fn activate_playfield() -> (v: Vec<(Coil, DriverSwitch)>)
    ensures
        v@ == playfield_drivers(),
{
    let v = vec![
        (Coil::LeftSling, DriverSwitch::LeftSling),
        (Coil::RightSling, DriverSwitch::RightSling),
        (Coil::LeftFlipperMain, DriverSwitch::LeftFlipper1),
        (Coil::LeftFlipperHold, DriverSwitch::LeftFlipper1),
        (Coil::RightFlipperMain, DriverSwitch::RightFlipper1),
        (Coil::RightFlipperHold, DriverSwitch::RightFlipper1),
        (Coil::UpperFlipperMain, DriverSwitch::RightFlipper2),
        (Coil::UpperFlipperHold, DriverSwitch::RightFlipper2),
        (Coil::LowerRightPop, DriverSwitch::LowerRightPopSpoon),
        (Coil::UpperRightPop, DriverSwitch::UpperRightPopSpoon),
        (Coil::LeftPop, DriverSwitch::LeftPopSpoon),
        (Coil::LowerScoop, DriverSwitch::LowerScoopOpto),
    ];
    assert(v@ =~= playfield_drivers());
    v
}

/// The drivers the older start-of-game system turns on: slingshots and
/// flippers, and the lower scoop on the action button for testing.
pub open spec fn game_start_drivers() -> Seq<Action> {
    seq![
        Action::ActivateDriver(Coil::LeftSling, DriverSwitch::LeftSling),
        Action::ActivateDriver(Coil::RightSling, DriverSwitch::RightSling),
        Action::ActivateDriver(Coil::LeftFlipperMain, DriverSwitch::LeftFlipper1),
        Action::ActivateDriver(Coil::LeftFlipperHold, DriverSwitch::LeftFlipper1),
        Action::ActivateDriver(Coil::RightFlipperMain, DriverSwitch::RightFlipper1),
        Action::ActivateDriver(Coil::RightFlipperHold, DriverSwitch::RightFlipper1),
        Action::ActivateDriver(Coil::UpperFlipperMain, DriverSwitch::RightFlipper2),
        Action::ActivateDriver(Coil::UpperFlipperHold, DriverSwitch::RightFlipper2),
        Action::ActivateDriver(Coil::LowerScoop, DriverSwitch::ActionButton),
    ]
}

/// Turns on the playfield drivers once the game starts.
pub struct ActivatePlayfield;

impl ActivatePlayfield {
    pub fn new() -> (a: Self) {
        ActivatePlayfield
    }

    pub fn on_event(&self, event: &Signal, acts: &mut Vec<Action>)
        ensures
            *event == Signal::GameStarted ==> final(acts)@ == old(acts)@ + game_start_drivers(),
            *event != Signal::GameStarted ==> final(acts)@ == old(acts)@,
    {
        if *event == Signal::GameStarted {
            acts.push(Action::ActivateDriver(Coil::LeftSling, DriverSwitch::LeftSling));
            acts.push(Action::ActivateDriver(Coil::RightSling, DriverSwitch::RightSling));
            acts.push(Action::ActivateDriver(Coil::LeftFlipperMain, DriverSwitch::LeftFlipper1));
            acts.push(Action::ActivateDriver(Coil::LeftFlipperHold, DriverSwitch::LeftFlipper1));
            acts.push(Action::ActivateDriver(Coil::RightFlipperMain, DriverSwitch::RightFlipper1));
            acts.push(Action::ActivateDriver(Coil::RightFlipperHold, DriverSwitch::RightFlipper1));
            acts.push(Action::ActivateDriver(Coil::UpperFlipperMain, DriverSwitch::RightFlipper2));
            acts.push(Action::ActivateDriver(Coil::UpperFlipperHold, DriverSwitch::RightFlipper2));
            acts.push(Action::ActivateDriver(Coil::LowerScoop, DriverSwitch::ActionButton));
            assert(final(acts)@ =~= old(acts)@ + game_start_drivers());
        }
    }
}

} // verus!
