use vstd::prelude::*;
use crate::signals::{Action, Signal};

verus! {

/// Points for a slingshot.
pub const SLINGSHOT_PTS: u32 = 100;
/// Points for any other playfield switch.
pub const PLAYFIELD_PTS: u32 = 10;

/// A few points for the ball bouncing around.
pub struct BasicPoints;

/// The points a switch gives: slingshots more than other playfield switches.
pub open spec fn switch_points(event: Signal) -> Option<u32> {
    match event {
        Signal::Switch(sw) => if sw.slingshot {
            Some(SLINGSHOT_PTS)
        } else if sw.playfield {
            Some(PLAYFIELD_PTS)
        } else {
            None
        },
        _ => None,
    }
}

impl BasicPoints {
    pub fn new() -> (b: Self) {
        BasicPoints
    }

    pub fn on_event(&self, event: &Signal, acts: &mut Vec<Action>)
        ensures
            match switch_points(*event) {
                Some(p) => final(acts)@ == old(acts)@.push(Action::AddPoints(p)),
                None => final(acts)@ == old(acts)@,
            },
    {
        if let Signal::Switch(sw) = event {
            if sw.slingshot {
                acts.push(Action::AddPoints(SLINGSHOT_PTS));
            } else if sw.playfield {
                acts.push(Action::AddPoints(PLAYFIELD_PTS));
            }
        }
    }
}

} // verus!
