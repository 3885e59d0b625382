use vstd::prelude::*;

verus! {

/// The screens shown on the dot-matrix display while the machine is idle.
#[derive(Debug, Clone, Copy, PartialEq, Eq, Structural)]
pub enum AttractDmdScreen {
    Spore,
    LastScores(usize),
    PressStart,
    NeonBluePinball,
    FastFrontboxLogos,
}

impl AttractDmdScreen {
    /// The fixed rotation order of the attract screens.
    pub open spec fn ordered_seq() -> Seq<AttractDmdScreen> {
        seq![
            AttractDmdScreen::NeonBluePinball,
            AttractDmdScreen::Spore,
            AttractDmdScreen::LastScores(0),
            AttractDmdScreen::LastScores(1),
            AttractDmdScreen::PressStart,
            AttractDmdScreen::LastScores(2),
            AttractDmdScreen::LastScores(3),
            AttractDmdScreen::FastFrontboxLogos,
        ]
    }

    /// Position of a screen in the rotation, or -1 for a screen outside it.
    pub open spec fn order_index(self) -> int {
        match self {
            AttractDmdScreen::NeonBluePinball => 0,
            AttractDmdScreen::Spore => 1,
            AttractDmdScreen::LastScores(i) => if i == 0 {
                2
            } else if i == 1 {
                3
            } else if i == 2 {
                5
            } else if i == 3 {
                6
            } else {
                -1
            },
            AttractDmdScreen::PressStart => 4,
            AttractDmdScreen::FastFrontboxLogos => 7,
        }
    }

    /// The screen is part of the rotation.
    pub open spec fn in_rotation(self) -> bool {
        0 <= self.order_index()
    }

    /// The screen after `self` in the rotation, wrapping to the first.
    pub open spec fn successor(self) -> AttractDmdScreen {
        Self::ordered_seq()[(self.order_index() + 1) % 8]
    }

    /// The screen before `self` in the rotation, wrapping to the last.
    pub open spec fn predecessor(self) -> AttractDmdScreen {
        if self.order_index() == 0 {
            Self::ordered_seq()[7]
        } else {
            Self::ordered_seq()[self.order_index() - 1]
        }
    }

    /// The rotation order of the attract screens.
    pub fn ordered() -> (v: Vec<AttractDmdScreen>)
        ensures
            v@ == Self::ordered_seq(),
    {
        vec![
            AttractDmdScreen::NeonBluePinball,
            AttractDmdScreen::Spore,
            AttractDmdScreen::LastScores(0),
            AttractDmdScreen::LastScores(1),
            AttractDmdScreen::PressStart,
            AttractDmdScreen::LastScores(2),
            AttractDmdScreen::LastScores(3),
            AttractDmdScreen::FastFrontboxLogos,
        ]
    }

    /// Where `self` stands in `ordered()`.
    fn position(&self) -> (idx: usize)
        requires
            self.in_rotation(),
        ensures
            idx == self.order_index(),
            idx < 8,
    {
        let ordered = Self::ordered();
        let mut i: usize = 0;
        while i < ordered.len()
            invariant
                ordered@ == Self::ordered_seq(),
                self.in_rotation(),
                0 <= i <= 8,
                i <= self.order_index(),
            decreases 8 - i,
        {
            if ordered[i] == *self {
                return i;
            }
            i = i + 1;
        }
        i
    }

    /// The next screen of the rotation.
    pub fn next(&self) -> (r: Self)
        requires
            self.in_rotation(),
        ensures
            r == self.successor(),
            r.in_rotation(),
    {
        let ordered = Self::ordered();
        let mut idx = self.position();
        idx += 1;
        if idx >= ordered.len() {
            idx = 0;
        }
        ordered[idx]
    }

    /// The previous screen of the rotation.
    pub fn prev(&self) -> (r: Self)
        requires
            self.in_rotation(),
        ensures
            r == self.predecessor(),
            r.in_rotation(),
    {
        let ordered = Self::ordered();
        let mut idx = self.position();
        if idx == 0 {
            idx = ordered.len() - 1;
        } else {
            idx = idx - 1;
        }
        ordered[idx]
    }
}

/// Stepping back after stepping forward, or forward after back, returns to
/// the screen one started from, for every screen of the rotation.
pub proof fn lemma_screen_next_prev_inverse(s: AttractDmdScreen)
    requires
        s.in_rotation(),
    ensures
        s.successor().predecessor() == s,
        s.predecessor().successor() == s,
{
}

/// Stepping forward as many times as there are screens returns to the start.
pub proof fn lemma_screen_rotation_period(s: AttractDmdScreen)
    requires
        s.in_rotation(),
    ensures
        s.successor().successor().successor().successor().successor().successor().successor().successor()
            == s,
{
}

} // verus!
