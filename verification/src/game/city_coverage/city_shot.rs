use vstd::prelude::*;

verus! {

/// The major shots of the playfield that make up the city map.
#[derive(Debug, Clone, Copy, PartialEq, Eq, Structural, Hash, PartialOrd, Ord)]
pub enum CityShot {
    LeftOrbit,
    LeftRamp,
    ArcRamp,
    CenterOrbit,
    LiftRamp,
    RightOrbit,
}

impl CityShot {
    /// The shots from left to right across the playfield.
    pub open spec fn ordered_seq() -> Seq<CityShot> {
        seq![
            CityShot::LeftOrbit,
            CityShot::LeftRamp,
            CityShot::ArcRamp,
            CityShot::CenterOrbit,
            CityShot::LiftRamp,
            CityShot::RightOrbit,
        ]
    }

    /// Position of the shot from the left of the playfield.
    pub open spec fn order_index(self) -> int {
        match self {
            CityShot::LeftOrbit => 0,
            CityShot::LeftRamp => 1,
            CityShot::ArcRamp => 2,
            CityShot::CenterOrbit => 3,
            CityShot::LiftRamp => 4,
            CityShot::RightOrbit => 5,
        }
    }

    /// The shots of the playfield, left to right.
    pub fn ordered() -> (v: Vec<CityShot>)
        ensures
            v@ == Self::ordered_seq(),
    {
        vec![
            CityShot::LeftOrbit,
            CityShot::LeftRamp,
            CityShot::ArcRamp,
            CityShot::CenterOrbit,
            CityShot::LiftRamp,
            CityShot::RightOrbit,
        ]
    }

    /// The shots of `ordered()` that occur in `shots`, in playfield order.
    pub fn ordered_only(shots: Vec<CityShot>) -> (r: Vec<CityShot>)
        ensures
            r@ == Self::ordered_seq().filter(|s: CityShot| shots@.contains(s)),
    {
        let ordered = Self::ordered();
        let ghost pred = |s: CityShot| shots@.contains(s);
        let mut r: Vec<CityShot> = Vec::new();
        let mut i: usize = 0;
        while i < ordered.len()
            invariant
                ordered@ == Self::ordered_seq(),
                0 <= i <= ordered@.len(),
                pred == (|s: CityShot| shots@.contains(s)),
                r@ == ordered@.take(i as int).filter(pred),
            decreases ordered@.len() - i,
        {
            let ghost t = ordered@.take(i + 1);
            assert(t.drop_last() =~= ordered@.take(i as int));
            assert(t.last() == ordered@[i as int]);
            assert(t.filter(pred) == if pred(t.last()) {
                t.drop_last().filter(pred).push(t.last())
            } else {
                t.drop_last().filter(pred)
            }) by {
                reveal_with_fuel(Seq::<_>::filter, 1);
            }
            let found = contains_shot(&shots, ordered[i]);
            assert(found == pred(ordered@[i as int]));
            if found {
                r.push(ordered[i]);
            }
            i = i + 1;
        }
        assert(ordered@.take(ordered@.len() as int) =~= ordered@);
        r
    }
}

/// Whether `s` occurs in `shots`.
pub fn contains_shot(shots: &Vec<CityShot>, s: CityShot) -> (r: bool)
    ensures
        r == shots@.contains(s),
{
    let mut i: usize = 0;
    while i < shots.len()
        invariant
            0 <= i <= shots@.len(),
            forall|j: int| 0 <= j < i ==> shots@[j] != s,
        decreases shots@.len() - i,
    {
        if shots[i] == s {
            assert(shots@[i as int] == s);
            return true;
        }
        i = i + 1;
    }
    false
}

} // verus!

verus! {

/// Keeping only some shots in playfield order loses none of them and adds
/// none: a shot is kept exactly when it was given.
pub proof fn lemma_ordered_only_keeps_given(shots: Seq<CityShot>, s: CityShot)
    ensures
        CityShot::ordered_seq().filter(|x: CityShot| shots.contains(x)).contains(s) <==> shots.contains(s),
{
    let ordered = CityShot::ordered_seq();
    let pred = |x: CityShot| shots.contains(x);
    assert(ordered[s.order_index()] == s);
    if shots.contains(s) {
        ordered.lemma_filter_contains(pred, s.order_index());
    }
    if ordered.filter(pred).contains(s) {
        let i = choose|i: int| 0 <= i < ordered.filter(pred).len() && ordered.filter(pred)[i] == s;
        ordered.lemma_filter_pred(pred, i);
    }
}

} // verus!
