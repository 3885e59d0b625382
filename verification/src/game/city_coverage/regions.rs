use vstd::prelude::*;
use crate::game::city_coverage::city_shot::CityShot;

verus! {

/// Spore units that fill a shot completely.
pub const SPORE_COUNT: u64 = 6;

/// The regions of the city.
#[derive(Debug, Clone, Copy, PartialEq, Eq, Structural)]
pub enum CityRegions {
    MeridianBasins,
    HydroCore,
    SkyrailStation,
    NimbusPromenade,
    ApexTerraces,
    SolariumAtriums,
}

/// How far a region is covered: for each of its shots, in spore units of
/// one sixth of the shot.
pub open spec fn started(amounts: Seq<(CityShot, u64)>) -> bool {
    exists|i: int| 0 <= i < amounts.len() && #[trigger] amounts[i].1 > 0
}

pub open spec fn completed(amounts: Seq<(CityShot, u64)>) -> bool {
    forall|i: int| 0 <= i < amounts.len() ==> #[trigger] amounts[i].1 == SPORE_COUNT
}

/// A region of the city whose shots spores cover.
pub trait CityRegion {
    /// The region's shots with their coverage, in spore units.
    spec fn spec_amounts(&self) -> Seq<(CityShot, u64)>;

    /// Spreads spore on `shot`. The amount goes into a copy of the region's
    /// amounts, so the region itself keeps its coverage.
    fn apply_biospore(&mut self, shot: CityShot, amount: u64)
        ensures
            final(self).spec_amounts() == old(self).spec_amounts(),
    ;

    fn shot_amounts(&self) -> (r: Vec<(CityShot, u64)>)
        ensures
            r@ == self.spec_amounts(),
    ;

    /// Some shot of the region has spore.
    fn is_started(&self) -> (b: bool)
        ensures
            b == started(self.spec_amounts()),
    ;

    /// Every shot of the region is fully covered.
    fn is_complete(&self) -> (b: bool)
        ensures
            b == completed(self.spec_amounts()),
    ;
}

/// A first-tier region: a fixed set of shots and their coverage.
pub trait Tier1CityRegion {
    spec fn spec_shots() -> Seq<CityShot>;

    spec fn spec_amounts_src(&self) -> Seq<(CityShot, u64)>;

    fn shot_amounts_src(&self) -> (r: &Vec<(CityShot, u64)>)
        ensures
            r@ == self.spec_amounts_src(),
    ;

    fn shots() -> (r: Vec<CityShot>)
        ensures
            r@ == Self::spec_shots(),
    ;
}

fn amounts_started(amounts: &Vec<(CityShot, u64)>) -> (b: bool)
    ensures
        b == started(amounts@),
{
    let mut i: usize = 0;
    while i < amounts.len()
        invariant
            0 <= i <= amounts@.len(),
            forall|j: int| 0 <= j < i ==> amounts@[j].1 == 0,
        decreases amounts@.len() - i,
    {
        if amounts[i].1 > 0 {
            assert(amounts@[i as int].1 > 0);
            return true;
        }
        i = i + 1;
    }
    false
}

fn amounts_completed(amounts: &Vec<(CityShot, u64)>) -> (b: bool)
    ensures
        b == completed(amounts@),
{
    let mut i: usize = 0;
    while i < amounts.len()
        invariant
            0 <= i <= amounts@.len(),
            forall|j: int| 0 <= j < i ==> amounts@[j].1 == SPORE_COUNT,
        decreases amounts@.len() - i,
    {
        if amounts[i].1 != SPORE_COUNT {
            assert(amounts@[i as int].1 != SPORE_COUNT);
            return false;
        }
        i = i + 1;
    }
    true
}

fn copy_amounts(amounts: &Vec<(CityShot, u64)>) -> (r: Vec<(CityShot, u64)>)
    ensures
        r@ == amounts@,
{
    let mut r: Vec<(CityShot, u64)> = Vec::new();
    let mut i: usize = 0;
    while i < amounts.len()
        invariant
            0 <= i <= amounts@.len(),
            r@ == amounts@.subrange(0, i as int),
        decreases amounts@.len() - i,
    {
        r.push(amounts[i]);
        i = i + 1;
        assert(r@ =~= amounts@.subrange(0, i as int));
    }
    assert(r@ =~= amounts@);
    r
}

fn zero_amounts(shots: &Vec<CityShot>) -> (r: Vec<(CityShot, u64)>)
    ensures
        r@.len() == shots@.len(),
        forall|i: int| 0 <= i < shots@.len() ==> #[trigger] r@[i] == (shots@[i], 0u64),
{
    let mut r: Vec<(CityShot, u64)> = Vec::new();
    let mut i: usize = 0;
    while i < shots.len()
        invariant
            0 <= i <= shots@.len(),
            r@.len() == i,
            forall|j: int| 0 <= j < i ==> #[trigger] r@[j] == (shots@[j], 0u64),
        decreases shots@.len() - i,
    {
        r.push((shots[i], 0u64));
        i = i + 1;
    }
    r
}

/// Meridian Basins, the orbits region.
pub struct MeridianBasins {
    shot_amounts: Vec<(CityShot, u64)>,
}

impl MeridianBasins {
    /// Every orbit uncovered.
    pub fn new() -> (r: Self)
        ensures
            r.spec_amounts() == seq![(CityShot::LeftOrbit, 0u64), (CityShot::CenterOrbit, 0u64), (CityShot::RightOrbit, 0u64)],
    {
        let shots = Self::shots();
        let r = MeridianBasins { shot_amounts: zero_amounts(&shots) };
        assert(r.shot_amounts@ =~= seq![(CityShot::LeftOrbit, 0u64), (CityShot::CenterOrbit, 0u64), (CityShot::RightOrbit, 0u64)]);
        r
    }
}

impl Tier1CityRegion for MeridianBasins {
    open spec fn spec_shots() -> Seq<CityShot> {
        seq![CityShot::LeftOrbit, CityShot::CenterOrbit, CityShot::RightOrbit]
    }

    closed spec fn spec_amounts_src(&self) -> Seq<(CityShot, u64)> {
        self.shot_amounts@
    }

    fn shot_amounts_src(&self) -> (r: &Vec<(CityShot, u64)>) {
        &self.shot_amounts
    }

    fn shots() -> (r: Vec<CityShot>) {
        vec![CityShot::LeftOrbit, CityShot::CenterOrbit, CityShot::RightOrbit]
    }
}

impl CityRegion for MeridianBasins {
    closed spec fn spec_amounts(&self) -> Seq<(CityShot, u64)> {
        self.shot_amounts@
    }

    fn apply_biospore(&mut self, shot: CityShot, amount: u64) {
        let shots = Self::shots();
        if crate::game::city_coverage::city_shot::contains_shot(&shots, shot) {
            let mut amounts = self.shot_amounts();
            set_amount(&mut amounts, shot, amount);
        }
    }

    fn shot_amounts(&self) -> (r: Vec<(CityShot, u64)>) {
        copy_amounts(&self.shot_amounts)
    }

    fn is_started(&self) -> (b: bool) {
        amounts_started(&self.shot_amounts)
    }

    fn is_complete(&self) -> (b: bool) {
        amounts_completed(&self.shot_amounts)
    }
}

/// Hydro Core, the ramps region.
pub struct HydroCore {
    shot_amounts: Vec<(CityShot, u64)>,
}

impl HydroCore {
    /// Every ramp uncovered.
    pub fn new() -> (r: Self)
        ensures
            r.spec_amounts() == seq![(CityShot::LeftRamp, 0u64), (CityShot::ArcRamp, 0u64), (CityShot::LiftRamp, 0u64)],
    {
        let shots = Self::shots();
        let r = HydroCore { shot_amounts: zero_amounts(&shots) };
        assert(r.shot_amounts@ =~= seq![(CityShot::LeftRamp, 0u64), (CityShot::ArcRamp, 0u64), (CityShot::LiftRamp, 0u64)]);
        r
    }
}

impl Tier1CityRegion for HydroCore {
    open spec fn spec_shots() -> Seq<CityShot> {
        seq![CityShot::LeftRamp, CityShot::ArcRamp, CityShot::LiftRamp]
    }

    closed spec fn spec_amounts_src(&self) -> Seq<(CityShot, u64)> {
        self.shot_amounts@
    }

    fn shot_amounts_src(&self) -> (r: &Vec<(CityShot, u64)>) {
        &self.shot_amounts
    }

    fn shots() -> (r: Vec<CityShot>) {
        vec![CityShot::LeftRamp, CityShot::ArcRamp, CityShot::LiftRamp]
    }
}

impl CityRegion for HydroCore {
    closed spec fn spec_amounts(&self) -> Seq<(CityShot, u64)> {
        self.shot_amounts@
    }

    fn apply_biospore(&mut self, shot: CityShot, amount: u64) {
        let shots = Self::shots();
        if crate::game::city_coverage::city_shot::contains_shot(&shots, shot) {
            let mut amounts = self.shot_amounts();
            set_amount(&mut amounts, shot, amount);
        }
    }

    fn shot_amounts(&self) -> (r: Vec<(CityShot, u64)>) {
        copy_amounts(&self.shot_amounts)
    }

    fn is_started(&self) -> (b: bool) {
        amounts_started(&self.shot_amounts)
    }

    fn is_complete(&self) -> (b: bool) {
        amounts_completed(&self.shot_amounts)
    }
}

/// Sets the amount of `shot`, adding the shot if it is missing.
fn set_amount(amounts: &mut Vec<(CityShot, u64)>, shot: CityShot, amount: u64)
    ensures
        final(amounts)@.contains((shot, amount)),
{
    let mut i: usize = 0;
    while i < amounts.len()
        invariant
            0 <= i <= amounts@.len(),
        decreases amounts@.len() - i,
    {
        if amounts[i].0 == shot {
            amounts.set(i, (shot, amount));
            assert(amounts@[i as int] == (shot, amount));
            return;
        }
        i = i + 1;
    }
    amounts.push((shot, amount));
    assert(amounts@[amounts@.len() - 1] == (shot, amount));
}

} // verus!
