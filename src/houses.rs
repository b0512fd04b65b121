use vstd::prelude::*;

use crate::geometry::Point;

verus! {

/// A house on the map. An active house is waiting for a delivery.
#[derive(Clone, Copy, Debug, PartialEq, Eq, Structural)]
pub struct House {
    pub position: Point,
    pub active: bool,
}

/// The houses of the town, in two rows of three, none of them active yet.
pub open spec fn town_houses() -> Seq<House> {
    seq![
        House { position: Point { x: 100, y: 115 }, active: false },
        House { position: Point { x: 45, y: 115 }, active: false },
        House { position: Point { x: -10i32, y: 115 }, active: false },
        House { position: Point { x: 100, y: 45 }, active: false },
        House { position: Point { x: 45, y: 45 }, active: false },
        House { position: Point { x: -10i32, y: 45 }, active: false },
    ]
}

/// Creates the houses of the town, as `town_houses` lists them.
pub fn initialize_houses() -> (houses: Vec<House>)
    ensures
        houses@ == town_houses(),
{
    let positions: Vec<Point> = vec![
        Point::new(100, 115),
        Point::new(45, 115),
        Point::new(-10, 115),
        Point::new(100, 45),
        Point::new(45, 45),
        Point::new(-10, 45),
    ];
    let mut houses: Vec<House> = Vec::new();
    let mut i: usize = 0;
    while i < positions.len()
        invariant
            i <= positions@.len(),
            houses@.len() == i,
            forall|j: int|
                0 <= j < i ==> #[trigger] houses@[j] == (House { position: positions@[j], active: false }),
        decreases positions@.len() - i,
    {
        houses.push(House { position: positions[i], active: false });
        i += 1;
    }
    assert(houses@ =~= town_houses());
    houses
}

/// The house as it is once a delivery to it is wanted.
pub open spec fn activated(h: House) -> House {
    House { position: h.position, active: true }
}

/// The houses after the one at `pick`, if any, was activated.
pub open spec fn houses_after_pick(houses: Seq<House>, pick: Option<usize>) -> Seq<House> {
    match pick {
        Some(i) => houses.update(i as int, activated(houses[i as int])),
        None => houses,
    }
}

/// Activates the house at `pick`; with no pick, nothing changes. A house that
/// is already active stays so.
pub fn activate_house(houses: &mut Vec<House>, pick: Option<usize>)
    requires
        pick matches Some(i) ==> i < old(houses)@.len(),
    ensures
        final(houses)@ == houses_after_pick(old(houses)@, pick),
{
    if let Some(i) = pick {
        houses[i].active = true;
    }
}

} // verus!
