use crate::errors::ValidationError;
use crate::identity::Id;
use crate::instructions::location::fake_rng;
use crate::instructions::location::roll_of;
use crate::instructions::map::put;
use crate::instructions::map::put_outcome;
use crate::state::map::TileMap;
use vstd::math::abs;
use vstd::prelude::*;

verus! {

/// An occupant of a location together with the player that owns it.
#[derive(Clone, Copy, Debug, PartialEq, Eq)]
pub struct OwnershipRef {
    pub item: Id,
    pub player: Id,
}

/// What a location turned out to be once it was explored.
#[derive(Clone, Copy, Debug, PartialEq, Eq, Structural)]
pub enum LocationType {
    Unexplored,
    Space,
    Planet,
    Moon,
    Asteroid,
}

/// A spatial cell with a bounded list of occupants.
///
/// `occupied_space` mirrors the number of entries of `occupied_by`.
#[derive(Clone, Debug, PartialEq, Eq)]
pub struct Location {
    pub owner: Id,
    pub occupied_space: i64,
    pub capacity: i64,
    pub pos_x: i64,
    pub pos_y: i64,
    pub location_type: LocationType,
    pub name: String,
    pub occupied_by: Vec<OwnershipRef>,
}

/// Something that takes up room in a location: one place, unless it says
/// otherwise.
pub trait InLocation {
    /// The room that it takes up: one place for whatever does not give a
    /// size of its own.
    fn size(&self) -> (r: i64)
        default_ensures
            r == 1,
    {
        1
    }
}

/// The longest name of a location, in bytes.
pub const NAME_LENGTH: usize = 12;

/// The number of occupants that a stored location has room for.
pub const MAX_CAPACITY: usize = 10;

/// The occupancy reported for a list too long to count.
pub const MAX_CAPACITY_I64: i64 = 10;

/// A location as a mathematical value.
pub struct LocationView {
    pub owner: Id,
    pub occupied_space: int,
    pub capacity: int,
    pub pos_x: int,
    pub pos_y: int,
    pub location_type: LocationType,
    pub name: Seq<char>,
    pub occupied_by: Seq<OwnershipRef>,
}

impl View for Location {
    type V = LocationView;

    open spec fn view(&self) -> LocationView {
        LocationView {
            owner: self.owner,
            occupied_space: self.occupied_space as int,
            capacity: self.capacity as int,
            pos_x: self.pos_x as int,
            pos_y: self.pos_y as int,
            location_type: self.location_type,
            name: self.name@,
            occupied_by: self.occupied_by@,
        }
    }
}

/// The number of entries of `occupants`, or `MAX_CAPACITY_I64` for a list
/// with more entries than a signed 64-bit count can tell.
pub open spec fn occupancy(occupants: Seq<OwnershipRef>) -> int {
    if occupants.len() <= i64::MAX {
        occupants.len() as int
    } else {
        MAX_CAPACITY_I64 as int
    }
}

/// `index` is the first position of `occupants` that holds `item`.
pub open spec fn is_first_occupant(occupants: Seq<OwnershipRef>, item: Id, index: int) -> bool {
    &&& 0 <= index < occupants.len()
    &&& occupants[index].item == item
    &&& forall|j: int| 0 <= j < index ==> occupants[j].item != item
}

/// The first position of `occupants` that holds `item`, if there is one.
pub open spec fn first_occupant(occupants: Seq<OwnershipRef>, item: Id) -> Option<int> {
    if exists|i: int| is_first_occupant(occupants, item, i) {
        Some(choose|i: int| is_first_occupant(occupants, item, i))
    } else {
        None
    }
}

/// The location type that an exploration with the given roll finds:
/// one roll in 256 finds a planet, two a moon, three an asteroid, and all
/// others open space.
pub open spec fn explored_type(roll: u8) -> LocationType {
    if roll == 0 {
        LocationType::Planet
    } else if roll <= 2 {
        LocationType::Moon
    } else if roll <= 5 {
        LocationType::Asteroid
    } else {
        LocationType::Space
    }
}

/// At most one position of a list is the first that holds an item.
pub proof fn first_occupant_is_unique(occupants: Seq<OwnershipRef>, item: Id, index: int)
    requires
        is_first_occupant(occupants, item, index),
    ensures
        first_occupant(occupants, item) == Some(index),
{
    let chosen = choose|i: int| is_first_occupant(occupants, item, i);
    assert(is_first_occupant(occupants, item, chosen));
    if chosen < index {
        assert(occupants[chosen].item != item);
    } else if index < chosen {
        assert(occupants[index].item != item);
    }
}

/// A list without the item has no first position that holds it.
pub proof fn first_occupant_is_absent(occupants: Seq<OwnershipRef>, item: Id)
    requires
        forall|j: int| 0 <= j < occupants.len() ==> occupants[j].item != item,
    ensures
        first_occupant(occupants, item) is None,
{
}

impl LocationView {
    /// The occupancy count mirrors the occupant list and is within the
    /// capacity.
    pub open spec fn wf(self) -> bool {
        &&& self.occupied_space == self.occupied_by.len()
        &&& self.occupied_space <= self.capacity
    }

    /// The Manhattan distance to `other`.
    pub open spec fn distance(self, other: LocationView) -> nat {
        abs(self.pos_x - other.pos_x) + abs(self.pos_y - other.pos_y)
    }

    /// The location after `occupant` moved in on the request of `player`,
    /// or the reason why it cannot. Refused, in this order: a player that
    /// does not own the occupant (`OwnerRequired`), more occupants than the
    /// capacity (`LocationFull`).
    pub open spec fn after_add(self, player: Id, occupant: OwnershipRef) -> Result<
        LocationView,
        ValidationError,
    > {
        let occupants = self.occupied_by.push(occupant);
        if occupant.player != player {
            Err(ValidationError::OwnerRequired)
        } else if occupants.len() > self.capacity {
            Err(ValidationError::LocationFull)
        } else {
            Ok(
                LocationView {
                    occupied_space: occupants.len() as int,
                    occupied_by: occupants,
                    ..self
                },
            )
        }
    }

    /// The location after `occupant` moved out on the request of `player`,
    /// or the reason why it cannot. The first entry for the occupant's item
    /// leaves the list; the others keep their order. Refused, in this
    /// order: a player that does not own the occupant (`OwnerRequired`),
    /// an item that is not on the list (`OccupantNotFound`).
    pub open spec fn after_remove(self, player: Id, occupant: OwnershipRef) -> Result<
        LocationView,
        ValidationError,
    > {
        if occupant.player != player {
            Err(ValidationError::OwnerRequired)
        } else {
            match first_occupant(self.occupied_by, occupant.item) {
                None => Err(ValidationError::OccupantNotFound),
                Some(index) => {
                    let occupants = self.occupied_by.remove(index);
                    Ok(
                        LocationView {
                            occupied_space: occupancy(occupants),
                            occupied_by: occupants,
                            ..self
                        },
                    )
                },
            }
        }
    }

    /// The location after an exploration with the given roll.
    pub open spec fn explored(self, roll: u8) -> LocationView {
        LocationView { location_type: explored_type(roll), ..self }
    }

    /// The column and the row of the map that stand for this location:
    /// the low bytes of its coordinates.
    pub open spec fn tile(self) -> (u8, u8) {
        ((self.pos_x % 256) as u8, (self.pos_y % 256) as u8)
    }
}

/// The number of entries of `occupants` as `occupancy` counts them.
fn count(occupants: &Vec<OwnershipRef>) -> (r: i64)
    ensures
        r == occupancy(occupants@),
{
    let n: u64 = occupants.len() as u64;
    if n <= 0x7fff_ffff_ffff_ffff {
        n as i64
    } else {
        MAX_CAPACITY_I64
    }
}

impl Location {
    /// Registers `ownership_ref` as an occupant. Only the player that owns
    /// the occupant may ask for it, and the location must have room.
    pub fn add(&mut self, owner: Id, ownership_ref: OwnershipRef) -> (r: Result<
        (),
        ValidationError,
    >)
        ensures
            match old(self)@.after_add(owner, ownership_ref) {
                Ok(l) => r is Ok && final(self)@ == l,
                Err(e) => r == Err::<(), ValidationError>(e) && *final(self) == *old(self),
            },
            old(self)@.wf() ==> final(self)@.wf(),
    {
        if ownership_ref.player != owner {
            return Err(ValidationError::OwnerRequired);
        }
        let occupied: i128 = self.occupied_by.len() as i128 + 1;
        if occupied > self.capacity as i128 {
            return Err(ValidationError::LocationFull);
        }
        self.occupied_by.push(ownership_ref);
        self.occupied_space = occupied as i64;
        Ok(())
    }

    /// The first position of the occupant list that holds `item`.
    pub fn find_occupant(&self, item: Id) -> (r: Option<usize>)
        ensures
            match r {
                Some(index) => first_occupant(self@.occupied_by, item) == Some(index as int),
                None => first_occupant(self@.occupied_by, item) is None,
            },
    {
        let mut index: usize = 0;
        while index < self.occupied_by.len()
            invariant
                index <= self.occupied_by.len(),
                forall|j: int| 0 <= j < index ==> self.occupied_by@[j].item != item,
            decreases self.occupied_by.len() - index,
        {
            if self.occupied_by[index].item == item {
                proof {
                    first_occupant_is_unique(self@.occupied_by, item, index as int);
                }
                return Some(index);
            }
            index = index + 1;
        }
        proof {
            first_occupant_is_absent(self@.occupied_by, item);
        }
        None
    }

    /// Takes the occupant named by `ownership_ref` off the list. Only the
    /// player that owns the occupant may ask for it, and the occupant has to
    /// be registered here.
    pub fn remove(&mut self, owner: Id, ownership_ref: &OwnershipRef) -> (r: Result<
        (),
        ValidationError,
    >)
        ensures
            match old(self)@.after_remove(owner, *ownership_ref) {
                Ok(l) => r is Ok && final(self)@ == l,
                Err(e) => r == Err::<(), ValidationError>(e) && *final(self) == *old(self),
            },
            old(self)@.wf() ==> final(self)@.wf(),
    {
        if ownership_ref.player != owner {
            return Err(ValidationError::OwnerRequired);
        }
        match self.find_occupant(ownership_ref.item) {
            Some(index) => {
                self.occupied_by.remove(index);
                self.occupied_space = count(&self.occupied_by);
                Ok(())
            },
            None => Err(ValidationError::OccupantNotFound),
        }
    }

    /// The number of occupants.
    pub fn occupied_space(&self) -> (r: i64)
        ensures
            r == occupancy(self@.occupied_by),
    {
        count(&self.occupied_by)
    }

    /// The Manhattan distance to `other_location`, where it fits the result
    /// type.
    pub fn distance(&self, other_location: &Location) -> (r: i64)
        requires
            self@.distance(other_location@) <= i64::MAX,
        ensures
            r == self@.distance(other_location@),
    {
        self.wide_distance(other_location) as i64
    }

    /// The Manhattan distance to `other_location`, for any two positions.
    pub fn wide_distance(&self, other_location: &Location) -> (r: i128)
        ensures
            r == self@.distance(other_location@),
            0 <= r <= 2 * (u64::MAX as int),
    {
        let dx: i128 = self.pos_x as i128 - other_location.pos_x as i128;
        let dy: i128 = self.pos_y as i128 - other_location.pos_y as i128;
        let ax: i128 = if dx < 0 {
            -dx
        } else {
            dx
        };
        let ay: i128 = if dy < 0 {
            -dy
        } else {
            dy
        };
        ax + ay
    }

    /// Explores the location: what is found depends on the identity of
    /// its owner alone, and the tile of the location is marked on `map`
    /// with the value 1. Where the map cannot take the mark, nothing
    /// changes.
    pub fn explore(&mut self, map: &mut TileMap) -> (r: Result<(), ValidationError>)
        ensures
            match put_outcome(old(map)@, old(self)@.tile().0, old(self)@.tile().1, 1) {
                Some(marked) => r is Ok && final(map)@ == marked && final(self)@ == old(self)@.explored(roll_of(old(self).owner)),
                None => r == Err::<(), ValidationError>(ValidationError::InvalidInput)
                    && *final(map) == *old(map) && *final(self) == *old(self),
            },
            r is Ok ==> final(self).location_type != LocationType::Unexplored,
            old(self)@.wf() ==> final(self)@.wf(),
    {
        let column: u8 = low_byte(self.pos_x);
        let row: u8 = low_byte(self.pos_y);
        match put(map, column, row, 1) {
            Ok(()) => {},
            Err(e) => {
                return Err(e);
            },
        }
        self.location_type = found_type(fake_rng(self.owner));
        Ok(())
    }
}

/// The location type that an exploration with the given roll finds.
pub fn found_type(roll: u8) -> (found: LocationType)
    ensures
        found == explored_type(roll),
        found != LocationType::Unexplored,
{
    if roll == 0 {
        LocationType::Planet
    } else if roll <= 2 {
        LocationType::Moon
    } else if roll <= 5 {
        LocationType::Asteroid
    } else {
        LocationType::Space
    }
}

/// The low byte of a coordinate.
fn low_byte(coordinate: i64) -> (byte: u8)
    ensures
        byte == coordinate as int % 256,
{
    let byte: u8 = (coordinate & 0xff) as u8;
    assert(coordinate & 0xff == coordinate as int % 256) by (bit_vector);
    byte
}

} // verus!
