use crate::identity::Id;
use vstd::prelude::*;

verus! {

/// The longest name of a unit, in bytes.
pub const NAME_LENGTH: usize = 8;

/// A unit that a player moves from location to location.
///
/// `arrives_at` is 0 while the unit rests; any other value is the time at
/// which a move that is under way ends.
#[derive(Clone, Debug, PartialEq, Eq)]
pub struct Unit {
    pub owner: Id,
    pub at_location_id: Id,
    pub name: String,
    pub movement_speed: i64,
    pub arrives_at: i64,
}

/// A unit as a mathematical value.
pub struct UnitView {
    pub owner: Id,
    pub at_location_id: Id,
    pub name: Seq<char>,
    pub movement_speed: int,
    pub arrives_at: int,
}

impl View for Unit {
    type V = UnitView;

    open spec fn view(&self) -> UnitView {
        UnitView {
            owner: self.owner,
            at_location_id: self.at_location_id,
            name: self.name@,
            movement_speed: self.movement_speed as int,
            arrives_at: self.arrives_at as int,
        }
    }
}

impl UnitView {
    /// Where the unit is at time `now`: nowhere while a move is under way,
    /// else at its location.
    pub open spec fn resolved_location(self, now: int) -> Option<Id> {
        if self.arrives_at != 0 && now < self.arrives_at {
            None
        } else {
            Some(self.at_location_id)
        }
    }
}

impl Unit {
    /// Where the unit is at `current_time`: `None` while a move is under
    /// way, else its location.
    pub fn location_id(&self, current_time: i64) -> (r: Option<Id>)
        ensures
            r == self@.resolved_location(current_time as int),
    {
        if self.arrives_at != 0 && current_time < self.arrives_at {
            None
        } else {
            Some(self.at_location_id)
        }
    }

    /// Whether a move is under way at `current_time`.
    pub fn is_moving(&self, current_time: i64) -> (r: bool)
        ensures
            r == (self@.resolved_location(current_time as int) is None),
    {
        self.location_id(current_time).is_none()
    }

    /// Whether a move has ended by `current_time` and was not settled yet.
    pub fn has_arrived(&self, current_time: i64) -> (r: bool)
        ensures
            r == (self@.resolved_location(current_time as int) is Some && self.arrives_at > 0),
    {
        self.location_id(current_time).is_some() && self.arrives_at > 0
    }
}

} // verus!
