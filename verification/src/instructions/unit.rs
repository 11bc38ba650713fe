use crate::errors::ValidationError;
use crate::identity::Id;
use crate::instructions::location::roll_of;
use crate::instructions::location::stored_length;
use crate::instructions::map::put_outcome;
use crate::state::location::Location;
use crate::state::location::LocationType;
use crate::state::location::LocationView;
use crate::state::map::TileMap;
use crate::state::map::TileMapView;
use crate::state::unit::Unit;
use crate::state::unit::UnitView;
use crate::state::unit::NAME_LENGTH;
use vstd::prelude::*;

verus! {

/// Whether a unit that heads for `to_location_id` has got there by `now`
/// and its arrival was not settled yet.
pub open spec fn arrives(unit: UnitView, to_location_id: Id, now: int) -> bool {
    unit.arrives_at > 0 && unit.resolved_location(now) == Some(to_location_id)
}

/// What settling the arrival of a unit leaves of the unit, the location it
/// heads for and the map, or `None` where the map cannot take the mark of
/// an exploration.
///
/// A unit that has arrived comes to rest, and explores the location if
/// nobody did before. A unit that has not arrived changes nothing.
pub open spec fn move_unit_complete_outcome(
    unit: UnitView,
    to_location: LocationView,
    to_location_id: Id,
    map: TileMapView,
    now: int,
) -> Option<(UnitView, LocationView, TileMapView)> {
    if !arrives(unit, to_location_id, now) {
        Some((unit, to_location, map))
    } else if to_location.location_type != LocationType::Unexplored {
        Some((UnitView { arrives_at: 0, ..unit }, to_location, map))
    } else {
        match put_outcome(map, to_location.tile().0, to_location.tile().1, 1) {
            None => None,
            Some(marked) => Some(
                (
                    UnitView { arrives_at: 0, ..unit },
                    to_location.explored(roll_of(to_location.owner)),
                    marked,
                ),
            ),
        }
    }
}

/// Creates a unit of `owner` at `location`, which has to be explored. The
/// name may take up at most `NAME_LENGTH` bytes.
pub fn init(owner: Id, name: String, location: &Location, location_id: Id) -> (r: Result<
    Unit,
    ValidationError,
>)
    ensures
        match r {
            Ok(unit) => {
                &&& location.location_type != LocationType::Unexplored
                &&& stored_length(name@) <= NAME_LENGTH
                &&& unit@ == (UnitView {
                    owner,
                    at_location_id: location_id,
                    name: name@,
                    movement_speed: 1,
                    arrives_at: 0,
                })
            },
            Err(e) => e == (if location.location_type == LocationType::Unexplored {
                ValidationError::LocationUnexplored
            } else {
                ValidationError::NameTooLong
            }) && (location.location_type == LocationType::Unexplored || stored_length(name@)
                > NAME_LENGTH),
        },
{
    if location.location_type == LocationType::Unexplored {
        return Err(ValidationError::LocationUnexplored);
    }
    if name.as_str().as_bytes().len() > NAME_LENGTH {
        return Err(ValidationError::NameTooLong);
    }
    Ok(Unit { owner, at_location_id: location_id, name, movement_speed: 1, arrives_at: 0 })
}

/// Settles the arrival of a unit at the location it heads for. A unit
/// that arrives at an unexplored location explores it.
pub fn move_unit_complete(
    unit: &mut Unit,
    to_location: &mut Location,
    to_location_id: Id,
    map: &mut TileMap,
    current_timestamp: i64,
) -> (r: Result<(), ValidationError>)
    ensures
        match move_unit_complete_outcome(
            old(unit)@,
            old(to_location)@,
            to_location_id,
            old(map)@,
            current_timestamp as int,
        ) {
            Some((u, l, m)) => r is Ok && final(unit)@ == u && final(to_location)@ == l && final(map)@ == m,
            None => r == Err::<(), ValidationError>(ValidationError::InvalidInput) && *final(unit)
                == *old(unit) && *final(to_location) == *old(to_location) && *final(map) == *old(map),
        },
        old(to_location)@.wf() ==> final(to_location)@.wf(),
{
    let here: bool = match unit.location_id(current_timestamp) {
        Some(place) => place == to_location_id,
        None => false,
    };
    if unit.arrives_at > 0 && here {
        if to_location.location_type == LocationType::Unexplored {
            match to_location.explore(map) {
                Ok(()) => {},
                Err(e) => {
                    return Err(e);
                },
            }
        }
        unit.arrives_at = 0;
    }
    Ok(())
}

} // verus!
