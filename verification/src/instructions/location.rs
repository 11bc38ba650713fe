use crate::errors::ValidationError;
use crate::identity::Id;
use crate::state::location::Location;
use crate::state::location::LocationType;
use crate::state::location::LocationView;
use crate::state::location::OwnershipRef;
use crate::state::location::NAME_LENGTH;
use std::collections::hash_map::DefaultHasher;
use std::hash::Hasher;
use vstd::prelude::*;
use vstd::std_specs::hash::DefaultHasherAdditionalSpecFns;
use vstd::utf8::encode_utf8;

verus! {

/// The number of bytes that a name takes up when it is stored.
pub open spec fn stored_length(name: Seq<char>) -> nat {
    encode_utf8(name).len()
}

/// What the hasher is fed before the bytes of a key: their number, as a
/// 64-bit machine with the low byte first writes it.
pub open spec fn length_prefix() -> Seq<u8> {
    seq![32u8, 0u8, 0u8, 0u8, 0u8, 0u8, 0u8, 0u8]
}

/// The roll that a key stands for: the low byte of the standard library's
/// default hash of the key's 32 bytes.
pub open spec fn roll_of(key: Id) -> u8 {
    (DefaultHasher::spec_finish(
        Seq::<Seq<u8>>::empty().push(length_prefix()).push(key.bytes@),
    ) % 256) as u8
}

/// A location as it is created: nobody in it yet.
pub open spec fn new_location(
    owner: Id,
    name: Seq<char>,
    x: int,
    y: int,
    capacity: int,
    location_type: LocationType,
) -> LocationView {
    LocationView {
        owner,
        occupied_space: 0,
        capacity,
        pos_x: x,
        pos_y: y,
        location_type,
        name,
        occupied_by: Seq::empty(),
    }
}

/// What moving an occupant from one location to another leaves of the two,
/// or the reason why it cannot be done: the occupant first leaves `from`,
/// then enters `to`.
pub open spec fn register_move_outcome(
    player: Id,
    from: LocationView,
    to: LocationView,
    occupant: OwnershipRef,
) -> Result<(LocationView, LocationView), ValidationError> {
    match from.after_remove(player, occupant) {
        Err(e) => Err(e),
        Ok(left) => match to.after_add(player, occupant) {
            Err(e) => Err(e),
            Ok(entered) => Ok((left, entered)),
        },
    }
}

/// Creates an empty location at position (`x`, `y`). The name may take up
/// at most `NAME_LENGTH` bytes.
pub fn init(
    owner: Id,
    name: String,
    x: i64,
    y: i64,
    capacity: i64,
    location_type: LocationType,
) -> (r: Result<Location, ValidationError>)
    ensures
        match r {
            Ok(location) => stored_length(name@) <= NAME_LENGTH && location@ == new_location(
                owner,
                name@,
                x as int,
                y as int,
                capacity as int,
                location_type,
            ),
            Err(e) => stored_length(name@) > NAME_LENGTH && e == ValidationError::NameTooLong,
        },
        capacity >= 0 ==> (r matches Ok(location) ==> location@.wf()),
{
    if name.as_str().as_bytes().len() > NAME_LENGTH {
        return Err(ValidationError::NameTooLong);
    }
    Ok(
        Location {
            owner,
            occupied_space: 0,
            capacity,
            pos_x: x,
            pos_y: y,
            location_type,
            name,
            occupied_by: Vec::new(),
        },
    )
}

/// Moves an occupant from one location to another in one step: either both
/// locations change or neither does.
pub fn register_move(
    owner: Id,
    from_location: &mut Location,
    to_location: &mut Location,
    ownership_ref: OwnershipRef,
) -> (r: Result<(), ValidationError>)
    ensures
        match register_move_outcome(
            owner,
            old(from_location)@,
            old(to_location)@,
            ownership_ref,
        ) {
            Ok((from, to)) => r is Ok && final(from_location)@ == from && final(to_location)@
                == to,
            Err(e) => r == Err::<(), ValidationError>(e) && *final(from_location) == *old(from_location) && *final(to_location) == *old(to_location),
        },
        old(from_location)@.wf() ==> final(from_location)@.wf(),
        old(to_location)@.wf() ==> final(to_location)@.wf(),
{
    if ownership_ref.player != owner {
        return Err(ValidationError::OwnerRequired);
    }
    if from_location.find_occupant(ownership_ref.item).is_none() {
        return Err(ValidationError::OccupantNotFound);
    }
    match to_location.add(owner, ownership_ref) {
        Ok(()) => {},
        Err(e) => {
            return Err(e);
        },
    }
    from_location.remove(owner, &ownership_ref)
}

/// Whether two resolved locations are one and the same place. An entity
/// that is nowhere shares its location with nothing.
pub fn same_location_id(location_id_1: Option<Id>, location_id_2: Option<Id>) -> (r: bool)
    ensures
        r == (location_id_1 is Some && location_id_1 == location_id_2),
{
    match (location_id_1, location_id_2) {
        (Some(l1), Some(l2)) => l1 == l2,
        _ => false,
    }
}

/// A number between 0 and 255 that depends on nothing but `key`, for
/// want of real chance: the low byte of the hash that the standard
/// library's default hasher gives the key's 32 bytes on a 64-bit machine
/// that stores the low byte first.
pub fn fake_rng(key: Id) -> (roll: u8)
    ensures
        roll == roll_of(key),
{
    let mut hasher = DefaultHasher::new();
    let prefix: [u8; 8] = [32, 0, 0, 0, 0, 0, 0, 0];
    hasher.write(prefix.as_slice());
    hasher.write(key.bytes.as_slice());
    assert(prefix@ =~= length_prefix());
    (hasher.finish() % 256) as u8
}

} // verus!
