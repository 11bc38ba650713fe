use crate::errors::ValidationError;
use crate::identity::Id;
use crate::instructions::location::register_move;
use crate::instructions::location::register_move_outcome;
use crate::state::location::Location;
use crate::state::location::LocationView;
use crate::state::location::OwnershipRef;
use crate::state::storage::MobilityType;
use crate::state::storage::Storage;
use crate::state::storage::StorageView;
use vstd::prelude::*;

verus! {

/// A storage as it is created: empty and at rest.
pub open spec fn new_storage(
    owner: Id,
    resource_id: Id,
    location_id: Id,
    capacity: int,
    mobility_type: MobilityType,
    movement_speed: int,
) -> StorageView {
    StorageView {
        owner,
        resource_id,
        location_id,
        amount: 0,
        capacity,
        mobility_type,
        movement_speed,
        arrives_at: 0,
    }
}

/// What moving `amount` from one storage to another leaves of the two, or
/// the reason why it cannot be done. Both storages have to hold the same
/// resource and be bound to the same location.
///
/// Refused, in this order: what the giving storage refuses to take out; a
/// sum above the capacity of the receiving storage (`StorageFull`);
/// storages bound to different locations (`DifferentLocations`); a sum
/// below nothing (`StorageAmountTooLow`); storages of different resources
/// (`ResourceNotMatching`).
pub open spec fn move_between_outcome(from: StorageView, to: StorageView, amount: int) -> Result<
    (StorageView, StorageView),
    ValidationError,
> {
    match from.after_remove(amount) {
        Err(e) => Err(e),
        Ok(drained) => {
            if to.amount + amount > to.capacity {
                Err(ValidationError::StorageFull)
            } else if to.location_id != from.location_id {
                Err(ValidationError::DifferentLocations)
            } else if to.amount + amount < 0 {
                Err(ValidationError::StorageAmountTooLow)
            } else if from.resource_id != to.resource_id {
                Err(ValidationError::ResourceNotMatching)
            } else {
                Ok((drained, StorageView { amount: to.amount + amount, ..to }))
            }
        },
    }
}

/// What sending a storage on its way from one location to another leaves
/// of the storage and the two locations, or the reason why it cannot be
/// done. The storage changes its place in the occupant lists at departure.
///
/// Refused, in this order: what the departure refuses; then what the
/// change of place in the occupant lists refuses.
pub open spec fn move_to_location_outcome(
    storage: StorageView,
    storage_id: Id,
    from: LocationView,
    to: LocationView,
    to_location_id: Id,
    player: Id,
    now: int,
) -> Result<(StorageView, LocationView, LocationView), ValidationError> {
    match storage.after_departure(to_location_id, from.distance(to) as int, now) {
        Err(e) => Err(e),
        Ok(departed) => match register_move_outcome(
            player,
            from,
            to,
            OwnershipRef { item: storage_id, player: storage.owner },
        ) {
            Err(e) => Err(e),
            Ok((left, entered)) => Ok((departed, left, entered)),
        },
    }
}

/// Settling an arrival a second time changes nothing: once a storage has
/// arrived and the arrival was settled, settling again at any time leaves
/// it as it is; and settling twice at one time is settling once.
pub proof fn settling_is_idempotent(storage: StorageView, first: int, second: int)
    ensures
        storage.settled(first).settled(first) == storage.settled(first),
        storage.arrived(first) ==> storage.settled(first).settled(second) == storage.settled(
            first,
        ),
        storage.wf() ==> storage.settled(first).wf(),
{
}

/// Creates an empty storage for `resource_id` at `location` and registers
/// it there as an occupant owned by `owner`.
pub fn init(
    storage_id: Id,
    location: &mut Location,
    location_id: Id,
    owner: Id,
    resource_id: Id,
    capacity: i64,
    mobility_type: MobilityType,
    movement_speed: i64,
) -> (r: Result<Storage, ValidationError>)
    ensures
        match old(location)@.after_add(owner, OwnershipRef { item: storage_id, player: owner }) {
            Ok(l) => final(location)@ == l && (r matches Ok(s) && s@ == new_storage(
                owner,
                resource_id,
                location_id,
                capacity as int,
                mobility_type,
                movement_speed as int,
            ) && (capacity >= 0 ==> s@.wf())),
            Err(e) => r == Err::<Storage, ValidationError>(e) && *final(location) == *old(location),
        },
        old(location)@.wf() ==> final(location)@.wf(),
{
    match location.add(owner, OwnershipRef { item: storage_id, player: owner }) {
        Ok(()) => {},
        Err(e) => {
            return Err(e);
        },
    }
    Ok(
        Storage {
            owner,
            resource_id,
            location_id,
            amount: 0,
            capacity,
            mobility_type,
            movement_speed,
            arrives_at: 0,
        },
    )
}

/// Moves `amount` from one storage to another that holds the same resource
/// at the same location.
pub fn move_between(from_storage: &mut Storage, to_storage: &mut Storage, amount: i64) -> (r:
    Result<(), ValidationError>)
    ensures
        match move_between_outcome(old(from_storage)@, old(to_storage)@, amount as int) {
            Ok((from, to)) => r is Ok && final(from_storage)@ == from && final(to_storage)@ == to,
            Err(e) => r == Err::<(), ValidationError>(e) && *final(from_storage) == *old(from_storage) && *final(to_storage) == *old(to_storage),
        },
        old(from_storage)@.wf() ==> final(from_storage)@.wf(),
        old(to_storage)@.wf() ==> final(to_storage)@.wf(),
        r is Ok ==> final(from_storage).amount + final(to_storage).amount == old(from_storage).amount + old(to_storage).amount,
{
    let mut drained: Storage = *from_storage;
    match drained.remove(amount) {
        Ok(()) => {},
        Err(e) => {
            return Err(e);
        },
    }
    let total: i128 = to_storage.amount as i128 + amount as i128;
    if total > to_storage.capacity as i128 {
        return Err(ValidationError::StorageFull);
    }
    if to_storage.location_id != from_storage.location_id {
        return Err(ValidationError::DifferentLocations);
    }
    if total < 0 {
        return Err(ValidationError::StorageAmountTooLow);
    }
    if from_storage.resource_id != to_storage.resource_id {
        return Err(ValidationError::ResourceNotMatching);
    }
    to_storage.amount = total as i64;
    *from_storage = drained;
    Ok(())
}

/// Sends a movable storage on its way to `to_location`.
///
/// The storage has to be movable, with a positive speed, and at rest. It is
/// bound to the destination at once and arrives after the Manhattan
/// distance divided by its speed, rounded down; it leaves the occupant list
/// of `from_location` and enters that of `to_location` at departure. Only
/// the player that owns the storage may ask for the move.
pub fn move_to_location(
    storage: &mut Storage,
    storage_id: Id,
    from_location: &mut Location,
    to_location: &mut Location,
    to_location_id: Id,
    owner: Id,
    now: i64,
) -> (r: Result<(), ValidationError>)
    ensures
        match move_to_location_outcome(
            old(storage)@,
            storage_id,
            old(from_location)@,
            old(to_location)@,
            to_location_id,
            owner,
            now as int,
        ) {
            Ok((s, from, to)) => r is Ok && final(storage)@ == s && final(from_location)@ == from
                && final(to_location)@ == to,
            Err(e) => r == Err::<(), ValidationError>(e) && *final(storage) == *old(storage)
                && *final(from_location) == *old(from_location) && *final(to_location) == *old(to_location),
        },
        old(storage)@.wf() ==> final(storage)@.wf(),
        old(from_location)@.wf() ==> final(from_location)@.wf(),
        old(to_location)@.wf() ==> final(to_location)@.wf(),
{
    match storage.mobility_type {
        MobilityType::Movable => {},
        MobilityType::Fixed => {
            return Err(ValidationError::StorageTypeNotMovable);
        },
    }
    if storage.movement_speed <= 0 {
        return Err(ValidationError::StorageTypeNotMovable);
    }
    if storage.is_moving(now) {
        return Err(ValidationError::NotAllowedWhileMoving);
    }
    let distance: i128 = from_location.wide_distance(to_location);
    let travel_time: i128 = distance / (storage.movement_speed as i128);
    proof {
        crate::arithmetic::whole_cycles_fit(distance as int, storage.movement_speed as int);
    }
    let arrives_at: i128 = if travel_time > 0 {
        now as i128 + travel_time
    } else {
        0
    };
    if arrives_at > i64::MAX as i128 {
        return Err(ValidationError::InvalidInput);
    }
    match register_move(
        owner,
        from_location,
        to_location,
        OwnershipRef { item: storage_id, player: storage.owner },
    ) {
        Ok(()) => {},
        Err(e) => {
            return Err(e);
        },
    }
    storage.location_id = to_location_id;
    storage.arrives_at = arrives_at as i64;
    Ok(())
}

/// Settles the arrival of a storage: once its move has ended, the storage
/// is at rest again. Calling this early, late or again does no harm.
pub fn update_move_status(storage: &mut Storage, now: i64)
    ensures
        final(storage)@ == old(storage)@.settled(now as int),
        old(storage)@.wf() ==> final(storage)@.wf(),
{
    if storage.has_arrived(now) {
        storage.arrives_at = 0;
    }
}

/// Creates a small fixed storage whose resource and location are named by
/// the owner's own identity.
pub fn simple_init(owner: Id) -> (storage: Storage)
    ensures
        storage@ == new_storage(owner, owner, owner, 10, MobilityType::Fixed, 1),
        storage@.wf(),
{
    Storage {
        owner,
        resource_id: owner,
        location_id: owner,
        amount: 0,
        capacity: 10,
        mobility_type: MobilityType::Fixed,
        movement_speed: 1,
        arrives_at: 0,
    }
}

/// Accepts a position whose first coordinate is below its second.
pub fn simple_test(position: [u8; 2]) -> (r: Result<(), ValidationError>)
    ensures
        r == (if position[0] < position[1] {
            Ok::<(), ValidationError>(())
        } else {
            Err::<(), ValidationError>(ValidationError::ExperimentalError)
        }),
{
    if position[0] < position[1] {
        Ok(())
    } else {
        Err(ValidationError::ExperimentalError)
    }
}

} // verus!
