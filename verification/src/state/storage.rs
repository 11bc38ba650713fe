use crate::errors::ValidationError;
use crate::identity::Id;
use vstd::math::max;
use vstd::prelude::*;

verus! {

/// Whether a storage stays where it was created or can travel.
#[derive(Clone, Copy, Debug, PartialEq, Eq, Structural)]
pub enum MobilityType {
    Fixed,
    Movable,
}

/// A bounded quantity of one resource, bound to one location.
///
/// `arrives_at` is 0 while the storage rests; a positive value is the time
/// at which a move that is under way ends.
#[derive(Clone, Copy, Debug, PartialEq, Eq)]
pub struct Storage {
    pub owner: Id,
    pub resource_id: Id,
    pub location_id: Id,
    pub amount: i64,
    pub capacity: i64,
    pub mobility_type: MobilityType,
    pub movement_speed: i64,
    pub arrives_at: i64,
}

/// A storage as a mathematical value: quantities and times are unbounded
/// integers.
pub struct StorageView {
    pub owner: Id,
    pub resource_id: Id,
    pub location_id: Id,
    pub amount: int,
    pub capacity: int,
    pub mobility_type: MobilityType,
    pub movement_speed: int,
    pub arrives_at: int,
}

impl View for Storage {
    type V = StorageView;

    open spec fn view(&self) -> StorageView {
        StorageView {
            owner: self.owner,
            resource_id: self.resource_id,
            location_id: self.location_id,
            amount: self.amount as int,
            capacity: self.capacity as int,
            mobility_type: self.mobility_type,
            movement_speed: self.movement_speed as int,
            arrives_at: self.arrives_at as int,
        }
    }
}

impl StorageView {
    /// The stored quantity is not negative and does not exceed the capacity.
    pub open spec fn wf(self) -> bool {
        0 <= self.amount <= self.capacity
    }

    /// Where the storage is at time `now`: nowhere while a move is under
    /// way, else at its bound location.
    pub open spec fn resolved_location(self, now: int) -> Option<Id> {
        if self.arrives_at > 0 && now < self.arrives_at {
            None
        } else {
            Some(self.location_id)
        }
    }

    /// Whether the storage has completed a move that was not settled yet.
    pub open spec fn arrived(self, now: int) -> bool {
        self.resolved_location(now) is Some && self.arrives_at > 0
    }

    /// How much more the storage can take; 0 when it is full or over-full.
    pub open spec fn headroom(self) -> int {
        max(0, self.capacity - self.amount)
    }

    /// The storage after `amount` was added, or the reason why it cannot be.
    ///
    /// The sum has to stay within 0 and the capacity, and the storage has
    /// to be at `expected_location` at time `now`. Refused, in this order:
    /// a sum above the capacity (`StorageFull`), a storage elsewhere or in
    /// transit (`DifferentLocations`), a sum below nothing
    /// (`StorageAmountTooLow`).
    pub open spec fn after_add(self, amount: int, expected_location: Id, now: int) -> Result<
        StorageView,
        ValidationError,
    > {
        let total = self.amount + amount;
        if total > self.capacity {
            Err(ValidationError::StorageFull)
        } else if self.resolved_location(now) != Some(expected_location) {
            Err(ValidationError::DifferentLocations)
        } else if total < 0 {
            Err(ValidationError::StorageAmountTooLow)
        } else {
            Ok(StorageView { amount: total, ..self })
        }
    }

    /// The storage after a delivery of `amount`, which is neither negative
    /// nor more than the storage has room for.
    pub open spec fn after_delivery(self, amount: int) -> StorageView {
        StorageView { amount: self.amount + amount, ..self }
    }

    /// The storage after `amount` was taken out, or the reason why it cannot
    /// be. The difference has to stay within 0 and the capacity. Refused,
    /// in this order: a difference below nothing (`StorageAmountTooLow`),
    /// a difference above the capacity (`StorageFull`).
    pub open spec fn after_remove(self, amount: int) -> Result<StorageView, ValidationError> {
        let rest = self.amount - amount;
        if rest < 0 {
            Err(ValidationError::StorageAmountTooLow)
        } else if rest > self.capacity {
            Err(ValidationError::StorageFull)
        } else {
            Ok(StorageView { amount: rest, ..self })
        }
    }

    /// The storage after a completed move was acknowledged at time `now`:
    /// the arrival time is cleared once it has passed.
    pub open spec fn settled(self, now: int) -> StorageView {
        if self.arrived(now) {
            StorageView { arrives_at: 0, ..self }
        } else {
            self
        }
    }

    /// The storage after it set out for `to_location` at time `now`, over
    /// `distance`, or the reason why it cannot.
    ///
    /// The storage is bound to the destination at once. The journey takes
    /// `distance / movement_speed`, rounded down; a journey that takes no
    /// time leaves the storage at rest. Refused, in this order: a storage
    /// that is fixed or has no positive speed (`StorageTypeNotMovable`), a
    /// storage in transit (`NotAllowedWhileMoving`), an arrival later than
    /// a signed 64-bit time can tell (`InvalidInput`).
    pub open spec fn after_departure(self, to_location: Id, distance: int, now: int) -> Result<
        StorageView,
        ValidationError,
    > {
        if self.mobility_type != MobilityType::Movable || self.movement_speed <= 0 {
            Err(ValidationError::StorageTypeNotMovable)
        } else if self.resolved_location(now) is None {
            Err(ValidationError::NotAllowedWhileMoving)
        } else {
            let travel_time = distance / self.movement_speed;
            let arrives_at = if travel_time > 0 {
                now + travel_time
            } else {
                0
            };
            if arrives_at > i64::MAX {
                Err(ValidationError::InvalidInput)
            } else {
                Ok(StorageView { location_id: to_location, arrives_at, ..self })
            }
        }
    }
}

impl Storage {
    /// Adds `amount`, provided that the storage is at `from_location_id` at
    /// `current_time` and that the result stays within 0 and the capacity.
    pub fn add(&mut self, amount: i64, from_location_id: Id, current_time: i64) -> (r: Result<
        (),
        ValidationError,
    >)
        ensures
            match old(self)@.after_add(amount as int, from_location_id, current_time as int) {
                Ok(s) => r is Ok && final(self)@ == s,
                Err(e) => r == Err::<(), ValidationError>(e) && *final(self) == *old(self),
            },
            old(self)@.wf() ==> final(self)@.wf(),
    {
        let total: i128 = self.amount as i128 + amount as i128;
        if total > self.capacity as i128 {
            return Err(ValidationError::StorageFull);
        }
        match self.location_id(current_time) {
            Some(here) => {
                if here != from_location_id {
                    return Err(ValidationError::DifferentLocations);
                }
            },
            None => {
                return Err(ValidationError::DifferentLocations);
            },
        }
        if total < 0 {
            return Err(ValidationError::StorageAmountTooLow);
        }
        self.amount = total as i64;
        Ok(())
    }

    /// Takes a delivery of `amount` that was cut to the room of the
    /// storage beforehand; where the storage is and how full it is are not
    /// looked at again.
    pub(crate) fn add_impl(&mut self, amount: i64)
        requires
            0 <= amount <= old(self)@.headroom(),
        ensures
            final(self)@ == old(self)@.after_delivery(amount as int),
            old(self)@.wf() ==> final(self)@.wf(),
    {
        self.amount = self.amount + amount;
    }

    /// Takes `amount` out, provided that the result stays within 0 and the
    /// capacity.
    pub fn remove(&mut self, amount: i64) -> (r: Result<(), ValidationError>)
        ensures
            match old(self)@.after_remove(amount as int) {
                Ok(s) => r is Ok && final(self)@ == s,
                Err(e) => r == Err::<(), ValidationError>(e) && *final(self) == *old(self),
            },
            old(self)@.wf() ==> final(self)@.wf(),
    {
        let rest: i128 = self.amount as i128 - amount as i128;
        if rest < 0 {
            return Err(ValidationError::StorageAmountTooLow);
        }
        if rest > self.capacity as i128 {
            return Err(ValidationError::StorageFull);
        }
        self.amount = rest as i64;
        Ok(())
    }

    /// The room a storage takes up in its location.
    pub fn size(&self) -> (r: i64)
        ensures
            r == 1,
    {
        1
    }

    /// Where the storage is at `current_time`: `None` while a move is under
    /// way, else its bound location.
    pub fn location_id(&self, current_time: i64) -> (r: Option<Id>)
        ensures
            r == self@.resolved_location(current_time as int),
    {
        if self.arrives_at > 0 && current_time < self.arrives_at {
            None
        } else {
            Some(self.location_id)
        }
    }

    /// Whether a move is under way at `current_time`.
    pub fn is_moving(&self, current_time: i64) -> (r: bool)
        ensures
            r == (self@.resolved_location(current_time as int) is None),
    {
        self.location_id(current_time).is_none()
    }

    /// Whether a move has ended by `current_time` and was not settled yet.
    pub fn has_arrived(&self, current_time: i64) -> (r: bool)
        ensures
            r == self@.arrived(current_time as int),
    {
        self.location_id(current_time).is_some() && self.arrives_at > 0
    }
}

} // verus!
