use vstd::prelude::*;

verus! {

/// Why an operation was refused.
#[derive(Clone, Copy, Debug, PartialEq, Eq, Structural)]
pub enum ValidationError {
    /// The requesting player is not the player that owns the entity.
    OwnerRequired,
    /// A recipe lists more inputs than allowed, or has inputs where none may be.
    ResourceInputMax,
    /// The resource of a storage is not the resource the operation works on.
    ResourceNotMatching,
    /// A recipe input has no amount listed for it.
    MissingResourceInputAmount,
    /// A resource record is missing.
    MissingResource,
    /// The recipe has no entry for the resource of the input storage.
    InputStorageNotSupplied,
    /// The recipe has no entry for the resource of the first input storage.
    InputStorage1NotSupplied,
    /// The recipe has no entry for the resource of the second input storage.
    InputStorage2NotSupplied,
    /// The input storage holds less than the production consumes.
    InputStorageAmountTooLow,
    /// The storage would hold more than its capacity.
    StorageFull,
    /// The storage would hold less than nothing.
    StorageAmountTooLow,
    /// A name is longer than its record allows.
    NameTooLong,
    /// Two entities that have to be in the same location are not.
    DifferentLocations,
    /// The location would hold more occupants than its capacity.
    LocationFull,
    /// The storage is fixed in place, or has no positive movement speed.
    StorageTypeNotMovable,
    /// The storage is in transit.
    NotAllowedWhileMoving,
    /// The processor is of the wrong variant for the operation.
    InvalidProcessorType,
    /// The processor burns fuel and no fuel storage was supplied.
    FuelNotSupplied,
    /// The fuel storage holds less than the transport costs.
    FuelNotEnough,
    /// The location has not been explored yet.
    LocationUnexplored,
    /// A parameter is outside the range the operation can work with.
    InvalidInput,
    /// A consistency check of an experimental feature failed.
    ExperimentalError,
    /// The current time lies before the processor's accrual baseline.
    NegativeElapsedTime,
    /// An accrued or pending quantity is negative.
    NegativeAccrual,
    /// The occupant to remove is not registered at the location.
    OccupantNotFound,
}

impl ValidationError {
    /// The text that tells a user what went wrong.
    pub open spec fn message_text(self) -> Seq<char> {
        match self {
            ValidationError::OwnerRequired => "Only allowed by owner."@,
            ValidationError::ResourceInputMax => "Resource has too many inputs defined."@,
            ValidationError::ResourceNotMatching => "Resource types doesn't match."@,
            ValidationError::MissingResourceInputAmount => "Missing resource input amount."@,
            ValidationError::MissingResource => "Missing resource account."@,
            ValidationError::InputStorageNotSupplied => "Input storage not supplied to production."@,
            ValidationError::InputStorage1NotSupplied => "Input storage 1 not supplied to production."@,
            ValidationError::InputStorage2NotSupplied => "Input storage 2 not supplied to production."@,
            ValidationError::InputStorageAmountTooLow => "Input storage amount is too low."@,
            ValidationError::StorageFull => "Storage is full."@,
            ValidationError::StorageAmountTooLow => "Not enough in storage."@,
            ValidationError::NameTooLong => "Name too long."@,
            ValidationError::DifferentLocations => "Locations are different."@,
            ValidationError::LocationFull => "Location is full."@,
            ValidationError::StorageTypeNotMovable => "Storage type static cannot be moved."@,
            ValidationError::NotAllowedWhileMoving => "This is not allowed while moving."@,
            ValidationError::InvalidProcessorType => "Processor type 'producer' required."@,
            ValidationError::FuelNotSupplied => "Fuel not supplied to processor."@,
            ValidationError::FuelNotEnough => "Not enough fuel."@,
            ValidationError::LocationUnexplored => "Location has not yet been explored."@,
            ValidationError::InvalidInput => "Invalid input parameter."@,
            ValidationError::ExperimentalError => "Trying stuff out and failing quite deliberately."@,
            ValidationError::NegativeElapsedTime => "Time runs backwards for this processor."@,
            ValidationError::NegativeAccrual => "A negative quantity was accrued."@,
            ValidationError::OccupantNotFound => "The occupant is not registered at the location."@,
        }
    }

    /// The text that tells a user what went wrong.
    pub fn message(&self) -> (text: &'static str)
        ensures
            text@ == self.message_text(),
    {
        match self {
            ValidationError::OwnerRequired => "Only allowed by owner.",
            ValidationError::ResourceInputMax => "Resource has too many inputs defined.",
            ValidationError::ResourceNotMatching => "Resource types doesn't match.",
            ValidationError::MissingResourceInputAmount => "Missing resource input amount.",
            ValidationError::MissingResource => "Missing resource account.",
            ValidationError::InputStorageNotSupplied => "Input storage not supplied to production.",
            ValidationError::InputStorage1NotSupplied => "Input storage 1 not supplied to production.",
            ValidationError::InputStorage2NotSupplied => "Input storage 2 not supplied to production.",
            ValidationError::InputStorageAmountTooLow => "Input storage amount is too low.",
            ValidationError::StorageFull => "Storage is full.",
            ValidationError::StorageAmountTooLow => "Not enough in storage.",
            ValidationError::NameTooLong => "Name too long.",
            ValidationError::DifferentLocations => "Locations are different.",
            ValidationError::LocationFull => "Location is full.",
            ValidationError::StorageTypeNotMovable => "Storage type static cannot be moved.",
            ValidationError::NotAllowedWhileMoving => "This is not allowed while moving.",
            ValidationError::InvalidProcessorType => "Processor type 'producer' required.",
            ValidationError::FuelNotSupplied => "Fuel not supplied to processor.",
            ValidationError::FuelNotEnough => "Not enough fuel.",
            ValidationError::LocationUnexplored => "Location has not yet been explored.",
            ValidationError::InvalidInput => "Invalid input parameter.",
            ValidationError::ExperimentalError => "Trying stuff out and failing quite deliberately.",
            ValidationError::NegativeElapsedTime => "Time runs backwards for this processor.",
            ValidationError::NegativeAccrual => "A negative quantity was accrued.",
            ValidationError::OccupantNotFound => "The occupant is not registered at the location.",
        }
    }
}

} // verus!
