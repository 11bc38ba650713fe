use crate::errors::ValidationError;
use crate::identity::Id;
use vstd::math::min;
use vstd::prelude::*;

verus! {

/// What a processor does with its output: a producer turns inputs into
/// output, a sender moves a quantity from one storage to another.
#[derive(Clone, Copy, Debug, PartialEq, Eq, Structural)]
pub enum ProcessorType {
    Producer,
    Sender,
}

/// How a processor is billed for fuel.
#[derive(Clone, Copy, Debug, PartialEq, Eq, Structural)]
pub enum FuelCostType {
    Nothing,
    Output,
    Distance,
}

/// A machine that earns `output_rate` units for every `processing_duration`
/// of time that has passed since `claimed_at`.
///
/// `awaiting_units` is output that was earned and not yet handed to a
/// storage. `fuel_resource_id` means something only where `fuel_cost_type`
/// is not `Nothing`.
#[derive(Clone, Copy, Debug, PartialEq, Eq)]
pub struct Processor {
    pub owner: Id,
    pub location_id: Id,
    pub fuel_resource_id: Id,
    pub output_resource_id: Id,
    pub output_rate: i64,
    pub processing_duration: i64,
    pub awaiting_units: i64,
    pub claimed_at: i64,
    pub processor_type: ProcessorType,
    pub fuel_cost_type: FuelCostType,
}

/// A processor as a mathematical value: quantities and times are unbounded
/// integers.
pub struct ProcessorView {
    pub owner: Id,
    pub location_id: Id,
    pub fuel_resource_id: Id,
    pub output_resource_id: Id,
    pub output_rate: int,
    pub processing_duration: int,
    pub awaiting_units: int,
    pub claimed_at: int,
    pub processor_type: ProcessorType,
    pub fuel_cost_type: FuelCostType,
}

impl View for Processor {
    type V = ProcessorView;

    open spec fn view(&self) -> ProcessorView {
        ProcessorView {
            owner: self.owner,
            location_id: self.location_id,
            fuel_resource_id: self.fuel_resource_id,
            output_resource_id: self.output_resource_id,
            output_rate: self.output_rate as int,
            processing_duration: self.processing_duration as int,
            awaiting_units: self.awaiting_units as int,
            claimed_at: self.claimed_at as int,
            processor_type: self.processor_type,
            fuel_cost_type: self.fuel_cost_type,
        }
    }
}

impl ProcessorView {
    /// Rate and cycle length are positive and nothing negative is pending.
    pub open spec fn wf(self) -> bool {
        &&& self.output_rate > 0
        &&& self.processing_duration > 0
        &&& self.awaiting_units >= 0
    }

    /// The number of whole cycles completed between the accrual baseline
    /// and `now`.
    pub open spec fn cycles(self, now: int) -> int {
        (now - self.claimed_at) / self.processing_duration
    }

    /// The output earned between the accrual baseline and `now`.
    pub open spec fn accrued(self, now: int) -> int {
        self.cycles(now) * self.output_rate
    }

    /// The output earned by `now`, at most `max_output`; or the reason why
    /// the books cannot be trusted: a cycle length that is not positive, a
    /// baseline in the future, or a negative yield.
    pub open spec fn calc_awaiting(self, now: int, max_output: int) -> Result<
        int,
        ValidationError,
    > {
        if self.processing_duration <= 0 {
            Err(ValidationError::InvalidInput)
        } else if now < self.claimed_at {
            Err(ValidationError::NegativeElapsedTime)
        } else if self.accrued(now) < 0 {
            Err(ValidationError::NegativeAccrual)
        } else {
            Ok(min(self.accrued(now), max_output))
        }
    }

    /// The time that earning `units` takes, rounded down.
    pub open spec fn time_for(self, units: int) -> int {
        self.processing_duration * units / self.output_rate
    }

    /// The processor after `units` of its pending output were handed over:
    /// the pending output shrinks by `units` and the accrual baseline
    /// advances by the time that earning them took, no further.
    pub open spec fn after_withdrawal(self, units: int) -> ProcessorView {
        ProcessorView {
            awaiting_units: self.awaiting_units - units,
            claimed_at: self.claimed_at + self.time_for(units),
            ..self
        }
    }
}

impl Processor {
    /// The room a processor takes up in its location.
    pub fn size(&self) -> (r: i64)
        ensures
            r == 1,
    {
        1
    }
}

} // verus!
