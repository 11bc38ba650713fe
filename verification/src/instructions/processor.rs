use crate::arithmetic::earning_time_fits;
use crate::arithmetic::negative_quotient;
use crate::arithmetic::product_is_bounded;
use crate::arithmetic::product_is_monotonic;
use crate::arithmetic::whole_cycles_fit;
use crate::errors::ValidationError;
use crate::identity::Id;
use crate::instructions::location::same_location_id;
use crate::state::location::Location;
use crate::state::location::LocationView;
use crate::state::location::OwnershipRef;
use crate::state::processor::FuelCostType;
use crate::state::processor::Processor;
use crate::state::processor::ProcessorType;
use crate::state::processor::ProcessorView;
use crate::state::resource::Resource;
use crate::state::resource::ResourceView;
use crate::state::storage::Storage;
use crate::state::storage::StorageView;
use vstd::arithmetic::div_mod::lemma_div_is_ordered;
use vstd::arithmetic::div_mod::lemma_div_multiples_vanish;
use vstd::arithmetic::div_mod::lemma_fundamental_div_mod;
use vstd::arithmetic::div_mod::lemma_fundamental_div_mod_converse;
use vstd::arithmetic::div_mod::lemma_hoist_over_denominator;
use vstd::math::min;
use vstd::prelude::*;

verus! {

/// How many of the pending units can be handed over once `produced` units
/// have been earned: no more than are pending, than were earned, or than
/// the receiving storage has room for.
pub open spec fn withdrawal(p: ProcessorView, storage_out: StorageView, produced: int) -> int {
    min(min(p.awaiting_units, produced), storage_out.headroom())
}

/// What handing pending output over to `storage_out` at time `now` leaves
/// of the processor and the storage, or the reason why it cannot be done.
///
/// A producer delivers only to a storage at its own location that holds no
/// more than its capacity; a sender delivers whatever the storage has room
/// for, wherever it is.
///
/// Refused, in this order: a cycle length or a rate that is not positive
/// (`InvalidInput`); an accrual baseline after `now`
/// (`NegativeElapsedTime`); pending or earned output below nothing
/// (`NegativeAccrual`); and for a producer what the storage refuses to
/// add.
pub open spec fn move_awaiting_outcome(
    p: ProcessorView,
    storage_out: StorageView,
    now: int,
    max_output: int,
) -> Result<(ProcessorView, StorageView), ValidationError> {
    if p.processing_duration <= 0 || p.output_rate <= 0 {
        Err(ValidationError::InvalidInput)
    } else {
        match p.calc_awaiting(now, max_output) {
            Err(e) => Err(e),
            Ok(produced) => {
                if p.awaiting_units < 0 || produced < 0 {
                    Err(ValidationError::NegativeAccrual)
                } else {
                    let units = withdrawal(p, storage_out, produced);
                    match p.processor_type {
                        ProcessorType::Producer => match storage_out.after_add(
                            units,
                            p.location_id,
                            now,
                        ) {
                            Err(e) => Err(e),
                            Ok(filled) => Ok((p.after_withdrawal(units), filled)),
                        },
                        ProcessorType::Sender => Ok(
                            (p.after_withdrawal(units), storage_out.after_delivery(units)),
                        ),
                    }
                }
            },
        }
    }
}

/// A processor as it is created: nothing pending, accruing from `now`.
pub open spec fn new_processor(
    owner: Id,
    location_id: Id,
    processor_type: ProcessorType,
    fuel_resource_id: Id,
    output_resource_id: Id,
    output_rate: int,
    processing_duration: int,
    fuel_cost_type: FuelCostType,
    now: int,
) -> ProcessorView {
    ProcessorView {
        owner,
        location_id,
        fuel_resource_id,
        output_resource_id,
        output_rate,
        processing_duration,
        awaiting_units: 0,
        claimed_at: now,
        processor_type,
        fuel_cost_type,
    }
}

/// The views of an optional storage.
pub open spec fn view_of(storage: Option<&Storage>) -> Option<StorageView> {
    match storage {
        Some(s) => Some(s@),
        None => None,
    }
}

/// Whether the storages of a production are where the processor is, at
/// time `now`: the input always, the fuel where the processor burns any,
/// and the output where the processor is a producer.
pub open spec fn co_located(
    p: ProcessorView,
    storage_out: StorageView,
    storage_in: StorageView,
    storage_fuel: Option<StorageView>,
    now: int,
) -> bool {
    &&& storage_in.resolved_location(now) == Some(p.location_id)
    &&& (p.fuel_cost_type != FuelCostType::Nothing ==> (storage_fuel matches Some(fuel)
        && fuel.resolved_location(now) == Some(p.location_id)))
    &&& (p.processor_type == ProcessorType::Producer ==> storage_out.resolved_location(now)
        == Some(p.location_id))
}

/// What claiming the output of a recipe without inputs leaves of the
/// processor and the storage, or the reason why it cannot be done. Only a
/// producer can claim.
///
/// The pending output is set to what was earned since the accrual baseline
/// and then handed over as far as the storage has room.
///
/// Refused, in this order: a processor that is no producer
/// (`InvalidProcessorType`); a recipe with inputs (`ResourceInputMax`);
/// books that cannot be trusted; and, where anything was earned, what the
/// handing over refuses.
pub open spec fn claim_production_outcome(
    p: ProcessorView,
    recipe: ResourceView,
    storage: StorageView,
    now: int,
) -> Result<(ProcessorView, StorageView), ValidationError> {
    if p.processor_type != ProcessorType::Producer {
        Err(ValidationError::InvalidProcessorType)
    } else if recipe.input.len() > 0 {
        Err(ValidationError::ResourceInputMax)
    } else {
        match p.calc_awaiting(now, i64::MAX as int) {
            Err(e) => Err(e),
            Ok(units) => {
                let earning = ProcessorView { awaiting_units: units, ..p };
                if units > 0 {
                    move_awaiting_outcome(earning, storage, now, i64::MAX as int)
                } else {
                    Ok((earning, storage))
                }
            },
        }
    }
}

/// The processor once `units` more are pending, handed over to `storage`
/// as far as possible with the withdrawal capped at `cap`.
///
/// Refused: a pending count that a signed 64-bit quantity cannot hold
/// (`InvalidInput`); and, where anything is pending, what the handing over
/// refuses.
pub open spec fn earn_and_move(
    p: ProcessorView,
    storage: StorageView,
    units: int,
    now: int,
    cap: int,
) -> Result<(ProcessorView, StorageView), ValidationError> {
    if p.awaiting_units + units > i64::MAX || p.awaiting_units + units < i64::MIN {
        Err(ValidationError::InvalidInput)
    } else {
        let earning = ProcessorView { awaiting_units: p.awaiting_units + units, ..p };
        if earning.awaiting_units > 0 {
            move_awaiting_outcome(earning, storage, now, cap)
        } else {
            Ok((earning, storage))
        }
    }
}

/// What producing from one input leaves of the processor, the output
/// storage and the input storage, or the reason why it cannot be done.
///
/// The units produced are those earned since the accrual baseline, at most
/// as many as the input stock pays for. The input is charged for exactly
/// these units, and the withdrawal into the output storage is capped at the
/// amount of input charged.
///
/// Refused, in this order: a processor that is no producer
/// (`InvalidProcessorType`); a recipe for another resource than the output
/// storage holds (`ResourceNotMatching`); storages that are not where the
/// processor is (`DifferentLocations`); a recipe without an entry for the
/// resource of the input storage (`InputStorageNotSupplied`), without an
/// amount for it (`MissingResourceInputAmount`), or with an amount that is
/// not positive (`InvalidInput`); books that cannot be trusted; a stock
/// below nothing, which pays for less than no unit (`NegativeAccrual`); a
/// stock below the charge (`InputStorageAmountTooLow`); and what booking
/// and handing over refuse.
pub open spec fn produce_with_one_input_outcome(
    p: ProcessorView,
    recipe: ResourceView,
    recipe_id: Id,
    storage: StorageView,
    storage_input: StorageView,
    storage_fuel: Option<StorageView>,
    now: int,
) -> Result<(ProcessorView, StorageView, StorageView), ValidationError> {
    if p.processor_type != ProcessorType::Producer {
        Err(ValidationError::InvalidProcessorType)
    } else if recipe_id != storage.resource_id {
        Err(ValidationError::ResourceNotMatching)
    } else if !co_located(p, storage, storage_input, storage_fuel, now) {
        Err(ValidationError::DifferentLocations)
    } else {
        match recipe.input.index_of_first(storage_input.resource_id) {
            None => Err(ValidationError::InputStorageNotSupplied),
            Some(index) => {
                if index >= recipe.input_amount.len() {
                    Err(ValidationError::MissingResourceInputAmount)
                } else if recipe.input_amount[index] <= 0 {
                    Err(ValidationError::InvalidInput)
                } else {
                    let per_unit = recipe.input_amount[index] as int;
                    match p.calc_awaiting(now, storage_input.amount / per_unit) {
                        Err(e) => Err(e),
                        Ok(units) => {
                            let total_input = per_unit * units;
                            if units < 0 {
                                Err(ValidationError::NegativeAccrual)
                            } else if storage_input.amount < total_input {
                                Err(ValidationError::InputStorageAmountTooLow)
                            } else {
                                match earn_and_move(p, storage, units, now, total_input) {
                                    Err(e) => Err(e),
                                    Ok((worked, filled)) => Ok(
                                        (
                                            worked,
                                            filled,
                                            StorageView {
                                                amount: storage_input.amount - total_input,
                                                ..storage_input
                                            },
                                        ),
                                    ),
                                }
                            }
                        },
                    }
                }
            },
        }
    }
}

/// What producing from two inputs leaves of the processor, the output
/// storage and the two input storages, or the reason why it cannot be done.
///
/// Each input has to pay for at least one unit. The units produced are
/// those earned since the accrual baseline, at most as many as the scarcer
/// input pays for; both inputs are charged for exactly these units, and the
/// withdrawal into the output storage is capped at the number of units the
/// stocks pay for. A processor that burns fuel cannot produce this way,
/// since no fuel storage is at hand.
///
/// Refused, in this order: a processor that is no producer
/// (`InvalidProcessorType`); a recipe for another resource than the output
/// storage holds (`ResourceNotMatching`); storages that are not where the
/// processor is (`DifferentLocations`); a recipe without an entry for the
/// resource of the first input storage (`InputStorage1NotSupplied`) or of
/// the second (`InputStorage2NotSupplied`), without an amount for either
/// (`MissingResourceInputAmount`), or with an amount that is not positive
/// (`InvalidInput`); a stock that does not pay for one unit
/// (`InputStorageAmountTooLow`); books that cannot be trusted; a stock
/// below its charge (`InputStorageAmountTooLow`); and what booking and
/// handing over refuse.
pub open spec fn produce_with_two_inputs_outcome(
    p: ProcessorView,
    recipe: ResourceView,
    recipe_id: Id,
    storage: StorageView,
    storage_input_1: StorageView,
    storage_input_2: StorageView,
    now: int,
) -> Result<(ProcessorView, StorageView, StorageView, StorageView), ValidationError> {
    if p.processor_type != ProcessorType::Producer {
        Err(ValidationError::InvalidProcessorType)
    } else if recipe_id != storage.resource_id {
        Err(ValidationError::ResourceNotMatching)
    } else if !co_located(p, storage, storage_input_1, None, now) || !co_located(
        p,
        storage,
        storage_input_2,
        None,
        now,
    ) {
        Err(ValidationError::DifferentLocations)
    } else {
        match (
            recipe.input.index_of_first(storage_input_1.resource_id),
            recipe.input.index_of_first(storage_input_2.resource_id),
        ) {
            (None, _) => Err(ValidationError::InputStorage1NotSupplied),
            (Some(_), None) => Err(ValidationError::InputStorage2NotSupplied),
            (Some(index_1), Some(index_2)) => {
                if index_1 >= recipe.input_amount.len() || index_2 >= recipe.input_amount.len() {
                    Err(ValidationError::MissingResourceInputAmount)
                } else if recipe.input_amount[index_1] <= 0 || recipe.input_amount[index_2] <= 0 {
                    Err(ValidationError::InvalidInput)
                } else {
                    let per_unit_1 = recipe.input_amount[index_1] as int;
                    let per_unit_2 = recipe.input_amount[index_2] as int;
                    if storage_input_1.amount < per_unit_1 || storage_input_2.amount < per_unit_2 {
                        Err(ValidationError::InputStorageAmountTooLow)
                    } else {
                        let max_units = min(
                            storage_input_1.amount / per_unit_1,
                            storage_input_2.amount / per_unit_2,
                        );
                        match p.calc_awaiting(now, max_units) {
                            Err(e) => Err(e),
                            Ok(units) => {
                                let total_1 = per_unit_1 * units;
                                let total_2 = per_unit_2 * units;
                                if storage_input_1.amount < total_1 || storage_input_2.amount
                                    < total_2 {
                                    Err(ValidationError::InputStorageAmountTooLow)
                                } else {
                                    match earn_and_move(p, storage, units, now, max_units) {
                                        Err(e) => Err(e),
                                        Ok((worked, filled)) => Ok(
                                            (
                                                worked,
                                                filled,
                                                StorageView {
                                                    amount: storage_input_1.amount - total_1,
                                                    ..storage_input_1
                                                },
                                                StorageView {
                                                    amount: storage_input_2.amount - total_2,
                                                    ..storage_input_2
                                                },
                                            ),
                                        ),
                                    }
                                }
                            },
                        }
                    }
                }
            },
        }
    }
}

/// The fuel that sending `transferred` units from `from` to `to` costs: for
/// a processor billed by distance, the square of the distance for every
/// unit; nothing otherwise.
pub open spec fn fuel_cost(
    p: ProcessorView,
    from: LocationView,
    to: LocationView,
    transferred: int,
) -> int {
    if transferred > 0 && p.fuel_cost_type == FuelCostType::Distance {
        from.distance(to) * from.distance(to) * transferred
    } else {
        0
    }
}

/// What sending the whole stock of `storage_from` leaves of the processor,
/// the receiving storage, the sending storage and the fuel storage, or the
/// reason why it cannot be done.
///
/// The stock becomes pending output of the sender and is handed over to
/// the receiving storage as far as it has been earned and fits. Fuel is
/// charged for the whole stock; where any is due, the fuel storage has to
/// be where the processor is.
///
/// Refused, in this order: a processor that is no sender
/// (`InvalidProcessorType`); another resource than the receiving storage
/// holds (`ResourceNotMatching`); a sending storage that is not where the
/// processor is (`DifferentLocations`); a pending count that a signed
/// 64-bit quantity cannot hold (`InvalidInput`); what the handing over
/// refuses; and, where fuel is due, a fuel storage that is not where the
/// processor is (`DifferentLocations`) or holds too little
/// (`FuelNotEnough`).
pub open spec fn send_outcome(
    p: ProcessorView,
    recipe_id: Id,
    storage_to: StorageView,
    storage_from: StorageView,
    storage_fuel: StorageView,
    from: LocationView,
    to: LocationView,
    now: int,
) -> Result<(ProcessorView, StorageView, StorageView, StorageView), ValidationError> {
    if p.processor_type != ProcessorType::Sender {
        Err(ValidationError::InvalidProcessorType)
    } else if recipe_id != storage_to.resource_id {
        Err(ValidationError::ResourceNotMatching)
    } else if storage_from.resolved_location(now) != Some(p.location_id) {
        Err(ValidationError::DifferentLocations)
    } else {
        let transferred = storage_from.amount;
        let cost = fuel_cost(p, from, to, transferred);
        if p.awaiting_units + transferred > i64::MAX || p.awaiting_units + transferred
            < i64::MIN {
            Err(ValidationError::InvalidInput)
        } else {
            match move_awaiting_outcome(
                ProcessorView { awaiting_units: p.awaiting_units + transferred, ..p },
                storage_to,
                now,
                i64::MAX as int,
            ) {
                Err(e) => Err(e),
                Ok((worked, filled)) => {
                    if cost > 0 && storage_fuel.resolved_location(now) != Some(p.location_id) {
                        Err(ValidationError::DifferentLocations)
                    } else if cost > 0 && storage_fuel.amount < cost {
                        Err(ValidationError::FuelNotEnough)
                    } else {
                        Ok(
                            (
                                worked,
                                filled,
                                StorageView { amount: 0, ..storage_from },
                                StorageView { amount: storage_fuel.amount - cost, ..storage_fuel },
                            ),
                        )
                    }
                },
            }
        }
    }
}

/// The sum of a list of quantities.
pub open spec fn total(units: Seq<int>) -> int
    decreases units.len(),
{
    if units.len() == 0 {
        0
    } else {
        total(units.drop_last()) + units.last()
    }
}

/// The processor after each of `units` was withdrawn in turn.
pub open spec fn after_withdrawals(p: ProcessorView, units: Seq<int>) -> ProcessorView
    decreases units.len(),
{
    if units.len() == 0 {
        p
    } else {
        after_withdrawals(p, units.drop_last()).after_withdrawal(units.last())
    }
}

/// With a positive cycle length and a rate that is not negative, the output
/// earned never shrinks as time goes on, whatever it is capped at.
pub proof fn accrual_is_monotonic(p: ProcessorView, earlier: int, later: int, max_output: int)
    requires
        p.processing_duration > 0,
        p.output_rate >= 0,
        earlier <= later,
    ensures
        p.accrued(earlier) <= p.accrued(later),
        min(p.accrued(earlier), max_output) <= min(p.accrued(later), max_output),
        p.calc_awaiting(earlier, max_output) matches Ok(before) ==> p.calc_awaiting(
            later,
            max_output,
        ) matches Ok(after) && before <= after,
{
    lemma_div_is_ordered(earlier - p.claimed_at, later - p.claimed_at, p.processing_duration);
    let before = p.cycles(earlier);
    let after = p.cycles(later);
    assert(before * p.output_rate <= after * p.output_rate) by (nonlinear_arith)
        requires
            before <= after,
            p.output_rate >= 0,
    ;
    if earlier >= p.claimed_at {
        whole_cycles_fit(later - p.claimed_at, p.processing_duration);
        product_is_monotonic(0, 0, after, p.output_rate);
    }
}

/// The time that rounding took off a series of withdrawals: what the time
/// for each single withdrawal had beyond a whole number, in parts of the
/// output rate, summed up.
pub open spec fn rounded_off(p: ProcessorView, units: Seq<int>) -> int
    decreases units.len(),
{
    if units.len() == 0 {
        0
    } else {
        rounded_off(p, units.drop_last()) + (p.processing_duration * units.last()) % p.output_rate
    }
}

/// Partial withdrawals lose nothing: after any series of withdrawals the
/// pending output has shrunk by their sum, and the accrual baseline has
/// advanced by the time that earning the sum takes, less what rounding
/// took off. Where rounding took off less than one unit of time, and only
/// there, the baseline is where a single withdrawal of the sum would have
/// put it.
pub proof fn partial_withdrawals_are_lossless(p: ProcessorView, units: Seq<int>)
    requires
        p.output_rate > 0,
    ensures
        after_withdrawals(p, units).awaiting_units == p.awaiting_units - total(units),
        p.output_rate * (after_withdrawals(p, units).claimed_at - p.claimed_at)
            == p.processing_duration * total(units) - rounded_off(p, units),
        0 <= rounded_off(p, units),
        rounded_off(p, units) < p.output_rate <==> after_withdrawals(p, units).claimed_at
            == p.claimed_at + p.time_for(total(units)),
        after_withdrawals(p, units) == (ProcessorView {
            awaiting_units: after_withdrawals(p, units).awaiting_units,
            claimed_at: after_withdrawals(p, units).claimed_at,
            ..p
        }),
    decreases units.len(),
{
    let rate = p.output_rate;
    let length = p.processing_duration;
    if units.len() == 0 {
        assert(length * 0 == 0);
        assert(0int / rate == 0);
    } else {
        let front = units.drop_last();
        let last = units.last();
        partial_withdrawals_are_lossless(p, front);
        lemma_fundamental_div_mod(length * last, rate);
        assert(length * (total(front) + last) == length * total(front) + length * last)
            by (nonlinear_arith);
        let advanced = after_withdrawals(p, units).claimed_at - p.claimed_at;
        let before = after_withdrawals(p, front).claimed_at - p.claimed_at;
        assert(advanced == before + (length * last) / rate);
        assert(rate * advanced == rate * before + rate * ((length * last) / rate))
            by (nonlinear_arith)
            requires
                advanced == before + (length * last) / rate,
        ;
    }
    let whole = length * total(units);
    let lost = rounded_off(p, units);
    let advanced = after_withdrawals(p, units).claimed_at - p.claimed_at;
    assert(whole == rate * advanced + lost);
    if lost < rate {
        lemma_fundamental_div_mod_converse(whole, rate, advanced, lost);
    } else {
        lemma_fundamental_div_mod(whole, rate);
        assert(advanced < whole / rate) by (nonlinear_arith)
            requires
                whole == rate * advanced + lost,
                whole == rate * (whole / rate) + whole % rate,
                0 <= whole % rate < rate,
                lost >= rate,
                rate > 0,
        ;
    }
}

/// A withdrawal of whole cycles' worth of output leaves the rest in place:
/// what is earned by any time afterwards is what was earned before, less
/// the units withdrawn.
pub proof fn withdrawal_keeps_the_remainder(p: ProcessorView, units: int, now: int)
    requires
        p.processing_duration > 0,
        p.output_rate > 0,
        units % p.output_rate == 0,
    ensures
        p.after_withdrawal(units).accrued(now) == p.accrued(now) - units,
{
    let rate = p.output_rate;
    let length = p.processing_duration;
    let cycles_out = units / rate;
    lemma_fundamental_div_mod(units, rate);
    assert(length * units == rate * (length * cycles_out)) by (nonlinear_arith)
        requires
            units == rate * cycles_out,
    ;
    lemma_div_multiples_vanish(length * cycles_out, rate);
    assert(p.time_for(units) == length * cycles_out);
    lemma_hoist_over_denominator(now - p.claimed_at, -cycles_out, length as nat);
    assert((-cycles_out) * length == -(length * cycles_out)) by (nonlinear_arith);
    assert(p.after_withdrawal(units).cycles(now) == p.cycles(now) - cycles_out);
    assert((p.cycles(now) - cycles_out) * rate == p.cycles(now) * rate - units) by (nonlinear_arith)
        requires
            units == rate * cycles_out,
    ;
}

/// The output that `processor` has earned by `current_timestamp`, at most
/// `max_output`.
///
/// The books are refused where the cycle length is not positive, where the
/// accrual baseline lies after `current_timestamp`, and where the yield is
/// negative.
pub fn calc_awaiting(current_timestamp: i64, processor: &Processor, max_output: i64) -> (r: Result<
    i64,
    ValidationError,
>)
    ensures
        match processor@.calc_awaiting(current_timestamp as int, max_output as int) {
            Ok(units) => r matches Ok(v) && v == units,
            Err(e) => r == Err::<i64, ValidationError>(e),
        },
{
    if processor.processing_duration <= 0 {
        return Err(ValidationError::InvalidInput);
    }
    let elapsed: i128 = current_timestamp as i128 - processor.claimed_at as i128;
    if elapsed < 0 {
        return Err(ValidationError::NegativeElapsedTime);
    }
    let cycles: i128 = elapsed / (processor.processing_duration as i128);
    proof {
        whole_cycles_fit(elapsed as int, processor.processing_duration as int);
        product_is_bounded(
            cycles as int,
            processor.output_rate as int,
            0xffff_ffff_ffff_ffff,
            0x8000_0000_0000_0000,
        );
    }
    let produced: i128 = cycles * (processor.output_rate as i128);
    if produced < 0 {
        return Err(ValidationError::NegativeAccrual);
    }
    if produced < max_output as i128 {
        Ok(produced as i64)
    } else {
        Ok(max_output)
    }
}

/// Hands pending output of `processor` over to `storage_out`: as much as is
/// pending, has been earned by `current_timestamp` (at most `max_output`),
/// and fits the storage.
///
/// The accrual baseline advances by the time that earning the units handed
/// over took, rounded down, so that what stays pending keeps accruing from
/// where it was. A producer delivers only to a storage at its own location.
pub fn move_awaiting(
    processor: &mut Processor,
    storage_out: &mut Storage,
    current_timestamp: i64,
    max_output: i64,
) -> (r: Result<(), ValidationError>)
    ensures
        match move_awaiting_outcome(
            old(processor)@,
            old(storage_out)@,
            current_timestamp as int,
            max_output as int,
        ) {
            Ok((p, s)) => r is Ok && final(processor)@ == p && final(storage_out)@ == s,
            Err(e) => r == Err::<(), ValidationError>(e) && *final(processor) == *old(processor)
                && *final(storage_out) == *old(storage_out),
        },
        old(processor)@.wf() ==> final(processor)@.wf(),
        old(storage_out)@.wf() ==> final(storage_out)@.wf(),
        r is Ok ==> old(processor).claimed_at <= final(processor).claimed_at <= current_timestamp,
{
    if processor.processing_duration <= 0 || processor.output_rate <= 0 {
        return Err(ValidationError::InvalidInput);
    }
    let produced: i64 = match calc_awaiting(current_timestamp, processor, max_output) {
        Ok(units) => units,
        Err(e) => {
            return Err(e);
        },
    };
    if processor.awaiting_units < 0 || produced < 0 {
        return Err(ValidationError::NegativeAccrual);
    }
    let earned: i64 = if processor.awaiting_units < produced {
        processor.awaiting_units
    } else {
        produced
    };
    let room: i128 = storage_out.capacity as i128 - storage_out.amount as i128;
    let units: i64 = if room <= 0 {
        0
    } else if (earned as i128) <= room {
        earned
    } else {
        room as i64
    };
    let mut filled: Storage = *storage_out;
    match processor.processor_type {
        ProcessorType::Producer => {
            match filled.add(units, processor.location_id, current_timestamp) {
                Ok(()) => {},
                Err(e) => {
                    return Err(e);
                },
            }
        },
        ProcessorType::Sender => {
            filled.add_impl(units);
        },
    }
    proof {
        let p = processor@;
        let span = current_timestamp - p.claimed_at;
        assert(units <= p.accrued(current_timestamp as int));
        earning_time_fits(span, p.processing_duration, p.output_rate, units as int);
        product_is_bounded(
            p.processing_duration,
            units as int,
            0x8000_0000_0000_0000,
            0x8000_0000_0000_0000,
        );
    }
    let advance: i128 = (processor.processing_duration as i128 * units as i128) / (
    processor.output_rate as i128);
    processor.awaiting_units = processor.awaiting_units - units;
    processor.claimed_at = (processor.claimed_at as i128 + advance) as i64;
    *storage_out = filled;
    Ok(())
}

/// Creates a processor at `location` and registers it there as an occupant
/// owned by `owner`. A processor idles until time passes: nothing is
/// pending and the accrual baseline is `current_timestamp`.
///
/// Rate and cycle length have to be positive.
pub fn init(
    processor_id: Id,
    location: &mut Location,
    location_id: Id,
    owner: Id,
    processor_type: ProcessorType,
    fuel_resource_id: Id,
    output_resource_id: Id,
    output_rate: i64,
    processing_duration: i64,
    fuel_cost_type: FuelCostType,
    current_timestamp: i64,
) -> (r: Result<Processor, ValidationError>)
    ensures
        match (
            if output_rate <= 0 || processing_duration <= 0 {
                Err(ValidationError::InvalidInput)
            } else {
                old(location)@.after_add(owner, OwnershipRef { item: processor_id, player: owner })
            }
        ) {
            Ok(l) => final(location)@ == l && (r matches Ok(p) && p@ == new_processor(
                owner,
                location_id,
                processor_type,
                fuel_resource_id,
                output_resource_id,
                output_rate as int,
                processing_duration as int,
                fuel_cost_type,
                current_timestamp as int,
            ) && p@.wf()),
            Err(e) => r == Err::<Processor, ValidationError>(e) && *final(location) == *old(location),
        },
        old(location)@.wf() ==> final(location)@.wf(),
{
    if output_rate <= 0 || processing_duration <= 0 {
        return Err(ValidationError::InvalidInput);
    }
    match location.add(owner, OwnershipRef { item: processor_id, player: owner }) {
        Ok(()) => {},
        Err(e) => {
            return Err(e);
        },
    }
    Ok(
        Processor {
            owner,
            location_id,
            fuel_resource_id,
            output_resource_id,
            output_rate,
            processing_duration,
            awaiting_units: 0,
            claimed_at: current_timestamp,
            processor_type,
            fuel_cost_type,
        },
    )
}

/// Checks that the storages of a production are where the processor is at
/// `current_timestamp`.
pub fn validate_by_type(
    processor: &Processor,
    storage_out: &Storage,
    storage_in: &Storage,
    storage_fuel: Option<&Storage>,
    current_timestamp: i64,
) -> (r: Result<(), ValidationError>)
    ensures
        r == (if co_located(
            processor@,
            storage_out@,
            storage_in@,
            view_of(storage_fuel),
            current_timestamp as int,
        ) {
            Ok::<(), ValidationError>(())
        } else {
            Err::<(), ValidationError>(ValidationError::DifferentLocations)
        }),
{
    let here: Option<Id> = Some(processor.location_id);
    if !same_location_id(here, storage_in.location_id(current_timestamp)) {
        return Err(ValidationError::DifferentLocations);
    }
    match processor.fuel_cost_type {
        FuelCostType::Nothing => {},
        _ => {
            let fuel_location: Option<Id> = match storage_fuel {
                Some(fuel) => fuel.location_id(current_timestamp),
                None => None,
            };
            if !same_location_id(here, fuel_location) {
                return Err(ValidationError::DifferentLocations);
            }
        },
    }
    match processor.processor_type {
        ProcessorType::Producer => {
            if !same_location_id(
                storage_out.location_id(current_timestamp),
                storage_in.location_id(current_timestamp),
            ) {
                return Err(ValidationError::DifferentLocations);
            }
        },
        ProcessorType::Sender => {},
    }
    Ok(())
}

/// Claims what a producer has earned from a recipe that needs no input,
/// and hands it over to `storage` as far as it has room.
pub fn claim_production(
    processor: &mut Processor,
    resource: &Resource,
    storage: &mut Storage,
    current_timestamp: i64,
) -> (r: Result<(), ValidationError>)
    ensures
        match claim_production_outcome(
            old(processor)@,
            resource@,
            old(storage)@,
            current_timestamp as int,
        ) {
            Ok((p, s)) => r is Ok && final(processor)@ == p && final(storage)@ == s,
            Err(e) => r == Err::<(), ValidationError>(e) && *final(processor) == *old(processor)
                && *final(storage) == *old(storage),
        },
        old(processor)@.wf() ==> final(processor)@.wf(),
        old(storage)@.wf() ==> final(storage)@.wf(),
{
    match processor.processor_type {
        ProcessorType::Producer => {},
        ProcessorType::Sender => {
            return Err(ValidationError::InvalidProcessorType);
        },
    }
    if resource.input.len() > 0 {
        return Err(ValidationError::ResourceInputMax);
    }
    let units: i64 = match calc_awaiting(current_timestamp, processor, i64::MAX) {
        Ok(units) => units,
        Err(e) => {
            return Err(e);
        },
    };
    let mut earning: Processor = *processor;
    earning.awaiting_units = units;
    let mut filled: Storage = *storage;
    if units > 0 {
        match move_awaiting(&mut earning, &mut filled, current_timestamp, i64::MAX) {
            Ok(()) => {},
            Err(e) => {
                return Err(e);
            },
        }
    }
    *processor = earning;
    *storage = filled;
    Ok(())
}

/// Books `units` more as pending and hands pending output over to
/// `storage`, with the withdrawal capped at `cap`.
fn earn(
    processor: &mut Processor,
    storage: &mut Storage,
    units: i64,
    current_timestamp: i64,
    cap: i64,
) -> (r: Result<(), ValidationError>)
    ensures
        match earn_and_move(
            old(processor)@,
            old(storage)@,
            units as int,
            current_timestamp as int,
            cap as int,
        ) {
            Ok((p, s)) => r is Ok && final(processor)@ == p && final(storage)@ == s,
            Err(e) => r == Err::<(), ValidationError>(e) && *final(processor) == *old(processor)
                && *final(storage) == *old(storage),
        },
        old(processor)@.wf() && units >= 0 ==> final(processor)@.wf(),
        old(storage)@.wf() ==> final(storage)@.wf(),
{
    let pending: i128 = processor.awaiting_units as i128 + units as i128;
    if pending > i64::MAX as i128 || pending < i64::MIN as i128 {
        return Err(ValidationError::InvalidInput);
    }
    let mut earning: Processor = *processor;
    earning.awaiting_units = pending as i64;
    let mut filled: Storage = *storage;
    if earning.awaiting_units > 0 {
        match move_awaiting(&mut earning, &mut filled, current_timestamp, cap) {
            Ok(()) => {},
            Err(e) => {
                return Err(e);
            },
        }
    }
    *processor = earning;
    *storage = filled;
    Ok(())
}

/// Produces from one input: the units earned since the accrual baseline, at
/// most as many as the stock of `storage_input` pays for.
///
/// Only a producer can do this, only for the resource that `storage`
/// holds, and only with the storages where the processor is. The input is
/// charged for exactly the units produced; they become pending output and
/// are handed over to `storage` as far as it has room.
pub fn produce_with_one_input(
    processor: &mut Processor,
    resource_to_produce: &Resource,
    resource_id: Id,
    storage: &mut Storage,
    storage_input: &mut Storage,
    storage_fuel: Option<&Storage>,
    current_timestamp: i64,
) -> (r: Result<(), ValidationError>)
    ensures
        match produce_with_one_input_outcome(
            old(processor)@,
            resource_to_produce@,
            resource_id,
            old(storage)@,
            old(storage_input)@,
            view_of(storage_fuel),
            current_timestamp as int,
        ) {
            Ok((p, s, i)) => r is Ok && final(processor)@ == p && final(storage)@ == s && final(storage_input)@ == i,
            Err(e) => r == Err::<(), ValidationError>(e) && *final(processor) == *old(processor)
                && *final(storage) == *old(storage) && *final(storage_input) == *old(storage_input),
        },
        old(processor)@.wf() ==> final(processor)@.wf(),
        old(storage)@.wf() ==> final(storage)@.wf(),
        old(storage_input)@.wf() ==> final(storage_input)@.wf(),
{
    match processor.processor_type {
        ProcessorType::Producer => {},
        ProcessorType::Sender => {
            return Err(ValidationError::InvalidProcessorType);
        },
    }
    if resource_id != storage.resource_id {
        return Err(ValidationError::ResourceNotMatching);
    }
    match validate_by_type(processor, storage, storage_input, storage_fuel, current_timestamp) {
        Ok(()) => {},
        Err(e) => {
            return Err(e);
        },
    }
    let index: usize = match resource_to_produce.input_position(storage_input.resource_id) {
        Some(index) => index,
        None => {
            return Err(ValidationError::InputStorageNotSupplied);
        },
    };
    if index >= resource_to_produce.input_amount.len() {
        return Err(ValidationError::MissingResourceInputAmount);
    }
    let per_unit: i64 = resource_to_produce.input_amount[index];
    if per_unit <= 0 {
        return Err(ValidationError::InvalidInput);
    }
    let max_units: i64 = units_paid_for(storage_input.amount, per_unit);
    let units: i64 = match calc_awaiting(current_timestamp, processor, max_units) {
        Ok(units) => units,
        Err(e) => {
            return Err(e);
        },
    };
    if units < 0 {
        return Err(ValidationError::NegativeAccrual);
    }
    proof {
        if storage_input.amount < 0 {
            negative_quotient(storage_input.amount as int, per_unit as int);
        }
        whole_cycles_fit(storage_input.amount as int, per_unit as int);
        product_is_monotonic(per_unit as int, units as int, per_unit as int, max_units as int);
    }
    let total_input: i64 = per_unit * units;
    if storage_input.amount < total_input {
        return Err(ValidationError::InputStorageAmountTooLow);
    }
    match earn(processor, storage, units, current_timestamp, total_input) {
        Ok(()) => {},
        Err(e) => {
            return Err(e);
        },
    }
    storage_input.amount = storage_input.amount - total_input;
    Ok(())
}

/// The number of whole units that a stock of `amount` pays for at
/// `per_unit` each.
fn units_paid_for(amount: i64, per_unit: i64) -> (r: i64)
    requires
        per_unit > 0,
    ensures
        r == amount as int / per_unit as int,
{
    if amount >= 0 {
        amount / per_unit
    } else {
        // Round down, not towards zero.
        let below: i64 = -(amount + 1);
        proof {
            lemma_fundamental_div_mod(amount as int, per_unit as int);
            lemma_fundamental_div_mod(below as int, per_unit as int);
            let q = amount as int / per_unit as int;
            let m = amount as int % per_unit as int;
            let k = below as int / per_unit as int;
            let n = below as int % per_unit as int;
            assert(q == -k - 1) by (nonlinear_arith)
                requires
                    amount == per_unit * q + m,
                    below == per_unit * k + n,
                    below == -(amount + 1),
                    0 <= m < per_unit,
                    0 <= n < per_unit,
            ;
        }
        -(below / per_unit) - 1
    }
}

/// Produces from two inputs: the units earned since the accrual baseline,
/// at most as many as the scarcer of the two stocks pays for.
///
/// Only a producer can do this, only for the resource that `storage`
/// holds, only with the storages where the processor is, and only while
/// each stock pays for at least one unit. Both inputs are charged for
/// exactly the units produced; they become pending output and are handed
/// over to `storage` as far as it has room.
pub fn produce_with_two_inputs(
    processor: &mut Processor,
    resource_to_produce: &Resource,
    resource_id: Id,
    storage: &mut Storage,
    storage_input_1: &mut Storage,
    storage_input_2: &mut Storage,
    current_timestamp: i64,
) -> (r: Result<(), ValidationError>)
    ensures
        match produce_with_two_inputs_outcome(
            old(processor)@,
            resource_to_produce@,
            resource_id,
            old(storage)@,
            old(storage_input_1)@,
            old(storage_input_2)@,
            current_timestamp as int,
        ) {
            Ok((p, s, i1, i2)) => r is Ok && final(processor)@ == p && final(storage)@ == s
                && final(storage_input_1)@ == i1 && final(storage_input_2)@ == i2,
            Err(e) => r == Err::<(), ValidationError>(e) && *final(processor) == *old(processor)
                && *final(storage) == *old(storage) && *final(storage_input_1) == *old(
                storage_input_1
            ) && *final(storage_input_2) == *old(storage_input_2),
        },
        old(processor)@.wf() ==> final(processor)@.wf(),
        old(storage)@.wf() ==> final(storage)@.wf(),
        old(storage_input_1)@.wf() ==> final(storage_input_1)@.wf(),
        old(storage_input_2)@.wf() ==> final(storage_input_2)@.wf(),
{
    match processor.processor_type {
        ProcessorType::Producer => {},
        ProcessorType::Sender => {
            return Err(ValidationError::InvalidProcessorType);
        },
    }
    if resource_id != storage.resource_id {
        return Err(ValidationError::ResourceNotMatching);
    }
    match validate_by_type(processor, storage, storage_input_1, None, current_timestamp) {
        Ok(()) => {},
        Err(e) => {
            return Err(e);
        },
    }
    match validate_by_type(processor, storage, storage_input_2, None, current_timestamp) {
        Ok(()) => {},
        Err(e) => {
            return Err(e);
        },
    }
    let index_1: usize = match resource_to_produce.input_position(storage_input_1.resource_id) {
        Some(index) => index,
        None => {
            return Err(ValidationError::InputStorage1NotSupplied);
        },
    };
    let index_2: usize = match resource_to_produce.input_position(storage_input_2.resource_id) {
        Some(index) => index,
        None => {
            return Err(ValidationError::InputStorage2NotSupplied);
        },
    };
    if index_1 >= resource_to_produce.input_amount.len() || index_2
        >= resource_to_produce.input_amount.len() {
        return Err(ValidationError::MissingResourceInputAmount);
    }
    let per_unit_1: i64 = resource_to_produce.input_amount[index_1];
    let per_unit_2: i64 = resource_to_produce.input_amount[index_2];
    if per_unit_1 <= 0 || per_unit_2 <= 0 {
        return Err(ValidationError::InvalidInput);
    }
    if storage_input_1.amount < per_unit_1 || storage_input_2.amount < per_unit_2 {
        return Err(ValidationError::InputStorageAmountTooLow);
    }
    let max_units_1: i64 = storage_input_1.amount / per_unit_1;
    let max_units_2: i64 = storage_input_2.amount / per_unit_2;
    let max_units: i64 = if max_units_1 < max_units_2 {
        max_units_1
    } else {
        max_units_2
    };
    let units: i64 = match calc_awaiting(current_timestamp, processor, max_units) {
        Ok(units) => units,
        Err(e) => {
            return Err(e);
        },
    };
    proof {
        whole_cycles_fit(storage_input_1.amount as int, per_unit_1 as int);
        whole_cycles_fit(storage_input_2.amount as int, per_unit_2 as int);
        lemma_div_is_ordered(per_unit_1 as int, storage_input_1.amount as int, per_unit_1 as int);
        lemma_div_is_ordered(per_unit_2 as int, storage_input_2.amount as int, per_unit_2 as int);
        assert(units >= 0);
        product_is_monotonic(
            per_unit_1 as int,
            units as int,
            per_unit_1 as int,
            max_units_1 as int,
        );
        product_is_monotonic(
            per_unit_2 as int,
            units as int,
            per_unit_2 as int,
            max_units_2 as int,
        );
    }
    let total_1: i64 = per_unit_1 * units;
    let total_2: i64 = per_unit_2 * units;
    if storage_input_1.amount < total_1 || storage_input_2.amount < total_2 {
        return Err(ValidationError::InputStorageAmountTooLow);
    }
    match earn(processor, storage, units, current_timestamp, max_units) {
        Ok(()) => {},
        Err(e) => {
            return Err(e);
        },
    }
    storage_input_1.amount = storage_input_1.amount - total_1;
    storage_input_2.amount = storage_input_2.amount - total_2;
    Ok(())
}

/// The largest distance whose square a signed 64-bit quantity can hold.
const MAX_SQUARED_DISTANCE_ROOT: i128 = 3_037_000_499;

/// Sends the whole stock of `storage_from` on its way to `storage_to`.
///
/// Only a sender can do this, only for the resource that `storage_to`
/// holds, and only with `storage_from` where the processor is. The stock
/// becomes pending output of the sender and is handed over to `storage_to`
/// as far as it has been earned by `current_timestamp` and fits. A sender
/// billed by distance burns the square of the distance between the two
/// locations for every unit of the stock, from a fuel storage at its own
/// location.
pub fn send(
    processor: &mut Processor,
    resource_id: Id,
    storage_to: &mut Storage,
    storage_from: &mut Storage,
    storage_fuel: &mut Storage,
    from_location: &Location,
    to_location: &Location,
    current_timestamp: i64,
) -> (r: Result<(), ValidationError>)
    ensures
        match send_outcome(
            old(processor)@,
            resource_id,
            old(storage_to)@,
            old(storage_from)@,
            old(storage_fuel)@,
            from_location@,
            to_location@,
            current_timestamp as int,
        ) {
            Ok((p, to, from, fuel)) => r is Ok && final(processor)@ == p && final(storage_to)@
                == to && final(storage_from)@ == from && final(storage_fuel)@ == fuel,
            Err(e) => r == Err::<(), ValidationError>(e) && *final(processor) == *old(processor)
                && *final(storage_to) == *old(storage_to) && *final(storage_from) == *old(
                storage_from
            ) && *final(storage_fuel) == *old(storage_fuel),
        },
        old(processor)@.wf() && old(storage_from)@.wf() ==> final(processor)@.wf(),
        old(storage_to)@.wf() ==> final(storage_to)@.wf(),
        old(storage_from)@.wf() ==> final(storage_from)@.wf(),
        old(storage_fuel)@.wf() ==> final(storage_fuel)@.wf(),
{
    match processor.processor_type {
        ProcessorType::Sender => {},
        ProcessorType::Producer => {
            return Err(ValidationError::InvalidProcessorType);
        },
    }
    if resource_id != storage_to.resource_id {
        return Err(ValidationError::ResourceNotMatching);
    }
    let here: Option<Id> = Some(processor.location_id);
    if !same_location_id(here, storage_from.location_id(current_timestamp)) {
        return Err(ValidationError::DifferentLocations);
    }
    let transferred: i64 = storage_from.amount;
    let mut worked: Processor = *processor;
    let mut filled: Storage = *storage_to;
    match earn_all(&mut worked, &mut filled, transferred, current_timestamp) {
        Ok(()) => {},
        Err(e) => {
            return Err(e);
        },
    }
    let mut cost: i64 = 0;
    let billed: bool = match processor.fuel_cost_type {
        FuelCostType::Distance => transferred > 0,
        _ => false,
    };
    if billed {
        let distance: i128 = from_location.wide_distance(to_location);
        if distance > 0 {
            proof {
                product_is_monotonic(1, 1, distance as int, distance as int);
                product_is_monotonic(1, 1, distance * distance, transferred as int);
            }
            if !same_location_id(here, storage_fuel.location_id(current_timestamp)) {
                return Err(ValidationError::DifferentLocations);
            }
            if distance > MAX_SQUARED_DISTANCE_ROOT {
                proof {
                    product_is_monotonic(
                        MAX_SQUARED_DISTANCE_ROOT + 1,
                        MAX_SQUARED_DISTANCE_ROOT + 1,
                        distance as int,
                        distance as int,
                    );
                    product_is_monotonic(
                        (MAX_SQUARED_DISTANCE_ROOT + 1) * (MAX_SQUARED_DISTANCE_ROOT + 1),
                        1,
                        distance * distance,
                        transferred as int,
                    );
                }
                return Err(ValidationError::FuelNotEnough);
            }
            proof {
                product_is_monotonic(
                    distance as int,
                    distance as int,
                    MAX_SQUARED_DISTANCE_ROOT as int,
                    MAX_SQUARED_DISTANCE_ROOT as int,
                );
                product_is_monotonic(
                    distance * distance,
                    transferred as int,
                    MAX_SQUARED_DISTANCE_ROOT * MAX_SQUARED_DISTANCE_ROOT,
                    i64::MAX as int,
                );
            }
            let due: i128 = distance * distance * (transferred as i128);
            if (storage_fuel.amount as i128) < due {
                return Err(ValidationError::FuelNotEnough);
            }
            cost = due as i64;
        } else {
            assert(distance * distance * transferred == 0) by (nonlinear_arith)
                requires
                    distance == 0,
            ;
        }
    }
    storage_fuel.amount = storage_fuel.amount - cost;
    storage_from.amount = 0;
    *processor = worked;
    *storage_to = filled;
    Ok(())
}

/// Books `units` more as pending and hands pending output over to
/// `storage` without a cap, whether or not anything is pending.
fn earn_all(
    processor: &mut Processor,
    storage: &mut Storage,
    units: i64,
    current_timestamp: i64,
) -> (r: Result<(), ValidationError>)
    ensures
        match (if old(processor)@.awaiting_units + units > i64::MAX || old(
            processor
        )@.awaiting_units + units < i64::MIN {
            Err(ValidationError::InvalidInput)
        } else {
            move_awaiting_outcome(
                ProcessorView {
                    awaiting_units: old(processor)@.awaiting_units + units,
                    ..old(processor)@
                },
                old(storage)@,
                current_timestamp as int,
                i64::MAX as int,
            )
        }) {
            Ok((p, s)) => r is Ok && final(processor)@ == p && final(storage)@ == s,
            Err(e) => r == Err::<(), ValidationError>(e) && *final(processor) == *old(processor)
                && *final(storage) == *old(storage),
        },
        old(processor)@.wf() && units >= 0 ==> final(processor)@.wf(),
        old(storage)@.wf() ==> final(storage)@.wf(),
{
    let pending: i128 = processor.awaiting_units as i128 + units as i128;
    if pending > i64::MAX as i128 || pending < i64::MIN as i128 {
        return Err(ValidationError::InvalidInput);
    }
    let mut earning: Processor = *processor;
    earning.awaiting_units = pending as i64;
    let mut filled: Storage = *storage;
    match move_awaiting(&mut earning, &mut filled, current_timestamp, i64::MAX) {
        Ok(()) => {},
        Err(e) => {
            return Err(e);
        },
    }
    *processor = earning;
    *storage = filled;
    Ok(())
}

} // verus!
