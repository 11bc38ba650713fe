use got_a_min::errors::ValidationError;
use got_a_min::identity::Id;
use got_a_min::instructions::location;
use got_a_min::instructions::processor::calc_awaiting;
use got_a_min::instructions::processor::claim_production;
use got_a_min::instructions::processor::init;
use got_a_min::instructions::processor::move_awaiting;
use got_a_min::instructions::processor::produce_with_one_input;
use got_a_min::instructions::processor::produce_with_two_inputs;
use got_a_min::instructions::processor::send;
use got_a_min::instructions::processor::validate_by_type;
use got_a_min::instructions::resource::init_resource;
use got_a_min::state::Location;
use got_a_min::state::LocationType;
use got_a_min::state::processor::FuelCostType;
use got_a_min::state::processor::Processor;
use got_a_min::state::processor::ProcessorType;
use got_a_min::state::resource::Resource;
use got_a_min::state::storage::MobilityType;
use got_a_min::state::storage::Storage;

fn id(n: u8) -> Id {
    Id::new([n; 32])
}

const PLAYER: u8 = 1;
const HERE: u8 = 2;
const ELSEWHERE: u8 = 3;
const ORE: u8 = 10;
const IRON: u8 = 11;
const COAL: u8 = 12;
const STEEL: u8 = 13;
const FUEL: u8 = 14;

fn producer(output_rate: i64, processing_duration: i64, claimed_at: i64) -> Processor {
    Processor {
        owner: id(PLAYER),
        location_id: id(HERE),
        fuel_resource_id: id(FUEL),
        output_resource_id: id(IRON),
        output_rate,
        processing_duration,
        awaiting_units: 0,
        claimed_at,
        processor_type: ProcessorType::Producer,
        fuel_cost_type: FuelCostType::Nothing,
    }
}

fn sender(fuel_cost_type: FuelCostType) -> Processor {
    Processor {
        owner: id(PLAYER),
        location_id: id(HERE),
        fuel_resource_id: id(FUEL),
        output_resource_id: id(IRON),
        output_rate: 5,
        processing_duration: 10,
        awaiting_units: 0,
        claimed_at: 0,
        processor_type: ProcessorType::Sender,
        fuel_cost_type,
    }
}

fn storage(resource: u8, place: u8, amount: i64, capacity: i64) -> Storage {
    Storage {
        owner: id(PLAYER),
        resource_id: id(resource),
        location_id: id(place),
        amount,
        capacity,
        mobility_type: MobilityType::Fixed,
        movement_speed: 0,
        arrives_at: 0,
    }
}

fn recipe(inputs: Vec<Id>, amounts: Vec<i64>) -> Resource {
    init_resource(id(PLAYER), String::from("thing"), inputs, amounts).unwrap()
}

fn place(x: i64, y: i64) -> Location {
    location::init(id(PLAYER), String::from("cell"), x, y, 5, LocationType::Space).unwrap()
}

#[test]
fn calc_awaiting_counts_whole_cycles() {
    let p = producer(5, 10, 0);
    assert_eq!(calc_awaiting(0, &p, i64::MAX), Ok(0));
    assert_eq!(calc_awaiting(9, &p, i64::MAX), Ok(0));
    assert_eq!(calc_awaiting(10, &p, i64::MAX), Ok(5));
    assert_eq!(calc_awaiting(25, &p, i64::MAX), Ok(10));
    assert_eq!(calc_awaiting(30, &p, i64::MAX), Ok(15));
}

#[test]
fn calc_awaiting_is_capped() {
    let p = producer(5, 10, 0);
    assert_eq!(calc_awaiting(100, &p, 7), Ok(7));
    assert_eq!(calc_awaiting(100, &p, 50), Ok(50));
    assert_eq!(calc_awaiting(100, &p, 51), Ok(50));
    assert_eq!(calc_awaiting(100, &p, 0), Ok(0));
}

#[test]
fn calc_awaiting_never_shrinks_with_time() {
    let p = producer(3, 7, 5);
    let mut last = 0;
    for now in 5..200 {
        let units = calc_awaiting(now, &p, 60).unwrap();
        assert!(units >= last);
        last = units;
    }
    assert_eq!(last, 60);
}

#[test]
fn calc_awaiting_refuses_a_baseline_in_the_future() {
    let p = producer(5, 10, 100);
    assert_eq!(calc_awaiting(99, &p, i64::MAX), Err(ValidationError::NegativeElapsedTime));
}

#[test]
fn calc_awaiting_refuses_a_cycle_length_that_is_not_positive() {
    assert_eq!(
        calc_awaiting(25, &producer(5, 0, 0), i64::MAX),
        Err(ValidationError::InvalidInput)
    );
    assert_eq!(
        calc_awaiting(25, &producer(5, -3, 0), i64::MAX),
        Err(ValidationError::InvalidInput)
    );
}

#[test]
fn calc_awaiting_refuses_a_negative_yield() {
    assert_eq!(
        calc_awaiting(25, &producer(-5, 10, 0), i64::MAX),
        Err(ValidationError::NegativeAccrual)
    );
}

#[test]
fn calc_awaiting_survives_the_widest_span() {
    let p = producer(i64::MAX, 1, i64::MIN);
    assert_eq!(calc_awaiting(i64::MAX, &p, i64::MAX), Ok(i64::MAX));
    assert_eq!(calc_awaiting(i64::MAX, &p, 12), Ok(12));
}

#[test]
fn simple_production() {
    let mut p = producer(5, 10, 0);
    let mut out = storage(IRON, HERE, 0, 100);
    let r = claim_production(&mut p, &recipe(vec![], vec![]), &mut out, 25);
    assert_eq!(r, Ok(()));
    assert_eq!(out.amount, 10);
    assert_eq!(p.awaiting_units, 0);
    assert_eq!(p.claimed_at, 20);
}

#[test]
fn capacity_clamped_withdrawal() {
    let mut p = producer(5, 10, 0);
    let mut out = storage(IRON, HERE, 0, 6);
    let r = claim_production(&mut p, &recipe(vec![], vec![]), &mut out, 25);
    assert_eq!(r, Ok(()));
    assert_eq!(out.amount, 6);
    assert_eq!(p.awaiting_units, 4);
    assert_eq!(p.claimed_at, 12);
}

#[test]
fn claim_production_refuses_a_recipe_with_inputs() {
    let mut p = producer(5, 10, 0);
    let mut out = storage(IRON, HERE, 0, 100);
    let before = (p, out);
    let r = claim_production(&mut p, &recipe(vec![id(ORE)], vec![1]), &mut out, 25);
    assert_eq!(r, Err(ValidationError::ResourceInputMax));
    assert_eq!((p, out), before);
}

#[test]
fn claim_production_is_for_producers_only() {
    let mut p = sender(FuelCostType::Nothing);
    let mut out = storage(IRON, HERE, 0, 100);
    let before = (p, out);
    let r = claim_production(&mut p, &recipe(vec![], vec![]), &mut out, 25);
    assert_eq!(r, Err(ValidationError::InvalidProcessorType));
    let r = claim_production(&mut p, &recipe(vec![id(ORE)], vec![1]), &mut out, 25);
    assert_eq!(r, Err(ValidationError::InvalidProcessorType));
    assert_eq!((p, out), before);
}

#[test]
fn claim_production_before_the_first_cycle_changes_nothing_but_the_pending_count() {
    let mut p = producer(5, 10, 0);
    p.awaiting_units = 3;
    let mut out = storage(IRON, ELSEWHERE, 0, 100);
    assert_eq!(claim_production(&mut p, &recipe(vec![], vec![]), &mut out, 9), Ok(()));
    assert_eq!(p.awaiting_units, 0);
    assert_eq!(p.claimed_at, 0);
    assert_eq!(out.amount, 0);
}

#[test]
fn claim_production_refuses_a_storage_elsewhere() {
    let mut p = producer(5, 10, 0);
    let mut out = storage(IRON, ELSEWHERE, 0, 100);
    let before = (p, out);
    let r = claim_production(&mut p, &recipe(vec![], vec![]), &mut out, 25);
    assert_eq!(r, Err(ValidationError::DifferentLocations));
    assert_eq!((p, out), before);
}

#[test]
fn claim_production_refuses_a_storage_in_transit() {
    let mut p = producer(5, 10, 0);
    let mut out = storage(IRON, HERE, 0, 100);
    out.arrives_at = 26;
    let r = claim_production(&mut p, &recipe(vec![], vec![]), &mut out, 25);
    assert_eq!(r, Err(ValidationError::DifferentLocations));
    out.arrives_at = 25;
    assert_eq!(claim_production(&mut p, &recipe(vec![], vec![]), &mut out, 25), Ok(()));
    assert_eq!(out.amount, 10);
}

#[test]
fn claim_production_refuses_an_over_full_storage() {
    let mut p = producer(5, 10, 0);
    let mut out = storage(IRON, HERE, 9, 6);
    let before = (p, out);
    let r = claim_production(&mut p, &recipe(vec![], vec![]), &mut out, 25);
    assert_eq!(r, Err(ValidationError::StorageFull));
    assert_eq!((p, out), before);
}

#[test]
fn move_awaiting_hands_over_what_is_pending_earned_and_fits() {
    let mut p = producer(5, 10, 0);
    p.awaiting_units = 7;
    let mut out = storage(IRON, HERE, 0, 100);
    assert_eq!(move_awaiting(&mut p, &mut out, 25, i64::MAX), Ok(()));
    assert_eq!((out.amount, p.awaiting_units, p.claimed_at), (7, 0, 14));

    let mut p = producer(5, 10, 0);
    p.awaiting_units = 70;
    let mut out = storage(IRON, HERE, 0, 100);
    assert_eq!(move_awaiting(&mut p, &mut out, 25, i64::MAX), Ok(()));
    assert_eq!((out.amount, p.awaiting_units, p.claimed_at), (10, 60, 20));

    let mut p = producer(5, 10, 0);
    p.awaiting_units = 70;
    let mut out = storage(IRON, HERE, 0, 100);
    assert_eq!(move_awaiting(&mut p, &mut out, 25, 4), Ok(()));
    assert_eq!((out.amount, p.awaiting_units, p.claimed_at), (4, 66, 8));
}

#[test]
fn move_awaiting_rounds_the_time_down() {
    let mut p = producer(3, 10, 0);
    p.awaiting_units = 2;
    let mut out = storage(IRON, HERE, 0, 100);
    assert_eq!(move_awaiting(&mut p, &mut out, 10, i64::MAX), Ok(()));
    assert_eq!((out.amount, p.awaiting_units, p.claimed_at), (2, 0, 6));
}

#[test]
fn move_awaiting_refuses_bad_books() {
    let mut out = storage(IRON, HERE, 0, 100);
    let mut p = producer(0, 10, 0);
    assert_eq!(move_awaiting(&mut p, &mut out, 25, 9), Err(ValidationError::InvalidInput));
    let mut p = producer(5, 0, 0);
    assert_eq!(move_awaiting(&mut p, &mut out, 25, 9), Err(ValidationError::InvalidInput));
    let mut p = producer(5, 10, 0);
    p.awaiting_units = -1;
    assert_eq!(move_awaiting(&mut p, &mut out, 25, 9), Err(ValidationError::NegativeAccrual));
    let mut p = producer(5, 10, 0);
    p.awaiting_units = 1;
    assert_eq!(move_awaiting(&mut p, &mut out, 25, -9), Err(ValidationError::NegativeAccrual));
    let mut p = producer(5, 10, 30);
    assert_eq!(
        move_awaiting(&mut p, &mut out, 25, 9),
        Err(ValidationError::NegativeElapsedTime)
    );
    assert_eq!(out, storage(IRON, HERE, 0, 100));
}

#[test]
fn move_awaiting_of_a_sender_ignores_where_the_storage_is() {
    let mut p = sender(FuelCostType::Nothing);
    p.awaiting_units = 4;
    let mut out = storage(IRON, ELSEWHERE, 0, 100);
    assert_eq!(move_awaiting(&mut p, &mut out, 25, i64::MAX), Ok(()));
    assert_eq!((out.amount, p.awaiting_units, p.claimed_at), (4, 0, 8));
}

#[test]
fn move_awaiting_of_a_sender_leaves_an_over_full_storage_alone() {
    let mut p = sender(FuelCostType::Nothing);
    p.awaiting_units = 4;
    let mut out = storage(IRON, ELSEWHERE, 9, 6);
    assert_eq!(move_awaiting(&mut p, &mut out, 25, i64::MAX), Ok(()));
    assert_eq!((out.amount, p.awaiting_units, p.claimed_at), (9, 4, 0));
    let mut p = producer(5, 10, 0);
    p.awaiting_units = 4;
    let mut out = storage(IRON, HERE, 9, 6);
    assert_eq!(move_awaiting(&mut p, &mut out, 25, i64::MAX), Err(ValidationError::StorageFull));
}

#[test]
fn rounding_takes_time_off_partial_withdrawals() {
    let mut p = producer(5, 1, 0);
    p.awaiting_units = 10;
    let mut out = storage(IRON, HERE, 0, 6);
    assert_eq!(move_awaiting(&mut p, &mut out, 100, i64::MAX), Ok(()));
    assert_eq!((out.amount, p.awaiting_units, p.claimed_at), (6, 4, 1));
    out.amount = 0;
    assert_eq!(move_awaiting(&mut p, &mut out, 100, i64::MAX), Ok(()));
    assert_eq!((out.amount, p.awaiting_units, p.claimed_at), (4, 0, 1));
    assert_eq!(1 * 10 / 5, 2);
}

#[test]
fn partial_withdrawals_lose_nothing() {
    let empty = recipe(vec![], vec![]);
    let mut p = producer(5, 10, 0);
    let mut out = storage(IRON, HERE, 0, 5);
    assert_eq!(claim_production(&mut p, &empty, &mut out, 40), Ok(()));
    assert_eq!((out.amount, p.awaiting_units, p.claimed_at), (5, 15, 10));
    out.amount = 0;
    out.capacity = 10;
    assert_eq!(move_awaiting(&mut p, &mut out, 40, i64::MAX), Ok(()));
    assert_eq!((out.amount, p.awaiting_units, p.claimed_at), (10, 5, 30));
    out.amount = 0;
    assert_eq!(move_awaiting(&mut p, &mut out, 40, i64::MAX), Ok(()));
    assert_eq!((out.amount, p.awaiting_units, p.claimed_at), (5, 0, 40));
    assert_eq!(p.claimed_at, 0 + 10 * 20 / 5);
}

#[test]
fn input_starved_one_input_production() {
    let mut p = producer(5, 10, 0);
    let mut out = storage(IRON, HERE, 0, 100);
    let mut input = storage(ORE, HERE, 7, 100);
    let r = produce_with_one_input(
        &mut p,
        &recipe(vec![id(ORE)], vec![3]),
        id(IRON),
        &mut out,
        &mut input,
        None,
        1000,
    );
    assert_eq!(r, Ok(()));
    assert_eq!(input.amount, 1);
    assert_eq!(out.amount, 2);
    assert_eq!(p.awaiting_units, 0);
    assert_eq!(p.claimed_at, 4);
}

#[test]
fn one_input_production_is_limited_by_time() {
    let mut p = producer(5, 10, 0);
    let mut out = storage(IRON, HERE, 0, 100);
    let mut input = storage(ORE, HERE, 90, 100);
    let r = produce_with_one_input(
        &mut p,
        &recipe(vec![id(COAL), id(ORE)], vec![9, 2]),
        id(IRON),
        &mut out,
        &mut input,
        None,
        25,
    );
    assert_eq!(r, Ok(()));
    assert_eq!(input.amount, 70);
    assert_eq!(out.amount, 10);
    assert_eq!(p.awaiting_units, 0);
    assert_eq!(p.claimed_at, 20);
}

#[test]
fn one_input_production_caps_the_withdrawal_at_the_input_charged() {
    let mut p = producer(5, 10, 0);
    p.awaiting_units = 20;
    let mut out = storage(IRON, HERE, 0, 100);
    let mut input = storage(ORE, HERE, 3, 100);
    let r = produce_with_one_input(
        &mut p,
        &recipe(vec![id(ORE)], vec![1]),
        id(IRON),
        &mut out,
        &mut input,
        None,
        1000,
    );
    assert_eq!(r, Ok(()));
    assert_eq!(input.amount, 0);
    assert_eq!(out.amount, 3);
    assert_eq!(p.awaiting_units, 20);
    assert_eq!(p.claimed_at, 6);
}

#[test]
fn co_location_violation() {
    let mut p = producer(5, 10, 0);
    let mut out = storage(IRON, HERE, 0, 100);
    let mut input = storage(ORE, ELSEWHERE, 7, 100);
    let before = (p, out, input);
    let r = produce_with_one_input(
        &mut p,
        &recipe(vec![id(ORE)], vec![3]),
        id(IRON),
        &mut out,
        &mut input,
        None,
        1000,
    );
    assert_eq!(r, Err(ValidationError::DifferentLocations));
    assert_eq!((p, out, input), before);
}

#[test]
fn one_input_production_refusals() {
    let ore = recipe(vec![id(ORE)], vec![3]);
    let mut out = storage(IRON, HERE, 0, 100);
    let mut input = storage(ORE, HERE, 7, 100);

    let mut p = sender(FuelCostType::Nothing);
    assert_eq!(
        produce_with_one_input(&mut p, &ore, id(IRON), &mut out, &mut input, None, 1000),
        Err(ValidationError::InvalidProcessorType)
    );
    let mut p = producer(5, 10, 0);
    assert_eq!(
        produce_with_one_input(&mut p, &ore, id(STEEL), &mut out, &mut input, None, 1000),
        Err(ValidationError::ResourceNotMatching)
    );
    let mut coal = storage(COAL, HERE, 7, 100);
    assert_eq!(
        produce_with_one_input(&mut p, &ore, id(IRON), &mut out, &mut coal, None, 1000),
        Err(ValidationError::InputStorageNotSupplied)
    );
    let mut elsewhere = storage(IRON, ELSEWHERE, 0, 100);
    assert_eq!(
        produce_with_one_input(&mut p, &ore, id(IRON), &mut elsewhere, &mut input, None, 1000),
        Err(ValidationError::DifferentLocations)
    );
    let unpriced = Resource {
        owner: id(PLAYER),
        name: String::from("odd"),
        input: vec![id(ORE)],
        input_amount: vec![],
    };
    assert_eq!(
        produce_with_one_input(&mut p, &unpriced, id(IRON), &mut out, &mut input, None, 1000),
        Err(ValidationError::MissingResourceInputAmount)
    );
    let free = recipe(vec![id(ORE)], vec![0]);
    assert_eq!(
        produce_with_one_input(&mut p, &free, id(IRON), &mut out, &mut input, None, 1000),
        Err(ValidationError::InvalidInput)
    );
    let mut owing = storage(ORE, HERE, -7, 100);
    assert_eq!(
        produce_with_one_input(&mut p, &ore, id(IRON), &mut out, &mut owing, None, 1000),
        Err(ValidationError::NegativeAccrual)
    );
    assert_eq!(
        produce_with_one_input(&mut p, &ore, id(IRON), &mut out, &mut input, None, -1),
        Err(ValidationError::NegativeElapsedTime)
    );
    p.awaiting_units = i64::MAX;
    assert_eq!(
        produce_with_one_input(&mut p, &ore, id(IRON), &mut out, &mut input, None, 1000),
        Err(ValidationError::InvalidInput)
    );
    assert_eq!(out, storage(IRON, HERE, 0, 100));
    assert_eq!(input, storage(ORE, HERE, 7, 100));
}

#[test]
fn a_processor_that_burns_fuel_needs_its_fuel_at_hand() {
    let ore = recipe(vec![id(ORE)], vec![3]);
    let mut p = producer(5, 10, 0);
    p.fuel_cost_type = FuelCostType::Output;
    let out = storage(IRON, HERE, 0, 100);
    let input = storage(ORE, HERE, 7, 100);
    assert_eq!(
        validate_by_type(&p, &out, &input, None, 5),
        Err(ValidationError::DifferentLocations)
    );
    let far = storage(FUEL, ELSEWHERE, 7, 100);
    assert_eq!(
        validate_by_type(&p, &out, &input, Some(&far), 5),
        Err(ValidationError::DifferentLocations)
    );
    let mut near = storage(FUEL, HERE, 7, 100);
    assert_eq!(validate_by_type(&p, &out, &input, Some(&near), 5), Ok(()));
    near.arrives_at = 6;
    assert_eq!(
        validate_by_type(&p, &out, &input, Some(&near), 5),
        Err(ValidationError::DifferentLocations)
    );
    let mut out = out;
    let mut input = input;
    near.arrives_at = 0;
    assert_eq!(
        produce_with_one_input(&mut p, &ore, id(IRON), &mut out, &mut input, Some(&near), 1000),
        Ok(())
    );
    assert_eq!(near.amount, 7);
}

#[test]
fn two_input_production_follows_the_scarcer_input() {
    let steel = recipe(vec![id(IRON), id(COAL)], vec![2, 5]);
    let mut p = producer(5, 10, 0);
    let mut out = storage(STEEL, HERE, 0, 100);
    let mut iron = storage(IRON, HERE, 9, 100);
    let mut coal = storage(COAL, HERE, 16, 100);
    let r = produce_with_two_inputs(
        &mut p,
        &steel,
        id(STEEL),
        &mut out,
        &mut iron,
        &mut coal,
        1000,
    );
    assert_eq!(r, Ok(()));
    assert_eq!(iron.amount, 3);
    assert_eq!(coal.amount, 1);
    assert_eq!(out.amount, 3);
    assert_eq!(p.awaiting_units, 0);
    assert_eq!(p.claimed_at, 6);
}

#[test]
fn two_input_production_refusals() {
    let steel = recipe(vec![id(IRON), id(COAL)], vec![2, 5]);
    let mut out = storage(STEEL, HERE, 0, 100);
    let mut iron = storage(IRON, HERE, 9, 100);
    let mut coal = storage(COAL, HERE, 16, 100);
    let mut ore = storage(ORE, HERE, 16, 100);

    let mut p = sender(FuelCostType::Nothing);
    assert_eq!(
        produce_with_two_inputs(&mut p, &steel, id(STEEL), &mut out, &mut iron, &mut coal, 50),
        Err(ValidationError::InvalidProcessorType)
    );
    let mut p = producer(5, 10, 0);
    assert_eq!(
        produce_with_two_inputs(&mut p, &steel, id(IRON), &mut out, &mut iron, &mut coal, 50),
        Err(ValidationError::ResourceNotMatching)
    );
    assert_eq!(
        produce_with_two_inputs(&mut p, &steel, id(STEEL), &mut out, &mut ore, &mut coal, 50),
        Err(ValidationError::InputStorage1NotSupplied)
    );
    assert_eq!(
        produce_with_two_inputs(&mut p, &steel, id(STEEL), &mut out, &mut iron, &mut ore, 50),
        Err(ValidationError::InputStorage2NotSupplied)
    );
    let mut far = storage(COAL, ELSEWHERE, 16, 100);
    assert_eq!(
        produce_with_two_inputs(&mut p, &steel, id(STEEL), &mut out, &mut iron, &mut far, 50),
        Err(ValidationError::DifferentLocations)
    );
    let mut little = storage(COAL, HERE, 4, 100);
    assert_eq!(
        produce_with_two_inputs(&mut p, &steel, id(STEEL), &mut out, &mut iron, &mut little, 50),
        Err(ValidationError::InputStorageAmountTooLow)
    );
    p.fuel_cost_type = FuelCostType::Distance;
    assert_eq!(
        produce_with_two_inputs(&mut p, &steel, id(STEEL), &mut out, &mut iron, &mut coal, 50),
        Err(ValidationError::DifferentLocations)
    );
    assert_eq!(out, storage(STEEL, HERE, 0, 100));
    assert_eq!(iron, storage(IRON, HERE, 9, 100));
    assert_eq!(coal, storage(COAL, HERE, 16, 100));
}

#[test]
fn fuel_insufficient_send() {
    let mut p = sender(FuelCostType::Distance);
    let mut to = storage(IRON, ELSEWHERE, 0, 100);
    let mut from = storage(IRON, HERE, 2, 100);
    let mut fuel = storage(FUEL, HERE, 10, 100);
    let before = (p, to, from, fuel);
    let r = send(&mut p, id(IRON), &mut to, &mut from, &mut fuel, &place(0, 0), &place(1, 2), 1000);
    assert_eq!(r, Err(ValidationError::FuelNotEnough));
    assert_eq!((p, to, from, fuel), before);
}

#[test]
fn send_moves_the_whole_stock_and_burns_fuel_by_distance() {
    let mut p = sender(FuelCostType::Distance);
    let mut to = storage(IRON, ELSEWHERE, 0, 100);
    let mut from = storage(IRON, HERE, 2, 100);
    let mut fuel = storage(FUEL, HERE, 20, 100);
    let r = send(&mut p, id(IRON), &mut to, &mut from, &mut fuel, &place(0, 0), &place(1, 2), 1000);
    assert_eq!(r, Ok(()));
    assert_eq!(from.amount, 0);
    assert_eq!(to.amount, 2);
    assert_eq!(fuel.amount, 2);
    assert_eq!(p.awaiting_units, 0);
    assert_eq!(p.claimed_at, 4);
}

#[test]
fn send_delivers_no_faster_than_the_sender_works() {
    let mut p = sender(FuelCostType::Nothing);
    let mut to = storage(IRON, ELSEWHERE, 0, 100);
    let mut from = storage(IRON, HERE, 50, 100);
    let mut fuel = storage(FUEL, ELSEWHERE, 0, 100);
    let r = send(&mut p, id(IRON), &mut to, &mut from, &mut fuel, &place(0, 0), &place(9, 9), 25);
    assert_eq!(r, Ok(()));
    assert_eq!(from.amount, 0);
    assert_eq!(to.amount, 10);
    assert_eq!(p.awaiting_units, 40);
    assert_eq!(p.claimed_at, 20);
    assert_eq!(fuel.amount, 0);
}

#[test]
fn send_over_no_distance_is_free() {
    let mut p = sender(FuelCostType::Distance);
    let mut to = storage(IRON, HERE, 0, 100);
    let mut from = storage(IRON, HERE, 2, 100);
    let mut fuel = storage(FUEL, ELSEWHERE, 0, 100);
    let r = send(&mut p, id(IRON), &mut to, &mut from, &mut fuel, &place(4, 4), &place(4, 4), 1000);
    assert_eq!(r, Ok(()));
    assert_eq!((from.amount, to.amount, fuel.amount), (0, 2, 0));
}

#[test]
fn send_billed_by_output_is_free() {
    let mut p = sender(FuelCostType::Output);
    let mut to = storage(IRON, ELSEWHERE, 0, 100);
    let mut from = storage(IRON, HERE, 2, 100);
    let mut fuel = storage(FUEL, ELSEWHERE, 5, 100);
    let r = send(&mut p, id(IRON), &mut to, &mut from, &mut fuel, &place(0, 0), &place(1, 2), 1000);
    assert_eq!(r, Ok(()));
    assert_eq!((from.amount, to.amount, fuel.amount), (0, 2, 5));
}

#[test]
fn send_refusals() {
    let mut to = storage(IRON, ELSEWHERE, 0, 100);
    let mut from = storage(IRON, HERE, 2, 100);
    let mut fuel = storage(FUEL, HERE, 100, 100);
    let a = place(0, 0);
    let b = place(1, 2);

    let mut p = producer(5, 10, 0);
    assert_eq!(
        send(&mut p, id(IRON), &mut to, &mut from, &mut fuel, &a, &b, 1000),
        Err(ValidationError::InvalidProcessorType)
    );
    let mut p = sender(FuelCostType::Distance);
    assert_eq!(
        send(&mut p, id(COAL), &mut to, &mut from, &mut fuel, &a, &b, 1000),
        Err(ValidationError::ResourceNotMatching)
    );
    let mut gone = storage(IRON, ELSEWHERE, 2, 100);
    assert_eq!(
        send(&mut p, id(IRON), &mut to, &mut gone, &mut fuel, &a, &b, 1000),
        Err(ValidationError::DifferentLocations)
    );
    let mut far_fuel = storage(FUEL, ELSEWHERE, 100, 100);
    assert_eq!(
        send(&mut p, id(IRON), &mut to, &mut from, &mut far_fuel, &a, &b, 1000),
        Err(ValidationError::DifferentLocations)
    );
    let far = place(i64::MAX, i64::MIN);
    let near = place(i64::MIN, i64::MAX);
    assert_eq!(
        send(&mut p, id(IRON), &mut to, &mut from, &mut fuel, &near, &far, 1000),
        Err(ValidationError::FuelNotEnough)
    );
    p.awaiting_units = i64::MAX;
    assert_eq!(
        send(&mut p, id(IRON), &mut to, &mut from, &mut fuel, &a, &b, 1000),
        Err(ValidationError::InvalidInput)
    );
    assert_eq!(to, storage(IRON, ELSEWHERE, 0, 100));
    assert_eq!(from, storage(IRON, HERE, 2, 100));
    assert_eq!(fuel, storage(FUEL, HERE, 100, 100));
}

#[test]
fn init_creates_an_idle_processor_and_registers_it() {
    let mut cell = place(0, 0);
    let p = init(
        id(40),
        &mut cell,
        id(HERE),
        id(PLAYER),
        ProcessorType::Producer,
        id(FUEL),
        id(IRON),
        5,
        10,
        FuelCostType::Nothing,
        77,
    )
    .unwrap();
    assert_eq!(p.awaiting_units, 0);
    assert_eq!(p.claimed_at, 77);
    assert_eq!(p.location_id, id(HERE));
    assert_eq!((p.output_rate, p.processing_duration), (5, 10));
    assert_eq!(cell.occupied_space, 1);
    assert_eq!(cell.occupied_by[0].item, id(40));
    assert_eq!(cell.occupied_by[0].player, id(PLAYER));
    assert_eq!(p.size(), 1);
}

#[test]
fn init_refuses_rates_and_cycle_lengths_that_are_not_positive() {
    let mut cell = place(0, 0);
    for (rate, duration) in [(0, 10), (-1, 10), (5, 0), (5, -1)] {
        let r = init(
            id(40),
            &mut cell,
            id(HERE),
            id(PLAYER),
            ProcessorType::Producer,
            id(FUEL),
            id(IRON),
            rate,
            duration,
            FuelCostType::Nothing,
            77,
        );
        assert_eq!(r, Err(ValidationError::InvalidInput));
    }
    assert_eq!(cell, place(0, 0));
}

#[test]
fn processor_init_refuses_a_full_location() {
    let mut cell =
        location::init(id(PLAYER), String::from("cell"), 0, 0, 0, LocationType::Space).unwrap();
    let r = init(
        id(40),
        &mut cell,
        id(HERE),
        id(PLAYER),
        ProcessorType::Sender,
        id(FUEL),
        id(IRON),
        5,
        10,
        FuelCostType::Distance,
        77,
    );
    assert_eq!(r, Err(ValidationError::LocationFull));
    assert_eq!(cell.occupied_by.len(), 0);
}
