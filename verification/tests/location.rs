use got_a_min::errors::ValidationError;
use got_a_min::identity::Id;
use got_a_min::instructions::location::init;
use got_a_min::instructions::location::register_move;
use got_a_min::instructions::location::same_location_id;
use got_a_min::instructions::resource::init_resource;
use got_a_min::state::location::InLocation;
use got_a_min::state::Location;
use got_a_min::state::LocationType;
use got_a_min::state::OwnershipRef;

fn name(n: u8) -> Id {
    Id::new([n; 32])
}

fn occupant(item: u8, player: u8) -> OwnershipRef {
    OwnershipRef { item: name(item), player: name(player) }
}

fn spot(x: i64, y: i64, capacity: i64) -> Location {
    init(name(1), String::from("spot"), x, y, capacity, LocationType::Unexplored).unwrap()
}

#[test]
fn identities_compare_by_their_bytes() {
    let mut bytes = [7u8; 32];
    assert!(Id::new(bytes) == name(7));
    bytes[31] = 8;
    assert!(Id::new(bytes) != name(7));
    bytes[31] = 7;
    bytes[0] = 6;
    assert!(Id::new(bytes) != name(7));
}

#[test]
fn init_creates_an_empty_location() {
    let l = init(name(1), String::from("twelve bytes"), -3, 4, 2, LocationType::Planet).unwrap();
    assert_eq!(
        l,
        Location {
            owner: name(1),
            occupied_space: 0,
            capacity: 2,
            pos_x: -3,
            pos_y: 4,
            location_type: LocationType::Planet,
            name: String::from("twelve bytes"),
            occupied_by: vec![],
        }
    );
    assert_eq!(l.occupied_space(), 0);
}

#[test]
fn init_refuses_a_name_that_is_too_long() {
    let r = init(name(1), String::from("thirteen byte"), 0, 0, 2, LocationType::Space);
    assert_eq!(r, Err(ValidationError::NameTooLong));
    let r = init(name(1), String::from("ääääää"), 0, 0, 2, LocationType::Space);
    assert!(r.is_ok());
    let r = init(name(1), String::from("äääääää"), 0, 0, 2, LocationType::Space);
    assert_eq!(r, Err(ValidationError::NameTooLong));
}

#[test]
fn add_appends_an_occupant() {
    let mut l = spot(0, 0, 2);
    assert_eq!(l.add(name(5), occupant(10, 5)), Ok(()));
    assert_eq!(l.add(name(6), occupant(11, 6)), Ok(()));
    assert_eq!(l.occupied_by, vec![occupant(10, 5), occupant(11, 6)]);
    assert_eq!(l.occupied_space, 2);
    assert_eq!(l.occupied_space(), 2);
}

#[test]
fn add_refuses_a_player_that_does_not_own_the_occupant() {
    let mut l = spot(0, 0, 2);
    assert_eq!(l.add(name(6), occupant(10, 5)), Err(ValidationError::OwnerRequired));
    assert_eq!(l, spot(0, 0, 2));
}

#[test]
fn add_refuses_more_occupants_than_the_capacity() {
    let mut l = spot(0, 0, 1);
    assert_eq!(l.add(name(5), occupant(10, 5)), Ok(()));
    let full = l.clone();
    assert_eq!(l.add(name(5), occupant(11, 5)), Err(ValidationError::LocationFull));
    assert_eq!(l, full);
    let mut none = spot(0, 0, -1);
    assert_eq!(none.add(name(5), occupant(10, 5)), Err(ValidationError::LocationFull));
}

#[test]
fn remove_takes_the_first_entry_of_the_item() {
    let mut l = spot(0, 0, 5);
    for (item, player) in [(10, 5), (11, 5), (12, 6), (11, 7)] {
        l.add(name(player), occupant(item, player)).unwrap();
    }
    assert_eq!(l.find_occupant(name(11)), Some(1));
    assert_eq!(l.find_occupant(name(13)), None);
    assert_eq!(l.remove(name(7), &occupant(11, 7)), Ok(()));
    assert_eq!(l.occupied_by, vec![occupant(10, 5), occupant(12, 6), occupant(11, 7)]);
    assert_eq!(l.occupied_space, 3);
    assert_eq!(l.remove(name(7), &occupant(11, 7)), Ok(()));
    assert_eq!(l.occupied_by, vec![occupant(10, 5), occupant(12, 6)]);
    assert_eq!(l.occupied_space, 2);
}

#[test]
fn remove_refusals() {
    let mut l = spot(0, 0, 5);
    l.add(name(5), occupant(10, 5)).unwrap();
    let before = l.clone();
    assert_eq!(l.remove(name(6), &occupant(10, 5)), Err(ValidationError::OwnerRequired));
    assert_eq!(l.remove(name(5), &occupant(11, 5)), Err(ValidationError::OccupantNotFound));
    assert_eq!(l, before);
}

#[test]
fn the_occupancy_stays_within_the_capacity() {
    let mut l = spot(0, 0, 3);
    for round in 0..20u8 {
        let _ = l.add(name(5), occupant(round, 5));
        if round % 3 == 0 {
            let _ = l.remove(name(5), &occupant(round / 2, 5));
        }
        assert_eq!(l.occupied_space, l.occupied_by.len() as i64);
        assert!(l.occupied_space <= l.capacity);
    }
}

#[test]
fn distance_is_the_manhattan_distance() {
    assert_eq!(spot(0, 0, 1).distance(&spot(1, 2, 1)), 3);
    assert_eq!(spot(1, 2, 1).distance(&spot(0, 0, 1)), 3);
    assert_eq!(spot(-5, 7, 1).distance(&spot(4, -1, 1)), 17);
    assert_eq!(spot(3, 3, 1).distance(&spot(3, 3, 1)), 0);
    assert_eq!(spot(i64::MIN, 0, 1).distance(&spot(-1, 0, 1)), i64::MAX);
    assert_eq!(
        spot(i64::MIN, i64::MIN, 1).wide_distance(&spot(i64::MAX, i64::MAX, 1)),
        2 * (u64::MAX as i128)
    );
}

#[test]
fn register_move_moves_the_occupant() {
    let mut from = spot(0, 0, 2);
    let mut to = spot(1, 0, 2);
    from.add(name(5), occupant(10, 5)).unwrap();
    from.add(name(5), occupant(11, 5)).unwrap();
    to.add(name(6), occupant(12, 6)).unwrap();
    assert_eq!(register_move(name(5), &mut from, &mut to, occupant(10, 5)), Ok(()));
    assert_eq!(from.occupied_by, vec![occupant(11, 5)]);
    assert_eq!(to.occupied_by, vec![occupant(12, 6), occupant(10, 5)]);
    assert_eq!((from.occupied_space, to.occupied_space), (1, 2));
}

#[test]
fn register_move_changes_both_locations_or_neither() {
    let mut from = spot(0, 0, 2);
    let mut to = spot(1, 0, 1);
    from.add(name(5), occupant(10, 5)).unwrap();
    to.add(name(6), occupant(12, 6)).unwrap();
    let before = (from.clone(), to.clone());
    assert_eq!(
        register_move(name(5), &mut from, &mut to, occupant(10, 5)),
        Err(ValidationError::LocationFull)
    );
    assert_eq!(
        register_move(name(5), &mut from, &mut to, occupant(13, 5)),
        Err(ValidationError::OccupantNotFound)
    );
    assert_eq!(
        register_move(name(6), &mut from, &mut to, occupant(10, 5)),
        Err(ValidationError::OwnerRequired)
    );
    assert_eq!((from, to), before);
}

#[test]
fn same_location_id_wants_two_equal_places() {
    assert!(same_location_id(Some(name(1)), Some(name(1))));
    assert!(!same_location_id(Some(name(1)), Some(name(2))));
    assert!(!same_location_id(Some(name(1)), None));
    assert!(!same_location_id(None, Some(name(1))));
    assert!(!same_location_id(None, None));
}

#[test]
fn init_resource_keeps_the_recipe() {
    let r = init_resource(name(1), String::from("steel"), vec![name(2), name(3)], vec![4, 5])
        .unwrap();
    assert_eq!(r.owner, name(1));
    assert_eq!(r.name, "steel");
    assert_eq!(r.input, vec![name(2), name(3)]);
    assert_eq!(r.input_amount, vec![4, 5]);
    assert_eq!(r.input_position(name(3)), Some(1));
    assert_eq!(r.input_position(name(4)), None);
    let raw = init_resource(name(1), String::from("ore"), vec![], vec![]).unwrap();
    assert!(raw.input.is_empty());
}

#[test]
fn init_resource_refuses_more_than_two_inputs() {
    let r = init_resource(
        name(1),
        String::from("alloy"),
        vec![name(2), name(3), name(4)],
        vec![1, 1, 1],
    );
    assert_eq!(r, Err(ValidationError::ResourceInputMax));
    let r = init_resource(name(1), String::from("alloy"), vec![name(2), name(3), name(4)], vec![]);
    assert_eq!(r, Err(ValidationError::ResourceInputMax));
}

#[test]
fn init_resource_refuses_inputs_without_amounts() {
    let r = init_resource(name(1), String::from("steel"), vec![name(2), name(3)], vec![4]);
    assert_eq!(r, Err(ValidationError::MissingResourceInputAmount));
    let r = init_resource(name(1), String::from("steel"), vec![], vec![4]);
    assert_eq!(r, Err(ValidationError::MissingResourceInputAmount));
}

#[test]
fn every_refusal_has_its_message() {
    assert_eq!(ValidationError::OwnerRequired.message(), "Only allowed by owner.");
    assert_eq!(ValidationError::StorageFull.message(), "Storage is full.");
    assert_eq!(ValidationError::FuelNotEnough.message(), "Not enough fuel.");
    assert_eq!(ValidationError::LocationFull.message(), "Location is full.");
    assert_eq!(ValidationError::InvalidInput.message(), "Invalid input parameter.");
    let all = [
        ValidationError::OwnerRequired,
        ValidationError::ResourceInputMax,
        ValidationError::ResourceNotMatching,
        ValidationError::MissingResourceInputAmount,
        ValidationError::MissingResource,
        ValidationError::InputStorageNotSupplied,
        ValidationError::InputStorage1NotSupplied,
        ValidationError::InputStorage2NotSupplied,
        ValidationError::InputStorageAmountTooLow,
        ValidationError::StorageFull,
        ValidationError::StorageAmountTooLow,
        ValidationError::NameTooLong,
        ValidationError::DifferentLocations,
        ValidationError::LocationFull,
        ValidationError::StorageTypeNotMovable,
        ValidationError::NotAllowedWhileMoving,
        ValidationError::InvalidProcessorType,
        ValidationError::FuelNotSupplied,
        ValidationError::FuelNotEnough,
        ValidationError::LocationUnexplored,
        ValidationError::InvalidInput,
        ValidationError::ExperimentalError,
        ValidationError::NegativeElapsedTime,
        ValidationError::NegativeAccrual,
        ValidationError::OccupantNotFound,
    ];
    for (i, a) in all.iter().enumerate() {
        assert!(!a.message().is_empty());
        for b in all.iter().skip(i + 1) {
            assert!(a != b);
            assert!(a.message() != b.message());
        }
    }
}

struct Parcel;

impl InLocation for Parcel {}

struct Convoy;

impl InLocation for Convoy {
    fn size(&self) -> i64 {
        3
    }
}

#[test]
fn an_occupant_takes_one_place_unless_it_says_otherwise() {
    assert_eq!(Parcel.size(), 1);
    assert_eq!(Convoy.size(), 3);
}
