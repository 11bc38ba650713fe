pub mod location;
pub mod map;
pub mod processor;
pub mod resource;
pub mod storage;
pub mod stuff;
pub mod unit;

pub use location::Location;
pub use location::LocationType;
pub use location::LocationView;
pub use location::OwnershipRef;
pub use processor::FuelCostType;
pub use processor::Processor;
pub use processor::ProcessorType;
pub use processor::ProcessorView;
pub use resource::Resource;
pub use resource::ResourceView;
pub use storage::MobilityType;
pub use storage::Storage;
pub use storage::StorageView;
pub use stuff::Stuff;
pub use unit::Unit;
pub use unit::UnitView;
pub use map::TileMap;
pub use map::TileMapView;
