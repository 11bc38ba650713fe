pub mod game;
pub mod location;
pub mod map;
pub mod processor;
pub mod resource;
pub mod storage;
pub mod stuff;
pub mod unit;
