//! A time-driven resource economy: processors accrue output over elapsed time,
//! storages hold bounded quantities of one resource, and locations track which
//! entities occupy a spatial cell.
//!
//! Every operation takes the records it touches and the current time as plain
//! arguments. An operation that returns an error leaves every record exactly
//! as it was.
//!
//! Beside the economy stand the beginnings of a game board: a sparse map of
//! tiles, tiles and units of their own, and the exploration of locations.

mod arithmetic;
pub mod errors;
pub mod identity;
pub mod instructions;
pub mod state;
