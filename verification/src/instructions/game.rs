use crate::errors::ValidationError;
use crate::identity::Id;
use crate::instructions::location::fake_rng;
use crate::instructions::location::roll_of;
use vstd::prelude::*;

verus! {

/// A tile of the game board. Its type is 0 until it is explored, then 1
/// for open space, 2 for an asteroid and 3 for a planet.
#[derive(Clone, Debug, PartialEq, Eq)]
pub struct GameTile {
    pub x: u8,
    pub y: u8,
    pub tile_type: u8,
    pub name: String,
}

/// A tile as a mathematical value.
pub struct GameTileView {
    pub x: u8,
    pub y: u8,
    pub tile_type: u8,
    pub name: Seq<char>,
}

impl View for GameTile {
    type V = GameTileView;

    open spec fn view(&self) -> GameTileView {
        GameTileView { x: self.x, y: self.y, tile_type: self.tile_type, name: self.name@ }
    }
}

impl GameTileView {
    /// The tile after an exploration with the given roll: a roll that 28
    /// divides finds a planet, another that 5 divides an asteroid, and
    /// every other roll open space.
    pub open spec fn explored(self, roll: u8) -> GameTileView {
        if roll % 28 == 0 {
            GameTileView { tile_type: 3, name: "planet"@, ..self }
        } else if roll % 5 == 0 {
            GameTileView { tile_type: 2, name: "asteroid"@, ..self }
        } else {
            GameTileView { tile_type: 1, name: "space"@, ..self }
        }
    }
}

/// Creates the unexplored tile at position `xy`.
pub fn create_game_tile(xy: [u8; 2]) -> (tile: GameTile)
    ensures
        tile@ == (GameTileView { x: xy[0], y: xy[1], tile_type: 0, name: "unknown"@ }),
{
    GameTile { x: xy[0], y: xy[1], tile_type: 0, name: "unknown".to_owned() }
}

/// Explores a tile that was not explored before. What is found depends on
/// the identity of the tile alone.
pub fn explore_game_tile(game_tile: &mut GameTile, game_tile_id: Id) -> (r: Result<
    (),
    ValidationError,
>)
    ensures
        r == (if old(game_tile).tile_type == 0 {
            Ok::<(), ValidationError>(())
        } else {
            Err::<(), ValidationError>(ValidationError::ExperimentalError)
        }),
        r is Ok ==> final(game_tile)@ == old(game_tile)@.explored(roll_of(game_tile_id)),
        r is Err ==> *final(game_tile) == *old(game_tile),
        r is Ok ==> 1 <= final(game_tile).tile_type <= 3,
{
    if game_tile.tile_type != 0 {
        return Err(ValidationError::ExperimentalError);
    }
    let roll: u8 = fake_rng(game_tile_id);
    if roll % 28 == 0 {
        game_tile.name = "planet".to_owned();
        game_tile.tile_type = 3;
    } else if roll % 5 == 0 {
        game_tile.name = "asteroid".to_owned();
        game_tile.tile_type = 2;
    } else {
        game_tile.name = "space".to_owned();
        game_tile.tile_type = 1;
    }
    Ok(())
}

} // verus!
