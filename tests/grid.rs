use dice_board::coords::{Coords, EntityId, WorldPos};
use dice_board::grid::{
    track_tile_entities, Grid, MoveError, PlaceError, TileEntity, TileEntityKind, TilePresence,
};

fn grid_at(width: u16, height: u16, center_x: i32, center_y: i32) -> Grid {
    let mut grid = Grid::new(width, height);
    grid.set_world_center(center_x, center_y);
    grid
}

fn player(id: u64) -> TileEntity {
    TileEntity { entity: EntityId(id), kind: TileEntityKind::Player }
}

fn enemy(id: u64) -> TileEntity {
    TileEntity { entity: EntityId(id), kind: TileEntityKind::Enemy }
}

fn wall(id: u64) -> TileEntity {
    TileEntity { entity: EntityId(id), kind: TileEntityKind::Wall }
}

fn world_to_tile(map_x: i32, map_y: i32, world_x: i64, world_y: i64) -> Option<Coords> {
    grid_at(3, 3, map_x, map_y).world_to_tile(WorldPos { x: world_x, y: world_y })
}

fn tile_to_world(map_x: i32, map_y: i32, tile_x: i16, tile_y: i16) -> Option<WorldPos> {
    grid_at(3, 3, map_x, map_y).tile_to_world(Coords::new(tile_x, tile_y))
}

#[test]
fn world_to_tile_centre_of_centred_grid() {
    assert_eq!(world_to_tile(0, 0, 0, 0), Some(Coords::one()));
}

#[test]
fn world_to_tile_shifted_grid_origin() {
    assert_eq!(world_to_tile(64, -64, 0, 0), Some(Coords::zero()));
}

#[test]
fn world_to_tile_shifted_grid_inside_first_tile() {
    assert_eq!(world_to_tile(64, -64, 20, -20), Some(Coords::zero()));
}

#[test]
fn world_to_tile_shifted_grid_second_tile() {
    assert_eq!(world_to_tile(64, -64, 40, -40), Some(Coords::one()));
}

#[test]
fn world_to_tile_shifted_grid_right_tile() {
    assert_eq!(world_to_tile(64, -64, 64, 0), Some(Coords::new(1, 0)));
}

#[test]
fn world_to_tile_off_right() {
    assert_eq!(world_to_tile(0, 0, 120, 0), None);
}

#[test]
fn world_to_tile_off_left() {
    assert_eq!(world_to_tile(0, 0, -128, 0), None);
}

#[test]
fn world_to_tile_off_top() {
    assert_eq!(world_to_tile(0, 0, 0, 120), None);
}

#[test]
fn world_to_tile_off_bottom() {
    assert_eq!(world_to_tile(0, 0, 0, -128), None);
}

#[test]
fn tile_to_world_top_left() {
    assert_eq!(tile_to_world(0, 0, 0, 0), Some(WorldPos { x: -64, y: 64 }));
}

#[test]
fn tile_to_world_centre() {
    assert_eq!(tile_to_world(0, 0, 1, 1), Some(WorldPos { x: 0, y: 0 }));
}

#[test]
fn tile_to_world_shifted_grid() {
    assert_eq!(tile_to_world(64, -64, 2, 2), Some(WorldPos { x: 128, y: -128 }));
}

#[test]
fn tile_to_world_shifted_grid_top_left() {
    assert_eq!(tile_to_world(64, -64, 0, 0), Some(WorldPos { x: 0, y: 0 }));
}

#[test]
fn tile_to_world_off_right() {
    assert_eq!(tile_to_world(0, 0, 3, 0), None);
}

#[test]
fn tile_to_world_off_bottom() {
    assert_eq!(tile_to_world(0, 0, 0, 3), None);
}

#[test]
fn tile_to_world_negative_tiles() {
    assert_eq!(tile_to_world(0, 0, -1, 0), None);
    assert_eq!(tile_to_world(0, 0, 0, -1), None);
}

#[test]
fn world_tile_round_trip_every_tile() {
    let grid = grid_at(5, 4, 37, -1000);
    for y in 0..4 {
        for x in 0..5 {
            let c = Coords::new(x, y);
            let pos = grid.tile_to_world(c).expect("tile on the grid");
            assert_eq!(grid.world_to_tile(pos), Some(c));
        }
    }
}

fn can_place_at_coords(x: i16, y: i16) -> Result<(), PlaceError> {
    let board = Grid::new(6, 9);
    board.can_place_at(Coords::new(x, y))
}

#[test]
fn can_place_at_coords_origin() {
    assert!(matches!(can_place_at_coords(0, 0), Ok(_)));
}

#[test]
fn can_place_at_coords_middle() {
    assert!(matches!(can_place_at_coords(3, 3), Ok(_)));
}

#[test]
fn can_place_at_coords_inner() {
    assert!(matches!(can_place_at_coords(4, 6), Ok(_)));
}

#[test]
fn can_place_at_coords_right_edge() {
    assert!(matches!(can_place_at_coords(6, 0), Err(PlaceError::OutOfBounds)));
}

#[test]
fn can_place_at_coords_bottom_edge() {
    assert!(matches!(can_place_at_coords(0, 9), Err(PlaceError::OutOfBounds)));
}

#[test]
fn can_place_at_coords_far_right() {
    assert!(matches!(can_place_at_coords(50, 0), Err(PlaceError::OutOfBounds)));
}

#[test]
fn can_place_at_coords_far_down() {
    assert!(matches!(can_place_at_coords(0, 50), Err(PlaceError::OutOfBounds)));
}

#[test]
fn grid_cannot_place_at_coords_when_taken() {
    let coords: Coords = Coords::new(3, 3);
    let mut board = Grid::new(6, 6);
    board.place_entity(player(0), coords).expect("Place first piece");

    assert_eq!(board.can_place_at(coords), Err(PlaceError::Taken));
}

#[test]
fn out_of_bounds_reported_before_taken() {
    let mut board = Grid::new(2, 2);
    board.place_entity(player(1), Coords::new(1, 1)).expect("place");
    assert_eq!(board.can_place_at(Coords::new(-1, 1)), Err(PlaceError::OutOfBounds));
    assert_eq!(board.can_place_at(Coords::new(2, 1)), Err(PlaceError::OutOfBounds));
    assert_eq!(board.can_place_at(Coords::new(1, 1)), Err(PlaceError::Taken));
}

#[test]
fn place_then_lookup() {
    let mut board = Grid::new(4, 4);
    let c = Coords::new(2, 1);
    assert_eq!(board.coords_to_tile_entity(c), None);
    assert_eq!(board.entity_to_coords(EntityId(9)), None);
    assert_eq!(board.place_entity(enemy(9), c), Ok(()));
    assert_eq!(board.coords_to_tile_entity(c), Some(enemy(9)));
    assert_eq!(board.entity_to_coords(EntityId(9)), Some(c));
}

#[test]
fn place_on_taken_leaves_grid_unchanged() {
    let mut board = Grid::new(4, 4);
    let c = Coords::new(0, 0);
    board.place_entity(player(1), c).expect("place");
    assert_eq!(board.place_entity(enemy(2), c), Err(PlaceError::Taken));
    assert_eq!(board.coords_to_tile_entity(c), Some(player(1)));
    assert_eq!(board.entity_to_coords(EntityId(1)), Some(c));
    assert_eq!(board.entity_to_coords(EntityId(2)), None);
}

#[test]
fn place_out_of_bounds_fails() {
    let mut board = Grid::new(4, 4);
    assert_eq!(board.place_entity(player(1), Coords::new(4, 0)), Err(PlaceError::OutOfBounds));
    assert_eq!(board.entity_to_coords(EntityId(1)), None);
}

#[test]
fn placing_a_placed_entity_again_leaves_its_old_tile() {
    let mut board = Grid::new(4, 4);
    board.place_entity(player(1), Coords::new(0, 0)).expect("place");
    board.place_entity(player(1), Coords::new(3, 3)).expect("place again");
    assert_eq!(board.coords_to_tile_entity(Coords::new(0, 0)), None);
    assert_eq!(board.coords_to_tile_entity(Coords::new(3, 3)), Some(player(1)));
    assert_eq!(board.entity_to_coords(EntityId(1)), Some(Coords::new(3, 3)));
}

#[test]
fn move_untracked_entity_fails() {
    let mut board = Grid::new(4, 4);
    board.place_entity(player(1), Coords::new(1, 1)).expect("place");
    assert_eq!(board.move_entity(EntityId(5), Coords::new(2, 2)), Err(MoveError::EntityLookupFailed));
    assert_eq!(board.coords_to_tile_entity(Coords::new(2, 2)), None);
    assert_eq!(board.coords_to_tile_entity(Coords::new(1, 1)), Some(player(1)));
}

#[test]
fn move_untracked_entity_fails_before_bounds() {
    let mut board = Grid::new(4, 4);
    assert_eq!(board.move_entity(EntityId(5), Coords::new(20, 2)), Err(MoveError::EntityLookupFailed));
}

#[test]
fn move_onto_taken_keeps_entity_in_place() {
    let mut board = Grid::new(4, 4);
    board.place_entity(player(1), Coords::new(1, 1)).expect("place");
    board.place_entity(wall(2), Coords::new(1, 2)).expect("place");
    assert_eq!(board.move_entity(EntityId(1), Coords::new(1, 2)), Err(MoveError::Taken));
    assert_eq!(board.entity_to_coords(EntityId(1)), Some(Coords::new(1, 1)));
    assert_eq!(board.coords_to_tile_entity(Coords::new(1, 1)), Some(player(1)));
    assert_eq!(board.coords_to_tile_entity(Coords::new(1, 2)), Some(wall(2)));
}

#[test]
fn move_to_free_tile() {
    let mut board = Grid::new(4, 4);
    board.place_entity(enemy(3), Coords::new(0, 0)).expect("place");
    assert_eq!(board.move_entity(EntityId(3), Coords::new(3, 2)), Ok(()));
    assert_eq!(board.coords_to_tile_entity(Coords::new(0, 0)), None);
    assert_eq!(board.coords_to_tile_entity(Coords::new(3, 2)), Some(enemy(3)));
    assert_eq!(board.entity_to_coords(EntityId(3)), Some(Coords::new(3, 2)));
}

#[test]
fn player_scenario_on_six_by_six() {
    let mut board = Grid::new(6, 6);
    let start = Coords::new(3, 3);
    assert_eq!(board.place_entity(player(1), start), Ok(()));
    assert_eq!(board.place_entity(enemy(2), start), Err(PlaceError::Taken));
    assert_eq!(board.move_entity(EntityId(1), Coords::new(10, 10)), Err(MoveError::OutOfBounds));
    assert_eq!(board.entity_to_coords(EntityId(1)), Some(start));
    assert_eq!(board.coords_to_tile_entity(start), Some(player(1)));
}

#[test]
fn contains_die_only_for_players_and_enemies() {
    let mut board = Grid::new(3, 1);
    board.place_entity(player(1), Coords::new(0, 0)).expect("place");
    board.place_entity(enemy(2), Coords::new(1, 0)).expect("place");
    board.place_entity(wall(3), Coords::new(2, 0)).expect("place");
    assert!(board.contains_die(Coords::new(0, 0)));
    assert!(board.contains_die(Coords::new(1, 0)));
    assert!(!board.contains_die(Coords::new(2, 0)));
    assert!(!board.contains_die(Coords::new(5, 0)));
}

#[test]
fn move_error_from_place_error() {
    assert_eq!(MoveError::from(PlaceError::Taken), MoveError::Taken);
    assert_eq!(MoveError::from(PlaceError::OutOfBounds), MoveError::OutOfBounds);
}

#[test]
fn tracking_places_then_moves() {
    let mut board = Grid::new(3, 3);
    let seen = vec![
        TilePresence { entity: EntityId(1), kind: TileEntityKind::Player, pos: WorldPos { x: 0, y: 0 } },
        TilePresence { entity: EntityId(2), kind: TileEntityKind::Enemy, pos: WorldPos { x: 0, y: 0 } },
        TilePresence { entity: EntityId(1), kind: TileEntityKind::Player, pos: WorldPos { x: 64, y: 64 } },
        TilePresence { entity: EntityId(3), kind: TileEntityKind::Wall, pos: WorldPos { x: 500, y: 0 } },
    ];
    track_tile_entities(&mut board, &seen);
    assert_eq!(board.entity_to_coords(EntityId(1)), Some(Coords::new(2, 0)));
    assert_eq!(board.entity_to_coords(EntityId(2)), None);
    assert_eq!(board.entity_to_coords(EntityId(3)), None);
    assert_eq!(board.coords_to_tile_entity(Coords::new(1, 1)), None);
}

#[test]
fn grid_dimensions_and_centre() {
    let mut board = Grid::new(9, 7);
    assert_eq!((board.width(), board.height()), (9, 7));
    assert_eq!(board.world_center(), WorldPos { x: 0, y: 0 });
    board.set_world_center(300, -5);
    assert_eq!(board.world_center(), WorldPos { x: 300, y: -5 });
}

#[test]
fn coords_arithmetic() {
    let a = Coords::new(2, -3);
    let b = Coords::new(-5, 7);
    assert_eq!(a.add(&b), Coords::new(-3, 4));
    assert_eq!(a.sub(&b), Coords::new(7, -10));
    assert_eq!(a.scale(3), Coords::new(6, -9));
}
