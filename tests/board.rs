use maleghast_vtt::board::{Board, GameMap, Player, TileStack};
use maleghast_vtt::tile::{
    BoardTile, GameTile, Placement, Tile, TileColor, TilePrimitive, TileShape, TileType,
};

fn map_of(tiles: Vec<Vec<TileType>>) -> GameMap {
    GameMap::new(
        String::from("Test Grounds"),
        tiles,
        String::from("Dust and bones."),
        String::from("A small map."),
    )
}

fn height(t: TileType) -> u32 {
    BoardTile::new(0, 0, t).render().shape.height_quarters
}

#[test]
fn game_tile_starts_unoccupied() {
    let t = GameTile::new(3, 4);
    assert_eq!(t.x(), 3);
    assert_eq!(t.y(), 4);
    assert!(!t.is_occupied());
}

#[test]
fn set_occupied_then_read() {
    let mut t = GameTile::new(1, 2);
    t.set_occupied(true);
    assert!(t.is_occupied());
    t.set_occupied(true);
    assert!(t.is_occupied());
    t.set_occupied(false);
    assert!(!t.is_occupied());
    t.set_occupied(false);
    assert!(!t.is_occupied());
    assert_eq!((t.x(), t.y()), (1, 2));
}

#[test]
fn board_tile_keeps_position_and_type() {
    let b = BoardTile::new(7, 9, TileType::Stair);
    assert_eq!(b.x(), 7);
    assert_eq!(b.y(), 9);
    assert_eq!(b.tile_type(), TileType::Stair);
}

#[test]
fn heights_of_every_type() {
    // quarter units: 0.5, 1.0, 0.75 and 2.0 world units
    assert_eq!(height(TileType::Normal), 2);
    assert_eq!(height(TileType::Elevation), 4);
    assert_eq!(height(TileType::SpecialZone), 2);
    assert_eq!(height(TileType::AdverseTerrain), 2);
    assert_eq!(height(TileType::Objective), 2);
    assert_eq!(height(TileType::Stair), 3);
    assert_eq!(height(TileType::Wall), 8);
    assert_eq!(height(TileType::Hazard), 2);
}

#[test]
fn colors_of_every_type() {
    let color = |t: TileType| BoardTile::new(0, 0, t).render().color;
    assert_eq!(color(TileType::Normal), TileColor::SrgbMilli { r: 230, g: 230, b: 220 });
    assert_eq!(color(TileType::Elevation), TileColor::SrgbMilli { r: 800, g: 700, b: 600 });
    assert_eq!(color(TileType::SpecialZone), TileColor::SrgbU8 { r: 137, g: 171, b: 162 });
    assert_eq!(color(TileType::AdverseTerrain), TileColor::SrgbU8 { r: 46, g: 19, b: 71 });
    assert_eq!(color(TileType::Objective), TileColor::SrgbU8 { r: 219, g: 215, b: 81 });
    assert_eq!(color(TileType::Stair), TileColor::SrgbU8 { r: 14, g: 14, b: 14 });
    assert_eq!(color(TileType::Wall), TileColor::SrgbMilli { r: 0, g: 0, b: 0 });
    assert_eq!(color(TileType::Hazard), TileColor::SrgbMilli { r: 219, g: 164, b: 810 });
}

#[test]
fn render_gives_footprint_and_fixed_placement() {
    let p = BoardTile::new(5, 6, TileType::Wall).render();
    assert_eq!(
        p,
        TilePrimitive {
            shape: TileShape { width_quarters: 4, depth_quarters: 4, height_quarters: 8 },
            color: TileColor::SrgbMilli { r: 0, g: 0, b: 0 },
            placement: Placement { x: 5, y: 6, z_quarters: 2 },
        }
    );
}

#[test]
fn tile_stack_renders_its_board_tile() {
    let s = TileStack::new(GameTile::new(2, 1), BoardTile::new(2, 1, TileType::Elevation));
    assert_eq!(s.game_tile().x(), 2);
    assert_eq!(s.board_tile().y(), 1);
    assert_eq!(s.render(), BoardTile::new(2, 1, TileType::Elevation).render());
}

#[test]
fn tile_stacks_cover_rectangular_grid() {
    let tiles = vec![
        vec![TileType::Normal, TileType::Wall, TileType::Stair],
        vec![TileType::Hazard, TileType::Objective, TileType::Elevation],
    ];
    let map = map_of(tiles.clone());
    let stacks = map.get_tile_stacks();
    assert_eq!(stacks.len(), 2);
    let mut count = 0;
    for (y, row) in stacks.iter().enumerate() {
        assert_eq!(row.len(), 3);
        for (x, s) in row.iter().enumerate() {
            assert_eq!((s.game_tile().x(), s.game_tile().y()), (x, y));
            assert_eq!((s.board_tile().x(), s.board_tile().y()), (x, y));
            assert_eq!(s.board_tile().tile_type(), tiles[y][x]);
            assert!(!s.game_tile().is_occupied());
            count += 1;
        }
    }
    assert_eq!(count, 6);
}

#[test]
fn one_row_normal_then_wall() {
    let map = map_of(vec![vec![TileType::Normal, TileType::Wall]]);
    let stacks = map.get_tile_stacks();
    assert_eq!(stacks.len(), 1);
    assert_eq!(stacks[0].len(), 2);
    assert_eq!((stacks[0][0].board_tile().x(), stacks[0][0].board_tile().y()), (0, 0));
    assert_eq!(stacks[0][0].board_tile().tile_type(), TileType::Normal);
    assert_eq!((stacks[0][1].board_tile().x(), stacks[0][1].board_tile().y()), (1, 0));
    assert_eq!(stacks[0][1].board_tile().tile_type(), TileType::Wall);

    let board = Board::new(map);
    let prims = board.render_board_tiles();
    assert_eq!(prims.len(), 2);
    assert_eq!(prims[0].shape.height_quarters, 2);
    assert_eq!(prims[1].shape.height_quarters, 8);
    assert_eq!(prims[0].placement, Placement { x: 0, y: 0, z_quarters: 2 });
    assert_eq!(prims[1].placement, Placement { x: 1, y: 0, z_quarters: 2 });
}

#[test]
fn render_board_tiles_in_row_major_order() {
    let tiles = vec![
        vec![TileType::SpecialZone, TileType::AdverseTerrain],
        vec![TileType::Objective, TileType::Stair],
        vec![TileType::Hazard, TileType::Elevation],
    ];
    let board = Board::new(map_of(tiles.clone()));
    let prims = board.render_board_tiles();
    assert_eq!(prims.len(), 6);
    for y in 0..3 {
        for x in 0..2 {
            assert_eq!(prims[y * 2 + x], BoardTile::new(x, y, tiles[y][x]).render());
        }
    }
}

#[test]
fn ragged_rows_keep_their_own_lengths() {
    let map = map_of(vec![
        vec![TileType::Normal, TileType::Normal, TileType::Wall],
        vec![TileType::Stair],
    ]);
    let stacks = map.get_tile_stacks();
    assert_eq!(stacks.len(), 2);
    assert_eq!(stacks[0].len(), 3);
    assert_eq!(stacks[1].len(), 1);
    assert_eq!((stacks[1][0].board_tile().x(), stacks[1][0].board_tile().y()), (0, 1));
    let prims = Board::new(map).render_board_tiles();
    assert_eq!(prims.len(), 4);
    assert_eq!(prims[3].placement, Placement { x: 0, y: 1, z_quarters: 2 });
    assert_eq!(prims[3].shape.height_quarters, 3);
}

#[test]
fn empty_map_has_no_tiles() {
    let map = map_of(Vec::new());
    assert!(map.get_tile_stacks().is_empty());
    assert!(Board::new(map).render_board_tiles().is_empty());
}

#[test]
fn board_keeps_its_map() {
    let board = Board::new(map_of(vec![vec![TileType::Objective]]));
    assert_eq!(board.map.name, "Test Grounds");
    assert_eq!(board.map.flavor_text, "Dust and bones.");
    assert_eq!(board.map.description, "A small map.");
    assert_eq!(board.map.tiles, vec![vec![TileType::Objective]]);
}

#[test]
fn player_keeps_its_name() {
    let p = Player::new(String::from("Necromancer"));
    assert_eq!(p.name(), "Necromancer");
}
