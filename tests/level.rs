use reclaim::level::{parse_level, GridCoord, Tile, TileType};

fn floor(x: i64, z: i64) -> Tile {
    Tile { kind: TileType::Floor, x, y: 0, z, facing: 0 }
}

fn ceiling(x: i64, z: i64) -> Tile {
    Tile { kind: TileType::Ceiling, x, y: 1, z, facing: 0 }
}

fn wall(x: i64, z: i64, facing: i8) -> Tile {
    Tile { kind: TileType::Wall, x, y: 0, z, facing }
}

fn at(tiles: &[Tile], x: i64, z: i64) -> Vec<Tile> {
    tiles.iter().copied().filter(|t| t.x == x && t.z == z).collect()
}

#[test]
fn three_by_three_with_center_wall() {
    let level = parse_level("*  \n # \n   ");
    assert_eq!(level.start, GridCoord { column: 0, row: 0 });
    assert_eq!(at(&level.tiles, 1, 1), vec![wall(1, 1, 0), wall(1, 1, 1), wall(1, 1, 2), wall(1, 1, 3)]);
    for (x, z) in [(0, 0), (1, 0), (2, 0), (0, 1), (2, 1), (0, 2), (1, 2), (2, 2)] {
        assert_eq!(at(&level.tiles, x, z), vec![floor(x, z), ceiling(x, z)]);
    }
    assert_eq!(level.tiles.len(), 20);
}

#[test]
fn tiles_come_in_scan_order() {
    let level = parse_level("*#\n ");
    assert_eq!(
        level.tiles,
        vec![
            floor(0, 0),
            ceiling(0, 0),
            wall(1, 0, 0),
            wall(1, 0, 1),
            wall(1, 0, 2),
            wall(1, 0, 3),
            floor(0, 1),
            ceiling(0, 1),
        ]
    );
}

#[test]
fn map_without_start_starts_at_origin() {
    let level = parse_level("   \n # ");
    assert_eq!(level.start, GridCoord { column: 0, row: 0 });
    assert_eq!(level.tiles.len(), 14);
}

#[test]
fn single_start_sets_its_cell() {
    let level = parse_level("###\n# *\n###");
    assert_eq!(level.start, GridCoord { column: 2, row: 1 });
}

#[test]
fn last_start_wins() {
    let level = parse_level("* \n  *");
    assert_eq!(level.start, GridCoord { column: 2, row: 1 });
}

#[test]
fn empty_map_has_no_tiles() {
    let level = parse_level("");
    assert!(level.tiles.is_empty());
    assert_eq!(level.start, GridCoord { column: 0, row: 0 });
}

#[test]
fn edge_glyphs_give_one_wall_each() {
    let level = parse_level("\u{2594}\u{2595}\u{2581}\u{258f}");
    assert_eq!(level.tiles, vec![wall(0, 0, 0), wall(1, 0, 1), wall(2, 0, 2), wall(3, 0, 3)]);
}

#[test]
fn unknown_symbols_give_no_tiles_but_take_a_column() {
    let level = parse_level("x.\t-#");
    assert_eq!(level.tiles, vec![wall(4, 0, 0), wall(4, 0, 1), wall(4, 0, 2), wall(4, 0, 3)]);
    for c in ['x', '.', '\t', '-', '\r', 'a', '9', '|'] {
        assert!(parse_level(&c.to_string()).tiles.is_empty());
    }
}

#[test]
fn rows_may_differ_in_length() {
    let level = parse_level("#\n    *\n");
    assert_eq!(level.start, GridCoord { column: 4, row: 1 });
    assert_eq!(at(&level.tiles, 3, 1), vec![floor(3, 1), ceiling(3, 1)]);
    assert_eq!(level.tiles.len(), 4 + 10);
}

#[test]
fn carriage_return_is_an_empty_cell() {
    let level = parse_level(" \r\n *");
    assert_eq!(level.start, GridCoord { column: 1, row: 1 });
    assert!(at(&level.tiles, 1, 0).is_empty());
}

#[test]
fn every_wall_facing_is_a_side() {
    let level = parse_level("#\u{2594}\n\u{2595}#\u{2581}\u{258f}\n * #");
    let walls: Vec<Tile> = level.tiles.iter().copied().filter(|t| t.kind == TileType::Wall).collect();
    assert_eq!(walls.len(), 4 + 1 + 1 + 4 + 1 + 1 + 4);
    assert!(walls.iter().all(|t| (0..=3).contains(&t.facing)));
    for (x, z) in [(0, 0), (1, 1), (3, 2)] {
        let here = at(&level.tiles, x, z);
        assert_eq!(here, vec![wall(x, z, 0), wall(x, z, 1), wall(x, z, 2), wall(x, z, 3)]);
    }
}
