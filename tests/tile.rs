use duhnjyn::tile::{border_tiles, is_border_tile, TilePosition};

fn at(x: u32, y: u32) -> TilePosition {
    TilePosition { x, y }
}

#[test]
fn small_grid_border_in_row_major_order() {
    let tiles = border_tiles(4, 3);
    let expected = vec![
        at(0, 0), at(1, 0), at(2, 0), at(3, 0),
        at(0, 1), at(3, 1),
        at(0, 2), at(1, 2), at(2, 2), at(3, 2),
    ];
    assert_eq!(tiles, expected);
}

#[test]
fn full_grid_has_a_wall_of_124_tiles() {
    let tiles = border_tiles(32, 32);
    assert_eq!(tiles.len(), 124);
    assert!(tiles.iter().all(|p| is_border_tile(*p, 32, 32)));
}

#[test]
fn degenerate_grids() {
    assert_eq!(border_tiles(1, 1), vec![at(0, 0)]);
    assert!(border_tiles(0, 5).is_empty());
    assert!(border_tiles(5, 0).is_empty());
}

#[test]
fn border_predicate() {
    assert!(is_border_tile(at(0, 7), 32, 32));
    assert!(is_border_tile(at(31, 7), 32, 32));
    assert!(is_border_tile(at(7, 31), 32, 32));
    assert!(!is_border_tile(at(7, 7), 32, 32));
}
