//! The layout of the tile grid: a wall of tiles around its border.
use vstd::prelude::*;

verus! {

/// A cell of the tile grid, by column and row.
#[derive(Clone, Copy, Debug, PartialEq, Eq, Structural)]
pub struct TilePosition {
    pub x: u32,
    pub y: u32,
}

/// A cell lies on the border of a `width` by `height` grid when it is in
/// the first or last row or column.
pub open spec fn on_border(p: TilePosition, width: int, height: int) -> bool {
    p.y == 0 || p.y == height - 1 || p.x == 0 || p.x == width - 1
}

pub open spec fn in_grid(p: TilePosition, width: int, height: int) -> bool {
    p.x < width && p.y < height
}

/// Row-major order: by row, then by column.
pub open spec fn precedes(a: TilePosition, b: TilePosition) -> bool {
    a.y < b.y || (a.y == b.y && a.x < b.x)
}

pub fn is_border_tile(p: TilePosition, width: u32, height: u32) -> (r: bool)
    ensures
        r == on_border(p, width as int, height as int),
{
    p.y == 0 || p.y as u64 + 1 == height as u64 || p.x == 0 || p.x as u64 + 1 == width as u64
}

/// The cells that hold a tile: every border cell of the grid, each once, in
/// row-major order.
pub fn border_tiles(width: u32, height: u32) -> (r: Vec<TilePosition>)
    ensures
        forall|i: int|
            0 <= i < r@.len() ==> in_grid(#[trigger] r@[i], width as int, height as int)
                && on_border(r@[i], width as int, height as int),
        forall|p: TilePosition|
            in_grid(p, width as int, height as int) && on_border(p, width as int, height as int)
                ==> #[trigger] r@.contains(p),
        forall|i: int, j: int| 0 <= i < j < r@.len() ==> precedes(#[trigger] r@[i], #[trigger] r@[j]),
{
    let mut tiles: Vec<TilePosition> = Vec::new();
    let mut y: u32 = 0;
    while y < height
        invariant
            y <= height,
            forall|i: int|
                0 <= i < tiles@.len() ==> in_grid(#[trigger] tiles@[i], width as int, height as int)
                    && on_border(tiles@[i], width as int, height as int) && tiles@[i].y < y,
            forall|p: TilePosition|
                in_grid(p, width as int, height as int) && on_border(
                    p,
                    width as int,
                    height as int,
                ) && p.y < y ==> #[trigger] tiles@.contains(p),
            forall|i: int, j: int|
                0 <= i < j < tiles@.len() ==> precedes(#[trigger] tiles@[i], #[trigger] tiles@[j]),
        decreases height - y,
    {
        let mut x: u32 = 0;
        while x < width
            invariant
                y < height,
                x <= width,
                forall|i: int|
                    0 <= i < tiles@.len() ==> in_grid(#[trigger] tiles@[i], width as int, height as int)
                        && on_border(tiles@[i], width as int, height as int) && precedes(
                        tiles@[i],
                        TilePosition { x, y },
                    ),
                forall|p: TilePosition|
                    in_grid(p, width as int, height as int) && on_border(
                        p,
                        width as int,
                        height as int,
                    ) && precedes(p, TilePosition { x, y }) ==> #[trigger] tiles@.contains(p),
                forall|i: int, j: int|
                    0 <= i < j < tiles@.len() ==> precedes(#[trigger] tiles@[i], #[trigger] tiles@[j]),
            decreases width - x,
        {
            let p = TilePosition { x, y };
            if is_border_tile(p, width, height) {
                let ghost before = tiles@;
                tiles.push(p);
                proof {
                    assert(tiles@[before.len() as int] == p);
                    assert forall|q: TilePosition|
                        in_grid(q, width as int, height as int) && on_border(
                            q,
                            width as int,
                            height as int,
                        ) && precedes(q, TilePosition { x: (x + 1) as u32, y }) implies #[trigger] tiles@.contains(q) by {
                        if q == p {
                            assert(tiles@[before.len() as int] == q);
                        } else {
                            assert(before.contains(q));
                            let k = choose|k: int| 0 <= k < before.len() && before[k] == q;
                            assert(tiles@[k] == q);
                        }
                    }
                }
            } else {
                proof {
                    assert forall|q: TilePosition|
                        in_grid(q, width as int, height as int) && on_border(
                            q,
                            width as int,
                            height as int,
                        ) && precedes(q, TilePosition { x: (x + 1) as u32, y }) implies #[trigger] tiles@.contains(q) by {
                        assert(q != p);
                    }
                }
            }
            x = x + 1;
        }
        y = y + 1;
    }
    tiles
}

} // verus!
