//! The level parser: a newline-separated grid of symbols becomes an ordered
//! sequence of oriented tiles and a start cell.
use vstd::prelude::*;

verus! {

/// The symbol that marks where the player starts.
pub const START_SYMBOL: char = '*';

/// A full wall block: all four faces of its cell.
pub const WALL_SYMBOL: char = '#';

/// An open cell: floor below, ceiling above.
pub const OPEN_SYMBOL: char = ' ';

/// One wall face on the north (back) edge of its cell.
pub const NORTH_EDGE_SYMBOL: char = '\u{2594}';

/// One wall face on the east (right) edge of its cell.
pub const EAST_EDGE_SYMBOL: char = '\u{2595}';

/// One wall face on the south (front) edge of its cell.
pub const SOUTH_EDGE_SYMBOL: char = '\u{2581}';

/// One wall face on the west (left) edge of its cell.
pub const WEST_EDGE_SYMBOL: char = '\u{258f}';

/// What a tile is made of.
#[derive(Clone, Copy, Debug, PartialEq, Eq, Structural)]
pub enum TileType {
    Wall,
    Floor,
    Ceiling,
}

/// One unit-quad surface placed at a grid cell.
///
/// `x` is the cell's column and `z` its row. `y` is the vertical level: 0 for
/// a floor and for a wall (which spans 0..1), 1 for a ceiling. `facing` tells
/// which vertical face of the cell a wall is (0 north, 1 east, 2 south,
/// 3 west); floors and ceilings carry 0.
#[derive(Clone, Copy, Debug, PartialEq, Eq, Structural)]
pub struct Tile {
    pub kind: TileType,
    pub x: i64,
    pub y: i64,
    pub z: i64,
    pub facing: i8,
}

/// A grid cell: the column within its row and the row within the map.
#[derive(Clone, Copy, Debug, PartialEq, Eq, Structural)]
pub struct GridCoord {
    pub column: i64,
    pub row: i64,
}

/// What a map compiles to: its tiles in scan order and the start cell.
#[derive(Debug)]
pub struct Level {
    pub tiles: Vec<Tile>,
    pub start: GridCoord,
}

pub open spec fn floor_at(col: int, row: int) -> Tile {
    Tile { kind: TileType::Floor, x: col as i64, y: 0, z: row as i64, facing: 0 }
}

pub open spec fn ceiling_at(col: int, row: int) -> Tile {
    Tile { kind: TileType::Ceiling, x: col as i64, y: 1, z: row as i64, facing: 0 }
}

pub open spec fn wall_at(col: int, row: int, facing: int) -> Tile {
    Tile { kind: TileType::Wall, x: col as i64, y: 0, z: row as i64, facing: facing as i8 }
}

/// The tiles that one symbol places at cell (`col`, `row`).
pub open spec fn symbol_tiles(c: char, col: int, row: int) -> Seq<Tile> {
    if c == START_SYMBOL || c == OPEN_SYMBOL {
        seq![floor_at(col, row), ceiling_at(col, row)]
    } else if c == WALL_SYMBOL {
        seq![wall_at(col, row, 0), wall_at(col, row, 1), wall_at(col, row, 2), wall_at(col, row, 3)]
    } else if c == NORTH_EDGE_SYMBOL {
        seq![wall_at(col, row, 0)]
    } else if c == EAST_EDGE_SYMBOL {
        seq![wall_at(col, row, 1)]
    } else if c == SOUTH_EDGE_SYMBOL {
        seq![wall_at(col, row, 2)]
    } else if c == WEST_EDGE_SYMBOL {
        seq![wall_at(col, row, 3)]
    } else {
        seq![]
    }
}

/// The row that the symbol following the text `p` stands in: the number of
/// newlines in `p`.
pub open spec fn row_of(p: Seq<char>) -> int
    decreases p.len(),
{
    if p.len() == 0 {
        0
    } else {
        row_of(p.drop_last()) + if p.last() == '\n' { 1int } else { 0int }
    }
}

/// The column that the symbol following the text `p` stands in: the number of
/// symbols after the last newline of `p`.
pub open spec fn column_of(p: Seq<char>) -> int
    decreases p.len(),
{
    if p.len() == 0 {
        0
    } else if p.last() == '\n' {
        0
    } else {
        column_of(p.drop_last()) + 1
    }
}

/// The cell of the symbol at index `i` of the map `s`.
pub open spec fn cell_of(s: Seq<char>, i: int) -> GridCoord {
    GridCoord { column: column_of(s.take(i)) as i64, row: row_of(s.take(i)) as i64 }
}

/// The tiles of a map, in scan order.
pub open spec fn tiles_of(s: Seq<char>) -> Seq<Tile>
    decreases s.len(),
{
    if s.len() == 0 {
        seq![]
    } else {
        let p = s.drop_last();
        tiles_of(p) + symbol_tiles(s.last(), column_of(p), row_of(p))
    }
}

/// The start cell of a map: that of its last start symbol, or the origin
/// where it has none.
pub open spec fn start_of(s: Seq<char>) -> GridCoord
    decreases s.len(),
{
    if s.len() == 0 {
        GridCoord { column: 0, row: 0 }
    } else if s.last() == START_SYMBOL {
        let p = s.drop_last();
        GridCoord { column: column_of(p) as i64, row: row_of(p) as i64 }
    } else {
        start_of(s.drop_last())
    }
}

proof fn lemma_position_bounds(p: Seq<char>)
    ensures
        0 <= column_of(p) <= p.len(),
        0 <= row_of(p) <= p.len(),
    decreases p.len(),
{
    if p.len() > 0 {
        lemma_position_bounds(p.drop_last());
    }
}

/// Appends the tiles that `c` places at (`column`, `row`).
fn push_symbol(tiles: &mut Vec<Tile>, c: char, column: i64, row: i64)
    ensures
        final(tiles)@ == old(tiles)@ + symbol_tiles(c, column as int, row as int),
{
    if c == START_SYMBOL || c == OPEN_SYMBOL {
        tiles.push(Tile { kind: TileType::Floor, x: column, y: 0, z: row, facing: 0 });
        tiles.push(Tile { kind: TileType::Ceiling, x: column, y: 1, z: row, facing: 0 });
    } else if c == WALL_SYMBOL {
        let mut facing: i8 = 0;
        while facing < 4
            invariant
                0 <= facing <= 4,
                tiles@ == old(tiles)@ + Seq::new(facing as nat, |f: int| wall_at(column as int, row as int, f)),
            decreases 4 - facing,
        {
            tiles.push(Tile { kind: TileType::Wall, x: column, y: 0, z: row, facing });
            facing = facing + 1;
        }
    } else if c == NORTH_EDGE_SYMBOL {
        tiles.push(Tile { kind: TileType::Wall, x: column, y: 0, z: row, facing: 0 });
    } else if c == EAST_EDGE_SYMBOL {
        tiles.push(Tile { kind: TileType::Wall, x: column, y: 0, z: row, facing: 1 });
    } else if c == SOUTH_EDGE_SYMBOL {
        tiles.push(Tile { kind: TileType::Wall, x: column, y: 0, z: row, facing: 2 });
    } else if c == WEST_EDGE_SYMBOL {
        tiles.push(Tile { kind: TileType::Wall, x: column, y: 0, z: row, facing: 3 });
    }
}

/// Compiles a map into its tiles, in scan order, and its start cell.
///
/// Rows are separated by `'\n'`; each symbol of a row is one cell. A map
/// without a start symbol starts at the origin; where there are several, the
/// last one counts. No symbol is an error: an unknown one leaves its cell
/// empty. (A string never holds more than `isize::MAX` bytes, so the bound
/// below always holds.)
pub fn parse_level(text: &str) -> (level: Level)
    requires
        text@.len() <= i64::MAX,
    ensures
        level.tiles@ == tiles_of(text@),
        level.start == start_of(text@),
{
    let mut tiles: Vec<Tile> = Vec::new();
    let mut start = GridCoord { column: 0, row: 0 };
    let mut column: i64 = 0;
    let mut row: i64 = 0;
    for c in it: text.chars()
        invariant
            it.seq() == text@,
            text@.len() <= i64::MAX,
            tiles@ == tiles_of(text@.take(it.index())),
            start == start_of(text@.take(it.index())),
            column == column_of(text@.take(it.index())),
            row == row_of(text@.take(it.index())),
    {
        let ghost p = text@.take(it.index());
        let ghost q = text@.take(it.index() + 1);
        proof {
            assert(q.drop_last() == p);
            lemma_position_bounds(p);
        }
        push_symbol(&mut tiles, c, column, row);
        if c == START_SYMBOL {
            start = GridCoord { column, row };
        }
        if c == '\n' {
            column = 0;
            row = row + 1;
        } else {
            column = column + 1;
        }
    }
    proof {
        assert(text@.take(text@.len() as int) == text@);
    }
    Level { tiles, start }
}


/// The tiles of `tiles` that stand at `cell`.
pub open spec fn tiles_at(tiles: Seq<Tile>, cell: GridCoord) -> Seq<Tile> {
    tiles.filter(|t: Tile| t.x == cell.column && t.z == cell.row)
}

/// Every wall tile of a map faces one of the four sides of its cell.
pub proof fn lemma_wall_facings(s: Seq<char>)
    ensures
        forall|i: int|
            0 <= i < tiles_of(s).len() && #[trigger] tiles_of(s)[i].kind == TileType::Wall
                ==> 0 <= tiles_of(s)[i].facing <= 3,
    decreases s.len(),
{
    if s.len() > 0 {
        lemma_wall_facings(s.drop_last());
    }
}

/// A symbol after index `i` stands in a later cell of the scan order: a later
/// row, or the same row and a later column.
proof fn lemma_cells_advance(s: Seq<char>, i: int, k: int)
    requires
        0 <= i < k <= s.len(),
        s[i] != '\n',
    ensures
        row_of(s.take(k)) > row_of(s.take(i)) || (row_of(s.take(k)) == row_of(s.take(i))
            && column_of(s.take(k)) > column_of(s.take(i))),
    decreases k - i,
{
    assert(s.take(k).drop_last() == s.take(k - 1));
    if k > i + 1 {
        lemma_cells_advance(s, i, k - 1);
    }
}

proof fn lemma_symbol_tiles_at(c: char, col: int, row: int, cell: GridCoord)
    ensures
        tiles_at(symbol_tiles(c, col, row), cell) == if cell.column == col as i64 && cell.row
            == row as i64 {
            symbol_tiles(c, col, row)
        } else {
            Seq::<Tile>::empty()
        },
{
    reveal_with_fuel(Seq::filter, 5);
    let t = symbol_tiles(c, col, row);
    assert(t.len() <= 4);
    if t.len() == 4 {
        assert(t.drop_last().drop_last().drop_last().drop_last() == Seq::<Tile>::empty());
    } else if t.len() == 2 {
        assert(t.drop_last().drop_last() == Seq::<Tile>::empty());
    } else if t.len() == 1 {
        assert(t.drop_last() == Seq::<Tile>::empty());
    }
}

proof fn lemma_tiles_at_prefix(s: Seq<char>, j: int, n: int)
    requires
        0 <= j < s.len(),
        0 <= n <= s.len(),
        s.len() <= i64::MAX,
        s[j] != '\n',
    ensures
        tiles_at(tiles_of(s.take(n)), cell_of(s, j)) == if n <= j {
            Seq::<Tile>::empty()
        } else {
            symbol_tiles(s[j], column_of(s.take(j)), row_of(s.take(j)))
        },
    decreases n,
{
    let cell = cell_of(s, j);
    reveal_with_fuel(Seq::filter, 1);
    if n > 0 {
        let p = s.take(n - 1);
        assert(s.take(n).drop_last() == p);
        lemma_tiles_at_prefix(s, j, n - 1);
        let here = symbol_tiles(s[n - 1], column_of(p), row_of(p));
        Seq::filter_distributes_over_add(
            tiles_of(p),
            here,
            |t: Tile| t.x == cell.column && t.z == cell.row,
        );
        lemma_symbol_tiles_at(s[n - 1], column_of(p), row_of(p), cell);
        lemma_position_bounds(p);
        lemma_position_bounds(s.take(j));
        if n - 1 < j && s[n - 1] != '\n' {
            lemma_cells_advance(s, n - 1, j);
        } else if n - 1 > j {
            lemma_cells_advance(s, j, n - 1);
        }
    }
}

/// The tiles at the cell of a symbol are exactly those that the symbol
/// places there.
pub proof fn lemma_cell_tiles(s: Seq<char>, j: int)
    requires
        0 <= j < s.len(),
        s.len() <= i64::MAX,
        s[j] != '\n',
    ensures
        tiles_at(tiles_of(s), cell_of(s, j)) == symbol_tiles(
            s[j],
            column_of(s.take(j)),
            row_of(s.take(j)),
        ),
{
    lemma_tiles_at_prefix(s, j, s.len() as int);
    assert(s.take(s.len() as int) == s);
}

/// A full wall symbol gives its cell exactly four wall tiles, one per
/// facing in order, and so no floor or ceiling.
pub proof fn lemma_full_wall_cell(s: Seq<char>, j: int)
    requires
        0 <= j < s.len(),
        s.len() <= i64::MAX,
        s[j] == WALL_SYMBOL,
    ensures
        ({
            let c = cell_of(s, j);
            tiles_at(tiles_of(s), c) == seq![
                wall_at(c.column as int, c.row as int, 0),
                wall_at(c.column as int, c.row as int, 1),
                wall_at(c.column as int, c.row as int, 2),
                wall_at(c.column as int, c.row as int, 3),
            ]
        }),
{
    lemma_cell_tiles(s, j);
    lemma_position_bounds(s.take(j));
}

/// A symbol that is none of the known ones leaves its cell without tiles.
pub proof fn lemma_unknown_symbol_cell(s: Seq<char>, j: int)
    requires
        0 <= j < s.len(),
        s.len() <= i64::MAX,
        s[j] != '\n',
        s[j] != START_SYMBOL,
        s[j] != OPEN_SYMBOL,
        s[j] != WALL_SYMBOL,
        s[j] != NORTH_EDGE_SYMBOL,
        s[j] != EAST_EDGE_SYMBOL,
        s[j] != SOUTH_EDGE_SYMBOL,
        s[j] != WEST_EDGE_SYMBOL,
    ensures
        symbol_tiles(s[j], column_of(s.take(j)), row_of(s.take(j))).len() == 0,
        tiles_at(tiles_of(s), cell_of(s, j)).len() == 0,
{
    lemma_cell_tiles(s, j);
}

/// Where a map holds exactly one start symbol, the start is its cell.
pub proof fn lemma_single_start(s: Seq<char>, j: int)
    requires
        0 <= j < s.len(),
        s[j] == START_SYMBOL,
        forall|k: int| 0 <= k < s.len() && k != j ==> s[k] != START_SYMBOL,
    ensures
        start_of(s) == cell_of(s, j),
    decreases s.len(),
{
    if j < s.len() - 1 {
        let p = s.drop_last();
        assert(p.take(j) == s.take(j));
        lemma_single_start(p, j);
    } else {
        assert(s.drop_last() == s.take(j));
    }
}

/// Where a map holds no start symbol, the start is the origin.
pub proof fn lemma_no_start(s: Seq<char>)
    requires
        forall|k: int| 0 <= k < s.len() ==> s[k] != START_SYMBOL,
    ensures
        start_of(s) == (GridCoord { column: 0, row: 0 }),
    decreases s.len(),
{
    if s.len() > 0 {
        lemma_no_start(s.drop_last());
    }
}

} // verus!
