//! The static tile grid that bodies collide with.
use vstd::prelude::*;
use crate::geometry::{in_limit, in_span, Color, Rect, Vec2, COORD_LIMIT, UNIT};

verus! {

/// Side of a square tile, in thousandths of a unit (32 units).
pub const TILE_SIZE: i64 = 32_000;

/// Largest number of tiles along either side of a level.
pub const MAX_TILES: usize = 16_000;

#[derive(Clone, Copy, Debug, PartialEq, Eq, Structural)]
pub enum TileType {
    Empty,
    Ground,
    Platform,
    Wall,
    Destructible,
}

#[derive(Clone, Copy, Debug)]
pub struct Tile {
    pub tile_type: TileType,
    pub solid: bool,
    pub color: Color,
}

impl TileType {
    /// Every kind but `Empty` blocks movement.
    pub open spec fn is_solid_kind(self) -> bool {
        self != TileType::Empty
    }
}

impl Tile {
    pub open spec fn wf(self) -> bool {
        self.solid == self.tile_type.is_solid_kind()
    }

    pub fn new(tile_type: TileType) -> (t: Tile)
        ensures
            t.tile_type == tile_type,
            t.solid == tile_type.is_solid_kind(),
            t.color == match tile_type {
                TileType::Empty => Color { r: 0, g: 0, b: 0, a: 0 },
                TileType::Ground => Color { r: 80, g: 60, b: 40, a: 255 },
                TileType::Platform => Color { r: 120, g: 100, b: 80, a: 255 },
                TileType::Wall => Color { r: 100, g: 100, b: 100, a: 255 },
                TileType::Destructible => Color { r: 160, g: 140, b: 120, a: 255 },
            },
    {
        let (solid, color) = match tile_type {
            TileType::Empty => (false, Color::new(0, 0, 0, 0)),
            TileType::Ground => (true, Color::new(80, 60, 40, 255)),
            TileType::Platform => (true, Color::new(120, 100, 80, 255)),
            TileType::Wall => (true, Color::new(100, 100, 100, 255)),
            TileType::Destructible => (true, Color::new(160, 140, 120, 255)),
        };
        Tile { tile_type, solid, color }
    }
}

/// The tile kind that a level-map character stands for.
pub open spec fn tile_for(c: u8) -> TileType {
    if c == 35 {
        TileType::Ground
    } else if c == 61 {
        TileType::Platform
    } else if c == 124 {
        TileType::Wall
    } else if c == 68 {
        TileType::Destructible
    } else {
        TileType::Empty
    }
}

/// Byte that marks the spawn point in a level map.
pub const SPAWN_MARK: u8 = 83;

/// Length of the longest of the first `n` rows.
pub open spec fn widest(rows: Seq<Vec<u8>>, n: int) -> int
    decreases n,
{
    if n <= 0 {
        0
    } else {
        let w = widest(rows, n - 1);
        if rows[n - 1]@.len() > w {
            rows[n - 1]@.len() as int
        } else {
            w
        }
    }
}

/// World rectangle covered by the tile at column `tx`, row `ty`.
pub open spec fn tile_rect(tx: int, ty: int) -> Rect {
    Rect {
        x: (tx * TILE_SIZE) as i64,
        y: (ty * TILE_SIZE) as i64,
        width: TILE_SIZE,
        height: TILE_SIZE,
    }
}

/// A rectangular grid of tiles, stored row by row.
pub struct Level {
    pub tiles: Vec<Vec<Tile>>,
    pub width: usize,
    pub height: usize,
    pub spawn_point: Vec2,
}

impl Level {
    pub open spec fn wf(self) -> bool {
        &&& self.width <= MAX_TILES
        &&& self.height <= MAX_TILES
        &&& self.tiles@.len() == self.height
        &&& forall|y: int| 0 <= y < self.height ==> #[trigger] self.tiles@[y]@.len() == self.width
        &&& forall|y: int, x: int|
            0 <= y < self.height && 0 <= x < self.width ==> (#[trigger] self.tiles@[y]@[x]).wf()
        &&& self.spawn_point.in_limit()
    }

    /// The tile at column `x`, row `y`, when inside the grid.
    pub open spec fn tile_at(self, x: int, y: int) -> Option<Tile> {
        if 0 <= x < self.width && 0 <= y < self.height {
            Some(self.tiles@[y]@[x])
        } else {
            None
        }
    }

    /// Inside the grid and blocking; everything outside is open.
    pub open spec fn solid_at(self, x: int, y: int) -> bool {
        0 <= x < self.width && 0 <= y < self.height && self.tiles@[y]@[x].solid
    }

    /// `rect` overlaps the solid tile at column `tx`, row `ty`.
    pub open spec fn hits(self, rect: Rect, tx: int, ty: int) -> bool {
        self.solid_at(tx, ty) && rect.overlaps(tile_rect(tx, ty))
    }

    /// `rect` overlaps some solid tile.
    pub open spec fn collides(self, rect: Rect) -> bool {
        exists|tx: int, ty: int| #[trigger] self.hits(rect, tx, ty)
    }

    /// An empty grid of the given size.
    pub fn new(width: usize, height: usize) -> (l: Level)
        requires
            width <= MAX_TILES,
            height <= MAX_TILES,
        ensures
            l.wf(),
            l.width == width,
            l.height == height,
            forall|x: int, y: int| !l.solid_at(x, y),
            l.spawn_point == (Vec2 { x: 100_000, y: 100_000 }),
    {
        let mut tiles: Vec<Vec<Tile>> = Vec::new();
        let mut y: usize = 0;
        while y < height
            invariant
                y <= height,
                tiles@.len() == y,
                forall|j: int| 0 <= j < y ==> #[trigger] tiles@[j]@.len() == width,
                forall|j: int, x: int|
                    0 <= j < y && 0 <= x < width ==> (#[trigger] tiles@[j]@[x]).tile_type
                        == TileType::Empty && tiles@[j]@[x].wf(),
            decreases height - y,
        {
            let mut row: Vec<Tile> = Vec::new();
            let mut x: usize = 0;
            while x < width
                invariant
                    x <= width,
                    row@.len() == x,
                    forall|i: int| 0 <= i < x ==> (#[trigger] row@[i]).tile_type == TileType::Empty
                        && row@[i].wf(),
                decreases width - x,
            {
                row.push(Tile::new(TileType::Empty));
                x += 1;
            }
            tiles.push(row);
            y += 1;
        }
        Level { tiles, width, height, spawn_point: Vec2::new(100 * UNIT, 100 * UNIT) }
    }

    /// A level from a map of rows of characters: `#` ground, `=` platform,
    /// `|` wall, `D` destructible, anything else empty. The grid is as wide
    /// as the longest row, short rows are padded with empty tiles, and the
    /// last `S` in reading order marks the spawn point (else the default).
    pub fn from_rows(rows: &Vec<Vec<u8>>) -> (l: Level)
        requires
            rows@.len() <= MAX_TILES,
            forall|i: int| 0 <= i < rows@.len() ==> (#[trigger] rows@[i])@.len() <= MAX_TILES,
        ensures
            l.wf(),
            l.height == rows@.len(),
            l.width == widest(rows@, rows@.len() as int),
            forall|y: int, x: int|
                0 <= y < l.height && 0 <= x < l.width ==> (#[trigger] l.tiles@[y]@[x]).tile_type
                    == if x < rows@[y]@.len() {
                    tile_for(rows@[y]@[x])
                } else {
                    TileType::Empty
                },
            (forall|y: int, x: int|
                0 <= y < rows@.len() && 0 <= x < rows@[y]@.len() ==> #[trigger] rows@[y]@[x]
                    != SPAWN_MARK) ==> l.spawn_point == (Vec2 { x: 100_000, y: 100_000 }),
            (exists|y: int, x: int|
                0 <= y < rows@.len() && 0 <= x < rows@[y]@.len() && #[trigger] rows@[y]@[x]
                    == SPAWN_MARK) ==> exists|y: int, x: int|
                0 <= y < rows@.len() && 0 <= x < rows@[y]@.len() && #[trigger] rows@[y]@[x]
                    == SPAWN_MARK && l.spawn_point == (Vec2 {
                    x: (x * TILE_SIZE) as i64,
                    y: (y * TILE_SIZE) as i64,
                }) && forall|y2: int, x2: int|
                    0 <= y2 < rows@.len() && 0 <= x2 < rows@[y2]@.len() && (y2 > y || (y2 == y
                        && x2 > x)) ==> #[trigger] rows@[y2]@[x2] != SPAWN_MARK,
    {
        let mut width: usize = 0;
        let mut k: usize = 0;
        while k < rows.len()
            invariant
                k <= rows@.len(),
                forall|i: int| 0 <= i < rows@.len() ==> (#[trigger] rows@[i])@.len() <= MAX_TILES,
                width == widest(rows@, k as int),
                width <= MAX_TILES,
            decreases rows.len() - k,
        {
            if rows[k].len() > width {
                width = rows[k].len();
            }
            k += 1;
        }
        let height = rows.len();
        let mut tiles: Vec<Vec<Tile>> = Vec::new();
        let mut spawn = Vec2::new(100_000, 100_000);
        let ghost mut found: bool = false;
        let ghost mut sy: int = 0;
        let ghost mut sx: int = 0;
        let mut y: usize = 0;
        while y < height
            invariant
                y <= height,
                height == rows@.len(),
                width <= MAX_TILES,
                width == widest(rows@, rows@.len() as int),
                height <= MAX_TILES,
                tiles@.len() == y,
                forall|j: int| 0 <= j < y ==> #[trigger] tiles@[j]@.len() == width,
                forall|j: int, x: int|
                    0 <= j < y && 0 <= x < width ==> (#[trigger] tiles@[j]@[x]).wf() && tiles@[j]@[x].tile_type
                        == if x < rows@[j]@.len() {
                        tile_for(rows@[j]@[x])
                    } else {
                        TileType::Empty
                    },
                !found ==> spawn == (Vec2 { x: 100_000, y: 100_000 }) && forall|j: int, x: int|
                    0 <= j < y && 0 <= x < rows@[j]@.len() ==> #[trigger] rows@[j]@[x] != SPAWN_MARK,
                found ==> 0 <= sy < y && 0 <= sx < rows@[sy]@.len() && rows@[sy]@[sx] == SPAWN_MARK
                    && spawn == (Vec2 { x: (sx * TILE_SIZE) as i64, y: (sy * TILE_SIZE) as i64 })
                    && forall|j: int, x: int|
                    0 <= j < y && 0 <= x < rows@[j]@.len() && (j > sy || (j == sy && x > sx))
                        ==> #[trigger] rows@[j]@[x] != SPAWN_MARK,
            decreases height - y,
        {
            let row = &rows[y];
            let mut line: Vec<Tile> = Vec::new();
            let mut x: usize = 0;
            while x < width
                invariant
                    x <= width,
                    width <= MAX_TILES,
                    y < height <= MAX_TILES,
                    height == rows@.len(),
                    row == rows@[y as int],
                    line@.len() == x,
                    forall|i: int|
                        0 <= i < x ==> (#[trigger] line@[i]).wf() && line@[i].tile_type == if i
                            < row@.len() {
                            tile_for(row@[i])
                        } else {
                            TileType::Empty
                        },
                    !found ==> spawn == (Vec2 { x: 100_000, y: 100_000 }),
                    !found ==> forall|i: int| 0 <= i < x && i < row@.len() ==> #[trigger] row@[i] != SPAWN_MARK,
                    !found ==> forall|j: int, i: int|
                        0 <= j < y && 0 <= i < rows@[j]@.len() ==> #[trigger] rows@[j]@[i] != SPAWN_MARK,
                    found ==> 0 <= sy <= y && 0 <= sx < rows@[sy]@.len() && rows@[sy]@[sx] == SPAWN_MARK
                        && spawn == (Vec2 { x: (sx * TILE_SIZE) as i64, y: (sy * TILE_SIZE) as i64 }),
                    found ==> forall|j: int, i: int|
                        0 <= j < y && 0 <= i < rows@[j]@.len() && (j > sy || (j == sy && i > sx))
                            ==> #[trigger] rows@[j]@[i] != SPAWN_MARK,
                    found ==> forall|i: int|
                        0 <= i < x && i < row@.len() && (y > sy || (y == sy && i > sx))
                            ==> #[trigger] row@[i] != SPAWN_MARK,
                decreases width - x,
            {
                let kind = if x < row.len() {
                    let c = row[x];
                    if c == SPAWN_MARK {
                        spawn = Vec2::new(x as i64 * TILE_SIZE, y as i64 * TILE_SIZE);
                        proof {
                            found = true;
                            sy = y as int;
                            sx = x as int;
                        }
                    }
                    tile_kind(c)
                } else {
                    TileType::Empty
                };
                line.push(Tile::new(kind));
                x += 1;
            }
            proof {
                lemma_widest_bound(rows@, rows@.len() as int, y as int);
                if found {
                    assert forall|j: int, i: int|
                        0 <= j < y + 1 && 0 <= i < rows@[j]@.len() && (j > sy || (j == sy && i
                            > sx)) implies #[trigger] rows@[j]@[i] != SPAWN_MARK by {
                        if j == y {
                            assert(rows@[j]@[i] == row@[i]);
                        }
                    }
                } else {
                    assert forall|j: int, i: int|
                        0 <= j < y + 1 && 0 <= i < rows@[j]@.len() implies #[trigger] rows@[j]@[i]
                            != SPAWN_MARK by {
                        if j == y {
                            assert(rows@[j]@[i] == row@[i]);
                        }
                    }
                }
            }
            tiles.push(line);
            y += 1;
        }
        Level { tiles, width, height, spawn_point: spawn }
    }

    /// The tile under a world position: its coordinates divided by the tile
    /// size, rounded down.
    pub fn get_tile_at_position(&self, pos: Vec2) -> (r: Option<&Tile>)
        requires
            self.wf(),
        ensures
            r matches Some(t) ==> pos.x >= 0 && pos.y >= 0 && self.tile_at(
                pos.x as int / TILE_SIZE as int,
                pos.y as int / TILE_SIZE as int,
            ) == Some(*t),
            r is None ==> pos.x < 0 || pos.y < 0 || self.tile_at(
                pos.x as int / TILE_SIZE as int,
                pos.y as int / TILE_SIZE as int,
            ) is None,
    {
        if pos.x < 0 || pos.y < 0 {
            return None;
        }
        let x = pos.x / TILE_SIZE;
        let y = pos.y / TILE_SIZE;
        if (x as u64) < (self.width as u64) && (y as u64) < (self.height as u64) {
            Some(&self.tiles[y as usize][x as usize])
        } else {
            None
        }
    }

    pub fn get_tile(&self, x: usize, y: usize) -> (r: Option<&Tile>)
        requires
            self.wf(),
        ensures
            r matches Some(t) ==> self.tile_at(x as int, y as int) == Some(*t),
            r is None ==> self.tile_at(x as int, y as int) is None,
    {
        if x < self.width && y < self.height {
            Some(&self.tiles[y][x])
        } else {
            None
        }
    }

    /// Whether the tile at column `x`, row `y` blocks; out of bounds is open.
    pub fn is_solid(&self, x: i64, y: i64) -> (r: bool)
        requires
            self.wf(),
        ensures
            r == self.solid_at(x as int, y as int),
    {
        if 0 <= x && 0 <= y && (x as u64) < (self.width as u64) && (y as u64) < (
        self.height as u64) {
            self.tiles[y as usize][x as usize].solid
        } else {
            false
        }
    }

    /// Whether `rect` overlaps any solid tile.
    pub fn check_collision(&self, rect: Rect) -> (r: bool)
        requires
            self.wf(),
            rect.in_limit(),
        ensures
            r == self.collides(rect),
    {
        let (start_x, end_x) = tile_span(rect.x, rect.width, self.width);
        let (start_y, end_y) = tile_span(rect.y, rect.height, self.height);
        let mut y = start_y;
        while y < end_y
            invariant
                self.wf(),
                rect.in_limit(),
                start_y <= end_y <= self.height,
                start_x <= end_x <= self.width,
                start_y <= y <= end_y,
                forall|ty: int, tx: int|
                    start_y <= ty < y && start_x <= tx < end_x ==> !#[trigger] self.hits(
                        rect,
                        tx,
                        ty,
                    ),
                forall|tx: int| #[trigger]
                    spans_tile(rect.x as int, rect.width as int, tx) ==> start_x <= tx
                        || tx < 0,
                forall|tx: int| #[trigger]
                    spans_tile(rect.x as int, rect.width as int, tx) ==> tx < end_x
                        || tx >= self.width,
                forall|ty: int| #[trigger]
                    spans_tile(rect.y as int, rect.height as int, ty) ==> start_y <= ty
                        || ty < 0,
                forall|ty: int| #[trigger]
                    spans_tile(rect.y as int, rect.height as int, ty) ==> ty < end_y
                        || ty >= self.height,
            decreases end_y - y,
        {
            let mut x = start_x;
            while x < end_x
                invariant
                    self.wf(),
                    rect.in_limit(),
                    start_y <= y < end_y <= self.height,
                    start_x <= x <= end_x <= self.width,
                    forall|tx: int| start_x <= tx < x ==> !#[trigger] self.hits(rect, tx, y as int),
                decreases end_x - x,
            {
                let tile = &self.tiles[y][x];
                if tile.solid {
                    let tile_rect = Rect::new(
                        x as i64 * TILE_SIZE,
                        y as i64 * TILE_SIZE,
                        TILE_SIZE,
                        TILE_SIZE,
                    );
                    if rect.intersects(&tile_rect) {
                        assert(self.hits(rect, x as int, y as int));
                        return true;
                    }
                }
                x += 1;
            }
            y += 1;
        }
        assert forall|tx: int, ty: int| !#[trigger] self.hits(rect, tx, ty) by {
            if self.hits(rect, tx, ty) {
                assert(spans_tile(rect.x as int, rect.width as int, tx));
                assert(spans_tile(rect.y as int, rect.height as int, ty));
            }
        }
        false
    }
}

fn tile_kind(c: u8) -> (t: TileType)
    ensures
        t == tile_for(c),
{
    if c == 35 {
        TileType::Ground
    } else if c == 61 {
        TileType::Platform
    } else if c == 124 {
        TileType::Wall
    } else if c == 68 {
        TileType::Destructible
    } else {
        TileType::Empty
    }
}

/// No row among the first `n` is longer than `widest`.
proof fn lemma_widest_bound(rows: Seq<Vec<u8>>, n: int, i: int)
    requires
        0 <= i < n <= rows.len(),
    ensures
        rows[i]@.len() <= widest(rows, n),
    decreases n,
{
    if i < n - 1 {
        lemma_widest_bound(rows, n - 1, i);
    }
}

/// A rectangle that lies wholly outside the grid never collides.
pub proof fn lemma_outside_grid_never_collides(level: Level, rect: Rect)
    requires
        level.wf(),
        rect.right() <= 0 || rect.bottom() <= 0 || rect.x >= level.width * TILE_SIZE || rect.y
            >= level.height * TILE_SIZE,
    ensures
        !level.collides(rect),
{
    assert forall|tx: int, ty: int| !#[trigger] level.hits(rect, tx, ty) by {
        if level.hits(rect, tx, ty) {
            assert(0 <= tx < level.width && 0 <= ty < level.height);
            assert(tx * TILE_SIZE + TILE_SIZE <= level.width * TILE_SIZE) by (nonlinear_arith)
                requires
                    tx < level.width,
            ;
            assert(ty * TILE_SIZE + TILE_SIZE <= level.height * TILE_SIZE) by (nonlinear_arith)
                requires
                    ty < level.height,
            ;
        }
    }
}

/// The segment `[p, p + len)` overlaps the tile segment of index `t`.
pub open spec fn spans_tile(p: int, len: int, t: int) -> bool {
    t * TILE_SIZE < p + len && p < t * TILE_SIZE + TILE_SIZE
}

/// Index range `[start, end)` of the tiles that the segment `[p, p + len)`
/// can touch, clamped to `[0, count]`.
fn tile_span(p: i64, len: i64, count: usize) -> (r: (usize, usize))
    requires
        in_span(p as int),
        0 <= len <= COORD_LIMIT,
        count <= MAX_TILES,
    ensures
        r.0 <= r.1 <= count,
        forall|t: int| #[trigger] spans_tile(p as int, len as int, t) ==> r.0 <= t || t < 0,
        forall|t: int| #[trigger] spans_tile(p as int, len as int, t) ==> t < r.1 || t >= count,
{
    let start: i64 = if p >= 0 {
        p / TILE_SIZE
    } else {
        0
    };
    let e = p + len;
    let end_raw: i64 = if e > 0 {
        (e + TILE_SIZE - 1) / TILE_SIZE
    } else {
        0
    };
    let end: usize = if end_raw >= count as i64 {
        count
    } else {
        end_raw as usize
    };
    let s: usize = if start >= count as i64 {
        count
    } else {
        start as usize
    };
    assert(start <= end_raw);
    (s, end)
}

} // verus!
