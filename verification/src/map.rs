//! Positions, the static map, and the overlap tests.
//!
//! Coordinates are integers in sub-pixel units (see the crate root).  Every
//! coordinate the simulation produces is clamped into
//! `[-POS_LIMIT, POS_LIMIT]`, so that all position arithmetic stays far from
//! the `i64` range and no tick can overflow.
//!
//! Wall collision is an axis-aligned overlap test with a small leeway margin:
//! the moving player counts as a box of 90% of a tile, walls as a full tile,
//! so two centers collide exactly when both coordinate distances are below
//! `WALL_COLLIDE_DIST` (half of 0.9 tile + half of 1 tile).  Projectile and
//! pickup hits are Euclidean point-circle tests against a fixed combined
//! radius.

use vstd::arithmetic::div_mod::{
    lemma_div_is_ordered, lemma_div_multiples_vanish, lemma_div_pos_is_pos,
};
use vstd::prelude::*;

verus! {

/// Largest coordinate magnitude the simulation ever stores.
pub const POS_LIMIT: i64 = 0x10_0000_0000_0000;

/// Combined half-extent of the player box (90% of a tile) and a wall tile:
/// (0.9 * 32 px + 32 px) / 2 in units.
pub const WALL_COLLIDE_DIST: i64 = 1824;

/// A point in the arena, in sub-pixel units.
#[derive(Clone, Copy, PartialEq, Eq, Structural, Debug)]
pub struct Pos {
    pub x: i64,
    pub y: i64,
}

impl Pos {
    pub open spec fn in_bounds(self) -> bool {
        -POS_LIMIT <= self.x <= POS_LIMIT && -POS_LIMIT <= self.y <= POS_LIMIT
    }
}

/// A coordinate clamped into the world range.
pub open spec fn spec_clamp_coord(v: int) -> i64 {
    if v > POS_LIMIT {
        POS_LIMIT
    } else if v < -POS_LIMIT {
        (-(POS_LIMIT as int)) as i64
    } else {
        v as i64
    }
}

/// Clamps a displaced coordinate back into the world range.
pub fn clamp_coord(v: i64) -> (r: i64)
    ensures
        r == spec_clamp_coord(v as int),
        -POS_LIMIT <= r <= POS_LIMIT,
{
    if v > POS_LIMIT {
        POS_LIMIT
    } else if v < -POS_LIMIT {
        -POS_LIMIT
    } else {
        v
    }
}

/// A direction component `c` (scaled by `DIR_UNIT`) applied to a magnitude:
/// the sign of `c` times `|c| * num / den`, rounding the magnitude down.
pub open spec fn spec_scaled(c: int, num: int, den: int) -> int {
    if c >= 0 {
        c * num / den
    } else {
        -((-c) * num / den)
    }
}

/// Computes `spec_scaled` for a bounded direction component.  Because the
/// denominator is at least as large as the component bound, the result is
/// never larger in magnitude than `num`.
pub fn scaled(c: i32, num: i64, den: i64) -> (r: i64)
    requires
        -1000 <= c <= 1000,
        0 <= num <= 1_000_000,
        1000 <= den <= 1_000_000,
    ensures
        r == spec_scaled(c as int, num as int, den as int),
        -num <= r <= num,
{
    let ca: i64 = if c >= 0 {
        c as i64
    } else {
        -(c as i64)
    };
    proof {
        assert(0 <= ca * num <= 1_000_000_000) by (nonlinear_arith)
            requires
                0 <= ca <= 1000,
                0 <= num <= 1_000_000,
        ;
    }
    let mag: i64 = (ca * num) / den;
    proof {
        lemma_div_pos_is_pos(ca * num, den as int);
        assert(ca * num <= den * num) by (nonlinear_arith)
            requires
                0 <= ca <= den,
                0 <= num,
        ;
        lemma_div_is_ordered(ca * num, den * num, den as int);
        lemma_div_multiples_vanish(num as int, den as int);
    }
    if c >= 0 {
        mag
    } else {
        -mag
    }
}

/// Whether two centers are within Euclidean distance `r` of each other
/// (strictly), the overlap test for projectiles, hazards and pickups.
pub open spec fn spec_circle_hit(a: Pos, b: Pos, r: i64) -> bool {
    (a.x - b.x) * (a.x - b.x) + (a.y - b.y) * (a.y - b.y) < r * r
}

/// Euclidean proximity test against a fixed combined radius.
pub fn circle_hit(a: Pos, b: Pos, r: i64) -> (hit: bool)
    requires
        a.in_bounds(),
        b.in_bounds(),
        0 <= r <= 100_000,
    ensures
        hit == spec_circle_hit(a, b, r),
{
    let dx: i64 = a.x - b.x;
    let dy: i64 = a.y - b.y;
    let adx: i64 = if dx >= 0 {
        dx
    } else {
        -dx
    };
    let ady: i64 = if dy >= 0 {
        dy
    } else {
        -dy
    };
    if adx >= r || ady >= r {
        proof {
            assert(!spec_circle_hit(a, b, r)) by (nonlinear_arith)
                requires
                    (adx >= r || ady >= r),
                    r >= 0,
                    adx == (if a.x - b.x >= 0 { a.x - b.x } else { -(a.x - b.x) }),
                    ady == (if a.y - b.y >= 0 { a.y - b.y } else { -(a.y - b.y) }),
            ;
        }
        false
    } else {
        proof {
            assert(dx * dx == adx * adx && dy * dy == ady * ady) by (nonlinear_arith)
                requires
                    adx == (if dx >= 0 { dx as int } else { -(dx as int) }),
                    ady == (if dy >= 0 { dy as int } else { -(dy as int) }),
            ;
            assert(adx * adx < 100_000 * 100_000 && ady * ady < 100_000 * 100_000
                && r * r <= 100_000 * 100_000) by (nonlinear_arith)
                requires
                    0 <= adx < r,
                    0 <= ady < r,
                    0 <= r <= 100_000,
            ;
        }
        dx * dx + dy * dy < r * r
    }
}

/// Whether a target position overlaps one wall tile, with the leeway margin.
pub open spec fn spec_wall_hit(target: Pos, wall: Pos) -> bool {
    -WALL_COLLIDE_DIST < target.x - wall.x < WALL_COLLIDE_DIST
        && -WALL_COLLIDE_DIST < target.y - wall.y < WALL_COLLIDE_DIST
}

/// Axis-aligned overlap test of a displaced player box against one wall.
pub fn wall_collision_check(target: Pos, wall: Pos) -> (hit: bool)
    requires
        target.in_bounds(),
        wall.in_bounds(),
    ensures
        hit == spec_wall_hit(target, wall),
{
    let dx: i64 = target.x - wall.x;
    let dy: i64 = target.y - wall.y;
    -WALL_COLLIDE_DIST < dx && dx < WALL_COLLIDE_DIST && -WALL_COLLIDE_DIST < dy && dy
        < WALL_COLLIDE_DIST
}

/// Whether a target position overlaps any of the static colliders.
pub open spec fn spec_blocked(target: Pos, walls: Seq<Pos>) -> bool {
    exists|k: int| 0 <= k < walls.len() && spec_wall_hit(target, #[trigger] walls[k])
}

/// Tests a displacement target against all static colliders.
pub fn blocked_by_wall(target: Pos, walls: &Vec<Pos>) -> (blocked: bool)
    requires
        target.in_bounds(),
        forall|k: int| 0 <= k < walls@.len() ==> (#[trigger] walls@[k]).in_bounds(),
    ensures
        blocked == spec_blocked(target, walls@),
{
    let mut i: usize = 0;
    while i < walls.len()
        invariant
            i <= walls@.len(),
            forall|k: int| 0 <= k < i ==> !spec_wall_hit(target, #[trigger] walls@[k]),
        decreases walls@.len() - i,
    {
        if wall_collision_check(target, walls[i]) {
            return true;
        }
        i = i + 1;
    }
    false
}

/// What a tile map character means to the simulation.  Fence pieces, water
/// edges, grass edges and the queen are solid; one grass kind designates a
/// pickup spawn area, the other a player spawn point; everything else is
/// decoration.
#[derive(Clone, Copy, PartialEq, Eq, Structural, Debug)]
pub enum TileKind {
    Wall,
    PickupArea,
    PlayerSpawn,
}

/// Whether the character at a tile designates the given kind.
pub open spec fn spec_tile_is(kind: TileKind, c: char) -> bool {
    match kind {
        TileKind::Wall => c == '|' || c == '=' || c == '_' || c == '%' || c == '^' || c == '$',
        TileKind::PickupArea => c == '~',
        TileKind::PlayerSpawn => c == '!',
    }
}

/// The world position of the tile at column `x`, row `y`: rows grow
/// downward from the origin.
pub open spec fn spec_tile_pos(x: int, y: int) -> Pos {
    Pos { x: (x * crate::TILE_SIZE) as i64, y: (-y * crate::TILE_SIZE) as i64 }
}

/// The positions of one row's tiles of a kind, from column `x` on, in
/// column order.
pub open spec fn spec_row_tiles(kind: TileKind, row: Seq<char>, y: int, x: int) -> Seq<Pos>
    decreases row.len() - x,
{
    if x < 0 || x >= row.len() {
        Seq::empty()
    } else {
        (if spec_tile_is(kind, row[x]) {
            seq![spec_tile_pos(x, y)]
        } else {
            Seq::empty()
        }) + spec_row_tiles(kind, row, y, x + 1)
    }
}

/// The positions of all tiles of a kind from row `y` on, in row-major
/// order.
pub open spec fn spec_map_tiles(kind: TileKind, rows: Seq<Seq<char>>, y: int) -> Seq<Pos>
    decreases rows.len() - y,
{
    if y < 0 || y >= rows.len() {
        Seq::empty()
    } else {
        spec_row_tiles(kind, rows[y], y, 0) + spec_map_tiles(kind, rows, y + 1)
    }
}

/// Classifies a tile map given as rows of characters into the static round
/// configuration: colliders, pickup spawn areas and player spawn points,
/// each listed in row-major order.  The map must be small enough that every
/// tile position stays inside the world range.
pub fn spawn_map(rows: &Vec<Vec<char>>) -> (m: MapConfig)
    requires
        rows@.len() <= 100_000,
        forall|y: int| 0 <= y < rows@.len() ==> (#[trigger] rows@[y])@.len() <= 100_000,
    ensures
        m.walls@ == spec_map_tiles(TileKind::Wall, rows@.map_values(|r: Vec<char>| r@), 0),
        m.spawn_areas@ == spec_map_tiles(
            TileKind::PickupArea,
            rows@.map_values(|r: Vec<char>| r@),
            0,
        ),
        m.player_spawns@ == spec_map_tiles(
            TileKind::PlayerSpawn,
            rows@.map_values(|r: Vec<char>| r@),
            0,
        ),
        m.wf(),
{
    let ghost grid = rows@.map_values(|r: Vec<char>| r@);
    let mut walls: Vec<Pos> = Vec::new();
    let mut spawn_areas: Vec<Pos> = Vec::new();
    let mut player_spawns: Vec<Pos> = Vec::new();
    let mut y: usize = 0;
    while y < rows.len()
        invariant
            y <= rows@.len(),
            grid == rows@.map_values(|r: Vec<char>| r@),
            spec_map_tiles(TileKind::Wall, grid, 0) == walls@ + spec_map_tiles(
                TileKind::Wall,
                grid,
                y as int,
            ),
            spec_map_tiles(TileKind::PickupArea, grid, 0) == spawn_areas@ + spec_map_tiles(
                TileKind::PickupArea,
                grid,
                y as int,
            ),
            spec_map_tiles(TileKind::PlayerSpawn, grid, 0) == player_spawns@ + spec_map_tiles(
                TileKind::PlayerSpawn,
                grid,
                y as int,
            ),
            forall|k: int| 0 <= k < walls@.len() ==> (#[trigger] walls@[k]).in_bounds(),
            forall|k: int|
                0 <= k < spawn_areas@.len() ==> (#[trigger] spawn_areas@[k]).in_bounds(),
            forall|k: int|
                0 <= k < player_spawns@.len() ==> (#[trigger] player_spawns@[k]).in_bounds(),
        decreases rows@.len() - y,
    {
        let row = &rows[y];
        let mut x: usize = 0;
        while x < row.len()
            invariant
                x <= row@.len(),
                row@ == grid[y as int],
                y < rows@.len(),
                grid == rows@.map_values(|r: Vec<char>| r@),
                spec_map_tiles(TileKind::Wall, grid, 0) == walls@ + spec_row_tiles(
                    TileKind::Wall,
                    grid[y as int],
                    y as int,
                    x as int,
                ) + spec_map_tiles(TileKind::Wall, grid, y as int + 1),
                spec_map_tiles(TileKind::PickupArea, grid, 0) == spawn_areas@ + spec_row_tiles(
                    TileKind::PickupArea,
                    grid[y as int],
                    y as int,
                    x as int,
                ) + spec_map_tiles(TileKind::PickupArea, grid, y as int + 1),
                spec_map_tiles(TileKind::PlayerSpawn, grid, 0) == player_spawns@ + spec_row_tiles(
                    TileKind::PlayerSpawn,
                    grid[y as int],
                    y as int,
                    x as int,
                ) + spec_map_tiles(TileKind::PlayerSpawn, grid, y as int + 1),
                forall|k: int| 0 <= k < walls@.len() ==> (#[trigger] walls@[k]).in_bounds(),
                forall|k: int|
                    0 <= k < spawn_areas@.len() ==> (#[trigger] spawn_areas@[k]).in_bounds(),
                forall|k: int|
                    0 <= k < player_spawns@.len() ==> (#[trigger] player_spawns@[k]).in_bounds(),
            decreases row@.len() - x,
        {
            let c = row[x];
            let pos = Pos {
                x: (x as i64) * crate::TILE_SIZE,
                y: -((y as i64) * crate::TILE_SIZE),
            };
            proof {
                assert(rows@[y as int]@.len() <= 100_000);
                assert(0 <= (x as i64) * crate::TILE_SIZE <= 100_000 * 1920) by (nonlinear_arith)
                    requires
                        0 <= x <= 100_000,
                ;
                assert(0 <= (y as i64) * crate::TILE_SIZE <= 100_000 * 1920) by (nonlinear_arith)
                    requires
                        0 <= y <= 100_000,
                ;
                assert(pos == spec_tile_pos(x as int, y as int));
            }
            let ghost pre_w = walls@;
            let ghost pre_a = spawn_areas@;
            let ghost pre_p = player_spawns@;
            if c == '|' || c == '=' || c == '_' || c == '%' || c == '^' || c == '$' {
                walls.push(pos);
            }
            if c == '~' {
                spawn_areas.push(pos);
            }
            if c == '!' {
                player_spawns.push(pos);
            }
            proof {
                assert(spec_row_tiles(TileKind::Wall, grid[y as int], y as int, x as int)
                    =~= (if spec_tile_is(TileKind::Wall, grid[y as int][x as int]) {
                    seq![spec_tile_pos(x as int, y as int)]
                } else {
                    Seq::empty()
                }) + spec_row_tiles(TileKind::Wall, grid[y as int], y as int, x as int + 1));
                assert(pre_w + spec_row_tiles(TileKind::Wall, grid[y as int], y as int, x as int)
                    =~= walls@ + spec_row_tiles(
                    TileKind::Wall,
                    grid[y as int],
                    y as int,
                    x as int + 1,
                ));
                assert(pre_a + spec_row_tiles(
                    TileKind::PickupArea,
                    grid[y as int],
                    y as int,
                    x as int,
                ) =~= spawn_areas@ + spec_row_tiles(
                    TileKind::PickupArea,
                    grid[y as int],
                    y as int,
                    x as int + 1,
                ));
                assert(pre_p + spec_row_tiles(
                    TileKind::PlayerSpawn,
                    grid[y as int],
                    y as int,
                    x as int,
                ) =~= player_spawns@ + spec_row_tiles(
                    TileKind::PlayerSpawn,
                    grid[y as int],
                    y as int,
                    x as int + 1,
                ));
            }
            x = x + 1;
        }
        proof {
            assert(spec_row_tiles(TileKind::Wall, grid[y as int], y as int, x as int)
                =~= Seq::<Pos>::empty());
            assert(spec_row_tiles(TileKind::PickupArea, grid[y as int], y as int, x as int)
                =~= Seq::<Pos>::empty());
            assert(spec_row_tiles(TileKind::PlayerSpawn, grid[y as int], y as int, x as int)
                =~= Seq::<Pos>::empty());
            assert(walls@ + Seq::<Pos>::empty() =~= walls@);
            assert(spawn_areas@ + Seq::<Pos>::empty() =~= spawn_areas@);
            assert(player_spawns@ + Seq::<Pos>::empty() =~= player_spawns@);
        }
        y = y + 1;
    }
    proof {
        assert(spec_map_tiles(TileKind::Wall, grid, y as int) =~= Seq::<Pos>::empty());
        assert(spec_map_tiles(TileKind::PickupArea, grid, y as int) =~= Seq::<Pos>::empty());
        assert(spec_map_tiles(TileKind::PlayerSpawn, grid, y as int) =~= Seq::<Pos>::empty());
        assert(walls@ + Seq::<Pos>::empty() =~= walls@);
        assert(spawn_areas@ + Seq::<Pos>::empty() =~= spawn_areas@);
        assert(player_spawns@ + Seq::<Pos>::empty() =~= player_spawns@);
    }
    MapConfig { walls, spawn_areas, player_spawns }
}

/// The static configuration of one round's arena: colliders, the designated
/// pickup spawn areas, and the player spawn points, all fixed for the round.
#[derive(Clone, Debug)]
pub struct MapConfig {
    pub walls: Vec<Pos>,
    pub spawn_areas: Vec<Pos>,
    pub player_spawns: Vec<Pos>,
}

impl MapConfig {
    pub open spec fn wf(self) -> bool {
        &&& forall|k: int| 0 <= k < self.walls@.len() ==> (#[trigger] self.walls@[k]).in_bounds()
        &&& forall|k: int|
            0 <= k < self.spawn_areas@.len() ==> (#[trigger] self.spawn_areas@[k]).in_bounds()
        &&& forall|k: int|
            0 <= k < self.player_spawns@.len() ==> (#[trigger] self.player_spawns@[k]).in_bounds()
    }
}

} // verus!
