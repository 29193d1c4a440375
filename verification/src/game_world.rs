//! The academy: its rooms, corridors and walls on a grid of tiles, what lies
//! in it to be found, and how walking about moves a quest along.

use crate::inventory::ToolId;
use crate::puzzle::PuzzleState;
use crate::scoring::XpGainEvent;
use crate::syllabus::tools_of;
use crate::syllabus::PhaseModel;
use crate::syllabus::QuestAdvancedEvent;
use crate::syllabus::QuestPhase;
use crate::syllabus::ResourceModel;
use crate::syllabus::SyllabusResource;
use crate::syllabus::texts_of;
use crate::text::append;
use crate::text::append_decimal;
use crate::text::append_str;
use crate::text::contains;
use crate::text::decimal;
use crate::text::from_chars;
use crate::text::includes;
use crate::text::same_str;
use crate::text::to_chars;
use vstd::prelude::*;
use vstd::string::StringExecFns;

verus! {

// ---------------------------------------------------------------------------
// The map
// ---------------------------------------------------------------------------

/// A place on the grid.
#[derive(Debug, Clone, Copy, PartialEq, Eq, Structural)]
pub struct Tile {
    pub x: i32,
    pub y: i32,
}

/// A room: a name, the tile of its lower left corner, and its width and
/// height in tiles.
pub struct RoomDef {
    pub name: &'static str,
    pub ox: i32,
    pub oy: i32,
    pub w: i32,
    pub h: i32,
}

/// One tile of a corridor.
#[derive(Debug, Clone, Copy, PartialEq, Eq, Structural)]
pub struct DoorDef {
    pub x: i32,
    pub y: i32,
    /// Whether the corridor runs up and down.
    pub horizontal: bool,
}

/// How far from the middle of the grid a map may reach, in tiles.
pub const MAP_LIMIT: i32 = 1_000_000;

impl RoomDef {
    /// The room lies within the grid and has no negative size.
    pub open spec fn wf(&self) -> bool {
        &&& -MAP_LIMIT <= self.ox <= MAP_LIMIT
        &&& -MAP_LIMIT <= self.oy <= MAP_LIMIT
        &&& 0 <= self.w <= MAP_LIMIT
        &&& 0 <= self.h <= MAP_LIMIT
    }

    /// The tile is part of the room's floor.
    pub open spec fn holds(&self, t: Tile) -> bool {
        self.ox <= t.x < self.ox + self.w && self.oy <= t.y < self.oy + self.h
    }

    /// The tile is part of the rim, one tile wide, around the room's floor.
    pub open spec fn rims(&self, t: Tile) -> bool {
        &&& self.ox - 1 <= t.x <= self.ox + self.w
        &&& self.oy - 1 <= t.y <= self.oy + self.h
        &&& (t.x == self.ox - 1 || t.x == self.ox + self.w || t.y == self.oy - 1 || t.y == self.oy
            + self.h)
    }
}

/// Every room of a list lies within the grid.
pub open spec fn rooms_wf(rooms: Seq<RoomDef>) -> bool {
    forall|i: int| 0 <= i < rooms.len() ==> (#[trigger] rooms[i]).wf()
}

/// The tile at `(x, y)`.
pub open spec fn tile(x: int, y: int) -> Tile {
    Tile { x: x as i32, y: y as i32 }
}

/// The tiles `(x, y0), (x, y0 + 1), ...`, `n` of them.
pub open spec fn column(x: int, y0: int, n: int) -> Seq<Tile> {
    Seq::new(
        if n >= 0 {
            n as nat
        } else {
            0
        },
        |j: int| tile(x, y0 + j),
    )
}

/// The tiles of the block that starts at `(x0, y0)` and is `nx` tiles wide
/// and `ny` high: column by column from the left, each from the bottom.
pub open spec fn block(x0: int, nx: int, y0: int, ny: int) -> Seq<Tile>
    decreases nx,
{
    if nx <= 0 {
        seq![]
    } else {
        block(x0, nx - 1, y0, ny) + column(x0 + nx - 1, y0, ny)
    }
}

/// A tile lies in a block exactly if it lies within its bounds.
pub proof fn lemma_block_holds(x0: int, nx: int, y0: int, ny: int, t: Tile)
    requires
        -2 * MAP_LIMIT <= x0,
        x0 + nx <= 2 * MAP_LIMIT,
        -2 * MAP_LIMIT <= y0,
        y0 + ny <= 2 * MAP_LIMIT,
    ensures
        block(x0, nx, y0, ny).contains(t) <==> (x0 <= t.x < x0 + nx && y0 <= t.y < y0 + ny),
    decreases nx,
{
    if nx > 0 {
        lemma_block_holds(x0, nx - 1, y0, ny, t);
        let head = block(x0, nx - 1, y0, ny);
        let tail = column(x0 + nx - 1, y0, ny);
        let all = block(x0, nx, y0, ny);
        if head.contains(t) {
            let k = choose|k: int| 0 <= k < head.len() && head[k] == t;
            assert(all[k] == t);
        }
        if t.x == x0 + nx - 1 && y0 <= t.y < y0 + ny {
            assert(tail[t.y - y0] == t);
            assert(all[head.len() + (t.y - y0)] == t);
        }
        if all.contains(t) {
            let k = choose|k: int| 0 <= k < all.len() && all[k] == t;
            if k < head.len() {
                assert(head[k] == t);
            } else {
                assert(tail[k - head.len()] == t);
            }
        }
    }
}

/// The tile is a tile of one of the corridors.
pub open spec fn is_door(doors: Seq<DoorDef>, t: Tile) -> bool {
    exists|i: int| 0 <= i < doors.len() && (#[trigger] doors[i]).x == t.x && doors[i].y == t.y
}

/// The tile is part of the floor of one of the rooms.
pub open spec fn in_some_room(rooms: Seq<RoomDef>, t: Tile) -> bool {
    exists|i: int| 0 <= i < rooms.len() && (#[trigger] rooms[i]).holds(t)
}

/// The tile carries a wall: it is neither corridor nor floor.
pub open spec fn is_solid(rooms: Seq<RoomDef>, doors: Seq<DoorDef>, t: Tile) -> bool {
    !is_door(doors, t) && !in_some_room(rooms, t)
}

/// The floor of a room.
pub open spec fn room_floor(r: RoomDef) -> Seq<Tile> {
    block(r.ox as int, r.w as int, r.oy as int, r.h as int)
}

/// The floors of a list of rooms, room by room.
pub open spec fn room_floors(rooms: Seq<RoomDef>) -> Seq<Tile>
    decreases rooms.len(),
{
    if rooms.len() == 0 {
        seq![]
    } else {
        room_floors(rooms.drop_last()) + room_floor(rooms.last())
    }
}

/// The tiles of the corridors, in their order.
pub open spec fn door_tiles(doors: Seq<DoorDef>) -> Seq<Tile> {
    Seq::new(doors.len(), |i: int| Tile { x: doors[i].x, y: doors[i].y })
}

/// The walls around one room: the tiles of its rim that carry a wall, column
/// by column.
pub open spec fn room_walls(rooms: Seq<RoomDef>, doors: Seq<DoorDef>, r: RoomDef) -> Seq<Tile> {
    block(r.ox - 1, r.w + 2, r.oy - 1, r.h + 2).filter(
        |t: Tile| r.rims(t) && is_solid(rooms, doors, t),
    )
}

/// The walls around the first `n` rooms of a map, room by room.
pub open spec fn walls_of_rooms(rooms: Seq<RoomDef>, doors: Seq<DoorDef>, n: int) -> Seq<Tile>
    decreases n,
{
    if n <= 0 {
        seq![]
    } else {
        walls_of_rooms(rooms, doors, n - 1) + room_walls(rooms, doors, rooms[n - 1])
    }
}

/// The tiles along the sides of the three corridors: above and below the
/// western and the eastern one, left and right of the southern one.
pub open spec fn corridor_sides() -> Seq<Tile> {
    seq![
        tile(-10, -2),
        tile(-10, 1),
        tile(-9, -2),
        tile(-9, 1),
        tile(-8, -2),
        tile(-8, 1),
        tile(-7, -2),
        tile(-7, 1),
        tile(6, -2),
        tile(6, 1),
        tile(7, -2),
        tile(7, 1),
        tile(8, -2),
        tile(8, 1),
        tile(9, -2),
        tile(9, 1),
        tile(-2, -9),
        tile(2, -9),
        tile(-2, -8),
        tile(2, -8),
        tile(-2, -7),
        tile(2, -7),
        tile(-2, -6),
        tile(2, -6),
    ]
}

/// The walls along the corridors: the tiles at their sides that are not
/// corridor themselves.
pub open spec fn corridor_walls(doors: Seq<DoorDef>) -> Seq<Tile> {
    corridor_sides().filter(|t: Tile| !is_door(doors, t))
}

/// Every tile with floor on it: the floors of the rooms, then the
/// corridors.
pub open spec fn floor(rooms: Seq<RoomDef>, doors: Seq<DoorDef>) -> Seq<Tile> {
    room_floors(rooms) + door_tiles(doors)
}

/// Every tile with a wall on it: the walls around the rooms, then those
/// along the corridors.
pub open spec fn walls(rooms: Seq<RoomDef>, doors: Seq<DoorDef>) -> Seq<Tile> {
    walls_of_rooms(rooms, doors, rooms.len() as int) + corridor_walls(doors)
}

/// No wall around a room stands on floor or in a corridor, and every wall
/// around a room stands on its rim.
pub proof fn lemma_room_walls_are_solid(rooms: Seq<RoomDef>, doors: Seq<DoorDef>, r: RoomDef, t: Tile)
    requires
        room_walls(rooms, doors, r).contains(t),
    ensures
        r.rims(t),
        !is_door(doors, t),
        !in_some_room(rooms, t),
{
    let frame = block(r.ox - 1, r.w + 2, r.oy - 1, r.h + 2);
    let keep = |t: Tile| r.rims(t) && is_solid(rooms, doors, t);
    let k = choose|k: int| 0 <= k < frame.filter(keep).len() && frame.filter(keep)[k] == t;
    frame.lemma_filter_pred(keep, k);
}

/// A tile of a room's floor lies in that room.
pub proof fn lemma_room_floor_lies_in_room(r: RoomDef, t: Tile)
    requires
        r.wf(),
    ensures
        room_floor(r).contains(t) <==> r.holds(t),
{
    lemma_block_holds(r.ox as int, r.w as int, r.oy as int, r.h as int, t);
}

/// No wall around a room stands on a tile with floor on it.
pub proof fn lemma_walls_avoid_floor(rooms: Seq<RoomDef>, doors: Seq<DoorDef>, n: int, t: Tile)
    requires
        rooms_wf(rooms),
        0 <= n <= rooms.len(),
        walls_of_rooms(rooms, doors, n).contains(t),
    ensures
        !floor(rooms, doors).contains(t),
    decreases n,
{
    if n > 0 {
        let head = walls_of_rooms(rooms, doors, n - 1);
        let tail = room_walls(rooms, doors, rooms[n - 1]);
        let all = walls_of_rooms(rooms, doors, n);
        let k = choose|k: int| 0 <= k < all.len() && all[k] == t;
        if k < head.len() {
            assert(head[k] == t);
            lemma_walls_avoid_floor(rooms, doors, n - 1, t);
        } else {
            assert(tail[k - head.len()] == t);
            lemma_room_walls_are_solid(rooms, doors, rooms[n - 1], t);
            lemma_solid_is_no_floor(rooms, doors, rooms.len() as int, t);
        }
    }
}

/// A tile that is neither corridor nor floor of a room is no tile of the
/// floor.
proof fn lemma_solid_is_no_floor(rooms: Seq<RoomDef>, doors: Seq<DoorDef>, n: int, t: Tile)
    requires
        rooms_wf(rooms),
        0 <= n <= rooms.len(),
        is_solid(rooms, doors, t),
    ensures
        !room_floors(rooms.take(n)).contains(t),
        n == rooms.len() ==> !floor(rooms, doors).contains(t),
    decreases n,
{
    if n > 0 {
        lemma_solid_is_no_floor(rooms, doors, n - 1, t);
        let upto = rooms.take(n);
        assert(upto.drop_last() =~= rooms.take(n - 1));
        assert(upto.last() == rooms[n - 1]);
        let head = room_floors(rooms.take(n - 1));
        let tail = room_floor(rooms[n - 1]);
        lemma_room_floor_lies_in_room(rooms[n - 1], t);
        assert(!rooms[n - 1].holds(t));
        if room_floors(upto).contains(t) {
            let k = choose|k: int| 0 <= k < room_floors(upto).len() && room_floors(upto)[k] == t;
            if k < head.len() {
                assert(head[k] == t);
            } else {
                assert(tail[k - head.len()] == t);
            }
        }
    }
    if n == rooms.len() {
        assert(rooms.take(n) =~= rooms);
        let f = floor(rooms, doors);
        if f.contains(t) {
            let k = choose|k: int| 0 <= k < f.len() && f[k] == t;
            let rf = room_floors(rooms);
            if k < rf.len() {
                assert(rf[k] == t);
            } else {
                let d = door_tiles(doors)[k - rf.len()];
                assert(d == t);
                assert(doors[k - rf.len()].x == t.x && doors[k - rf.len()].y == t.y);
            }
        }
    }
}

fn on_door(doors: &Vec<DoorDef>, x: i32, y: i32) -> (b: bool)
    ensures
        b == is_door(doors@, Tile { x, y }),
{
    let mut i: usize = 0;
    while i < doors.len()
        invariant
            i <= doors.len(),
            forall|k: int| 0 <= k < i ==> !((#[trigger] doors@[k]).x == x && doors@[k].y == y),
        decreases doors.len() - i,
    {
        if doors[i].x == x && doors[i].y == y {
            return true;
        }
        i += 1;
    }
    false
}

fn on_floor(rooms: &Vec<RoomDef>, x: i32, y: i32) -> (b: bool)
    requires
        rooms_wf(rooms@),
    ensures
        b == in_some_room(rooms@, Tile { x, y }),
{
    let mut i: usize = 0;
    while i < rooms.len()
        invariant
            i <= rooms.len(),
            rooms_wf(rooms@),
            forall|k: int| 0 <= k < i ==> !(#[trigger] rooms@[k]).holds(Tile { x, y }),
        decreases rooms.len() - i,
    {
        let r = &rooms[i];
        assert(r.wf());
        if x >= r.ox && x < r.ox + r.w && y >= r.oy && y < r.oy + r.h {
            return true;
        }
        i += 1;
    }
    false
}

fn push_room_floor(out: &mut Vec<Tile>, r: &RoomDef)
    requires
        r.wf(),
    ensures
        final(out)@ == old(out)@ + room_floor(*r),
{
    let mut x: i32 = r.ox;
    assert(old(out)@ + block(r.ox as int, 0, r.oy as int, r.h as int) =~= old(out)@);
    while x < r.ox + r.w
        invariant
            r.wf(),
            r.ox <= x <= r.ox + r.w,
            out@ == old(out)@ + block(r.ox as int, x - r.ox, r.oy as int, r.h as int),
        decreases r.ox + r.w - x,
    {
        let ghost base = out@;
        let mut y: i32 = r.oy;
        assert(base + column(x as int, r.oy as int, r.h as int).take(0) =~= base);
        while y < r.oy + r.h
            invariant
                r.wf(),
                -MAP_LIMIT <= x <= 2 * MAP_LIMIT,
                r.oy <= y <= r.oy + r.h,
                out@ == base + column(x as int, r.oy as int, r.h as int).take(y - r.oy),
            decreases r.oy + r.h - y,
        {
            out.push(Tile { x, y });
            assert(out@ =~= base + column(x as int, r.oy as int, r.h as int).take(y - r.oy + 1));
            y += 1;
        }
        assert(column(x as int, r.oy as int, r.h as int).take(r.h as int) =~= column(
            x as int,
            r.oy as int,
            r.h as int,
        ));
        assert(out@ =~= old(out)@ + block(r.ox as int, x - r.ox + 1, r.oy as int, r.h as int));
        x += 1;
    }
}

fn push_room_walls(out: &mut Vec<Tile>, rooms: &Vec<RoomDef>, doors: &Vec<DoorDef>, r: &RoomDef)
    requires
        r.wf(),
        rooms_wf(rooms@),
    ensures
        final(out)@ == old(out)@ + room_walls(rooms@, doors@, *r),
{
    let ghost keep = |t: Tile| r.rims(t) && is_solid(rooms@, doors@, t);
    let x0: i32 = r.ox - 1;
    let y0: i32 = r.oy - 1;
    let x1: i32 = r.ox + r.w;
    let y1: i32 = r.oy + r.h;
    let mut x: i32 = x0;
    proof {
        reveal(Seq::filter);
        assert(old(out)@ + block(x0 as int, 0, y0 as int, r.h + 2).filter(keep) =~= old(out)@);
    }
    while x <= x1
        invariant
            r.wf(),
            rooms_wf(rooms@),
            x0 == r.ox - 1,
            y0 == r.oy - 1,
            x1 == r.ox + r.w,
            y1 == r.oy + r.h,
            x0 <= x <= x1 + 1,
            keep == (|t: Tile| r.rims(t) && is_solid(rooms@, doors@, t)),
            out@ == old(out)@ + block(x0 as int, x - x0, y0 as int, r.h + 2).filter(keep),
        decreases x1 + 1 - x,
    {
        let ghost base = out@;
        let ghost col = column(x as int, y0 as int, r.h + 2);
        let mut y: i32 = y0;
        proof {
            reveal(Seq::filter);
            assert(base + col.take(0).filter(keep) =~= base);
        }
        while y <= y1
            invariant
                r.wf(),
                rooms_wf(rooms@),
                x0 == r.ox - 1,
                y0 == r.oy - 1,
                x1 == r.ox + r.w,
                y1 == r.oy + r.h,
                x0 <= x <= x1,
                y0 <= y <= y1 + 1,
                col == column(x as int, y0 as int, r.h + 2),
                keep == (|t: Tile| r.rims(t) && is_solid(rooms@, doors@, t)),
                out@ == base + col.take(y - y0).filter(keep),
            decreases y1 + 1 - y,
        {
            let ghost t = Tile { x, y };
            proof {
                assert(col.take(y - y0 + 1) =~= col.take(y - y0).push(t));
                col.take(y - y0).lemma_filter_push(t, keep);
            }
            let on_perimeter = x == x0 || x == x1 || y == y0 || y == y1;
            if on_perimeter && !on_door(doors, x, y) && !on_floor(rooms, x, y) {
                out.push(Tile { x, y });
                assert(out@ =~= base + col.take(y - y0 + 1).filter(keep));
            }
            y += 1;
        }
        proof {
            assert(col.take(r.h + 2) =~= col);
            let done = block(x0 as int, x - x0, y0 as int, r.h + 2);
            Seq::filter_distributes_over_add(done, col, keep);
            assert(out@ =~= old(out)@ + block(x0 as int, x - x0 + 1, y0 as int, r.h + 2).filter(
                keep,
            ));
        }
        x += 1;
    }
}

fn push_side(out: &mut Vec<Tile>, doors: &Vec<DoorDef>, x: i32, y: i32, Ghost(done): Ghost<
    Seq<Tile>,
>, Ghost(base): Ghost<Seq<Tile>>)
    requires
        old(out)@ == base + done.filter(|t: Tile| !is_door(doors@, t)),
    ensures
        final(out)@ == base + done.push(Tile { x, y }).filter(|t: Tile| !is_door(doors@, t)),
{
    proof {
        done.lemma_filter_push(Tile { x, y }, |t: Tile| !is_door(doors@, t));
    }
    if !on_door(doors, x, y) {
        out.push(Tile { x, y });
        assert(out@ =~= base + done.push(Tile { x, y }).filter(|t: Tile| !is_door(doors@, t)));
    }
}

/// Every tile with floor on it: the floors of the rooms, room by room, then
/// the corridors.
pub fn floor_tiles(rooms: &Vec<RoomDef>, doors: &Vec<DoorDef>) -> (out: Vec<Tile>)
    requires
        rooms_wf(rooms@),
    ensures
        out@ == floor(rooms@, doors@),
{
    let mut out: Vec<Tile> = Vec::new();
    let mut i: usize = 0;
    assert(rooms@.take(0) =~= Seq::<RoomDef>::empty());
    while i < rooms.len()
        invariant
            i <= rooms.len(),
            rooms_wf(rooms@),
            out@ == room_floors(rooms@.take(i as int)),
        decreases rooms.len() - i,
    {
        assert(rooms@[i as int].wf());
        assert(rooms@.take(i + 1).drop_last() =~= rooms@.take(i as int));
        assert(rooms@.take(i + 1).last() == rooms@[i as int]);
        push_room_floor(&mut out, &rooms[i]);
        i += 1;
    }
    assert(rooms@.take(rooms.len() as int) =~= rooms@);
    let ghost base = out@;
    let mut k: usize = 0;
    assert(base + door_tiles(doors@).take(0) =~= base);
    while k < doors.len()
        invariant
            k <= doors.len(),
            out@ == base + door_tiles(doors@).take(k as int),
        decreases doors.len() - k,
    {
        out.push(Tile { x: doors[k].x, y: doors[k].y });
        assert(out@ =~= base + door_tiles(doors@).take(k + 1));
        k += 1;
    }
    assert(door_tiles(doors@).take(doors.len() as int) =~= door_tiles(doors@));
    out
}

/// Every tile with a wall on it: around each room the tiles of its rim that
/// are neither corridor nor floor of any room, then the sides of the
/// corridors where they are not corridor themselves.
pub fn wall_tiles(rooms: &Vec<RoomDef>, doors: &Vec<DoorDef>) -> (out: Vec<Tile>)
    requires
        rooms_wf(rooms@),
    ensures
        out@ == walls(rooms@, doors@),
{
    let mut out: Vec<Tile> = Vec::new();
    let mut i: usize = 0;
    while i < rooms.len()
        invariant
            i <= rooms.len(),
            rooms_wf(rooms@),
            out@ == walls_of_rooms(rooms@, doors@, i as int),
        decreases rooms.len() - i,
    {
        assert(rooms@[i as int].wf());
        push_room_walls(&mut out, rooms, doors, &rooms[i]);
        i += 1;
    }
    let ghost base = out@;
    let ghost open = |t: Tile| !is_door(doors@, t);
    let ghost mut done: Seq<Tile> = Seq::empty();
    proof {
        reveal(Seq::filter);
        assert(base + done.filter(open) =~= base);
    }
    let mut x: i32 = -10;
    while x <= -7
        invariant
            -10 <= x <= -6,
            done == corridor_sides().take(2 * (x + 10)),
            out@ == base + done.filter(|t: Tile| !is_door(doors@, t)),
        decreases -6 - x,
    {
        push_side(&mut out, doors, x, -2, Ghost(done), Ghost(base));
        proof {
            done = done.push(tile(x as int, -2));
        }
        push_side(&mut out, doors, x, 1, Ghost(done), Ghost(base));
        proof {
            done = done.push(tile(x as int, 1));
            assert(done =~= corridor_sides().take(2 * (x + 11)));
        }
        x += 1;
    }
    let mut x: i32 = 6;
    while x <= 9
        invariant
            6 <= x <= 10,
            done == corridor_sides().take(8 + 2 * (x - 6)),
            out@ == base + done.filter(|t: Tile| !is_door(doors@, t)),
        decreases 10 - x,
    {
        push_side(&mut out, doors, x, -2, Ghost(done), Ghost(base));
        proof {
            done = done.push(tile(x as int, -2));
        }
        push_side(&mut out, doors, x, 1, Ghost(done), Ghost(base));
        proof {
            done = done.push(tile(x as int, 1));
            assert(done =~= corridor_sides().take(8 + 2 * (x - 5)));
        }
        x += 1;
    }
    let mut y: i32 = -9;
    while y <= -6
        invariant
            -9 <= y <= -5,
            done == corridor_sides().take(16 + 2 * (y + 9)),
            out@ == base + done.filter(|t: Tile| !is_door(doors@, t)),
        decreases -5 - y,
    {
        push_side(&mut out, doors, -2, y, Ghost(done), Ghost(base));
        proof {
            done = done.push(tile(-2, y as int));
        }
        push_side(&mut out, doors, 2, y, Ghost(done), Ghost(base));
        proof {
            done = done.push(tile(2, y as int));
            assert(done =~= corridor_sides().take(16 + 2 * (y + 10)));
        }
        y += 1;
    }
    assert(corridor_sides().take(24) =~= corridor_sides());
    out
}

// ---------------------------------------------------------------------------
// The academy
// ---------------------------------------------------------------------------

/// The room `r` has the name `name`, its corner at `(ox, oy)` and the size
/// `w` by `h`.
pub open spec fn describes(r: RoomDef, name: Seq<char>, ox: int, oy: int, w: int, h: int) -> bool {
    r.name@ == name && r.ox == ox && r.oy == oy && r.w == w && r.h == h
}

/// The four rooms of the academy: the hall in the middle, the lab to the
/// west, the vault to the south and the core to the east.
pub fn rooms() -> (out: Vec<RoomDef>)
    ensures
        rooms_wf(out@),
        out@.len() == 4,
        describes(out@[0], "Academy Hall"@, -6, -5, 12, 10),
        describes(out@[1], "Terminal Lab"@, -18, -4, 8, 8),
        describes(out@[2], "Archive Vault"@, -4, -17, 8, 8),
        describes(out@[3], "Server Core"@, 10, -4, 8, 8),
{
    let mut out: Vec<RoomDef> = Vec::new();
    out.push(RoomDef { name: "Academy Hall", ox: -6, oy: -5, w: 12, h: 10 });
    out.push(RoomDef { name: "Terminal Lab", ox: -18, oy: -4, w: 8, h: 8 });
    out.push(RoomDef { name: "Archive Vault", ox: -4, oy: -17, w: 8, h: 8 });
    out.push(RoomDef { name: "Server Core", ox: 10, oy: -4, w: 8, h: 8 });
    out
}

/// The tiles of the three corridors of the academy: west, south, east.
pub open spec fn academy_corridors() -> Seq<Tile> {
    seq![
        tile(-7, -1),
        tile(-8, -1),
        tile(-9, -1),
        tile(-10, -1),
        tile(-7, 0),
        tile(-8, 0),
        tile(-9, 0),
        tile(-10, 0),
        tile(-1, -6),
        tile(0, -6),
        tile(1, -6),
        tile(-1, -7),
        tile(0, -7),
        tile(1, -7),
        tile(-1, -8),
        tile(0, -8),
        tile(1, -8),
        tile(-1, -9),
        tile(0, -9),
        tile(1, -9),
        tile(6, -1),
        tile(7, -1),
        tile(8, -1),
        tile(9, -1),
        tile(6, 0),
        tile(7, 0),
        tile(8, 0),
        tile(9, 0),
    ]
}

/// The corridors of the academy, tile by tile: the western one, the
/// southern one, which runs up and down, and the eastern one.
pub fn doors() -> (out: Vec<DoorDef>)
    ensures
        door_tiles(out@) == academy_corridors(),
        forall|i: int| 0 <= i < out@.len() ==> (#[trigger] out@[i]).horizontal == (8 <= i < 20),
{
    let mut out: Vec<DoorDef> = Vec::new();
    out.push(DoorDef { x: -7, y: -1, horizontal: false });
    out.push(DoorDef { x: -8, y: -1, horizontal: false });
    out.push(DoorDef { x: -9, y: -1, horizontal: false });
    out.push(DoorDef { x: -10, y: -1, horizontal: false });
    out.push(DoorDef { x: -7, y: 0, horizontal: false });
    out.push(DoorDef { x: -8, y: 0, horizontal: false });
    out.push(DoorDef { x: -9, y: 0, horizontal: false });
    out.push(DoorDef { x: -10, y: 0, horizontal: false });
    out.push(DoorDef { x: -1, y: -6, horizontal: true });
    out.push(DoorDef { x: 0, y: -6, horizontal: true });
    out.push(DoorDef { x: 1, y: -6, horizontal: true });
    out.push(DoorDef { x: -1, y: -7, horizontal: true });
    out.push(DoorDef { x: 0, y: -7, horizontal: true });
    out.push(DoorDef { x: 1, y: -7, horizontal: true });
    out.push(DoorDef { x: -1, y: -8, horizontal: true });
    out.push(DoorDef { x: 0, y: -8, horizontal: true });
    out.push(DoorDef { x: 1, y: -8, horizontal: true });
    out.push(DoorDef { x: -1, y: -9, horizontal: true });
    out.push(DoorDef { x: 0, y: -9, horizontal: true });
    out.push(DoorDef { x: 1, y: -9, horizontal: true });
    out.push(DoorDef { x: 6, y: -1, horizontal: false });
    out.push(DoorDef { x: 7, y: -1, horizontal: false });
    out.push(DoorDef { x: 8, y: -1, horizontal: false });
    out.push(DoorDef { x: 9, y: -1, horizontal: false });
    out.push(DoorDef { x: 6, y: 0, horizontal: false });
    out.push(DoorDef { x: 7, y: 0, horizontal: false });
    out.push(DoorDef { x: 8, y: 0, horizontal: false });
    out.push(DoorDef { x: 9, y: 0, horizontal: false });
    assert(door_tiles(out@) =~= academy_corridors());
    out
}

// ---------------------------------------------------------------------------
// What lies about to be found
// ---------------------------------------------------------------------------

/// The experience that a knowledge fragment is worth.
pub const FRAGMENT_XP: u32 = 25;

/// The experience for setting foot in a room for the first time.
pub const DISCOVERY_XP: u32 = 50;

/// The experience for every phase of a quest that is finished.
pub const QUEST_PROGRESS_XP: u32 = 75;

/// A piece of knowledge to be collected.
pub struct KnowledgeFragment {
    pub title: String,
    pub content: String,
    pub xp_value: u32,
}

/// A knowledge fragment and the tile on which it lies.
pub struct FragmentSite {
    pub at: Tile,
    pub fragment: KnowledgeFragment,
}

/// A knowledge fragment where it lies, as mathematics.
pub struct FragmentModel {
    pub at: Tile,
    pub title: Seq<char>,
    pub content: Seq<char>,
    pub xp_value: u32,
}

impl View for FragmentSite {
    type V = FragmentModel;

    open spec fn view(&self) -> FragmentModel {
        FragmentModel {
            at: self.at,
            title: self.fragment.title@,
            content: self.fragment.content@,
            xp_value: self.fragment.xp_value,
        }
    }
}

/// The eight knowledge fragments of the academy.
pub open spec fn academy_fragments() -> Seq<FragmentModel> {
    seq![
        FragmentModel {
            at: tile(-8, -1),
            title: "Data Sovereignty"@,
            content: "FERPA requires student data to stay on school premises. Local AI means zero data leaves your network."@,
            xp_value: FRAGMENT_XP,
        },
        FragmentModel {
            at: tile(-9, 0),
            title: "Open Weights"@,
            content: "Open-weight models like Llama can run entirely offline \u{201a}\u{c4}\u{ee} no API keys, no cloud bills, no privacy concerns."@,
            xp_value: FRAGMENT_XP,
        },
        FragmentModel {
            at: tile(-1, -7),
            title: "Gagn\u{221a}\u{a9}'s First Event"@,
            content: "Gagn\u{221a}\u{a9}'s 9 Events start with 'Gain Attention' \u{201a}\u{c4}\u{ee} hook the learner before teaching begins."@,
            xp_value: FRAGMENT_XP,
        },
        FragmentModel {
            at: tile(0, -8),
            title: "Constructivism"@,
            content: "Constructivist learning: knowledge is built, not received. Every puzzle you solve builds understanding."@,
            xp_value: FRAGMENT_XP,
        },
        FragmentModel {
            at: tile(7, -1),
            title: "Edge Computing"@,
            content: "Running AI on the 'edge' (local device) means instant responses \u{201a}\u{c4}\u{ee} no network latency, no downtime."@,
            xp_value: FRAGMENT_XP,
        },
        FragmentModel {
            at: tile(8, 0),
            title: "Model Quantization"@,
            content: "Quantization shrinks AI models by 75% with minimal quality loss \u{201a}\u{c4}\u{ee} making local deployment practical."@,
            xp_value: FRAGMENT_XP,
        },
        FragmentModel {
            at: tile(3, 3),
            title: "Socratic Method"@,
            content: "The Socratic method asks questions instead of giving answers. Great teachers guide discovery, not memorization."@,
            xp_value: FRAGMENT_XP,
        },
        FragmentModel {
            at: tile(-3, 3),
            title: "Flow State"@,
            content: "Mihaly Csikszentmihalyi's Flow: the sweet spot between challenge and skill where learning feels effortless."@,
            xp_value: FRAGMENT_XP,
        },
    ]
}

/// The eight knowledge fragments of the academy, each where it lies.
pub fn fragments() -> (out: Vec<FragmentSite>)
    ensures
        out@.map_values(|f: FragmentSite| f@) == academy_fragments(),
{
    let mut out: Vec<FragmentSite> = Vec::new();
    out.push(
        FragmentSite {
            at: Tile { x: -8, y: -1 },
            fragment: KnowledgeFragment {
                title: String::from_str("Data Sovereignty"),
                content: String::from_str(
                    "FERPA requires student data to stay on school premises. Local AI means zero data leaves your network.",
                ),
                xp_value: FRAGMENT_XP,
            },
        },
    );
    out.push(
        FragmentSite {
            at: Tile { x: -9, y: 0 },
            fragment: KnowledgeFragment {
                title: String::from_str("Open Weights"),
                content: String::from_str(
                    "Open-weight models like Llama can run entirely offline \u{201a}\u{c4}\u{ee} no API keys, no cloud bills, no privacy concerns.",
                ),
                xp_value: FRAGMENT_XP,
            },
        },
    );
    out.push(
        FragmentSite {
            at: Tile { x: -1, y: -7 },
            fragment: KnowledgeFragment {
                title: String::from_str("Gagn\u{221a}\u{a9}'s First Event"),
                content: String::from_str(
                    "Gagn\u{221a}\u{a9}'s 9 Events start with 'Gain Attention' \u{201a}\u{c4}\u{ee} hook the learner before teaching begins.",
                ),
                xp_value: FRAGMENT_XP,
            },
        },
    );
    out.push(
        FragmentSite {
            at: Tile { x: 0, y: -8 },
            fragment: KnowledgeFragment {
                title: String::from_str("Constructivism"),
                content: String::from_str(
                    "Constructivist learning: knowledge is built, not received. Every puzzle you solve builds understanding.",
                ),
                xp_value: FRAGMENT_XP,
            },
        },
    );
    out.push(
        FragmentSite {
            at: Tile { x: 7, y: -1 },
            fragment: KnowledgeFragment {
                title: String::from_str("Edge Computing"),
                content: String::from_str(
                    "Running AI on the 'edge' (local device) means instant responses \u{201a}\u{c4}\u{ee} no network latency, no downtime.",
                ),
                xp_value: FRAGMENT_XP,
            },
        },
    );
    out.push(
        FragmentSite {
            at: Tile { x: 8, y: 0 },
            fragment: KnowledgeFragment {
                title: String::from_str("Model Quantization"),
                content: String::from_str(
                    "Quantization shrinks AI models by 75% with minimal quality loss \u{201a}\u{c4}\u{ee} making local deployment practical.",
                ),
                xp_value: FRAGMENT_XP,
            },
        },
    );
    out.push(
        FragmentSite {
            at: Tile { x: 3, y: 3 },
            fragment: KnowledgeFragment {
                title: String::from_str("Socratic Method"),
                content: String::from_str(
                    "The Socratic method asks questions instead of giving answers. Great teachers guide discovery, not memorization.",
                ),
                xp_value: FRAGMENT_XP,
            },
        },
    );
    out.push(
        FragmentSite {
            at: Tile { x: -3, y: 3 },
            fragment: KnowledgeFragment {
                title: String::from_str("Flow State"),
                content: String::from_str(
                    "Mihaly Csikszentmihalyi's Flow: the sweet spot between challenge and skill where learning feels effortless.",
                ),
                xp_value: FRAGMENT_XP,
            },
        },
    );
    assert(out@.map_values(|f: FragmentSite| f@) =~= academy_fragments());
    out
}

/// The experience for collecting a knowledge fragment.
pub fn fragment_reward(fragment: &KnowledgeFragment) -> (event: XpGainEvent)
    ensures
        event.amount == fragment.xp_value,
        event.reason@ == "Knowledge: "@ + fragment.title@,
{
    XpGainEvent {
        amount: fragment.xp_value,
        reason: String::from_str("Knowledge: ").concat(fragment.title.as_str()),
    }
}

/// What floats up where a knowledge fragment is collected.
pub fn fragment_banner(fragment: &KnowledgeFragment) -> (text: String)
    ensures
        text@ == "\u{f8ff}\u{fc}\u{ec}\u{fa} "@ + fragment.title@ + " +"@ + decimal(
            fragment.xp_value as nat,
        ) + "XP"@,
{
    let mut out: Vec<char> = Vec::new();
    append_str(&mut out, "\u{f8ff}\u{fc}\u{ec}\u{fa} ");
    append_str(&mut out, fragment.title.as_str());
    append_str(&mut out, " +");
    append_decimal(&mut out, fragment.xp_value as u64);
    append_str(&mut out, "XP");
    from_chars(out.as_slice())
}

/// The experience for a quest that has moved on.
pub fn quest_progress_reward() -> (event: XpGainEvent)
    ensures
        event.amount == QUEST_PROGRESS_XP,
        event.reason@ == "Quest Progress"@,
{
    XpGainEvent { amount: QUEST_PROGRESS_XP, reason: String::from_str("Quest Progress") }
}

/// What floats up where a quest has moved on.
pub const QUEST_PROGRESS_BANNER: &'static str = "\u{201a}\u{f6}\u{b0} Quest Advanced! +75XP";

/// The rooms in which the player has set foot, in the order of discovery.
pub struct RoomDiscovery(pub Vec<String>);

impl RoomDiscovery {
    /// The names of the rooms discovered.
    pub open spec fn names(&self) -> Seq<Seq<char>> {
        texts_of(self.0@)
    }

    /// Notes that the player stands in the room `room`. A room not seen
    /// before is added to the rooms discovered and earns experience; a room
    /// seen before changes nothing.
    pub fn check_room_discovery(&mut self, room: &str) -> (event: Option<XpGainEvent>)
        ensures
            match event {
                Some(e) => {
                    &&& !old(self).names().contains(room@)
                    &&& final(self).names() == old(self).names().push(room@)
                    &&& e.amount == DISCOVERY_XP
                    &&& e.reason@ == "Discovered "@ + room@
                },
                None => old(self).names().contains(room@) && *final(self) == *old(self),
            },
    {
        let mut i: usize = 0;
        while i < self.0.len()
            invariant
                i <= self.0.len(),
                *self == *old(self),
                forall|k: int| 0 <= k < i ==> (#[trigger] self.names()[k]) != room@,
            decreases self.0.len() - i,
        {
            if same_str(self.0[i].as_str(), room) {
                assert(self.names()[i as int] == room@);
                return None;
            }
            i += 1;
        }
        let ghost before = self.names();
        self.0.push(String::from_str(room));
        assert(self.names() =~= before.push(room@));
        Some(
            XpGainEvent {
                amount: DISCOVERY_XP,
                reason: String::from_str("Discovered ").concat(room),
            },
        )
    }
}

/// What floats up where a room is discovered.
pub fn discovery_banner(room: &str) -> (text: String)
    ensures
        text@ == "\u{f8ff}\u{fc}\u{f3}\u{222b}\u{d4}\u{220f}\u{e8} "@ + room@
            + " Discovered! +50XP"@,
{
    let mut text = String::from_str("\u{f8ff}\u{fc}\u{f3}\u{222b}\u{d4}\u{220f}\u{e8} ");
    text.append(room);
    text.append(" Discovered! +50XP");
    text
}

// ---------------------------------------------------------------------------
// Walking a quest along
// ---------------------------------------------------------------------------

/// A phase finished by walking somewhere: what it earned, and the news of
/// where the quest now stands.
pub struct PhaseAdvance {
    pub rewards: Option<Vec<ToolId>>,
    pub event: QuestAdvancedEvent,
}

/// How many of the places `ids` are the place `target`.
pub open spec fn arrivals(ids: Seq<Seq<char>>, target: Seq<char>) -> nat {
    ids.filter(|id: Seq<char>| id == target).len()
}

/// How many of the places `ids` the text `description` names.
pub open spec fn mentions(ids: Seq<Seq<char>>, description: Seq<char>) -> nat {
    ids.filter(|id: Seq<char>| contains(description, id)).len()
}

/// The advance numbered `k` reports what the state `before` earns and
/// where the state `after` stands.
pub open spec fn reports(advance: PhaseAdvance, before: ResourceModel, after: ResourceModel)
    -> bool {
    &&& tools_of(advance.rewards) == before.rewards_due()
    &&& advance.event.module_index == after.module_index
    &&& advance.event.step_index == after.script.done
}

/// The task that waits to be done by hand at some place: the description of
/// a task that does not name the `Terminal`, whose tasks the puzzle takes
/// care of.
pub open spec fn open_task(phase: PhaseModel) -> Option<Seq<char>> {
    match phase {
        PhaseModel::Task { description, .. } => if contains(description, "Terminal"@) {
            None
        } else {
            Some(description)
        },
        _ => None,
    }
}

/// Finishes an exploration for a player who has come within reach of the
/// places `in_range`. During an exploration, each of these places that is
/// the target finishes a phase, in order; outside an exploration nothing
/// happens. Hands out one advance for each phase finished.
pub fn check_proximity_interactions(syllabus: &mut SyllabusResource, in_range: &Vec<String>) -> (advances:
    Vec<PhaseAdvance>)
    requires
        old(syllabus).current_module_index + in_range@.len() <= usize::MAX,
    ensures
        final(syllabus).syllabus == old(syllabus).syllabus,
        match old(syllabus)@.script.current() {
            PhaseModel::Exploration { target, .. } => {
                &&& advances@.len() == arrivals(texts_of(in_range@), target)
                &&& final(syllabus)@ == old(syllabus)@.advanced_times(advances@.len())
                &&& forall|k: int|
                    0 <= k < advances@.len() ==> reports(
                        #[trigger] advances@[k],
                        old(syllabus)@.advanced_times(k as nat),
                        old(syllabus)@.advanced_times((k + 1) as nat),
                    )
            },
            _ => advances@.len() == 0 && *final(syllabus) == *old(syllabus),
        },
{
    let mut advances: Vec<PhaseAdvance> = Vec::new();
    let target: Vec<char> = match syllabus.current_phase() {
        QuestPhase::Exploration { target, .. } => to_chars(target.as_str()),
        _ => {
            return advances;
        },
    };
    let ghost start = old(syllabus)@;
    let ghost ids = texts_of(in_range@);
    let ghost is_target = |id: Seq<char>| id == target@;
    let mut i: usize = 0;
    proof {
        reveal(Seq::filter);
        assert(ids.take(0) =~= Seq::<Seq<char>>::empty());
    }
    while i < in_range.len()
        invariant
            i <= in_range.len(),
            ids == texts_of(in_range@),
            is_target == (|id: Seq<char>| id == target@),
            start == old(syllabus)@,
            syllabus.syllabus == old(syllabus).syllabus,
            old(syllabus).current_module_index + in_range@.len() <= usize::MAX,
            advances@.len() == ids.take(i as int).filter(is_target).len(),
            advances@.len() <= i,
            syllabus.current_module_index <= old(syllabus).current_module_index + advances@.len(),
            syllabus@ == start.advanced_times(advances@.len()),
            forall|k: int|
                0 <= k < advances@.len() ==> reports(
                    #[trigger] advances@[k],
                    start.advanced_times(k as nat),
                    start.advanced_times((k + 1) as nat),
                ),
        decreases in_range.len() - i,
    {
        proof {
            assert(ids.take(i + 1) =~= ids.take(i as int).push(ids[i as int]));
            ids.take(i as int).lemma_filter_push(ids[i as int], is_target);
        }
        let id = to_chars(in_range[i].as_str());
        if crate::text::same(id.as_slice(), target.as_slice()) {
            let ghost before = syllabus@;
            let rewards = syllabus.advance_phase();
            let event = QuestAdvancedEvent {
                module_index: syllabus.current_module_index,
                step_index: syllabus.quest_script.current_phase,
            };
            advances.push(PhaseAdvance { rewards, event });
            proof {
                crate::syllabus::lemma_advance_is_monotone(before);
            }
        }
        i += 1;
    }
    assert(ids.take(in_range.len() as int) =~= ids);
    advances
}

/// Does a task by hand for a player who presses the key within reach of the
/// places `in_range`. While the puzzle runs or is solved, and outside a
/// task, nothing happens; nor does it for a task that names the `Terminal`.
/// Otherwise each of these places that the task names marks the current
/// work as done and finishes a phase, in order. Hands out one advance for
/// each phase finished.
pub fn terminal_interaction(
    syllabus: &mut SyllabusResource,
    puzzle: &PuzzleState,
    in_range: &Vec<String>,
) -> (advances: Vec<PhaseAdvance>)
    requires
        old(syllabus).current_module_index + in_range@.len() <= usize::MAX,
    ensures
        final(syllabus).syllabus == old(syllabus).syllabus,
        match open_task(old(syllabus)@.script.current()) {
            Some(description) if !puzzle.is_active && !puzzle.solved => {
                &&& advances@.len() == mentions(texts_of(in_range@), description)
                &&& final(syllabus)@ == old(syllabus)@.completed_times(advances@.len())
                &&& forall|k: int|
                    0 <= k < advances@.len() ==> reports(
                        #[trigger] advances@[k],
                        old(syllabus)@.completed_times(k as nat).with_task_done(),
                        old(syllabus)@.completed_times((k + 1) as nat),
                    )
            },
            _ => advances@.len() == 0 && *final(syllabus) == *old(syllabus),
        },
{
    let mut advances: Vec<PhaseAdvance> = Vec::new();
    if puzzle.is_active || puzzle.solved {
        return advances;
    }
    let description: Vec<char> = match syllabus.current_phase() {
        QuestPhase::Task { description, .. } => {
            let d = to_chars(description.as_str());
            if includes(d.as_slice(), "Terminal") {
                return advances;
            }
            d
        },
        _ => {
            return advances;
        },
    };
    let ghost start = old(syllabus)@;
    let ghost ids = texts_of(in_range@);
    let ghost is_named = |id: Seq<char>| contains(description@, id);
    let mut i: usize = 0;
    proof {
        reveal(Seq::filter);
        assert(ids.take(0) =~= Seq::<Seq<char>>::empty());
    }
    while i < in_range.len()
        invariant
            i <= in_range.len(),
            ids == texts_of(in_range@),
            is_named == (|id: Seq<char>| contains(description@, id)),
            start == old(syllabus)@,
            syllabus.syllabus == old(syllabus).syllabus,
            old(syllabus).current_module_index + in_range@.len() <= usize::MAX,
            advances@.len() == ids.take(i as int).filter(is_named).len(),
            advances@.len() <= i,
            syllabus.current_module_index <= old(syllabus).current_module_index + advances@.len(),
            syllabus@ == start.completed_times(advances@.len()),
            forall|k: int|
                0 <= k < advances@.len() ==> reports(
                    #[trigger] advances@[k],
                    start.completed_times(k as nat).with_task_done(),
                    start.completed_times((k + 1) as nat),
                ),
        decreases in_range.len() - i,
    {
        proof {
            assert(ids.take(i + 1) =~= ids.take(i as int).push(ids[i as int]));
            ids.take(i as int).lemma_filter_push(ids[i as int], is_named);
        }
        if includes(description.as_slice(), in_range[i].as_str()) {
            syllabus.complete_current_task();
            let ghost before = syllabus@;
            let rewards = syllabus.advance_phase();
            let event = QuestAdvancedEvent {
                module_index: syllabus.current_module_index,
                step_index: syllabus.quest_script.current_phase,
            };
            advances.push(PhaseAdvance { rewards, event });
            proof {
                crate::syllabus::lemma_advance_is_monotone(before);
            }
        }
        i += 1;
    }
    assert(ids.take(in_range.len() as int) =~= ids);
    advances
}

/// What the player is told to do next to the teacher, by the phase of the
/// quest.
pub open spec fn prompt_for(syllabus: Option<ResourceModel>) -> Seq<char> {
    match syllabus {
        Some(s) => match s.script.current() {
            PhaseModel::Exploration { .. } => "The Teacher awaits..."@,
            PhaseModel::Dialogue { .. } => "Press T to continue"@,
            PhaseModel::Task { description, .. } => "\u{201a}\u{f6}\u{b0} "@ + description,
            PhaseModel::Reflection { .. } => "Press T to answer  |  Press H to speak"@,
            PhaseModel::Quiz { .. } => "Press 1, 2, or 3 to answer"@,
            PhaseModel::Complete => "\u{f8ff}\u{fc}\u{e8}\u{dc} Quest Complete!"@,
        },
        None => "Press T to talk"@,
    }
}

/// What the player is told to do next to the teacher.
pub fn show_interaction_prompt(syllabus: Option<&SyllabusResource>) -> (text: String)
    ensures
        text@ == prompt_for(crate::syllabus::resource_model(syllabus)),
{
    match syllabus {
        Some(s) => match s.current_phase() {
            QuestPhase::Exploration { .. } => String::from_str("The Teacher awaits..."),
            QuestPhase::Dialogue { .. } => String::from_str("Press T to continue"),
            QuestPhase::Task { description, .. } => String::from_str(
                "\u{201a}\u{f6}\u{b0} ",
            ).concat(description.as_str()),
            QuestPhase::Reflection { .. } => String::from_str(
                "Press T to answer  |  Press H to speak",
            ),
            QuestPhase::Quiz { .. } => String::from_str("Press 1, 2, or 3 to answer"),
            QuestPhase::Complete => String::from_str("\u{f8ff}\u{fc}\u{e8}\u{dc} Quest Complete!"),
        },
        None => String::from_str("Press T to talk"),
    }
}

} // verus!
