//! The platform grid: a dense rectangle of platform records, addressed by
//! coordinate, with the lookup of a platform's neighbour in a given direction.

use crate::music::{Note, NOTE_COUNT};
use vstd::prelude::*;

verus! {

/// A platform's place in the grid's table of records.
pub type PlatformId = usize;

/// Edge length of a tile, in world units.
pub const TILE_SIZE: u32 = 32;

/// World lengths are counted in thousandths of a world unit.
pub const MILLIS_PER_UNIT: i64 = 1000;

/// A point of the world, in thousandths of a world unit.
#[derive(Debug, Clone, Copy, PartialEq, Eq, Structural)]
pub struct Position {
    pub x: i64,
    pub y: i64,
    pub z: i64,
}

/// One platform: where it is, the note it sounds, whether the player stands
/// on it, and whether it lies inert.
#[derive(Debug, Clone, Copy, PartialEq, Eq, Structural)]
pub struct Platform {
    pub x: u32,
    pub y: u32,
    pub has_player: bool,
    pub note: Note,
    pub dead: bool,
}

/// The note of the platform at `(x, y)` in a grid `width` platforms wide.
pub open spec fn note_of(x: int, y: int, width: int) -> int {
    (x + y * width) % (NOTE_COUNT as int)
}

/// The place of `(x, y)` in the table of a grid `width` platforms wide.
pub open spec fn slot_of(x: int, y: int, width: int) -> int {
    x + y * width
}

/// One step from `from` along an axis: forward for a positive `intent`, back
/// for a negative one, none for zero.
pub open spec fn stepped(from: int, intent: int) -> int {
    if intent > 0 {
        from + 1
    } else if intent < 0 {
        from - 1
    } else {
        from
    }
}

/// The test for a platform of `platforms` that sounds `note`.
pub open spec fn sounds(platforms: Seq<Platform>, note: Note) -> spec_fn(PlatformId) -> bool {
    |id: PlatformId| platforms[id as int].note == note
}

/// The places `0, 1, ..` of a table of `len` records.
pub open spec fn all_sites(len: nat) -> Seq<PlatformId> {
    Seq::new(len, |id: int| id as PlatformId)
}

/// Those of `platforms` that sound `note`, in table order.
pub open spec fn sites_sounding(platforms: Seq<Platform>, note: Note) -> Seq<PlatformId> {
    all_sites(platforms.len()).filter(sounds(platforms, note))
}

/// Something to set down on a platform, a falling ball or a pickup, with the
/// note it carries.
#[derive(Debug, Clone, Copy, PartialEq, Eq, Structural)]
pub struct Spawn {
    pub platform: PlatformId,
    pub note: Note,
}

/// One spawn carrying `note` for each of `sites`.
pub open spec fn spawns_at(sites: Seq<PlatformId>, note: Note) -> Seq<Spawn> {
    Seq::new(sites.len(), |k: int| Spawn { platform: sites[k], note })
}

/// For each of `notes` in turn, one spawn on every platform that sounds it.
pub open spec fn spawns_on(platforms: Seq<Platform>, notes: Seq<Note>) -> Seq<Spawn>
    decreases notes.len(),
{
    if notes.len() == 0 {
        Seq::empty()
    } else {
        spawns_on(platforms, notes.drop_last()) + spawns_at(
            sites_sounding(platforms, notes.last()),
            notes.last(),
        )
    }
}

/// Whether every one of `platforms` lies inert.
pub open spec fn every_dead(platforms: Seq<Platform>) -> bool {
    forall|id: int| 0 <= id < platforms.len() ==> (#[trigger] platforms[id]).dead
}

/// Rows of a grid fill the table one after another.
pub proof fn lemma_slot_in_table(x: int, y: int, width: int, height: int)
    requires
        0 <= x < width,
        0 <= y < height,
    ensures
        0 <= slot_of(x, y, width) < width * height,
        width * height == height * width,
        0 <= y * width <= slot_of(x, y, width),
{
    assert(y * width >= 0) by (nonlinear_arith)
        requires
            y >= 0,
            width >= 0,
    ;
    assert((y + 1) * width <= height * width) by (nonlinear_arith)
        requires
            y + 1 <= height,
            width >= 0,
    ;
    assert((y + 1) * width == y * width + width) by (nonlinear_arith);
    assert(height * width == width * height) by (nonlinear_arith);
}

/// Two coordinates of a grid share a slot only if they are the same.
pub proof fn lemma_slot_unique(x1: int, y1: int, x2: int, y2: int, width: int)
    requires
        0 <= x1 < width,
        0 <= x2 < width,
        0 <= y1,
        0 <= y2,
        slot_of(x1, y1, width) == slot_of(x2, y2, width),
    ensures
        x1 == x2,
        y1 == y2,
{
    if y1 < y2 {
        assert((y1 + 1) * width <= y2 * width) by (nonlinear_arith)
            requires
                y1 + 1 <= y2,
                width >= 0,
        ;
        assert((y1 + 1) * width == y1 * width + width) by (nonlinear_arith);
    } else if y2 < y1 {
        assert((y2 + 1) * width <= y1 * width) by (nonlinear_arith)
            requires
                y2 + 1 <= y1,
                width >= 0,
        ;
        assert((y2 + 1) * width == y2 * width + width) by (nonlinear_arith);
    }
}

/// The note of the platform at `(x, y)` in a grid `width` platforms wide.
pub fn note_at(x: u32, y: u32, width: u32) -> (note: Note)
    ensures
        note == note_of(x as int, y as int, width as int),
        note < NOTE_COUNT,
{
    assert(0 <= y * width <= 0xffff_ffff * 0xffff_ffff) by (nonlinear_arith)
        requires
            0 <= y <= 0xffff_ffff,
            0 <= width <= 0xffff_ffff,
    ;
    let slot: u128 = x as u128 + y as u128 * width as u128;
    (slot % 20) as usize
}

impl Platform {
    /// A platform fresh from stage set-up: inert, with nobody on it.
    pub fn new(x: u32, y: u32, width: u32) -> (platform: Platform)
        ensures
            platform == (Platform {
                x,
                y,
                has_player: false,
                note: note_of(x as int, y as int, width as int) as Note,
                dead: true,
            }),
    {
        Platform { x, y, has_player: false, note: note_at(x, y, width), dead: true }
    }

    /// Where the platform is anchored in the world: a tile apart along x,
    /// half a tile apart along y, and the further back the higher its row.
    pub open spec fn anchor_of(self) -> Position {
        Position {
            x: (self.x * TILE_SIZE * MILLIS_PER_UNIT) as i64,
            y: ((self.y * TILE_SIZE / 2) * MILLIS_PER_UNIT) as i64,
            z: (-(self.y * (MILLIS_PER_UNIT / 10))) as i64,
        }
    }

    /// Where the platform is anchored in the world.
    pub fn anchor(&self) -> (at: Position)
        ensures
            at == self.anchor_of(),
            0 <= at.x <= 0x8000_0000_0000,
            0 <= at.y <= 0x8000_0000_0000,
            -0x8000_0000_0000 <= at.z <= 0,
    {
        let x: i64 = self.x as i64 * 32 * 1000;
        let y: i64 = (self.y as i64 * 32 / 2) * 1000;
        let z: i64 = -(self.y as i64 * 100);
        Position { x, y, z }
    }
}

/// The platforms of a stage, row by row.
#[derive(Debug)]
pub struct PlatformGrid {
    pub width: u32,
    pub height: u32,
    pub platforms: Vec<Platform>,
}

impl Clone for PlatformGrid {
    fn clone(&self) -> (copy: Self)
        ensures
            copy.width == self.width,
            copy.height == self.height,
            copy.platforms@ == self.platforms@,
    {
        PlatformGrid { width: self.width, height: self.height, platforms: self.platforms.clone() }
    }
}

impl PlatformGrid {
    /// The record of the platform at `(x, y)`.
    pub open spec fn at(&self, x: int, y: int) -> Platform {
        self.platforms@[slot_of(x, y, self.width as int)]
    }

    /// The table holds one record for each coordinate of the rectangle, and
    /// each record knows its coordinate and sounds the note of its place.
    pub open spec fn wf(&self) -> bool {
        &&& self.platforms@.len() == self.width * self.height
        &&& forall|x: int, y: int|
            0 <= x < self.width && 0 <= y < self.height ==> {
                &&& (#[trigger] self.at(x, y)).x == x
                &&& self.at(x, y).y == y
                &&& self.at(x, y).note == note_of(x, y, self.width as int)
            }
    }

    /// The platform at `(x, y)`, if the grid reaches that far.
    pub open spec fn site(&self, x: int, y: int) -> Option<PlatformId> {
        if 0 <= x < self.width && 0 <= y < self.height {
            Some(slot_of(x, y, self.width as int) as PlatformId)
        } else {
            None
        }
    }

    /// The neighbour of `current` one step along each axis as `tx` and `ty`
    /// point, if the grid has one there.
    pub open spec fn target(&self, current: Platform, tx: int, ty: int) -> Option<PlatformId> {
        self.site(stepped(current.x as int, tx), stepped(current.y as int, ty))
    }

    /// Whether every platform lies inert.
    pub open spec fn all_dead(&self) -> bool {
        every_dead(self.platforms@)
    }

    /// The platforms that sound `note`, in table order.
    pub open spec fn sites_with_note(&self, note: Note) -> Seq<PlatformId> {
        sites_sounding(self.platforms@, note)
    }

    /// A grid without platforms.
    pub fn empty() -> (grid: PlatformGrid)
        ensures
            grid.wf(),
            grid.width == 0,
            grid.height == 0,
            grid.platforms@.len() == 0,
    {
        PlatformGrid { width: 0, height: 0, platforms: Vec::new() }
    }

    /// A grid of `width` by `height` platforms, all inert and unoccupied.
    pub fn new(width: u32, height: u32) -> (grid: PlatformGrid)
        requires
            width * height <= usize::MAX,
        ensures
            grid.wf(),
            grid.width == width,
            grid.height == height,
            forall|x: int, y: int|
                0 <= x < width && 0 <= y < height ==> #[trigger] grid.at(x, y) == Platform::new_spec(
                    x,
                    y,
                    width as int,
                ),
            forall|id: int|
                0 <= id < grid.platforms@.len() ==> (#[trigger] grid.platforms@[id]).dead
                    && !grid.platforms@[id].has_player,
    {
        let mut platforms: Vec<Platform> = Vec::new();
        let mut y: u32 = 0;
        while y < height
            invariant
                y <= height,
                platforms@.len() == y * width,
                forall|i: int, j: int|
                    0 <= i < width && 0 <= j < y ==> #[trigger] platforms@[slot_of(
                        i,
                        j,
                        width as int,
                    )] == Platform::new_spec(i, j, width as int),
                forall|id: int|
                    0 <= id < platforms@.len() ==> (#[trigger] platforms@[id]).dead
                        && !platforms@[id].has_player,
            decreases height - y,
        {
            let mut x: u32 = 0;
            while x < width
                invariant
                    x <= width,
                    y < height,
                    platforms@.len() == y * width + x,
                    forall|i: int, j: int|
                        0 <= i < width && 0 <= j < y ==> #[trigger] platforms@[slot_of(
                            i,
                            j,
                            width as int,
                        )] == Platform::new_spec(i, j, width as int),
                    forall|i: int|
                        0 <= i < x ==> #[trigger] platforms@[slot_of(i, y as int, width as int)]
                            == Platform::new_spec(i, y as int, width as int),
                    forall|id: int|
                        0 <= id < platforms@.len() ==> (#[trigger] platforms@[id]).dead
                            && !platforms@[id].has_player,
                decreases width - x,
            {
                let ghost before = platforms@;
                platforms.push(Platform::new(x, y, width));
                proof {
                    assert forall|i: int, j: int|
                        0 <= i < width && 0 <= j < y implies #[trigger] platforms@[slot_of(
                        i,
                        j,
                        width as int,
                    )] == Platform::new_spec(i, j, width as int) by {
                        lemma_slot_in_table(i, j, width as int, y as int);
                        assert(slot_of(i, j, width as int) < before.len());
                        assert(before[slot_of(i, j, width as int)] == Platform::new_spec(
                            i,
                            j,
                            width as int,
                        ));
                    }
                    assert forall|i: int| 0 <= i < x + 1 implies #[trigger] platforms@[slot_of(
                        i,
                        y as int,
                        width as int,
                    )] == Platform::new_spec(i, y as int, width as int) by {
                        if i < x {
                            assert(before[slot_of(i, y as int, width as int)] == Platform::new_spec(
                                i,
                                y as int,
                                width as int,
                            ));
                        }
                    }
                }
                x = x + 1;
            }
            proof {
                assert((y + 1) * width == y * width + width) by (nonlinear_arith);
            }
            y = y + 1;
        }
        let grid = PlatformGrid { width, height, platforms };
        proof {
            assert(height * width == width * height) by (nonlinear_arith);
            assert forall|x: int, y: int| 0 <= x < grid.width && 0 <= y < grid.height implies {
                &&& (#[trigger] grid.at(x, y)).x == x
                &&& grid.at(x, y).y == y
                &&& grid.at(x, y).note == note_of(x, y, grid.width as int)
            } by {
                assert(grid.platforms@[slot_of(x, y, width as int)] == Platform::new_spec(
                    x,
                    y,
                    width as int,
                ));
            }
        }
        grid
    }

    /// The platform at `(x, y)`, if the grid reaches that far.
    pub fn get(&self, x: u32, y: u32) -> (found: Option<PlatformId>)
        requires
            self.wf(),
        ensures
            found == self.site(x as int, y as int),
            found matches Some(id) ==> id < self.platforms@.len() && self.platforms@[id as int].x
                == x && self.platforms@[id as int].y == y,
    {
        if x < self.width && y < self.height {
            let table_len = self.platforms.len();
            proof {
                lemma_slot_in_table(x as int, y as int, self.width as int, self.height as int);
                assert(self.at(x as int, y as int).x == x);
                assert(slot_of(x as int, y as int, self.width as int) < table_len);
            }
            let slot: usize = x as usize + y as usize * self.width as usize;
            Some(slot)
        } else {
            None
        }
    }

    /// The neighbour of `current` one step along each axis as `tx` and `ty`
    /// point, if the grid has one there. Nothing in the grid changes.
    pub fn target_platform(&self, current: Platform, tx: i32, ty: i32) -> (found: Option<
        PlatformId,
    >)
        requires
            self.wf(),
        ensures
            found == self.target(current, tx as int, ty as int),
            found matches Some(id) ==> id < self.platforms@.len(),
            current.x == 0 && tx < 0 ==> found is None,
            current.y == 0 && ty < 0 ==> found is None,
            tx == 0 && ty == 0 ==> found == self.site(current.x as int, current.y as int),
    {
        let x: u32 = if tx > 0 {
            if current.x == u32::MAX {
                return None;
            }
            current.x + 1
        } else if tx < 0 {
            if current.x == 0 {
                return None;
            }
            current.x - 1
        } else {
            current.x
        };
        let y: u32 = if ty > 0 {
            if current.y == u32::MAX {
                return None;
            }
            current.y + 1
        } else if ty < 0 {
            if current.y == 0 {
                return None;
            }
            current.y - 1
        } else {
            current.y
        };
        self.get(x, y)
    }

    /// Whether every platform lies inert.
    pub fn every_platform_dead(&self) -> (all: bool)
        ensures
            all == self.all_dead(),
    {
        let mut id: usize = 0;
        while id < self.platforms.len()
            invariant
                id <= self.platforms.len(),
                forall|k: int| 0 <= k < id ==> (#[trigger] self.platforms@[k]).dead,
            decreases self.platforms.len() - id,
        {
            if !self.platforms[id].dead {
                return false;
            }
            id = id + 1;
        }
        true
    }

    /// The platforms that sound `note`, in table order.
    pub fn platforms_with_note(&self, note: Note) -> (sites: Vec<PlatformId>)
        ensures
            sites@ == self.sites_with_note(note),
            forall|k: int|
                0 <= k < sites@.len() ==> (#[trigger] sites@[k]) < self.platforms@.len(),
    {
        let ghost ids = all_sites(self.platforms@.len());
        let ghost sounding = sounds(self.platforms@, note);
        let mut sites: Vec<PlatformId> = Vec::new();
        let mut id: usize = 0;
        while id < self.platforms.len()
            invariant
                id <= self.platforms.len(),
                ids == all_sites(self.platforms@.len()),
                sounding == sounds(self.platforms@, note),
                sites@ == ids.take(id as int).filter(sounding),
                forall|k: int|
                    0 <= k < sites@.len() ==> (#[trigger] sites@[k]) < self.platforms@.len(),
            decreases self.platforms.len() - id,
        {
            proof {
                assert(ids.take(id + 1) =~= ids.take(id as int).push(id));
                ids.take(id as int).lemma_filter_push(id, sounding);
            }
            if self.platforms[id].note == note {
                sites.push(id);
            }
            id = id + 1;
        }
        assert(ids.take(id as int) =~= ids);
        sites
    }
}

impl PlatformGrid {
    /// For each of `notes` in turn, one spawn on every platform that sounds it.
    pub fn spawns_for(&self, notes: &Vec<Note>) -> (spawns: Vec<Spawn>)
        ensures
            spawns@ == spawns_on(self.platforms@, notes@),
            forall|k: int|
                0 <= k < spawns@.len() ==> (#[trigger] spawns@[k]).platform
                    < self.platforms@.len(),
    {
        let mut spawns: Vec<Spawn> = Vec::new();
        let mut k: usize = 0;
        while k < notes.len()
            invariant
                k <= notes.len(),
                spawns@ == spawns_on(self.platforms@, notes@.take(k as int)),
                forall|j: int|
                    0 <= j < spawns@.len() ==> (#[trigger] spawns@[j]).platform
                        < self.platforms@.len(),
            decreases notes.len() - k,
        {
            let note = notes[k];
            let sites = self.platforms_with_note(note);
            let ghost before = spawns@;
            let mut j: usize = 0;
            while j < sites.len()
                invariant
                    j <= sites.len(),
                    spawns@ == before + spawns_at(sites@, note).take(j as int),
                    forall|i: int|
                        0 <= i < sites@.len() ==> (#[trigger] sites@[i]) < self.platforms@.len(),
                    forall|i: int|
                        0 <= i < spawns@.len() ==> (#[trigger] spawns@[i]).platform
                            < self.platforms@.len(),
                decreases sites.len() - j,
            {
                spawns.push(Spawn { platform: sites[j], note });
                j = j + 1;
                assert(spawns@ =~= before + spawns_at(sites@, note).take(j as int));
            }
            proof {
                assert(spawns_at(sites@, note).take(j as int) =~= spawns_at(sites@, note));
                assert(notes@.take(k + 1).drop_last() =~= notes@.take(k as int));
            }
            k = k + 1;
        }
        assert(notes@.take(k as int) =~= notes@);
        spawns
    }

    /// Replaces the record of platform `id` by one that differs from it in its
    /// flags only.
    pub fn put(&mut self, id: PlatformId, platform: Platform)
        requires
            old(self).wf(),
            id < old(self).platforms@.len(),
            platform.x == old(self).platforms@[id as int].x,
            platform.y == old(self).platforms@[id as int].y,
            platform.note == old(self).platforms@[id as int].note,
        ensures
            final(self).wf(),
            final(self).width == old(self).width,
            final(self).height == old(self).height,
            final(self).platforms@ == old(self).platforms@.update(id as int, platform),
    {
        self.platforms.set(id, platform);
        proof {
            assert forall|x: int, y: int| 0 <= x < self.width && 0 <= y < self.height implies {
                &&& (#[trigger] self.at(x, y)).x == x
                &&& self.at(x, y).y == y
                &&& self.at(x, y).note == note_of(x, y, self.width as int)
            } by {
                lemma_slot_in_table(x, y, self.width as int, self.height as int);
                assert(old(self).at(x, y).x == x);
            }
        }
    }
}

/// Every record of a well-formed grid sits in the slot of its own coordinate.
pub proof fn lemma_record_in_own_slot(grid: PlatformGrid, id: PlatformId)
    requires
        grid.wf(),
        id < grid.platforms@.len(),
    ensures
        grid.site(grid.platforms@[id as int].x as int, grid.platforms@[id as int].y as int) == Some(
            id,
        ),
{
    let width = grid.width as int;
    let height = grid.height as int;
    assert(width > 0) by (nonlinear_arith)
        requires
            0 <= id < width * height,
            width >= 0,
    ;
    let x = id as int % width;
    let y = id as int / width;
    vstd::arithmetic::div_mod::lemma_fundamental_div_mod(id as int, width);
    assert(width * y == y * width) by (nonlinear_arith);
    assert(0 <= y < height) by (nonlinear_arith)
        requires
            id == width * y + x,
            0 <= x < width,
            0 <= id < width * height,
            width > 0,
    ;
    assert(slot_of(x, y, width) == id);
    assert(grid.at(x, y).x == x);
}

/// With no intent along either axis the target of a platform of the grid is
/// the platform itself; and no platform lies before the first column or row.
pub proof fn lemma_targets_at_the_edge(grid: PlatformGrid, id: PlatformId, tx: int, ty: int)
    requires
        grid.wf(),
        id < grid.platforms@.len(),
    ensures
        grid.target(grid.platforms@[id as int], 0, 0) == Some(id),
        grid.platforms@[id as int].x == 0 && tx < 0 ==> grid.target(
            grid.platforms@[id as int],
            tx,
            ty,
        ) is None,
        grid.platforms@[id as int].y == 0 && ty < 0 ==> grid.target(
            grid.platforms@[id as int],
            tx,
            ty,
        ) is None,
{
    lemma_record_in_own_slot(grid, id);
}

impl Platform {
    /// The record of a fresh platform at `(x, y)`.
    pub open spec fn new_spec(x: int, y: int, width: int) -> Platform {
        Platform {
            x: x as u32,
            y: y as u32,
            has_player: false,
            note: note_of(x, y, width) as Note,
            dead: true,
        }
    }
}

} // verus!
