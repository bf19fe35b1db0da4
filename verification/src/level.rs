//! The static tile collision map of a level.
//!
//! A level is a grid of 8×8 tiles in two layers. A tile id is looked up in a
//! property table; property 1 marks a solid tile. Everything outside the grid
//! counts as solid, which keeps actors inside the level.

use vstd::prelude::*;
use crate::number::Number;
use crate::vector::Rect;
use crate::vector::RectModel;
use crate::vector::Vec2;
use crate::vector::Vector2D;

verus! {

/// Edge length of a tile in whole units.
pub const TILE_SIZE: i32 = 8;

/// Tile coordinate of the world point with raw coordinates `point`: the
/// coordinates divided by the tile size and rounded toward negative infinity.
pub open spec fn tile_of(point: Vec2) -> Vec2 {
    Vec2 { x: point.x / 2048, y: point.y / 2048 }
}

/// The world-space rectangle that the tile at coordinate `tile` covers.
pub open spec fn tile_rect(tile: Vec2) -> RectModel {
    RectModel {
        position: Vec2 { x: tile.x * 2048, y: tile.y * 2048 },
        size: Vec2 { x: 2048, y: 2048 },
    }
}

/// Pairs each element of `xs` with the element of `ys` at the same index.
pub open spec fn zip_spawns(xs: Seq<u16>, ys: Seq<u16>) -> Seq<(u16, u16)> {
    Seq::new(xs.len(), |i: int| (xs[i], ys[i]))
}

/// Whether every tile id in `layer` has an entry in a property table of
/// `table_len` entries.
pub open spec fn ids_in_table(layer: Seq<u16>, table_len: int) -> bool {
    forall|i: int| 0 <= i < layer.len() ==> (#[trigger] layer[i]) < table_len
}

/// Whether the given data describe a level: both layers cover the grid, every
/// tile id has a property, and every spawn has both coordinates.
pub open spec fn level_data_valid(
    width: u32,
    height: u32,
    background: Seq<u16>,
    foreground: Seq<u16>,
    tile_types: Seq<u8>,
    slime_spawns_x: Seq<u16>,
    slime_spawns_y: Seq<u16>,
    bat_spawns_x: Seq<u16>,
    bat_spawns_y: Seq<u16>,
) -> bool {
    &&& background.len() == width * height
    &&& foreground.len() == width * height
    &&& ids_in_table(background, tile_types.len() as int)
    &&& ids_in_table(foreground, tile_types.len() as int)
    &&& slime_spawns_x.len() <= slime_spawns_y.len()
    &&& bat_spawns_x.len() <= bat_spawns_y.len()
}

/// The tile layers, tile properties and spawn points of one level. Immutable
/// once loaded.
pub struct Level {
    width: u32,
    height: u32,
    background: Vec<u16>,
    foreground: Vec<u16>,
    tile_types: Vec<u8>,
    slime_spawns: Vec<(u16, u16)>,
    bat_spawns: Vec<(u16, u16)>,
}

impl Level {
    #[verifier::type_invariant]
    spec fn well_formed(self) -> bool {
        &&& self.background@.len() == self.width * self.height
        &&& self.foreground@.len() == self.width * self.height
        &&& ids_in_table(self.background@, self.tile_types@.len() as int)
        &&& ids_in_table(self.foreground@, self.tile_types@.len() as int)
    }

    /// Number of tile columns.
    pub closed spec fn spec_width(self) -> int {
        self.width as int
    }

    /// Number of tile rows.
    pub closed spec fn spec_height(self) -> int {
        self.height as int
    }

    /// Tile ids of the background layer, row by row.
    pub closed spec fn background_layer(self) -> Seq<u16> {
        self.background@
    }

    /// Tile ids of the foreground layer, row by row.
    pub closed spec fn foreground_layer(self) -> Seq<u16> {
        self.foreground@
    }

    /// Property of each tile id.
    pub closed spec fn tile_properties(self) -> Seq<u8> {
        self.tile_types@
    }

    /// Where slimes start.
    pub closed spec fn spec_slime_spawns(self) -> Seq<(u16, u16)> {
        self.slime_spawns@
    }

    /// Where bats start.
    pub closed spec fn spec_bat_spawns(self) -> Seq<(u16, u16)> {
        self.bat_spawns@
    }

    /// Whether `tile` lies on the grid.
    pub open spec fn in_bounds(self, tile: Vec2) -> bool {
        0 <= tile.x < self.spec_width() && 0 <= tile.y < self.spec_height()
    }

    /// Index of `tile` in a layer.
    pub open spec fn cell_index(self, tile: Vec2) -> int {
        self.spec_width() * tile.y + tile.x
    }

    /// Property of the foreground tile at `tile`.
    pub open spec fn foreground_property(self, tile: Vec2) -> u8 {
        self.tile_properties()[self.foreground_layer()[self.cell_index(tile)] as int]
    }

    /// Property of the background tile at `tile`.
    pub open spec fn background_property(self, tile: Vec2) -> u8 {
        self.tile_properties()[self.background_layer()[self.cell_index(tile)] as int]
    }

    /// Whether `tile` is solid: it lies off the grid, or either layer holds a
    /// solid tile there.
    pub open spec fn solid_at(self, tile: Vec2) -> bool {
        !self.in_bounds(tile) || self.foreground_property(tile) == 1
            || self.background_property(tile) == 1
    }

    /// What [`Level::collides`] returns for the point with raw coordinates
    /// `point`.
    pub open spec fn spec_collides(self, point: Vec2) -> Option<RectModel> {
        if self.solid_at(tile_of(point)) {
            Some(tile_rect(tile_of(point)))
        } else {
            None
        }
    }

    /// Builds a level from flat tile data, or returns `None` where the data do
    /// not describe one.
    pub fn load_level(
        width: u32,
        height: u32,
        background: Vec<u16>,
        foreground: Vec<u16>,
        tile_types: Vec<u8>,
        slime_spawns_x: &Vec<u16>,
        slime_spawns_y: &Vec<u16>,
        bat_spawns_x: &Vec<u16>,
        bat_spawns_y: &Vec<u16>,
    ) -> (r: Option<Level>)
        ensures
            r is Some <==> level_data_valid(
                width,
                height,
                background@,
                foreground@,
                tile_types@,
                slime_spawns_x@,
                slime_spawns_y@,
                bat_spawns_x@,
                bat_spawns_y@,
            ),
            match r {
                Some(level) => {
                    &&& level.spec_width() == width
                    &&& level.spec_height() == height
                    &&& level.background_layer() == background@
                    &&& level.foreground_layer() == foreground@
                    &&& level.tile_properties() == tile_types@
                    &&& level.spec_slime_spawns() == zip_spawns(slime_spawns_x@, slime_spawns_y@)
                    &&& level.spec_bat_spawns() == zip_spawns(bat_spawns_x@, bat_spawns_y@)
                },
                None => true,
            },
    {
        assert(width * height <= 0xffff_ffff * 0xffff_ffff) by (nonlinear_arith)
            requires
                0 <= width <= 0xffff_ffff,
                0 <= height <= 0xffff_ffff,
        ;
        let cells: u64 = (width as u64) * (height as u64);
        if background.len() as u64 != cells || foreground.len() as u64 != cells {
            return None;
        }
        if !layer_in_table(&background, tile_types.len()) {
            return None;
        }
        if !layer_in_table(&foreground, tile_types.len()) {
            return None;
        }
        if slime_spawns_x.len() > slime_spawns_y.len() || bat_spawns_x.len() > bat_spawns_y.len() {
            return None;
        }
        let slime_spawns = zip(slime_spawns_x, slime_spawns_y);
        let bat_spawns = zip(bat_spawns_x, bat_spawns_y);
        Some(Level { width, height, background, foreground, tile_types, slime_spawns, bat_spawns })
    }

    /// Number of tile columns.
    pub fn width(&self) -> (r: u32)
        ensures
            r == self.spec_width(),
    {
        self.width
    }

    /// Number of tile rows.
    pub fn height(&self) -> (r: u32)
        ensures
            r == self.spec_height(),
    {
        self.height
    }

    /// Where slimes start, in whole units.
    pub fn slime_spawns(&self) -> (r: &Vec<(u16, u16)>)
        ensures
            r@ == self.spec_slime_spawns(),
    {
        &self.slime_spawns
    }

    /// Where bats start, in whole units.
    pub fn bat_spawns(&self) -> (r: &Vec<(u16, u16)>)
        ensures
            r@ == self.spec_bat_spawns(),
    {
        &self.bat_spawns
    }

    /// Looks up the tile under the world point `v`. A solid tile is returned
    /// as its full rectangle in world space; an empty one as `None`. A point
    /// off the grid always lies in a solid tile.
    pub fn collides(&self, v: Vector2D) -> (r: Option<Rect>)
        ensures
            r is Some <==> self.solid_at(tile_of(v@)),
            r matches Some(rect) ==> rect@ == tile_rect(tile_of(v@)),
            !self.in_bounds(tile_of(v@)) ==> r is Some,
            self.in_bounds(tile_of(v@)) ==> (r is Some <==> self.foreground_property(tile_of(v@))
                == 1 || self.background_property(tile_of(v@)) == 1),
            match r {
                Some(rect) => self.spec_collides(v@) == Some(rect@),
                None => self.spec_collides(v@) is None,
            },
    {
        proof {
            use_type_invariant(self);
        }
        let factor = Number::from_raw(32);
        let scaled = v.times(factor);
        let tile = scaled.floor();
        let x: i32 = tile.x;
        let y: i32 = tile.y;
        assert(x == v@.x / 2048 && y == v@.y / 2048);
        let solid = if x < 0 || x as i64 >= self.width as i64 || y < 0 || y as i64
            >= self.height as i64 {
            true
        } else {
            assert(0 <= self.width * y && self.width * y + x < self.width * self.height)
                by (nonlinear_arith)
                requires
                    0 <= x < self.width,
                    0 <= y < self.height,
            ;
            let cells: usize = self.background.len();
            assert(self.width * self.height == cells);
            let position: usize = self.width as usize * y as usize + x as usize;
            let tile_foreground = self.foreground[position];
            let tile_background = self.background[position];
            let foreground_property = self.tile_types[tile_foreground as usize];
            let background_property = self.tile_types[tile_background as usize];
            foreground_property == 1 || background_property == 1
        };
        if solid {
            Some(Rect::from_ints(x * TILE_SIZE, y * TILE_SIZE, TILE_SIZE, TILE_SIZE))
        } else {
            None
        }
    }
}

/// Whether every tile id of `layer` is below `table_len`.
fn layer_in_table(layer: &Vec<u16>, table_len: usize) -> (r: bool)
    ensures
        r == ids_in_table(layer@, table_len as int),
{
    let mut i: usize = 0;
    while i < layer.len()
        invariant
            i <= layer.len(),
            forall|j: int| 0 <= j < i ==> (#[trigger] layer@[j]) < table_len,
        decreases layer.len() - i,
    {
        if layer[i] as usize >= table_len {
            return false;
        }
        i = i + 1;
    }
    true
}

/// Pairs the elements of `xs` with those of `ys`.
fn zip(xs: &Vec<u16>, ys: &Vec<u16>) -> (r: Vec<(u16, u16)>)
    requires
        xs.len() <= ys.len(),
    ensures
        r@ == zip_spawns(xs@, ys@),
{
    let mut pairs: Vec<(u16, u16)> = Vec::new();
    let mut i: usize = 0;
    while i < xs.len()
        invariant
            i <= xs.len(),
            xs.len() <= ys.len(),
            pairs@.len() == i,
            forall|j: int| 0 <= j < i ==> (#[trigger] pairs@[j]) == (xs@[j], ys@[j]),
        decreases xs.len() - i,
    {
        pairs.push((xs[i], ys[i]));
        i = i + 1;
    }
    assert(pairs@ =~= zip_spawns(xs@, ys@));
    pairs
}

} // verus!
