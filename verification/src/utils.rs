use vstd::prelude::*;
use crate::decode::{Decode, Sources, SourcesView};
use crate::error::{outcome, TiledError, TiledErrorView};
use crate::json::{json_document, Json, JsonView};
use crate::layer::TileLayer;
use crate::map::{TiledMap, TiledMapView};
use crate::tile_set::{Internal, TileSetView};
use crate::{TileRect, Vec2};

verus! {

/// What a map document gives: `None` stands for a text that is not JSON.
pub open spec fn map_of(document: Option<JsonView>, sources: SourcesView) -> Result<
    TiledMapView,
    TiledErrorView,
> {
    match document {
        None => Err(TiledErrorView::Syntax),
        Some(j) => TiledMap::decoded(j, "map"@, sources),
    }
}

/// The global id `gid` belongs to the tile set `set`: it is not 0, and is
/// one of the `tile_count` ids from `first_gid` on.
pub open spec fn holds_gid(set: TileSetView, gid: u32) -> bool {
    gid != 0 && set.first_gid <= gid < set.first_gid + set.tile_count
}

/// The place of the first of `sets` that `gid` belongs to.
pub open spec fn set_of_gid(sets: Seq<TileSetView>, gid: u32) -> Option<int>
    decreases sets.len(),
{
    if sets.len() == 0 {
        None
    } else if holds_gid(sets[0], gid) {
        Some(0)
    } else {
        match set_of_gid(sets.drop_first(), gid) {
            Some(i) => Some(i + 1),
            None => None,
        }
    }
}

/// [`set_of_gid`] finds a set that `gid` belongs to, before which there is
/// no other; it finds none only where there is none. The id 0 belongs to no
/// set.
pub proof fn lemma_set_of_gid(sets: Seq<TileSetView>, gid: u32)
    ensures
        match set_of_gid(sets, gid) {
            Some(i) => 0 <= i < sets.len() && holds_gid(sets[i], gid) && forall|k: int|
                0 <= k < i ==> !holds_gid(#[trigger] sets[k], gid),
            None => forall|k: int| 0 <= k < sets.len() ==> !holds_gid(#[trigger] sets[k], gid),
        },
        gid == 0 ==> set_of_gid(sets, gid) is None,
    decreases sets.len(),
{
    if sets.len() > 0 {
        let rest = sets.drop_first();
        lemma_set_of_gid(rest, gid);
        if !holds_gid(sets[0], gid) {
            match set_of_gid(rest, gid) {
                Some(i) => {
                    assert(rest[i] == sets[i + 1]);
                    assert forall|k: int| 0 <= k < i + 1 implies !holds_gid(
                        #[trigger] sets[k],
                        gid,
                    ) by {
                        if k > 0 {
                            assert(sets[k] == rest[k - 1]);
                        }
                    }
                },
                None => {
                    assert forall|k: int| 0 <= k < sets.len() implies !holds_gid(
                        #[trigger] sets[k],
                        gid,
                    ) by {
                        if k > 0 {
                            assert(sets[k] == rest[k - 1]);
                        }
                    }
                },
            }
        }
    }
}

/// The tile set of `sets` that a global id is drawn from, and the id of
/// the tile within that set: the set that `gid` belongs to, with `gid`
/// less the first id of the set; or, where `gid` belongs to no set, the
/// first set, with `gid` itself.
pub open spec fn drawn_from(sets: Seq<TileSetView>, gid: u32) -> (int, int) {
    match set_of_gid(sets, gid) {
        Some(i) => (i, gid - sets[i].first_gid),
        None => (0, gid as int),
    }
}

/// The column of the tile `local_id` on the image of `set`, in pixels.
pub open spec fn image_x(set: TileSetView, local_id: int) -> int {
    (local_id % (set.columns as int)) * set.tile_width
}

/// The row of the tile `local_id` on the image of `set`, in pixels.
pub open spec fn image_y(set: TileSetView, local_id: int) -> int {
    (local_id / (set.columns as int)) * set.tile_height
}

/// The tile `local_id` of `set` can be placed on the image: the set has
/// columns, and the place fits the numbers of a [`TileRect`].
pub open spec fn on_image(set: TileSetView, local_id: int) -> bool {
    set.columns > 0 && image_x(set, local_id) <= i32::MAX && image_y(set, local_id) <= i32::MAX
}

impl TiledMap {
    /// Decodes a map, given the document that its text is; `None` stands
    /// for a text that is not JSON.
    pub fn from_document(document: Option<Json>, sources: &Sources) -> (r: Result<
        TiledMap,
        TiledError,
    >)
        ensures
            outcome(r) == map_of(document.deep_view(), sources@),
    {
        match document {
            None => Err(TiledError::Syntax),
            Some(j) => TiledMap::decode(&j, "map", sources),
        }
    }

    /// Decodes the map that the text `s` holds. `sources` hold the text of
    /// the files that the map refers to; a file that is not among them fails
    /// the load with `Reference` and its path.
    pub fn load_from_str(s: &str, sources: &Sources) -> (r: Result<TiledMap, TiledError>)
        ensures
            outcome(r) == map_of(json_document(s@), sources@),
    {
        TiledMap::from_document(Json::read(s), sources)
    }

    /// The first tile set that the global id `tile_gid` belongs to.
    pub fn tileset_index(&self, tile_gid: u32) -> (r: Option<usize>)
        ensures
            match r {
                Some(i) => set_of_gid(self.deep_view().tile_sets, tile_gid) == Some(i as int),
                None => set_of_gid(self.deep_view().tile_sets, tile_gid) is None,
            },
    {
        let ghost sets = self.deep_view().tile_sets;
        proof {
            lemma_set_of_gid(sets, tile_gid);
        }
        if tile_gid == 0 {
            return None;
        }
        let mut i: usize = 0;
        while i < self.tile_sets.len()
            invariant
                i <= self.tile_sets.len(),
                sets == self.deep_view().tile_sets,
                tile_gid != 0,
                forall|k: int| 0 <= k < i ==> !holds_gid(#[trigger] sets[k], tile_gid),
            decreases self.tile_sets.len() - i,
        {
            let set = &self.tile_sets[i];
            assert(sets[i as int] == set.deep_view());
            if tile_gid >= set.first_gid && tile_gid - set.first_gid < set.tile_count {
                proof {
                    lemma_set_of_gid(sets, tile_gid);
                }
                return Some(i);
            }
            i += 1;
        }
        None
    }

    /// The path of the image of the tile set that `tile_gid` belongs to
    pub fn tileset_image_path(&self, tile_gid: u32) -> (r: Option<&str>)
        ensures
            match set_of_gid(self.deep_view().tile_sets, tile_gid) {
                Some(i) => r matches Some(path) && path@ == self.deep_view().tile_sets[i].image,
                None => r is None,
            },
    {
        proof {
            lemma_set_of_gid(self.deep_view().tile_sets, tile_gid);
        }
        match self.tileset_index(tile_gid) {
            Some(i) => Some(self.tile_sets[i].image.as_str()),
            None => None,
        }
    }

    /// The name of the tile set that `tile_gid` belongs to
    pub fn tileset_name(&self, tile_gid: u32) -> (r: Option<&str>)
        ensures
            match set_of_gid(self.deep_view().tile_sets, tile_gid) {
                Some(i) => r matches Some(name) && name@ == self.deep_view().tile_sets[i].name,
                None => r is None,
            },
    {
        proof {
            lemma_set_of_gid(self.deep_view().tile_sets, tile_gid);
        }
        match self.tileset_index(tile_gid) {
            Some(i) => Some(self.tile_sets[i].name.as_str()),
            None => None,
        }
    }

    /// Where the tile `tile_gid` lies on the image of its tile set, and
    /// how large it is. A `tile_gid` that belongs to no tile set is looked
    /// up in the first one, as if it were local to it.
    pub fn tile_position_on_image(&self, tile_gid: u32) -> (r: TileRect)
        requires
            self.tile_sets.len() > 0,
            on_image(
                self.deep_view().tile_sets[drawn_from(self.deep_view().tile_sets, tile_gid).0],
                drawn_from(self.deep_view().tile_sets, tile_gid).1,
            ),
        ensures
            ({
                let sets = self.deep_view().tile_sets;
                let (i, local_id) = drawn_from(sets, tile_gid);
                r == (TileRect {
                    x: image_x(sets[i], local_id) as i32,
                    y: image_y(sets[i], local_id) as i32,
                    width: sets[i].tile_width,
                    height: sets[i].tile_height,
                })
            }),
    {
        proof {
            lemma_set_of_gid(self.deep_view().tile_sets, tile_gid);
        }
        match self.tileset_index(tile_gid) {
            Some(i) => {
                let set = self.tile_sets[i].internal();
                set.tile_position_on_image(tile_gid - set.first_gid)
            },
            None => self.tile_sets[0].internal().tile_position_on_image(tile_gid),
        }
    }

    /// Where the tile at place `count` of a layer's data lies on the map,
    /// in pixels. Both the column and the row are scaled by the *width* of
    /// a tile of the tile set that `tile_gid` is drawn from.
    pub fn tile_position_on_map(&self, count: u32, tile_gid: u32) -> (r: Vec2<u32>)
        requires
            self.tile_sets.len() > 0,
            self.width > 0,
            ({
                let sets = self.deep_view().tile_sets;
                let i = drawn_from(sets, tile_gid).0;
                (count % self.width) * sets[i].tile_width <= u32::MAX && (count / self.width)
                    * sets[i].tile_width <= u32::MAX
            }),
        ensures
            ({
                let sets = self.deep_view().tile_sets;
                let i = drawn_from(sets, tile_gid).0;
                r.x == (count % self.width) * sets[i].tile_width && r.y == (count / self.width)
                    * sets[i].tile_width
            }),
    {
        proof {
            lemma_set_of_gid(self.deep_view().tile_sets, tile_gid);
        }
        let i = match self.tileset_index(tile_gid) {
            Some(i) => i,
            None => 0,
        };
        let tile_width: u64 = self.tile_sets[i].tile_width as u64;
        assert(self.deep_view().tile_sets[i as int] == self.tile_sets[i as int].deep_view());
        let x = (count % self.width) as u64 * tile_width;
        let y = (count / self.width) as u64 * tile_width;
        Vec2 { x: x as u32, y: y as u32 }
    }
}

impl Internal {
    /// Where the tile `local_id` lies on the image of the tile set, and how
    /// large it is: the tiles are counted row by row, `columns` to a row.
    pub fn tile_position_on_image(&self, local_id: u32) -> (r: TileRect)
        requires
            on_image(self.deep_view(), local_id as int),
        ensures
            r == (TileRect {
                x: image_x(self.deep_view(), local_id as int) as i32,
                y: image_y(self.deep_view(), local_id as int) as i32,
                width: self.tile_width,
                height: self.tile_height,
            }),
    {
        let min_x = (local_id % self.columns) as u64 * (self.tile_width as u64);
        let min_y = (local_id / self.columns) as u64 * (self.tile_height as u64);
        TileRect {
            x: min_x as i32,
            y: min_y as i32,
            width: self.tile_width,
            height: self.tile_height,
        }
    }
}

impl TileLayer {
    /// The column and the row of the tile at place `count` of the layer's
    /// data. Multiply by the size of a tile for pixels.
    pub fn tile_position_on_layer(&self, count: u32) -> (r: Vec2<u32>)
        requires
            self.width > 0,
        ensures
            r.x == count % self.width,
            r.y == count / self.width,
    {
        let x = count % self.width;
        let y = count / self.width;
        Vec2 { x, y }
    }
}

} // verus!
