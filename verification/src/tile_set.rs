use vstd::prelude::*;
use crate::decode::{
    defaulted, defaulted_of, optional, optional_of, required, required_of, Decode, Sources,
    SourcesView,
};
use crate::dict::Dict;
use crate::error::{malformed, outcome, TiledError, TiledErrorView};
use crate::json::{json_document, Json, JsonView};
use crate::layer::{ObjectGroup, ObjectGroupView};
use crate::parsers::Properties;
use crate::wangs::{WangSet, WangSetView};
use crate::{Color, TiledValueView, Vec2};

verus! {

/// A tile set: an image cut into tiles, and what is known of each tile.
///
/// A map holds a tile set itself, or names a file that holds it. Either way
/// the decoded map holds the whole tile set; of a tile set from a file only
/// `first_gid` comes from the map.
#[derive(Debug, PartialEq, Clone)]
pub struct TileSet {
    /// How many tiles the image holds side by side
    pub columns: u32,
    /// Global id of the first tile of the set
    pub first_gid: u32,
    /// Path of the image, as the document wrote it
    pub image: String,
    pub image_width: u32,
    pub image_height: u32,
    /// Pixels between the edge of the image and the first tile
    pub margin: u32,
    /// Pixels between tiles next to each other
    pub spacing: u32,
    pub name: String,
    pub properties: Properties,
    pub terrains: Option<Vec<Terrain>>,
    /// The global ids of the set are `first_gid` and the `tile_count - 1`
    /// that follow it
    pub tile_count: u32,
    pub tile_height: u32,
    pub tile_width: u32,
    /// Offset in pixels at which the tiles of the set are drawn
    pub tile_offset: Option<Vec2<i32>>,
    /// What is known of single tiles, such as terrain or animation
    pub tiles: Option<Vec<Tile>>,
    /// Defaults to 0,0,0,0 (rgba)
    pub transparent_color: Color,
    pub wang_sets: Option<Vec<WangSet>>,
}

/// A tile set that holds its whole definition, which every decoded tile
/// set does.
pub type Internal = TileSet;

/// The mathematical value of a [`TileSet`].
pub struct TileSetView {
    pub columns: u32,
    pub first_gid: u32,
    pub image: Seq<char>,
    pub image_width: u32,
    pub image_height: u32,
    pub margin: u32,
    pub spacing: u32,
    pub name: Seq<char>,
    pub properties: Map<Seq<char>, TiledValueView>,
    pub terrains: Option<Seq<TerrainView>>,
    pub tile_count: u32,
    pub tile_height: u32,
    pub tile_width: u32,
    pub tile_offset: Option<Vec2<i32>>,
    pub tiles: Option<Seq<TileView>>,
    pub transparent_color: Color,
    pub wang_sets: Option<Seq<WangSetView>>,
}

impl DeepView for TileSet {
    type V = TileSetView;

    open spec fn deep_view(&self) -> TileSetView {
        TileSetView {
            columns: self.columns,
            first_gid: self.first_gid,
            image: self.image@,
            image_width: self.image_width,
            image_height: self.image_height,
            margin: self.margin,
            spacing: self.spacing,
            name: self.name@,
            properties: self.properties@,
            terrains: self.terrains.deep_view(),
            tile_count: self.tile_count,
            tile_height: self.tile_height,
            tile_width: self.tile_width,
            tile_offset: self.tile_offset.deep_view(),
            tiles: self.tiles.deep_view(),
            transparent_color: self.transparent_color,
            wang_sets: self.wang_sets.deep_view(),
        }
    }
}

/// What is known of one tile of a tile set.
#[derive(Debug, PartialEq, Clone)]
pub struct Tile {
    pub animation: Option<Vec<Frame>>,
    /// Local to the tile set, so from 0 on; the ids that layers use are
    /// global and start at 1, with 0 for no tile.
    pub id: u32,
    /// Image of this tile, where it has one of its own
    pub image: Option<String>,
    /// Width of the tile's image in pixels
    pub image_width: u32,
    /// Height of the tile's image in pixels
    pub image_height: u32,
    pub object_group: Option<ObjectGroup>,
    pub properties: Properties,
    /// Indexes into the terrains of the tile set, for the corners of the
    /// tile: top-left, top-right, bottom-left, bottom-right
    pub terrain: Option<[i8; 4]>,
    pub tile_type: Option<String>,
}

/// The mathematical value of a [`Tile`].
pub struct TileView {
    pub animation: Option<Seq<Frame>>,
    pub id: u32,
    pub image: Option<Seq<char>>,
    pub image_width: u32,
    pub image_height: u32,
    pub object_group: Option<ObjectGroupView>,
    pub properties: Map<Seq<char>, TiledValueView>,
    pub terrain: Option<Seq<i8>>,
    pub tile_type: Option<Seq<char>>,
}

impl DeepView for Tile {
    type V = TileView;

    open spec fn deep_view(&self) -> TileView {
        TileView {
            animation: self.animation.deep_view(),
            id: self.id,
            image: self.image.deep_view(),
            image_width: self.image_width,
            image_height: self.image_height,
            object_group: self.object_group.deep_view(),
            properties: self.properties@,
            terrain: self.terrain.deep_view(),
            tile_type: self.tile_type.deep_view(),
        }
    }
}

/// One frame of an animation.
#[derive(Debug, PartialEq, Eq, Clone, Copy)]
pub struct Frame {
    /// Frame duration in milliseconds
    pub duration: u32,
    /// Local id of the tile that the frame shows
    pub tile_id: u32,
}

impl DeepView for Frame {
    type V = Frame;

    open spec fn deep_view(&self) -> Frame {
        *self
    }
}

#[derive(Debug, PartialEq, Eq, Clone)]
pub struct Terrain {
    pub name: String,
    /// Local id of the tile that stands for the terrain
    pub tile: u32,
}

/// The mathematical value of a [`Terrain`].
pub struct TerrainView {
    pub name: Seq<char>,
    pub tile: u32,
}

impl DeepView for Terrain {
    type V = TerrainView;

    open spec fn deep_view(&self) -> TerrainView {
        TerrainView { name: self.name@, tile: self.tile }
    }
}

impl Decode for Frame {
    /// Both `duration` and `tileid` must be there.
    open spec fn decoded(j: JsonView, key: Seq<char>, sources: SourcesView) -> Result<
        Frame,
        TiledErrorView,
    > {
        let duration = required_of::<u32>(j, "duration"@, sources);
        let tile_id = required_of::<u32>(j, "tileid"@, sources);
        if !(j is Object) {
            malformed(key)
        } else if duration is Err {
            Err(duration->Err_0)
        } else if tile_id is Err {
            Err(tile_id->Err_0)
        } else {
            Ok(Frame { duration: duration->Ok_0, tile_id: tile_id->Ok_0 })
        }
    }

    fn decode(j: &Json, key: &str, sources: &Sources) -> (r: Result<Frame, TiledError>) {
        if !j.is_object() {
            return Err(TiledError::format(key));
        }
        let duration = required::<u32>(j, "duration", sources)?;
        let tile_id = required::<u32>(j, "tileid", sources)?;
        Ok(Frame { duration, tile_id })
    }
}

impl Decode for Terrain {
    /// Both `name` and `tile` must be there.
    open spec fn decoded(j: JsonView, key: Seq<char>, sources: SourcesView) -> Result<
        TerrainView,
        TiledErrorView,
    > {
        let name = required_of::<String>(j, "name"@, sources);
        let tile = required_of::<u32>(j, "tile"@, sources);
        if !(j is Object) {
            malformed(key)
        } else if name is Err {
            Err(name->Err_0)
        } else if tile is Err {
            Err(tile->Err_0)
        } else {
            Ok(TerrainView { name: name->Ok_0, tile: tile->Ok_0 })
        }
    }

    fn decode(j: &Json, key: &str, sources: &Sources) -> (r: Result<Terrain, TiledError>) {
        if !j.is_object() {
            return Err(TiledError::format(key));
        }
        let name = required::<String>(j, "name", sources)?;
        let tile = required::<u32>(j, "tile", sources)?;
        Ok(Terrain { name, tile })
    }
}

impl Decode for Tile {
    /// `id` must be there. `imagewidth` and `imageheight` are 0 and
    /// `properties` empty where they are absent; the rest may be absent.
    open spec fn decoded(j: JsonView, key: Seq<char>, sources: SourcesView) -> Result<
        TileView,
        TiledErrorView,
    > {
        let animation = optional_of::<Vec<Frame>>(j, "animation"@, sources);
        let id = required_of::<u32>(j, "id"@, sources);
        let image = optional_of::<String>(j, "image"@, sources);
        let image_width = defaulted_of::<u32>(j, "imagewidth"@, sources, 0);
        let image_height = defaulted_of::<u32>(j, "imageheight"@, sources, 0);
        let object_group = optional_of::<ObjectGroup>(j, "objectgroup"@, sources);
        let properties = defaulted_of::<Properties>(j, "properties"@, sources, Map::empty());
        let terrain = optional_of::<[i8; 4]>(j, "terrain"@, sources);
        let tile_type = optional_of::<String>(j, "type"@, sources);
        if !(j is Object) {
            malformed(key)
        } else if animation is Err {
            Err(animation->Err_0)
        } else if id is Err {
            Err(id->Err_0)
        } else if image is Err {
            Err(image->Err_0)
        } else if image_width is Err {
            Err(image_width->Err_0)
        } else if image_height is Err {
            Err(image_height->Err_0)
        } else if object_group is Err {
            Err(object_group->Err_0)
        } else if properties is Err {
            Err(properties->Err_0)
        } else if terrain is Err {
            Err(terrain->Err_0)
        } else if tile_type is Err {
            Err(tile_type->Err_0)
        } else {
            Ok(
                TileView {
                    animation: animation->Ok_0,
                    id: id->Ok_0,
                    image: image->Ok_0,
                    image_width: image_width->Ok_0,
                    image_height: image_height->Ok_0,
                    object_group: object_group->Ok_0,
                    properties: properties->Ok_0,
                    terrain: terrain->Ok_0,
                    tile_type: tile_type->Ok_0,
                },
            )
        }
    }

    fn decode(j: &Json, key: &str, sources: &Sources) -> (r: Result<Tile, TiledError>) {
        if !j.is_object() {
            return Err(TiledError::format(key));
        }
        let animation = optional::<Vec<Frame>>(j, "animation", sources)?;
        let id = required::<u32>(j, "id", sources)?;
        let image = optional::<String>(j, "image", sources)?;
        let image_width = defaulted::<u32>(j, "imagewidth", sources, 0)?;
        let image_height = defaulted::<u32>(j, "imageheight", sources, 0)?;
        let object_group = optional::<ObjectGroup>(j, "objectgroup", sources)?;
        let properties = defaulted::<Properties>(j, "properties", sources, Dict::new())?;
        let terrain = optional::<[i8; 4]>(j, "terrain", sources)?;
        let tile_type = optional::<String>(j, "type", sources)?;
        Ok(
            Tile {
                animation,
                id,
                image,
                image_width,
                image_height,
                object_group,
                properties,
                terrain,
                tile_type,
            },
        )
    }
}

/// What a record gives that holds a whole tile set.
///
/// `columns`, `image`, `imagewidth`, `imageheight`, `margin`, `spacing`,
/// `name`, `tilecount`, `tileheight` and `tilewidth` must be there.
/// `firstgid` is 0, `properties` are empty and `transparentcolor` is
/// transparent black where they are absent; `terrains`, `tileoffset`,
/// `tiles` and `wangsets` may be absent.
pub open spec fn internal_of(j: JsonView, key: Seq<char>, sources: SourcesView) -> Result<
    TileSetView,
    TiledErrorView,
> {
    let columns = required_of::<u32>(j, "columns"@, sources);
    let first_gid = defaulted_of::<u32>(j, "firstgid"@, sources, 0);
    let image = required_of::<String>(j, "image"@, sources);
    let image_width = required_of::<u32>(j, "imagewidth"@, sources);
    let image_height = required_of::<u32>(j, "imageheight"@, sources);
    let margin = required_of::<u32>(j, "margin"@, sources);
    let spacing = required_of::<u32>(j, "spacing"@, sources);
    let name = required_of::<String>(j, "name"@, sources);
    let properties = defaulted_of::<Properties>(j, "properties"@, sources, Map::empty());
    let terrains = optional_of::<Vec<Terrain>>(j, "terrains"@, sources);
    let tile_count = required_of::<u32>(j, "tilecount"@, sources);
    let tile_height = required_of::<u32>(j, "tileheight"@, sources);
    let tile_width = required_of::<u32>(j, "tilewidth"@, sources);
    let tile_offset = optional_of::<Vec2<i32>>(j, "tileoffset"@, sources);
    let tiles = optional_of::<Vec<Tile>>(j, "tiles"@, sources);
    let transparent_color = defaulted_of::<Color>(
        j,
        "transparentcolor"@,
        sources,
        Color(0, 0, 0, 0),
    );
    let wang_sets = optional_of::<Vec<WangSet>>(j, "wangsets"@, sources);
    if !(j is Object) {
        malformed(key)
    } else if columns is Err {
        Err(columns->Err_0)
    } else if first_gid is Err {
        Err(first_gid->Err_0)
    } else if image is Err {
        Err(image->Err_0)
    } else if image_width is Err {
        Err(image_width->Err_0)
    } else if image_height is Err {
        Err(image_height->Err_0)
    } else if margin is Err {
        Err(margin->Err_0)
    } else if spacing is Err {
        Err(spacing->Err_0)
    } else if name is Err {
        Err(name->Err_0)
    } else if properties is Err {
        Err(properties->Err_0)
    } else if terrains is Err {
        Err(terrains->Err_0)
    } else if tile_count is Err {
        Err(tile_count->Err_0)
    } else if tile_height is Err {
        Err(tile_height->Err_0)
    } else if tile_width is Err {
        Err(tile_width->Err_0)
    } else if tile_offset is Err {
        Err(tile_offset->Err_0)
    } else if tiles is Err {
        Err(tiles->Err_0)
    } else if transparent_color is Err {
        Err(transparent_color->Err_0)
    } else if wang_sets is Err {
        Err(wang_sets->Err_0)
    } else {
        Ok(
            TileSetView {
                columns: columns->Ok_0,
                first_gid: first_gid->Ok_0,
                image: image->Ok_0,
                image_width: image_width->Ok_0,
                image_height: image_height->Ok_0,
                margin: margin->Ok_0,
                spacing: spacing->Ok_0,
                name: name->Ok_0,
                properties: properties->Ok_0,
                terrains: terrains->Ok_0,
                tile_count: tile_count->Ok_0,
                tile_height: tile_height->Ok_0,
                tile_width: tile_width->Ok_0,
                tile_offset: tile_offset->Ok_0,
                tiles: tiles->Ok_0,
                transparent_color: transparent_color->Ok_0,
                wang_sets: wang_sets->Ok_0,
            },
        )
    }
}

/// What a record gives that names the file of a tile set: the first global
/// id and the path. Both `firstgid` and `source` must be there.
pub open spec fn tile_set_reference_of(j: JsonView, key: Seq<char>) -> Result<
    (u32, Seq<char>),
    TiledErrorView,
> {
    let none = Map::<Seq<char>, Seq<char>>::empty();
    let first_gid = required_of::<u32>(j, "firstgid"@, none);
    let source = required_of::<String>(j, "source"@, none);
    if !(j is Object) {
        malformed(key)
    } else if first_gid is Err {
        Err(first_gid->Err_0)
    } else if source is Err {
        Err(source->Err_0)
    } else {
        Ok((first_gid->Ok_0, source->Ok_0))
    }
}

/// What the text of a tile-set file gives to a map that refers to it with
/// `first_gid`: the whole tile set that the text holds, with `first_gid`
/// in the place of whatever first global id the file may name.
pub open spec fn external_of(document: Option<JsonView>, first_gid: u32, sources: SourcesView) -> Result<
    TileSetView,
    TiledErrorView,
> {
    match document {
        None => Err(TiledErrorView::Syntax),
        Some(j) => match internal_of(j, "source"@, sources) {
            Err(e) => Err(e),
            Ok(set) => Ok(TileSetView { first_gid, ..set }),
        },
    }
}

/// What the tile-set record `j` decodes to.
///
/// A record that holds a whole tile set is taken as it stands. Where it
/// does not because a field of it is missing or malformed, it must name
/// the file of a tile set, or the failure is `AmbiguousShape`. The file
/// must be among the sources, or the failure is `Reference` with its path;
/// what is wrong with the file's text fails the tile set. Any other failure
/// inside a record that holds a whole tile set fails the tile set as it is.
pub open spec fn tile_set_of(j: JsonView, key: Seq<char>, sources: SourcesView) -> Result<
    TileSetView,
    TiledErrorView,
> {
    let inline = internal_of(j, key, sources);
    let reference = tile_set_reference_of(j, key);
    if inline is Ok {
        inline
    } else if !(inline->Err_0 is Format) {
        inline
    } else if reference is Err {
        Err(TiledErrorView::AmbiguousShape)
    } else if !sources.dom().contains(reference->Ok_0.1) {
        Err(TiledErrorView::Reference(reference->Ok_0.1))
    } else {
        external_of(json_document(sources[reference->Ok_0.1]), reference->Ok_0.0, sources)
    }
}

/// A tile set that comes from a file has the first global id of the record
/// that names the file, whatever the file says; everything else is what
/// the file holds.
pub proof fn lemma_reference_gives_first_gid(j: JsonView, key: Seq<char>, sources: SourcesView)
    requires
        internal_of(j, key, sources) is Err,
        tile_set_of(j, key, sources) is Ok,
    ensures
        tile_set_reference_of(j, key) is Ok,
        required_of::<u32>(j, "firstgid"@, Map::empty()) == Ok::<u32, TiledErrorView>(
            tile_set_of(j, key, sources)->Ok_0.first_gid,
        ),
        ({
            let path = tile_set_reference_of(j, key)->Ok_0.1;
            let document = json_document(sources[path]);
            let held = internal_of(document->Some_0, "source"@, sources);
            &&& sources.dom().contains(path)
            &&& document is Some
            &&& held is Ok
            &&& tile_set_of(j, key, sources)->Ok_0 == TileSetView {
                first_gid: tile_set_of(j, key, sources)->Ok_0.first_gid,
                ..held->Ok_0
            }
        }),
{
}

fn tile_set_reference(j: &Json, key: &str) -> (r: Result<(u32, String), TiledError>)
    ensures
        outcome(r) == tile_set_reference_of(j@, key@),
{
    let none: Sources = Dict::new();
    if !j.is_object() {
        return Err(TiledError::format(key));
    }
    let first_gid = required::<u32>(j, "firstgid", &none)?;
    let source = required::<String>(j, "source", &none)?;
    Ok((first_gid, source))
}

impl TileSet {
    /// The tile set itself: every decoded tile set holds its whole
    /// definition.
    pub fn internal(&self) -> (set: &Internal)
        ensures
            set == self,
    {
        self
    }

    /// Decodes a record that holds a whole tile set.
    pub fn from_record(j: &Json, key: &str, sources: &Sources) -> (r: Result<TileSet, TiledError>)
        ensures
            outcome(r) == internal_of(j@, key@, sources@),
    {
        if !j.is_object() {
            return Err(TiledError::format(key));
        }
        let columns = required::<u32>(j, "columns", sources)?;
        let first_gid = defaulted::<u32>(j, "firstgid", sources, 0)?;
        let image = required::<String>(j, "image", sources)?;
        let image_width = required::<u32>(j, "imagewidth", sources)?;
        let image_height = required::<u32>(j, "imageheight", sources)?;
        let margin = required::<u32>(j, "margin", sources)?;
        let spacing = required::<u32>(j, "spacing", sources)?;
        let name = required::<String>(j, "name", sources)?;
        let properties = defaulted::<Properties>(j, "properties", sources, Dict::new())?;
        let terrains = optional::<Vec<Terrain>>(j, "terrains", sources)?;
        let tile_count = required::<u32>(j, "tilecount", sources)?;
        let tile_height = required::<u32>(j, "tileheight", sources)?;
        let tile_width = required::<u32>(j, "tilewidth", sources)?;
        let tile_offset = optional::<Vec2<i32>>(j, "tileoffset", sources)?;
        let tiles = optional::<Vec<Tile>>(j, "tiles", sources)?;
        let transparent_color = defaulted::<Color>(
            j,
            "transparentcolor",
            sources,
            Color(0, 0, 0, 0),
        )?;
        let wang_sets = optional::<Vec<WangSet>>(j, "wangsets", sources)?;
        Ok(
            TileSet {
                columns,
                first_gid,
                image,
                image_width,
                image_height,
                margin,
                spacing,
                name,
                properties,
                terrains,
                tile_count,
                tile_height,
                tile_width,
                tile_offset,
                tiles,
                transparent_color,
                wang_sets,
            },
        )
    }

    /// Decodes what a tile-set file holds for a map that refers to it with
    /// `first_gid`, given the document that its text is; `None` stands for a
    /// text that is not JSON.
    pub fn from_file(document: Option<Json>, first_gid: u32, sources: &Sources) -> (r: Result<
        TileSet,
        TiledError,
    >)
        ensures
            outcome(r) == external_of(document.deep_view(), first_gid, sources@),
    {
        match document {
            None => Err(TiledError::Syntax),
            Some(j) => {
                let mut set = TileSet::from_record(&j, "source", sources)?;
                set.first_gid = first_gid;
                Ok(set)
            },
        }
    }
}

impl Decode for TileSet {
    open spec fn decoded(j: JsonView, key: Seq<char>, sources: SourcesView) -> Result<
        TileSetView,
        TiledErrorView,
    > {
        tile_set_of(j, key, sources)
    }

    fn decode(j: &Json, key: &str, sources: &Sources) -> (r: Result<TileSet, TiledError>) {
        match TileSet::from_record(j, key, sources) {
            Ok(set) => Ok(set),
            Err(TiledError::Format(_)) => match tile_set_reference(j, key) {
                Err(_) => Err(TiledError::AmbiguousShape),
                Ok(found) => {
                    let (first_gid, path) = found;
                    match sources.get(path.as_str()) {
                        None => Err(TiledError::Reference(path)),
                        Some(text) => TileSet::from_file(
                            Json::read(text.as_str()),
                            first_gid,
                            sources,
                        ),
                    }
                },
            },
            Err(e) => Err(e),
        }
    }
}

} // verus!
