use vstd::prelude::*;
use crate::decode::{
    defaulted, defaulted_of, optional, optional_of, reads, required, required_of, Decode, Sources,
    SourcesView,
};
use crate::dict::Dict;
use crate::error::{malformed, outcome, TiledError, TiledErrorView};
use crate::json::{Json, JsonView};
use crate::layer::{layers_field, layers_field_of, Layer, LayerView};
use crate::parsers::Properties;
use crate::tile_set::{TileSet, TileSetView};
use crate::{Color, TiledValueView};

verus! {

/// A whole map: the root of the tree. It is made once, by decoding a
/// document, and owns everything below it.
#[derive(Debug, PartialEq)]
pub struct TiledMap {
    /// Defaults to 0,0,0,0 (rgba)
    pub background_color: Color,
    /// Length of the side of a hex tile in pixels
    pub hex_side_length: Option<u32>,
    /// Whether the map has no bounds
    pub infinite: bool,
    /// In the order in which they are painted: the first layer first.
    /// The layers of a group follow the same rule.
    pub layers: Vec<Layer>,
    pub orientation: Orientation,
    /// Rendering direction (orthogonal maps only)
    pub render_order: Option<RenderOrder>,
    /// `X` or `Y` (staggered / hexagonal maps only)
    pub stagger_axis: Option<StaggerAxis>,
    /// `Odd` or `Even` (staggered / hexagonal maps only)
    pub stagger_index: Option<StaggerIndex>,
    /// Height in pixels of a tile of this map
    pub tile_height: u32,
    /// Width in pixels of a tile of this map
    pub tile_width: u32,
    /// The number of tile rows of the map
    pub height: u32,
    /// The number of tile columns of the map
    pub width: u32,
    pub tile_sets: Vec<TileSet>,
    pub properties: Properties,
}

/// The mathematical value of a [`TiledMap`].
pub struct TiledMapView {
    pub background_color: Color,
    pub hex_side_length: Option<u32>,
    pub infinite: bool,
    pub layers: Seq<LayerView>,
    pub orientation: Orientation,
    pub render_order: Option<RenderOrder>,
    pub stagger_axis: Option<StaggerAxis>,
    pub stagger_index: Option<StaggerIndex>,
    pub tile_height: u32,
    pub tile_width: u32,
    pub height: u32,
    pub width: u32,
    pub tile_sets: Seq<TileSetView>,
    pub properties: Map<Seq<char>, TiledValueView>,
}

impl DeepView for TiledMap {
    type V = TiledMapView;

    open spec fn deep_view(&self) -> TiledMapView {
        TiledMapView {
            background_color: self.background_color,
            hex_side_length: self.hex_side_length,
            infinite: self.infinite,
            layers: self.layers.deep_view(),
            orientation: self.orientation,
            render_order: self.render_order,
            stagger_axis: self.stagger_axis,
            stagger_index: self.stagger_index,
            tile_height: self.tile_height,
            tile_width: self.tile_width,
            height: self.height,
            width: self.width,
            tile_sets: self.tile_sets.deep_view(),
            properties: self.properties@,
        }
    }
}

/// Rendering direction. Applies only to orthogonal maps
#[derive(Debug, PartialEq, Eq, Clone, Copy)]
pub enum RenderOrder {
    RightDown,
    RightUp,
    LeftDown,
    LeftUp,
}

/// Applies only to staggered or hexagonal maps
#[derive(Debug, PartialEq, Eq, Clone, Copy)]
pub enum StaggerAxis {
    X,
    Y,
}

/// Applies only to staggered or hexagonal maps
#[derive(Debug, PartialEq, Eq, Clone, Copy)]
pub enum StaggerIndex {
    Odd,
    Even,
}

/// The orientation of a map
#[derive(Debug, PartialEq, Eq, Clone, Copy)]
pub enum Orientation {
    Orthogonal,
    Isometric,
    Staggered,
    Hexagonal,
}

impl DeepView for RenderOrder {
    type V = RenderOrder;

    open spec fn deep_view(&self) -> RenderOrder {
        *self
    }
}

impl DeepView for StaggerAxis {
    type V = StaggerAxis;

    open spec fn deep_view(&self) -> StaggerAxis {
        *self
    }
}

impl DeepView for StaggerIndex {
    type V = StaggerIndex;

    open spec fn deep_view(&self) -> StaggerIndex {
        *self
    }
}

impl DeepView for Orientation {
    type V = Orientation;

    open spec fn deep_view(&self) -> Orientation {
        *self
    }
}

impl Decode for RenderOrder {
    /// `"right-down"`, `"right-up"`, `"left-down"` or `"left-up"`.
    open spec fn decoded(j: JsonView, key: Seq<char>, sources: SourcesView) -> Result<
        RenderOrder,
        TiledErrorView,
    > {
        match j {
            JsonView::String(s) => if s == "right-down"@ {
                Ok(RenderOrder::RightDown)
            } else if s == "right-up"@ {
                Ok(RenderOrder::RightUp)
            } else if s == "left-down"@ {
                Ok(RenderOrder::LeftDown)
            } else if s == "left-up"@ {
                Ok(RenderOrder::LeftUp)
            } else {
                malformed(key)
            },
            _ => malformed(key),
        }
    }

    fn decode(j: &Json, key: &str, sources: &Sources) -> (r: Result<RenderOrder, TiledError>) {
        match j {
            Json::String(s) => if reads(s, "right-down") {
                Ok(RenderOrder::RightDown)
            } else if reads(s, "right-up") {
                Ok(RenderOrder::RightUp)
            } else if reads(s, "left-down") {
                Ok(RenderOrder::LeftDown)
            } else if reads(s, "left-up") {
                Ok(RenderOrder::LeftUp)
            } else {
                Err(TiledError::format(key))
            },
            _ => Err(TiledError::format(key)),
        }
    }
}

impl Decode for StaggerAxis {
    /// `"x"` or `"y"`.
    open spec fn decoded(j: JsonView, key: Seq<char>, sources: SourcesView) -> Result<
        StaggerAxis,
        TiledErrorView,
    > {
        match j {
            JsonView::String(s) => if s == "x"@ {
                Ok(StaggerAxis::X)
            } else if s == "y"@ {
                Ok(StaggerAxis::Y)
            } else {
                malformed(key)
            },
            _ => malformed(key),
        }
    }

    fn decode(j: &Json, key: &str, sources: &Sources) -> (r: Result<StaggerAxis, TiledError>) {
        match j {
            Json::String(s) => if reads(s, "x") {
                Ok(StaggerAxis::X)
            } else if reads(s, "y") {
                Ok(StaggerAxis::Y)
            } else {
                Err(TiledError::format(key))
            },
            _ => Err(TiledError::format(key)),
        }
    }
}

impl Decode for StaggerIndex {
    /// `"odd"` or `"even"`.
    open spec fn decoded(j: JsonView, key: Seq<char>, sources: SourcesView) -> Result<
        StaggerIndex,
        TiledErrorView,
    > {
        match j {
            JsonView::String(s) => if s == "odd"@ {
                Ok(StaggerIndex::Odd)
            } else if s == "even"@ {
                Ok(StaggerIndex::Even)
            } else {
                malformed(key)
            },
            _ => malformed(key),
        }
    }

    fn decode(j: &Json, key: &str, sources: &Sources) -> (r: Result<StaggerIndex, TiledError>) {
        match j {
            Json::String(s) => if reads(s, "odd") {
                Ok(StaggerIndex::Odd)
            } else if reads(s, "even") {
                Ok(StaggerIndex::Even)
            } else {
                Err(TiledError::format(key))
            },
            _ => Err(TiledError::format(key)),
        }
    }
}

impl Decode for Orientation {
    /// `"orthogonal"`, `"isometric"`, `"staggered"` or `"hexagonal"`.
    open spec fn decoded(j: JsonView, key: Seq<char>, sources: SourcesView) -> Result<
        Orientation,
        TiledErrorView,
    > {
        match j {
            JsonView::String(s) => if s == "orthogonal"@ {
                Ok(Orientation::Orthogonal)
            } else if s == "isometric"@ {
                Ok(Orientation::Isometric)
            } else if s == "staggered"@ {
                Ok(Orientation::Staggered)
            } else if s == "hexagonal"@ {
                Ok(Orientation::Hexagonal)
            } else {
                malformed(key)
            },
            _ => malformed(key),
        }
    }

    fn decode(j: &Json, key: &str, sources: &Sources) -> (r: Result<Orientation, TiledError>) {
        match j {
            Json::String(s) => if reads(s, "orthogonal") {
                Ok(Orientation::Orthogonal)
            } else if reads(s, "isometric") {
                Ok(Orientation::Isometric)
            } else if reads(s, "staggered") {
                Ok(Orientation::Staggered)
            } else if reads(s, "hexagonal") {
                Ok(Orientation::Hexagonal)
            } else {
                Err(TiledError::format(key))
            },
            _ => Err(TiledError::format(key)),
        }
    }
}

impl Decode for TiledMap {
    /// `layers`, `orientation`, `tileheight`, `tilewidth`, `height`, `width`
    /// and `tilesets` must be there. `backgroundcolor` is transparent black,
    /// `infinite` is `false` and `properties` are empty where they are
    /// absent; `hexsidelength`, `renderorder`, `staggeraxis` and
    /// `staggerindex` may be absent. Which of these go with which
    /// orientation is not checked.
    open spec fn decoded(j: JsonView, key: Seq<char>, sources: SourcesView) -> Result<
        TiledMapView,
        TiledErrorView,
    > {
        let background_color = defaulted_of::<Color>(
            j,
            "backgroundcolor"@,
            sources,
            Color(0, 0, 0, 0),
        );
        let hex_side_length = optional_of::<u32>(j, "hexsidelength"@, sources);
        let infinite = defaulted_of::<bool>(j, "infinite"@, sources, false);
        let layers = layers_field_of(j, sources);
        let orientation = required_of::<Orientation>(j, "orientation"@, sources);
        let render_order = optional_of::<RenderOrder>(j, "renderorder"@, sources);
        let stagger_axis = optional_of::<StaggerAxis>(j, "staggeraxis"@, sources);
        let stagger_index = optional_of::<StaggerIndex>(j, "staggerindex"@, sources);
        let tile_height = required_of::<u32>(j, "tileheight"@, sources);
        let tile_width = required_of::<u32>(j, "tilewidth"@, sources);
        let height = required_of::<u32>(j, "height"@, sources);
        let width = required_of::<u32>(j, "width"@, sources);
        let tile_sets = required_of::<Vec<TileSet>>(j, "tilesets"@, sources);
        let properties = defaulted_of::<Properties>(j, "properties"@, sources, Map::empty());
        if !(j is Object) {
            malformed(key)
        } else if background_color is Err {
            Err(background_color->Err_0)
        } else if hex_side_length is Err {
            Err(hex_side_length->Err_0)
        } else if infinite is Err {
            Err(infinite->Err_0)
        } else if layers is Err {
            Err(layers->Err_0)
        } else if orientation is Err {
            Err(orientation->Err_0)
        } else if render_order is Err {
            Err(render_order->Err_0)
        } else if stagger_axis is Err {
            Err(stagger_axis->Err_0)
        } else if stagger_index is Err {
            Err(stagger_index->Err_0)
        } else if tile_height is Err {
            Err(tile_height->Err_0)
        } else if tile_width is Err {
            Err(tile_width->Err_0)
        } else if height is Err {
            Err(height->Err_0)
        } else if width is Err {
            Err(width->Err_0)
        } else if tile_sets is Err {
            Err(tile_sets->Err_0)
        } else if properties is Err {
            Err(properties->Err_0)
        } else {
            Ok(
                TiledMapView {
                    background_color: background_color->Ok_0,
                    hex_side_length: hex_side_length->Ok_0,
                    infinite: infinite->Ok_0,
                    layers: layers->Ok_0,
                    orientation: orientation->Ok_0,
                    render_order: render_order->Ok_0,
                    stagger_axis: stagger_axis->Ok_0,
                    stagger_index: stagger_index->Ok_0,
                    tile_height: tile_height->Ok_0,
                    tile_width: tile_width->Ok_0,
                    height: height->Ok_0,
                    width: width->Ok_0,
                    tile_sets: tile_sets->Ok_0,
                    properties: properties->Ok_0,
                },
            )
        }
    }

    fn decode(j: &Json, key: &str, sources: &Sources) -> (r: Result<TiledMap, TiledError>) {
        if !j.is_object() {
            return Err(TiledError::format(key));
        }
        let background_color = defaulted::<Color>(
            j,
            "backgroundcolor",
            sources,
            Color(0, 0, 0, 0),
        )?;
        let hex_side_length = optional::<u32>(j, "hexsidelength", sources)?;
        let infinite = defaulted::<bool>(j, "infinite", sources, false)?;
        let layers = layers_field(j, sources)?;
        let orientation = required::<Orientation>(j, "orientation", sources)?;
        let render_order = optional::<RenderOrder>(j, "renderorder", sources)?;
        let stagger_axis = optional::<StaggerAxis>(j, "staggeraxis", sources)?;
        let stagger_index = optional::<StaggerIndex>(j, "staggerindex", sources)?;
        let tile_height = required::<u32>(j, "tileheight", sources)?;
        let tile_width = required::<u32>(j, "tilewidth", sources)?;
        let height = required::<u32>(j, "height", sources)?;
        let width = required::<u32>(j, "width", sources)?;
        let tile_sets = required::<Vec<TileSet>>(j, "tilesets", sources)?;
        let properties = defaulted::<Properties>(j, "properties", sources, Dict::new())?;
        Ok(
            TiledMap {
                background_color,
                hex_side_length,
                infinite,
                layers,
                orientation,
                render_order,
                stagger_axis,
                stagger_index,
                tile_height,
                tile_width,
                height,
                width,
                tile_sets,
                properties,
            },
        )
    }
}

} // verus!
