use vstd::prelude::*;
use crate::decode::{required, required_of, Decode, Sources, SourcesView};
use crate::error::{malformed, TiledError, TiledErrorView};
use crate::json::{Json, JsonView, Number};
use crate::Color;

verus! {

/// Data set for Wang tiles.
///
/// Wang tiles are akin to terrains, but meant for filling larger areas
/// without repetition: the edges and corners of the tiles of a tile set get
/// colours, which an editor uses to pick tiles that fit their neighbours.
#[derive(Debug, PartialEq, Clone)]
pub struct WangSet {
    pub corner_colors: Vec<WangColor>,
    pub edge_colors: Vec<WangColor>,
    pub name: String,
    /// Local ID of the tile that stands for the set
    pub tile: u32,
    pub wang_tiles: Vec<WangTile>,
}

/// The mathematical value of a [`WangSet`].
pub struct WangSetView {
    pub corner_colors: Seq<WangColorView>,
    pub edge_colors: Seq<WangColorView>,
    pub name: Seq<char>,
    pub tile: u32,
    pub wang_tiles: Seq<WangTileView>,
}

impl DeepView for WangSet {
    type V = WangSetView;

    open spec fn deep_view(&self) -> WangSetView {
        WangSetView {
            corner_colors: self.corner_colors.deep_view(),
            edge_colors: self.edge_colors.deep_view(),
            name: self.name@,
            tile: self.tile,
            wang_tiles: self.wang_tiles.deep_view(),
        }
    }
}

#[derive(Debug, PartialEq, Clone)]
pub struct WangColor {
    pub color: Color,
    pub name: String,
    /// Probability used when randomizing, as the document wrote it
    pub probability: Number,
    /// Local ID of the tile that stands for the colour
    pub tile: u32,
}

/// The mathematical value of a [`WangColor`].
pub struct WangColorView {
    pub color: Color,
    pub name: Seq<char>,
    pub probability: Number,
    pub tile: u32,
}

impl DeepView for WangColor {
    type V = WangColorView;

    open spec fn deep_view(&self) -> WangColorView {
        WangColorView {
            color: self.color,
            name: self.name@,
            probability: self.probability,
            tile: self.tile,
        }
    }
}

#[derive(Debug, PartialEq, Eq, Clone)]
pub struct WangTile {
    /// Tile is flipped diagonally
    pub d_flip: bool,
    /// Tile is flipped horizontally
    pub h_flip: bool,
    /// Tile is flipped vertically
    pub v_flip: bool,
    /// Local ID of tile
    pub tile_id: u32,
    /// Wang colour indexes
    pub wang_id: Vec<u8>,
}

/// The mathematical value of a [`WangTile`].
pub struct WangTileView {
    pub d_flip: bool,
    pub h_flip: bool,
    pub v_flip: bool,
    pub tile_id: u32,
    pub wang_id: Seq<u8>,
}

impl DeepView for WangTile {
    type V = WangTileView;

    open spec fn deep_view(&self) -> WangTileView {
        WangTileView {
            d_flip: self.d_flip,
            h_flip: self.h_flip,
            v_flip: self.v_flip,
            tile_id: self.tile_id,
            wang_id: self.wang_id.deep_view(),
        }
    }
}

impl Decode for WangTile {
    /// All five fields must be there: `dflip`, `hflip`, `vflip`, `tileid`
    /// and `wangid`.
    open spec fn decoded(j: JsonView, key: Seq<char>, sources: SourcesView) -> Result<
        WangTileView,
        TiledErrorView,
    > {
        let d_flip = required_of::<bool>(j, "dflip"@, sources);
        let h_flip = required_of::<bool>(j, "hflip"@, sources);
        let v_flip = required_of::<bool>(j, "vflip"@, sources);
        let tile_id = required_of::<u32>(j, "tileid"@, sources);
        let wang_id = required_of::<Vec<u8>>(j, "wangid"@, sources);
        if !(j is Object) {
            malformed(key)
        } else if d_flip is Err {
            Err(d_flip->Err_0)
        } else if h_flip is Err {
            Err(h_flip->Err_0)
        } else if v_flip is Err {
            Err(v_flip->Err_0)
        } else if tile_id is Err {
            Err(tile_id->Err_0)
        } else if wang_id is Err {
            Err(wang_id->Err_0)
        } else {
            Ok(
                WangTileView {
                    d_flip: d_flip->Ok_0,
                    h_flip: h_flip->Ok_0,
                    v_flip: v_flip->Ok_0,
                    tile_id: tile_id->Ok_0,
                    wang_id: wang_id->Ok_0,
                },
            )
        }
    }

    fn decode(j: &Json, key: &str, sources: &Sources) -> (r: Result<WangTile, TiledError>) {
        if !j.is_object() {
            return Err(TiledError::format(key));
        }
        let d_flip = required::<bool>(j, "dflip", sources)?;
        let h_flip = required::<bool>(j, "hflip", sources)?;
        let v_flip = required::<bool>(j, "vflip", sources)?;
        let tile_id = required::<u32>(j, "tileid", sources)?;
        let wang_id = required::<Vec<u8>>(j, "wangid", sources)?;
        Ok(WangTile { d_flip, h_flip, v_flip, tile_id, wang_id })
    }
}

impl Decode for WangColor {
    /// All four fields must be there: `color`, `name`, `probability` and
    /// `tile`.
    open spec fn decoded(j: JsonView, key: Seq<char>, sources: SourcesView) -> Result<
        WangColorView,
        TiledErrorView,
    > {
        let color = required_of::<Color>(j, "color"@, sources);
        let name = required_of::<String>(j, "name"@, sources);
        let probability = required_of::<Number>(j, "probability"@, sources);
        let tile = required_of::<u32>(j, "tile"@, sources);
        if !(j is Object) {
            malformed(key)
        } else if color is Err {
            Err(color->Err_0)
        } else if name is Err {
            Err(name->Err_0)
        } else if probability is Err {
            Err(probability->Err_0)
        } else if tile is Err {
            Err(tile->Err_0)
        } else {
            Ok(
                WangColorView {
                    color: color->Ok_0,
                    name: name->Ok_0,
                    probability: probability->Ok_0,
                    tile: tile->Ok_0,
                },
            )
        }
    }

    fn decode(j: &Json, key: &str, sources: &Sources) -> (r: Result<WangColor, TiledError>) {
        if !j.is_object() {
            return Err(TiledError::format(key));
        }
        let color = required::<Color>(j, "color", sources)?;
        let name = required::<String>(j, "name", sources)?;
        let probability = required::<Number>(j, "probability", sources)?;
        let tile = required::<u32>(j, "tile", sources)?;
        Ok(WangColor { color, name, probability, tile })
    }
}

impl Decode for WangSet {
    /// All five fields must be there: `cornercolors`, `edgecolors`, `name`,
    /// `tile` and `wangtiles`.
    open spec fn decoded(j: JsonView, key: Seq<char>, sources: SourcesView) -> Result<
        WangSetView,
        TiledErrorView,
    > {
        let corner_colors = required_of::<Vec<WangColor>>(j, "cornercolors"@, sources);
        let edge_colors = required_of::<Vec<WangColor>>(j, "edgecolors"@, sources);
        let name = required_of::<String>(j, "name"@, sources);
        let tile = required_of::<u32>(j, "tile"@, sources);
        let wang_tiles = required_of::<Vec<WangTile>>(j, "wangtiles"@, sources);
        if !(j is Object) {
            malformed(key)
        } else if corner_colors is Err {
            Err(corner_colors->Err_0)
        } else if edge_colors is Err {
            Err(edge_colors->Err_0)
        } else if name is Err {
            Err(name->Err_0)
        } else if tile is Err {
            Err(tile->Err_0)
        } else if wang_tiles is Err {
            Err(wang_tiles->Err_0)
        } else {
            Ok(
                WangSetView {
                    corner_colors: corner_colors->Ok_0,
                    edge_colors: edge_colors->Ok_0,
                    name: name->Ok_0,
                    tile: tile->Ok_0,
                    wang_tiles: wang_tiles->Ok_0,
                },
            )
        }
    }

    fn decode(j: &Json, key: &str, sources: &Sources) -> (r: Result<WangSet, TiledError>) {
        if !j.is_object() {
            return Err(TiledError::format(key));
        }
        let corner_colors = required::<Vec<WangColor>>(j, "cornercolors", sources)?;
        let edge_colors = required::<Vec<WangColor>>(j, "edgecolors", sources)?;
        let name = required::<String>(j, "name", sources)?;
        let tile = required::<u32>(j, "tile", sources)?;
        let wang_tiles = required::<Vec<WangTile>>(j, "wangtiles", sources)?;
        Ok(WangSet { corner_colors, edge_colors, name, tile, wang_tiles })
    }
}

} // verus!
