//! Typed trees for maps in the Tiled JSON format.
//!
//! A map document is read into a [`Json`] tree and decoded into a [`TiledMap`]:
//! ordered layers (groups nest), tile sets (inline, or taken from another
//! file), objects and property bags. Every decoder states, as a function of
//! the document, exactly what it returns and exactly when it fails.
//!
//! Notes:
//! - a global tile id of 0 means *no tile*; tile sets are addressed from 1
//! - local tile ids start at 0 and are only meaningful inside one tile set
//! - the library opens no files: the text of every file that a document
//!   refers to is handed in through [`Sources`]

pub mod decode;
pub mod dict;
pub mod error;
pub mod json;
pub mod layer;
pub mod map;
pub mod object;
pub mod parsers;
pub mod tile_set;
pub mod utils;
pub mod wangs;

pub use decode::{defaulted, optional, required, Decode, Sources};
pub use dict::Dict;
pub use error::{TiledError, TiledErrorView};
pub use json::{Json, JsonView, Number};
pub use layer::{
    decode_layers, Chunk, DrawOrder, Group, ImageLayer, Layer, LayerType, ObjectGroup, TileLayer,
};
pub use map::{Orientation, RenderOrder, StaggerAxis, StaggerIndex, TiledMap};
pub use object::{Object, ObjectType, Text};
pub use parsers::{
    decode_color, parse_color, parse_data, parse_hex, parse_path, parse_property, unpack_data,
    words_from_bytes, Properties,
};
pub use tile_set::{Frame, Internal, Terrain, Tile, TileSet};
pub use wangs::{WangColor, WangSet, WangTile};

use vstd::prelude::*;

verus! {

/// A value of a property: the kinds that Tiled knows.
///
/// Which kind a value has is said by the type tag that stands beside it in
/// the document, never guessed from the value's own shape.
#[derive(Debug, PartialEq, Clone)]
pub enum TiledValue {
    Bool(bool),
    /// A real number, as the document wrote it.
    Float(Number),
    Int(u32),
    Color(Color),
    String(String),
    /// A path, kept as text.
    File(String),
    /// A structured value, kept as it stands.
    Class(Json),
}

/// The mathematical value of a [`TiledValue`].
pub enum TiledValueView {
    Bool(bool),
    Float(Number),
    Int(u32),
    Color(Color),
    String(Seq<char>),
    File(Seq<char>),
    Class(JsonView),
}

impl DeepView for TiledValue {
    type V = TiledValueView;

    open spec fn deep_view(&self) -> TiledValueView {
        match self {
            TiledValue::Bool(b) => TiledValueView::Bool(*b),
            TiledValue::Float(n) => TiledValueView::Float(*n),
            TiledValue::Int(n) => TiledValueView::Int(*n),
            TiledValue::Color(c) => TiledValueView::Color(*c),
            TiledValue::String(s) => TiledValueView::String(s@),
            TiledValue::File(s) => TiledValueView::File(s@),
            TiledValue::Class(j) => TiledValueView::Class(j@),
        }
    }
}

/// A pair of coordinates.
#[derive(Debug, PartialEq, Clone)]
pub struct Vec2<T> {
    pub x: T,
    pub y: T,
}

impl<T: DeepView> DeepView for Vec2<T> {
    type V = Vec2<T::V>;

    open spec fn deep_view(&self) -> Vec2<T::V> {
        Vec2 { x: self.x.deep_view(), y: self.y.deep_view() }
    }
}

/// A colour: red, green, blue, alpha, in this order.
#[derive(Debug, PartialEq, Clone, Copy)]
pub struct Color(pub u32, pub u32, pub u32, pub u32);

impl DeepView for Color {
    type V = Color;

    open spec fn deep_view(&self) -> Color {
        *self
    }
}

impl Default for Color {
    /// Black, fully transparent.
    fn default() -> (c: Color)
        ensures
            c == Color(0, 0, 0, 0),
    {
        Color(0, 0, 0, 0)
    }
}

impl Color {
    /// Red
    pub fn r(&self) -> (v: u32)
        ensures
            v == self.0,
    {
        self.0
    }

    /// Green
    pub fn g(&self) -> (v: u32)
        ensures
            v == self.1,
    {
        self.1
    }

    /// Blue
    pub fn b(&self) -> (v: u32)
        ensures
            v == self.2,
    {
        self.2
    }

    /// Alpha
    pub fn a(&self) -> (v: u32)
        ensures
            v == self.3,
    {
        self.3
    }
}

/// Where a tile lies on the image of its tile set, and how large it is.
#[derive(Debug, Default, PartialEq, Clone)]
pub struct TileRect {
    pub x: i32,
    pub y: i32,
    pub width: u32,
    pub height: u32,
}

} // verus!
