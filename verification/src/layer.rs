use vstd::prelude::*;
use crate::decode::{
    defaulted, defaulted_of, optional, optional_of, reads, required, required_of, Decode, Sources,
    SourcesView,
};
use crate::dict::Dict;
use crate::error::{malformed, outcome, TiledError, TiledErrorView};
use crate::json::{lemma_member_is_smaller, Json, JsonView, Number};
use crate::object::{Object, ObjectView};
use crate::parsers::{parse_data, tile_data_of, Properties};
use crate::{Color, TiledValueView};

verus! {

/// A layer of tiles.
#[derive(Debug, PartialEq, Clone)]
pub struct TileLayer {
    /// The chunks of a layer of a map without bounds
    pub chunks: Option<Vec<Chunk>>,
    /// The global ids of the tiles of the layer, row by row
    pub data: Vec<u32>,
    /// Row count. Same as map height for fixed-size maps.
    pub height: u32,
    /// Column count. Same as map width for fixed-size maps.
    pub width: u32,
}

/// The mathematical value of a [`TileLayer`].
pub struct TileLayerView {
    pub chunks: Option<Seq<ChunkView>>,
    pub data: Seq<u32>,
    pub height: u32,
    pub width: u32,
}

impl DeepView for TileLayer {
    type V = TileLayerView;

    open spec fn deep_view(&self) -> TileLayerView {
        TileLayerView {
            chunks: self.chunks.deep_view(),
            data: self.data.deep_view(),
            height: self.height,
            width: self.width,
        }
    }
}

/// A layer of objects.
#[derive(Debug, PartialEq, Clone)]
pub struct ObjectGroup {
    /// `TopDown` (default) or `Index`
    pub draw_order: DrawOrder,
    pub objects: Vec<Object>,
}

/// The mathematical value of an [`ObjectGroup`].
pub struct ObjectGroupView {
    pub draw_order: DrawOrder,
    pub objects: Seq<ObjectView>,
}

impl DeepView for ObjectGroup {
    type V = ObjectGroupView;

    open spec fn deep_view(&self) -> ObjectGroupView {
        ObjectGroupView { draw_order: self.draw_order, objects: self.objects.deep_view() }
    }
}

/// A layer that shows one image.
#[derive(Debug, PartialEq, Clone)]
pub struct ImageLayer {
    /// Path of the image, as the document wrote it
    pub image: String,
    /// Defaults to 0,0,0,0 (rgba)
    pub transparent_color: Color,
}

/// The mathematical value of an [`ImageLayer`].
pub struct ImageLayerView {
    pub image: Seq<char>,
    pub transparent_color: Color,
}

impl DeepView for ImageLayer {
    type V = ImageLayerView;

    open spec fn deep_view(&self) -> ImageLayerView {
        ImageLayerView { image: self.image@, transparent_color: self.transparent_color }
    }
}

/// Layers that belong together.
#[derive(Debug, PartialEq, Clone)]
pub struct Group {
    pub layers: Vec<Layer>,
}

/// The mathematical value of a [`Group`].
pub struct GroupView {
    pub layers: Seq<LayerView>,
}

impl DeepView for Group {
    type V = GroupView;

    open spec fn deep_view(&self) -> GroupView {
        GroupView { layers: self.layers.deep_view() }
    }
}

/// What is particular to each kind of layer.
#[derive(Debug, PartialEq)]
pub enum LayerType {
    TileLayer(TileLayer),
    ObjectGroup(ObjectGroup),
    ImageLayer(ImageLayer),
    Group { layers: Vec<Layer> },
}

/// The mathematical value of a [`LayerType`].
pub enum LayerTypeView {
    TileLayer(TileLayerView),
    ObjectGroup(ObjectGroupView),
    ImageLayer(ImageLayerView),
    Group { layers: Seq<LayerView> },
}

/// One layer of a map. The layers of a map, and of a group, are in the
/// order in which they are painted.
#[derive(Debug, PartialEq)]
pub struct Layer {
    pub name: String,
    /// Horizontal layer offset in pixels (default: 0)
    pub offset_x: Number,
    /// Vertical layer offset in pixels (default: 0)
    pub offset_y: Number,
    /// Between 0 and 1; not checked
    pub opacity: Number,
    pub properties: Properties,
    pub layer_type: LayerType,
    /// Horizontal layer offset in tiles. Always 0.
    pub x: i32,
    /// Vertical layer offset in tiles. Always 0.
    pub y: i32,
    pub visible: bool,
}

/// The mathematical value of a [`Layer`].
pub struct LayerView {
    pub name: Seq<char>,
    pub offset_x: Number,
    pub offset_y: Number,
    pub opacity: Number,
    pub properties: Map<Seq<char>, TiledValueView>,
    pub layer_type: LayerTypeView,
    pub x: i32,
    pub y: i32,
    pub visible: bool,
}

/// The value of a layer.
pub open spec fn layer_view(layer: Layer) -> LayerView
    decreases layer,
{
    LayerView {
        name: layer.name@,
        offset_x: layer.offset_x,
        offset_y: layer.offset_y,
        opacity: layer.opacity,
        properties: layer.properties@,
        layer_type: layer_type_view(layer.layer_type),
        x: layer.x,
        y: layer.y,
        visible: layer.visible,
    }
}

/// The value of what is particular to a layer.
pub open spec fn layer_type_view(payload: LayerType) -> LayerTypeView
    decreases payload,
{
    match payload {
        LayerType::TileLayer(tiles) => LayerTypeView::TileLayer(tiles.deep_view()),
        LayerType::ObjectGroup(objects) => LayerTypeView::ObjectGroup(objects.deep_view()),
        LayerType::ImageLayer(image) => LayerTypeView::ImageLayer(image.deep_view()),
        LayerType::Group { layers } => LayerTypeView::Group {
            layers: Seq::new(
                layers.len() as nat,
                |i: int|
                    if 0 <= i < layers.len() {
                        proof {
                            vstd::std_specs::vec::axiom_vec_index_decreases(layers, i);
                            assert(decreases_to!(payload => payload->layers));
                        }
                        layer_view(layers[i])
                    } else {
                        arbitrary()
                    },
            ),
        },
    }
}

impl DeepView for Layer {
    type V = LayerView;

    open spec fn deep_view(&self) -> LayerView {
        layer_view(*self)
    }
}

impl DeepView for LayerType {
    type V = LayerTypeView;

    open spec fn deep_view(&self) -> LayerTypeView {
        layer_type_view(*self)
    }
}

/// A part of the tiles of a layer of a map without bounds.
#[derive(Debug, PartialEq, Eq, Clone)]
pub struct Chunk {
    /// The global ids of the tiles of the chunk, row by row
    pub data: Vec<u32>,
    pub height: u32,
    pub width: u32,
    /// Where the chunk starts, in tiles; may be below zero
    pub x: i32,
    pub y: i32,
}

/// The mathematical value of a [`Chunk`].
pub struct ChunkView {
    pub data: Seq<u32>,
    pub height: u32,
    pub width: u32,
    pub x: i32,
    pub y: i32,
}

impl DeepView for Chunk {
    type V = ChunkView;

    open spec fn deep_view(&self) -> ChunkView {
        ChunkView {
            data: self.data.deep_view(),
            height: self.height,
            width: self.width,
            x: self.x,
            y: self.y,
        }
    }
}

/// Can be `TopDown` (default) or `Index`. Applies to `ObjectGroup` only.
#[derive(Debug, PartialEq, Eq, Clone, Copy)]
pub enum DrawOrder {
    TopDown,
    Index,
}

impl DeepView for DrawOrder {
    type V = DrawOrder;

    open spec fn deep_view(&self) -> DrawOrder {
        *self
    }
}

impl Default for DrawOrder {
    fn default() -> (order: DrawOrder)
        ensures
            order == DrawOrder::TopDown,
    {
        DrawOrder::TopDown
    }
}

impl Decode for DrawOrder {
    /// `"topdown"` or `"index"`.
    open spec fn decoded(j: JsonView, key: Seq<char>, sources: SourcesView) -> Result<
        DrawOrder,
        TiledErrorView,
    > {
        match j {
            JsonView::String(s) => if s == "topdown"@ {
                Ok(DrawOrder::TopDown)
            } else if s == "index"@ {
                Ok(DrawOrder::Index)
            } else {
                malformed(key)
            },
            _ => malformed(key),
        }
    }

    fn decode(j: &Json, key: &str, sources: &Sources) -> (r: Result<DrawOrder, TiledError>) {
        match j {
            Json::String(s) => if reads(s, "topdown") {
                Ok(DrawOrder::TopDown)
            } else if reads(s, "index") {
                Ok(DrawOrder::Index)
            } else {
                Err(TiledError::format(key))
            },
            _ => Err(TiledError::format(key)),
        }
    }
}

/// What the field `data` of the record `j` decodes to: no tiles where it
/// is absent.
pub open spec fn data_field_of(j: JsonView) -> Result<Seq<u32>, TiledErrorView> {
    match j.member("data"@) {
        Some(value) => tile_data_of(value, "data"@),
        None => Ok(Seq::empty()),
    }
}

fn data_field(j: &Json) -> (r: Result<Vec<u32>, TiledError>)
    ensures
        outcome(r) == data_field_of(j@),
{
    match j.get("data") {
        Some(value) => parse_data(value, "data"),
        None => {
            let data: Vec<u32> = Vec::new();
            assert(data.deep_view() =~= Seq::<u32>::empty());
            Ok(data)
        },
    }
}

impl Decode for Chunk {
    /// `height`, `width`, `x` and `y` must be there; `data` is empty where
    /// it is absent.
    open spec fn decoded(j: JsonView, key: Seq<char>, sources: SourcesView) -> Result<
        ChunkView,
        TiledErrorView,
    > {
        let data = data_field_of(j);
        let height = required_of::<u32>(j, "height"@, sources);
        let width = required_of::<u32>(j, "width"@, sources);
        let x = required_of::<i32>(j, "x"@, sources);
        let y = required_of::<i32>(j, "y"@, sources);
        if !(j is Object) {
            malformed(key)
        } else if data is Err {
            Err(data->Err_0)
        } else if height is Err {
            Err(height->Err_0)
        } else if width is Err {
            Err(width->Err_0)
        } else if x is Err {
            Err(x->Err_0)
        } else if y is Err {
            Err(y->Err_0)
        } else {
            Ok(
                ChunkView {
                    data: data->Ok_0,
                    height: height->Ok_0,
                    width: width->Ok_0,
                    x: x->Ok_0,
                    y: y->Ok_0,
                },
            )
        }
    }

    fn decode(j: &Json, key: &str, sources: &Sources) -> (r: Result<Chunk, TiledError>) {
        if !j.is_object() {
            return Err(TiledError::format(key));
        }
        let data = data_field(j)?;
        let height = required::<u32>(j, "height", sources)?;
        let width = required::<u32>(j, "width", sources)?;
        let x = required::<i32>(j, "x", sources)?;
        let y = required::<i32>(j, "y", sources)?;
        Ok(Chunk { data, height, width, x, y })
    }
}

impl Decode for TileLayer {
    /// `height` and `width` must be there; `data` is empty where it is
    /// absent; `chunks` may be absent.
    open spec fn decoded(j: JsonView, key: Seq<char>, sources: SourcesView) -> Result<
        TileLayerView,
        TiledErrorView,
    > {
        let chunks = optional_of::<Vec<Chunk>>(j, "chunks"@, sources);
        let data = data_field_of(j);
        let height = required_of::<u32>(j, "height"@, sources);
        let width = required_of::<u32>(j, "width"@, sources);
        if !(j is Object) {
            malformed(key)
        } else if chunks is Err {
            Err(chunks->Err_0)
        } else if data is Err {
            Err(data->Err_0)
        } else if height is Err {
            Err(height->Err_0)
        } else if width is Err {
            Err(width->Err_0)
        } else {
            Ok(
                TileLayerView {
                    chunks: chunks->Ok_0,
                    data: data->Ok_0,
                    height: height->Ok_0,
                    width: width->Ok_0,
                },
            )
        }
    }

    fn decode(j: &Json, key: &str, sources: &Sources) -> (r: Result<TileLayer, TiledError>) {
        if !j.is_object() {
            return Err(TiledError::format(key));
        }
        let chunks = optional::<Vec<Chunk>>(j, "chunks", sources)?;
        let data = data_field(j)?;
        let height = required::<u32>(j, "height", sources)?;
        let width = required::<u32>(j, "width", sources)?;
        Ok(TileLayer { chunks, data, height, width })
    }
}

impl Decode for ObjectGroup {
    /// `draworder` is `TopDown` where it is absent; there are no `objects`
    /// where they are absent.
    open spec fn decoded(j: JsonView, key: Seq<char>, sources: SourcesView) -> Result<
        ObjectGroupView,
        TiledErrorView,
    > {
        let draw_order = defaulted_of::<DrawOrder>(j, "draworder"@, sources, DrawOrder::TopDown);
        let objects = defaulted_of::<Vec<Object>>(j, "objects"@, sources, Seq::empty());
        if !(j is Object) {
            malformed(key)
        } else if draw_order is Err {
            Err(draw_order->Err_0)
        } else if objects is Err {
            Err(objects->Err_0)
        } else {
            Ok(ObjectGroupView { draw_order: draw_order->Ok_0, objects: objects->Ok_0 })
        }
    }

    fn decode(j: &Json, key: &str, sources: &Sources) -> (r: Result<ObjectGroup, TiledError>) {
        if !j.is_object() {
            return Err(TiledError::format(key));
        }
        let draw_order = defaulted::<DrawOrder>(j, "draworder", sources, DrawOrder::TopDown)?;
        let no_objects: Vec<Object> = Vec::new();
        assert(no_objects.deep_view() =~= Seq::<ObjectView>::empty());
        let objects = defaulted::<Vec<Object>>(j, "objects", sources, no_objects)?;
        Ok(ObjectGroup { draw_order, objects })
    }
}

impl Decode for ImageLayer {
    /// `image` is the empty path and `transparentcolor` is transparent
    /// black where they are absent.
    open spec fn decoded(j: JsonView, key: Seq<char>, sources: SourcesView) -> Result<
        ImageLayerView,
        TiledErrorView,
    > {
        let image = defaulted_of::<String>(j, "image"@, sources, Seq::empty());
        let transparent_color = defaulted_of::<Color>(
            j,
            "transparentcolor"@,
            sources,
            Color(0, 0, 0, 0),
        );
        if !(j is Object) {
            malformed(key)
        } else if image is Err {
            Err(image->Err_0)
        } else if transparent_color is Err {
            Err(transparent_color->Err_0)
        } else {
            Ok(ImageLayerView { image: image->Ok_0, transparent_color: transparent_color->Ok_0 })
        }
    }

    fn decode(j: &Json, key: &str, sources: &Sources) -> (r: Result<ImageLayer, TiledError>) {
        if !j.is_object() {
            return Err(TiledError::format(key));
        }
        let image = defaulted::<String>(j, "image", sources, String::new())?;
        let transparent_color = defaulted::<Color>(
            j,
            "transparentcolor",
            sources,
            Color(0, 0, 0, 0),
        )?;
        Ok(ImageLayer { image, transparent_color })
    }
}

/// What the layer record `j` decodes to.
///
/// `name`, `opacity`, `type`, `x`, `y` and `visible` must be there;
/// `offsetx` and `offsety` are 0 and `properties` empty where they are
/// absent. The rest is particular to the kind: see [`layer_type_of`].
pub open spec fn layer_of(j: JsonView, key: Seq<char>, sources: SourcesView) -> Result<
    LayerView,
    TiledErrorView,
>
    decreases j, 1int,
{
    let name = required_of::<String>(j, "name"@, sources);
    let offset_x = defaulted_of::<Number>(j, "offsetx"@, sources, Number::PosInt(0));
    let offset_y = defaulted_of::<Number>(j, "offsety"@, sources, Number::PosInt(0));
    let opacity = required_of::<Number>(j, "opacity"@, sources);
    let properties = defaulted_of::<Properties>(j, "properties"@, sources, Map::empty());
    let layer_type = layer_type_of(j, sources);
    let x = required_of::<i32>(j, "x"@, sources);
    let y = required_of::<i32>(j, "y"@, sources);
    let visible = required_of::<bool>(j, "visible"@, sources);
    if !(j is Object) {
        malformed(key)
    } else if name is Err {
        Err(name->Err_0)
    } else if offset_x is Err {
        Err(offset_x->Err_0)
    } else if offset_y is Err {
        Err(offset_y->Err_0)
    } else if opacity is Err {
        Err(opacity->Err_0)
    } else if properties is Err {
        Err(properties->Err_0)
    } else if layer_type is Err {
        Err(layer_type->Err_0)
    } else if x is Err {
        Err(x->Err_0)
    } else if y is Err {
        Err(y->Err_0)
    } else if visible is Err {
        Err(visible->Err_0)
    } else {
        Ok(
            LayerView {
                name: name->Ok_0,
                offset_x: offset_x->Ok_0,
                offset_y: offset_y->Ok_0,
                opacity: opacity->Ok_0,
                properties: properties->Ok_0,
                layer_type: layer_type->Ok_0,
                x: x->Ok_0,
                y: y->Ok_0,
                visible: visible->Ok_0,
            },
        )
    }
}

/// What is particular to the kind of the layer record `j`, which its
/// `type` selects: `"tilelayer"`, `"objectgroup"`, `"imagelayer"` or
/// `"group"`. A group holds its `layers`, in their order.
pub open spec fn layer_type_of(j: JsonView, sources: SourcesView) -> Result<
    LayerTypeView,
    TiledErrorView,
>
    decreases j, 0int,
{
    match required_of::<String>(j, "type"@, sources) {
        Err(e) => Err(e),
        Ok(tag) => if tag == "tilelayer"@ {
            match TileLayer::decoded(j, "type"@, sources) {
                Ok(tiles) => Ok(LayerTypeView::TileLayer(tiles)),
                Err(e) => Err(e),
            }
        } else if tag == "objectgroup"@ {
            match ObjectGroup::decoded(j, "type"@, sources) {
                Ok(objects) => Ok(LayerTypeView::ObjectGroup(objects)),
                Err(e) => Err(e),
            }
        } else if tag == "imagelayer"@ {
            match ImageLayer::decoded(j, "type"@, sources) {
                Ok(image) => Ok(LayerTypeView::ImageLayer(image)),
                Err(e) => Err(e),
            }
        } else if tag == "group"@ {
            match j.member("layers"@) {
                Some(JsonView::Array(items)) => {
                    proof {
                        lemma_member_is_smaller(j, "layers"@);
                        assert(decreases_to!(j.member("layers"@)->Some_0 => j.member(
                            "layers"@,
                        )->Some_0->Array_0));
                    }
                    match layers_of(items, sources) {
                        Ok(layers) => Ok(LayerTypeView::Group { layers }),
                        Err(e) => Err(e),
                    }
                },
                _ => malformed("layers"@),
            }
        } else {
            malformed("type"@)
        },
    }
}

/// What the layer records `items` decode to: the layers in the order of
/// the records, or the failure of the first record that fails.
pub open spec fn layers_of(items: Seq<JsonView>, sources: SourcesView) -> Result<
    Seq<LayerView>,
    TiledErrorView,
>
    decreases items, 2int,
{
    if items.len() == 0 {
        Ok(Seq::empty())
    } else {
        match layers_of(items.drop_last(), sources) {
            Err(e) => Err(e),
            Ok(front) => match layer_of(items.last(), "layers"@, sources) {
                Err(e) => Err(e),
                Ok(layer) => Ok(front.push(layer)),
            },
        }
    }
}

/// Once a front part of `items` fails, all of `items` fails in the same way.
pub proof fn lemma_layers_fail(items: Seq<JsonView>, sources: SourcesView, n: int)
    requires
        0 <= n <= items.len(),
        layers_of(items.take(n), sources) is Err,
    ensures
        layers_of(items, sources) == layers_of(items.take(n), sources),
    decreases items.len() - n,
{
    if n < items.len() {
        assert(items.take(n + 1).drop_last() =~= items.take(n));
        lemma_layers_fail(items, sources, n + 1);
    } else {
        assert(items.take(n) =~= items);
    }
}

/// Layers come out in the order of their records, one for one.
pub proof fn lemma_layers_keep_order(items: Seq<JsonView>, sources: SourcesView)
    requires
        layers_of(items, sources) is Ok,
    ensures
        layers_of(items, sources)->Ok_0.len() == items.len(),
        forall|i: int|
            0 <= i < items.len() ==> layer_of(#[trigger] items[i], "layers"@, sources) == Ok::<
                LayerView,
                TiledErrorView,
            >(layers_of(items, sources)->Ok_0[i]),
    decreases items.len(),
{
    if items.len() > 0 {
        let front = items.drop_last();
        lemma_layers_keep_order(front, sources);
        assert forall|i: int| 0 <= i < items.len() implies layer_of(
            #[trigger] items[i],
            "layers"@,
            sources,
        ) == Ok::<LayerView, TiledErrorView>(layers_of(items, sources)->Ok_0[i]) by {
            if i < front.len() {
                assert(front[i] == items[i]);
            }
        }
    }
}

fn decode_layer(j: &Json, key: &str, sources: &Sources) -> (r: Result<Layer, TiledError>)
    ensures
        outcome(r) == layer_of(j@, key@, sources@),
    decreases j, 1int,
{
    if !j.is_object() {
        return Err(TiledError::format(key));
    }
    let name = required::<String>(j, "name", sources)?;
    let offset_x = defaulted::<Number>(j, "offsetx", sources, Number::PosInt(0))?;
    let offset_y = defaulted::<Number>(j, "offsety", sources, Number::PosInt(0))?;
    let opacity = required::<Number>(j, "opacity", sources)?;
    let properties = defaulted::<Properties>(j, "properties", sources, Dict::new())?;
    let layer_type = decode_layer_type(j, sources)?;
    let x = required::<i32>(j, "x", sources)?;
    let y = required::<i32>(j, "y", sources)?;
    let visible = required::<bool>(j, "visible", sources)?;
    Ok(Layer { name, offset_x, offset_y, opacity, properties, layer_type, x, y, visible })
}

fn decode_layer_type(j: &Json, sources: &Sources) -> (r: Result<LayerType, TiledError>)
    ensures
        outcome(r) == layer_type_of(j@, sources@),
    decreases j, 0int,
{
    let tag = required::<String>(j, "type", sources)?;
    if reads(&tag, "tilelayer") {
        Ok(LayerType::TileLayer(TileLayer::decode(j, "type", sources)?))
    } else if reads(&tag, "objectgroup") {
        Ok(LayerType::ObjectGroup(ObjectGroup::decode(j, "type", sources)?))
    } else if reads(&tag, "imagelayer") {
        Ok(LayerType::ImageLayer(ImageLayer::decode(j, "type", sources)?))
    } else if reads(&tag, "group") {
        match j.get("layers") {
            Some(Json::Array(items)) => {
                proof {
                    let list = Json::Array(*items);
                    assert(decreases_to!(list => list->Array_0));
                    assert(list@->Array_0 =~= items.deep_view());
                }
                let layers = decode_layers(items, sources)?;
                assert(layer_type_view(LayerType::Group { layers })->layers =~= layers.deep_view());
                Ok(LayerType::Group { layers })
            },
            _ => Err(TiledError::format("layers")),
        }
    } else {
        Err(TiledError::format("type"))
    }
}

/// Decodes layer records into layers, in their order.
pub fn decode_layers(items: &Vec<Json>, sources: &Sources) -> (r: Result<Vec<Layer>, TiledError>)
    ensures
        outcome(r) == layers_of(items.deep_view(), sources@),
    decreases items, 2int,
{
    let ghost all = items.deep_view();
    let mut layers: Vec<Layer> = Vec::new();
    let mut i: usize = 0;
    assert(all.take(0) =~= Seq::<JsonView>::empty());
    assert(layers.deep_view() =~= Seq::<LayerView>::empty());
    while i < items.len()
        invariant
            i <= items.len(),
            all == items.deep_view(),
            layers_of(all.take(i as int), sources@) == Ok::<Seq<LayerView>, TiledErrorView>(
                layers.deep_view(),
            ),
        decreases items.len() - i,
    {
        assert(all.take(i + 1).drop_last() =~= all.take(i as int));
        assert(all.take(i + 1).last() == items[i as int]@);
        proof {
            vstd::std_specs::vec::axiom_vec_index_decreases(*items, i as int);
        }
        let ghost before = layers.deep_view();
        match decode_layer(&items[i], "layers", sources) {
            Ok(layer) => {
                layers.push(layer);
                assert(layers.deep_view() =~= before.push(layer.deep_view()));
            },
            Err(e) => {
                proof {
                    lemma_layers_fail(all, sources@, i + 1);
                }
                return Err(e);
            },
        }
        i += 1;
    }
    assert(all.take(i as int) =~= all);
    Ok(layers)
}

impl Clone for Layer {
    fn clone(&self) -> Layer
        decreases self, 1int,
    {
        Layer {
            name: self.name.clone(),
            offset_x: self.offset_x,
            offset_y: self.offset_y,
            opacity: self.opacity,
            properties: self.properties.clone(),
            layer_type: self.layer_type.clone(),
            x: self.x,
            y: self.y,
            visible: self.visible,
        }
    }
}

impl Clone for LayerType {
    fn clone(&self) -> LayerType
        decreases self, 0int,
    {
        match self {
            LayerType::TileLayer(tiles) => LayerType::TileLayer(tiles.clone()),
            LayerType::ObjectGroup(objects) => LayerType::ObjectGroup(objects.clone()),
            LayerType::ImageLayer(image) => LayerType::ImageLayer(image.clone()),
            LayerType::Group { layers } => {
                let mut copies: Vec<Layer> = Vec::new();
                let mut i: usize = 0;
                while i < layers.len()
                    invariant
                        i <= layers.len(),
                        *self == (LayerType::Group { layers: *layers }),
                    decreases layers.len() - i,
                {
                    proof {
                        vstd::std_specs::vec::axiom_vec_index_decreases(*layers, i as int);
                        assert(decreases_to!(*self => self->layers));
                    }
                    copies.push(layers[i].clone());
                    i += 1;
                }
                LayerType::Group { layers: copies }
            },
        }
    }
}

impl Decode for Layer {
    open spec fn decoded(j: JsonView, key: Seq<char>, sources: SourcesView) -> Result<
        LayerView,
        TiledErrorView,
    > {
        layer_of(j, key, sources)
    }

    fn decode(j: &Json, key: &str, sources: &Sources) -> (r: Result<Layer, TiledError>) {
        decode_layer(j, key, sources)
    }
}

/// What the field `layers` of the record `j` decodes to: it must be there,
/// and be a list of layer records.
pub open spec fn layers_field_of(j: JsonView, sources: SourcesView) -> Result<
    Seq<LayerView>,
    TiledErrorView,
> {
    match j.member("layers"@) {
        Some(JsonView::Array(items)) => layers_of(items, sources),
        _ => malformed("layers"@),
    }
}

/// Decodes the field `layers` of the record `j`.
pub fn layers_field(j: &Json, sources: &Sources) -> (r: Result<Vec<Layer>, TiledError>)
    ensures
        outcome(r) == layers_field_of(j@, sources@),
{
    match j.get("layers") {
        Some(Json::Array(items)) => {
            assert(Json::Array(*items)@->Array_0 =~= items.deep_view());
            decode_layers(items, sources)
        },
        _ => Err(TiledError::format("layers")),
    }
}

impl Decode for Group {
    /// `layers` must be there.
    open spec fn decoded(j: JsonView, key: Seq<char>, sources: SourcesView) -> Result<
        GroupView,
        TiledErrorView,
    > {
        match layers_field_of(j, sources) {
            Ok(layers) => Ok(GroupView { layers }),
            Err(e) => Err(e),
        }
    }

    fn decode(j: &Json, key: &str, sources: &Sources) -> (r: Result<Group, TiledError>) {
        Ok(Group { layers: layers_field(j, sources)? })
    }
}

impl Decode for LayerType {
    open spec fn decoded(j: JsonView, key: Seq<char>, sources: SourcesView) -> Result<
        LayerTypeView,
        TiledErrorView,
    > {
        layer_type_of(j, sources)
    }

    fn decode(j: &Json, key: &str, sources: &Sources) -> (r: Result<LayerType, TiledError>) {
        decode_layer_type(j, sources)
    }
}

} // verus!
