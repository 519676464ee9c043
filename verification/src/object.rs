use vstd::prelude::*;
use crate::decode::{
    defaulted, defaulted_of, optional, optional_of, required, required_of, Decode, Sources,
    SourcesView,
};
use crate::dict::Dict;
use crate::error::{malformed, outcome, TiledError, TiledErrorView};
use crate::json::{json_document, Json, JsonView, Number};
use crate::parsers::Properties;
use crate::{Color, TiledValueView, Vec2};

verus! {

/// Something placed on a map: a shape, a text, a marker, or a tile.
#[derive(Debug, PartialEq, Clone)]
pub struct Object {
    /// Global tile id, where the object shows a tile
    pub gid: Option<u32>,
    /// Unique within the map that holds the object
    pub id: Option<u32>,
    pub name: String,
    pub custom_type: String,
    /// Angle in degrees clockwise
    pub rotation: Number,
    pub height: Number,
    pub width: Number,
    /// X coordinate in pixels
    pub x: Number,
    /// Y coordinate in pixels
    pub y: Number,
    pub properties: Properties,
    /// What kind of thing the object is
    pub object_type: ObjectType,
}

/// The mathematical value of an [`Object`].
pub struct ObjectView {
    pub gid: Option<u32>,
    pub id: Option<u32>,
    pub name: Seq<char>,
    pub custom_type: Seq<char>,
    pub rotation: Number,
    pub height: Number,
    pub width: Number,
    pub x: Number,
    pub y: Number,
    pub properties: Map<Seq<char>, TiledValueView>,
    pub object_type: ObjectTypeView,
}

impl DeepView for Object {
    type V = ObjectView;

    open spec fn deep_view(&self) -> ObjectView {
        ObjectView {
            gid: self.gid,
            id: self.id,
            name: self.name@,
            custom_type: self.custom_type@,
            rotation: self.rotation,
            height: self.height,
            width: self.width,
            x: self.x,
            y: self.y,
            properties: self.properties@,
            object_type: self.object_type.deep_view(),
        }
    }
}

/// A text with its style.
#[derive(Debug, PartialEq, Clone)]
pub struct Text {
    /// Bit 0: bold, bit 1: italic, bit 2: wrap
    pub flags: u8,
    pub color: Color,
    pub text: String,
}

/// The mathematical value of a [`Text`].
pub struct TextView {
    pub flags: u8,
    pub color: Color,
    pub text: Seq<char>,
}

impl DeepView for Text {
    type V = TextView;

    open spec fn deep_view(&self) -> TextView {
        TextView { flags: self.flags, color: self.color, text: self.text@ }
    }
}

/// The kinds of object.
#[derive(Debug, PartialEq, Clone)]
pub enum ObjectType {
    Ellipse,
    Point,
    Polygon(Vec<Vec2<i32>>),
    PolyLine(Vec<Vec2<i32>>),
    Text(Text),
    /// A reference to a template. Decoding resolves every reference, so no
    /// decoded object is of this kind.
    Template(String),
    /// A plain rectangle, which the position and the size describe fully.
    Rectangle,
}

/// The mathematical value of an [`ObjectType`].
pub enum ObjectTypeView {
    Ellipse,
    Point,
    Polygon(Seq<Vec2<i32>>),
    PolyLine(Seq<Vec2<i32>>),
    Text(TextView),
    Template(Seq<char>),
    Rectangle,
}

impl DeepView for ObjectType {
    type V = ObjectTypeView;

    open spec fn deep_view(&self) -> ObjectTypeView {
        match self {
            ObjectType::Ellipse => ObjectTypeView::Ellipse,
            ObjectType::Point => ObjectTypeView::Point,
            ObjectType::Polygon(points) => ObjectTypeView::Polygon(points.deep_view()),
            ObjectType::PolyLine(points) => ObjectTypeView::PolyLine(points.deep_view()),
            ObjectType::Text(text) => ObjectTypeView::Text(text.deep_view()),
            ObjectType::Template(path) => ObjectTypeView::Template(path@),
            ObjectType::Rectangle => ObjectTypeView::Rectangle,
        }
    }
}

impl ObjectType {
    /// Whether the object is a plain rectangle.
    pub fn is_none(&self) -> (b: bool)
        ensures
            b == (self.deep_view() is Rectangle),
    {
        match self {
            ObjectType::Rectangle => true,
            _ => false,
        }
    }

    /// Whether the object is anything but a plain rectangle.
    pub fn is_some(&self) -> (b: bool)
        ensures
            b == !(self.deep_view() is Rectangle),
    {
        !self.is_none()
    }
}

/// The style flags of a text as one number: 1 for bold, 2 for italic and 4
/// for wrap, added up.
pub open spec fn text_flags(bold: bool, italic: bool, wrap: bool) -> u8 {
    ((if bold { 1int } else { 0 }) + (if italic { 2int } else { 0 }) + (if wrap { 4int } else { 0 })) as u8
}

/// Each style has a bit of its own in [`text_flags`].
pub proof fn lemma_text_flags_bits(bold: bool, italic: bool, wrap: bool)
    ensures
        text_flags(bold, italic, wrap) & 1 == 1 <==> bold,
        text_flags(bold, italic, wrap) & 2 == 2 <==> italic,
        text_flags(bold, italic, wrap) & 4 == 4 <==> wrap,
        text_flags(bold, italic, wrap) < 8,
{
    let f = text_flags(bold, italic, wrap);
    assert(f < 8 ==> ((f & 1 == 1) <==> (f == 1 || f == 3 || f == 5 || f == 7))) by (bit_vector);
    assert(f < 8 ==> ((f & 2 == 2) <==> (f == 2 || f == 3 || f == 6 || f == 7))) by (bit_vector);
    assert(f < 8 ==> ((f & 4 == 4) <==> (f == 4 || f == 5 || f == 6 || f == 7))) by (bit_vector);
}

impl Decode for Text {
    /// `text` must be there. `bold`, `italic` and `wrap` are off where they
    /// are absent; the colour of a text is opaque black where it is absent.
    open spec fn decoded(j: JsonView, key: Seq<char>, sources: SourcesView) -> Result<
        TextView,
        TiledErrorView,
    > {
        let bold = defaulted_of::<bool>(j, "bold"@, sources, false);
        let color = defaulted_of::<Color>(j, "color"@, sources, Color(0, 0, 0, 255));
        let italic = defaulted_of::<bool>(j, "italic"@, sources, false);
        let text = required_of::<String>(j, "text"@, sources);
        let wrap = defaulted_of::<bool>(j, "wrap"@, sources, false);
        if !(j is Object) {
            malformed(key)
        } else if bold is Err {
            Err(bold->Err_0)
        } else if color is Err {
            Err(color->Err_0)
        } else if italic is Err {
            Err(italic->Err_0)
        } else if text is Err {
            Err(text->Err_0)
        } else if wrap is Err {
            Err(wrap->Err_0)
        } else {
            Ok(
                TextView {
                    flags: text_flags(bold->Ok_0, italic->Ok_0, wrap->Ok_0),
                    color: color->Ok_0,
                    text: text->Ok_0,
                },
            )
        }
    }

    fn decode(j: &Json, key: &str, sources: &Sources) -> (r: Result<Text, TiledError>) {
        if !j.is_object() {
            return Err(TiledError::format(key));
        }
        let bold = defaulted::<bool>(j, "bold", sources, false)?;
        let color = defaulted::<Color>(j, "color", sources, Color(0, 0, 0, 255))?;
        let italic = defaulted::<bool>(j, "italic", sources, false)?;
        let text = required::<String>(j, "text", sources)?;
        let wrap = defaulted::<bool>(j, "wrap", sources, false)?;
        let mut flags: u8 = 0;
        if bold {
            flags = flags + 1;
        }
        if italic {
            flags = flags + 2;
        }
        if wrap {
            flags = flags + 4;
        }
        Ok(Text { flags, color, text })
    }
}

/// The member `key` of the record `j`, where it is `true` or `false`.
pub open spec fn flag_of(j: JsonView, key: Seq<char>) -> Option<bool> {
    match j.member(key) {
        Some(JsonView::Bool(b)) => Some(b),
        _ => None,
    }
}

/// The kind of the object record `j`.
///
/// The first of these that is there with the right shape decides: the flag
/// `ellipse`, the flag `point`, the list of points `polygon`, the list of
/// points `polyline`, the record `text`. A flag that is `false` decides too,
/// for a plain rectangle. Where nothing decides, the object is a plain
/// rectangle.
pub open spec fn shape_of(j: JsonView) -> ObjectTypeView {
    let none = Map::<Seq<char>, Seq<char>>::empty();
    let ellipse = flag_of(j, "ellipse"@);
    let point = flag_of(j, "point"@);
    let polygon = required_of::<Vec<Vec2<i32>>>(j, "polygon"@, none);
    let polyline = required_of::<Vec<Vec2<i32>>>(j, "polyline"@, none);
    let text = required_of::<Text>(j, "text"@, none);
    if ellipse is Some {
        if ellipse->Some_0 {
            ObjectTypeView::Ellipse
        } else {
            ObjectTypeView::Rectangle
        }
    } else if point is Some {
        if point->Some_0 {
            ObjectTypeView::Point
        } else {
            ObjectTypeView::Rectangle
        }
    } else if polygon is Ok {
        ObjectTypeView::Polygon(polygon->Ok_0)
    } else if polyline is Ok {
        ObjectTypeView::PolyLine(polyline->Ok_0)
    } else if text is Ok {
        ObjectTypeView::Text(text->Ok_0)
    } else {
        ObjectTypeView::Rectangle
    }
}

/// What the flags say: an `ellipse` that is `true` makes an ellipse; one
/// that is `false` makes a plain rectangle, and so does a record without
/// any of the five keys. No record makes a template.
pub proof fn lemma_shape_rules(j: JsonView)
    ensures
        j.member("ellipse"@) == Some(JsonView::Bool(true)) ==> shape_of(j) is Ellipse,
        j.member("ellipse"@) == Some(JsonView::Bool(false)) ==> shape_of(j) is Rectangle,
        !(j.member("ellipse"@) matches Some(JsonView::Bool(_))) && j.member("point"@) == Some(
            JsonView::Bool(true),
        ) ==> shape_of(j) is Point,
        j.member("ellipse"@) is None && j.member("point"@) is None && j.member("polygon"@)
            is None && j.member("polyline"@) is None && j.member("text"@) is None ==> shape_of(j)
            is Rectangle,
        !(shape_of(j) is Template),
{
}

fn flag(j: &Json, key: &str) -> (r: Option<bool>)
    ensures
        r == flag_of(j@, key@),
{
    match j.get(key) {
        Some(Json::Bool(b)) => Some(*b),
        _ => None,
    }
}

impl ObjectType {
    /// Tells from the members of the object record `j` what kind of object
    /// it is.
    pub fn resolve(j: &Json) -> (shape: ObjectType)
        ensures
            shape.deep_view() == shape_of(j@),
    {
        let none: Sources = Dict::new();
        if let Some(b) = flag(j, "ellipse") {
            return if b {
                ObjectType::Ellipse
            } else {
                ObjectType::Rectangle
            };
        }
        if let Some(b) = flag(j, "point") {
            return if b {
                ObjectType::Point
            } else {
                ObjectType::Rectangle
            };
        }
        if let Ok(points) = required::<Vec<Vec2<i32>>>(j, "polygon", &none) {
            return ObjectType::Polygon(points);
        }
        if let Ok(points) = required::<Vec<Vec2<i32>>>(j, "polyline", &none) {
            return ObjectType::PolyLine(points);
        }
        if let Ok(text) = required::<Text>(j, "text", &none) {
            return ObjectType::Text(text);
        }
        ObjectType::Rectangle
    }
}

impl Decode for ObjectType {
    /// Never fails: see [`shape_of`].
    open spec fn decoded(j: JsonView, key: Seq<char>, sources: SourcesView) -> Result<
        ObjectTypeView,
        TiledErrorView,
    > {
        Ok(shape_of(j))
    }

    fn decode(j: &Json, key: &str, sources: &Sources) -> (r: Result<ObjectType, TiledError>) {
        Ok(ObjectType::resolve(j))
    }
}

/// What a template gives an object that refers to it: everything but the
/// id, the position and the properties, which are left at nothing.
///
/// `name`, `rotation`, `height` and `width` must be there; `type` is empty
/// where it is absent; `gid` and `id` may be absent. The template's own id
/// is read and dropped.
pub open spec fn template_record_of(j: JsonView, key: Seq<char>) -> Result<
    ObjectView,
    TiledErrorView,
> {
    let none = Map::<Seq<char>, Seq<char>>::empty();
    let gid = optional_of::<u32>(j, "gid"@, none);
    let id = optional_of::<u32>(j, "id"@, none);
    let name = required_of::<String>(j, "name"@, none);
    let custom_type = defaulted_of::<String>(j, "type"@, none, Seq::empty());
    let rotation = required_of::<Number>(j, "rotation"@, none);
    let height = required_of::<Number>(j, "height"@, none);
    let width = required_of::<Number>(j, "width"@, none);
    if !(j is Object) {
        malformed(key)
    } else if gid is Err {
        Err(gid->Err_0)
    } else if id is Err {
        Err(id->Err_0)
    } else if name is Err {
        Err(name->Err_0)
    } else if custom_type is Err {
        Err(custom_type->Err_0)
    } else if rotation is Err {
        Err(rotation->Err_0)
    } else if height is Err {
        Err(height->Err_0)
    } else if width is Err {
        Err(width->Err_0)
    } else {
        Ok(
            ObjectView {
                gid: gid->Ok_0,
                id: None,
                name: name->Ok_0,
                custom_type: custom_type->Ok_0,
                rotation: rotation->Ok_0,
                height: height->Ok_0,
                width: width->Ok_0,
                x: Number::PosInt(0),
                y: Number::PosInt(0),
                properties: Map::empty(),
                object_type: shape_of(j),
            },
        )
    }
}

/// What an object record gives that says everything itself.
///
/// On top of what a template must hold, `x` and `y` are 0 where they are
/// absent, and `properties` are empty where they are absent.
pub open spec fn inline_object_of(j: JsonView, key: Seq<char>) -> Result<
    ObjectView,
    TiledErrorView,
> {
    let none = Map::<Seq<char>, Seq<char>>::empty();
    let record = template_record_of(j, key);
    let id = optional_of::<u32>(j, "id"@, none);
    let x = defaulted_of::<Number>(j, "x"@, none, Number::PosInt(0));
    let y = defaulted_of::<Number>(j, "y"@, none, Number::PosInt(0));
    let properties = defaulted_of::<Properties>(j, "properties"@, none, Map::empty());
    if record is Err {
        Err(record->Err_0)
    } else if x is Err {
        Err(x->Err_0)
    } else if y is Err {
        Err(y->Err_0)
    } else if properties is Err {
        Err(properties->Err_0)
    } else {
        Ok(
            ObjectView {
                id: id->Ok_0,
                x: x->Ok_0,
                y: y->Ok_0,
                properties: properties->Ok_0,
                ..record->Ok_0
            },
        )
    }
}

/// What an object record gives that refers to a template: an object with
/// the id, the position and the properties that the record holds, and
/// nothing else. The template's path is the second part.
///
/// `id` and `template` must be there; `x` and `y` are 0 and `properties`
/// empty where they are absent.
pub open spec fn object_reference_of(j: JsonView, key: Seq<char>) -> Result<
    (ObjectView, Seq<char>),
    TiledErrorView,
> {
    let none = Map::<Seq<char>, Seq<char>>::empty();
    let id = required_of::<u32>(j, "id"@, none);
    let template = required_of::<String>(j, "template"@, none);
    let properties = defaulted_of::<Properties>(j, "properties"@, none, Map::empty());
    let x = defaulted_of::<Number>(j, "x"@, none, Number::PosInt(0));
    let y = defaulted_of::<Number>(j, "y"@, none, Number::PosInt(0));
    if !(j is Object) {
        malformed(key)
    } else if id is Err {
        Err(id->Err_0)
    } else if template is Err {
        Err(template->Err_0)
    } else if properties is Err {
        Err(properties->Err_0)
    } else if x is Err {
        Err(x->Err_0)
    } else if y is Err {
        Err(y->Err_0)
    } else {
        Ok(
            (
                ObjectView {
                    gid: None,
                    id: Some(id->Ok_0),
                    name: Seq::empty(),
                    custom_type: Seq::empty(),
                    rotation: Number::PosInt(0),
                    height: Number::PosInt(0),
                    width: Number::PosInt(0),
                    x: x->Ok_0,
                    y: y->Ok_0,
                    properties: properties->Ok_0,
                    object_type: ObjectTypeView::Rectangle,
                },
                template->Ok_0,
            ),
        )
    }
}

/// What the text of a template file gives: the record under `object` of the
/// document that the text is.
pub open spec fn template_of(document: Option<JsonView>) -> Result<ObjectView, TiledErrorView> {
    match document {
        None => Err(TiledErrorView::Syntax),
        Some(j) => match j.member("object"@) {
            None => malformed("object"@),
            Some(record) => template_record_of(record, "object"@),
        },
    }
}

/// The object that a reference and its template give together: the id, the
/// position and the properties are the reference's, the rest is the
/// template's.
pub open spec fn merged_object(reference: ObjectView, template: ObjectView) -> ObjectView {
    ObjectView {
        id: reference.id,
        x: reference.x,
        y: reference.y,
        properties: reference.properties,
        ..template
    }
}

/// What the object record `j` decodes to.
///
/// A record that says everything itself is taken as it stands. Any other
/// record must refer to a template, or the failure is `AmbiguousShape`. The
/// template must be among the sources, or the failure is `Reference` with
/// its path; what is wrong with the template's text fails the object.
pub open spec fn object_of(j: JsonView, key: Seq<char>, sources: SourcesView) -> Result<
    ObjectView,
    TiledErrorView,
> {
    let inline = inline_object_of(j, key);
    let reference = object_reference_of(j, key);
    if inline is Ok {
        inline
    } else if reference is Err {
        Err(TiledErrorView::AmbiguousShape)
    } else if !sources.dom().contains(reference->Ok_0.1) {
        Err(TiledErrorView::Reference(reference->Ok_0.1))
    } else {
        match template_of(json_document(sources[reference->Ok_0.1])) {
            Err(e) => Err(e),
            Ok(template) => Ok(merged_object(reference->Ok_0.0, template)),
        }
    }
}

fn template_record(j: &Json, key: &str) -> (r: Result<Object, TiledError>)
    ensures
        outcome(r) == template_record_of(j@, key@),
{
    let none: Sources = Dict::new();
    if !j.is_object() {
        return Err(TiledError::format(key));
    }
    let gid = optional::<u32>(j, "gid", &none)?;
    let _id = optional::<u32>(j, "id", &none)?;
    let name = required::<String>(j, "name", &none)?;
    let custom_type = defaulted::<String>(j, "type", &none, String::new())?;
    let rotation = required::<Number>(j, "rotation", &none)?;
    let height = required::<Number>(j, "height", &none)?;
    let width = required::<Number>(j, "width", &none)?;
    let object_type = ObjectType::resolve(j);
    Ok(
        Object {
            gid,
            id: None,
            name,
            custom_type,
            rotation,
            height,
            width,
            x: Number::PosInt(0),
            y: Number::PosInt(0),
            properties: Dict::new(),
            object_type,
        },
    )
}

fn inline_object(j: &Json, key: &str) -> (r: Result<Object, TiledError>)
    ensures
        outcome(r) == inline_object_of(j@, key@),
{
    let none: Sources = Dict::new();
    let mut object = template_record(j, key)?;
    let id = optional::<u32>(j, "id", &none)?;
    let x = defaulted::<Number>(j, "x", &none, Number::PosInt(0))?;
    let y = defaulted::<Number>(j, "y", &none, Number::PosInt(0))?;
    let properties = defaulted::<Properties>(j, "properties", &none, Dict::new())?;
    object.id = id;
    object.x = x;
    object.y = y;
    object.properties = properties;
    Ok(object)
}

fn object_reference(j: &Json, key: &str) -> (r: Result<(Object, String), TiledError>)
    ensures
        outcome(r) == object_reference_of(j@, key@),
{
    let none: Sources = Dict::new();
    if !j.is_object() {
        return Err(TiledError::format(key));
    }
    let id = required::<u32>(j, "id", &none)?;
    let template = required::<String>(j, "template", &none)?;
    let properties = defaulted::<Properties>(j, "properties", &none, Dict::new())?;
    let x = defaulted::<Number>(j, "x", &none, Number::PosInt(0))?;
    let y = defaulted::<Number>(j, "y", &none, Number::PosInt(0))?;
    Ok(
        (
            Object {
                gid: None,
                id: Some(id),
                name: String::new(),
                custom_type: String::new(),
                rotation: Number::PosInt(0),
                height: Number::PosInt(0),
                width: Number::PosInt(0),
                x,
                y,
                properties,
                object_type: ObjectType::Rectangle,
            },
            template,
        ),
    )
}

impl Object {
    /// Decodes what a template file holds, given the document that its text
    /// is; `None` stands for a text that is not JSON.
    pub fn from_template(document: Option<Json>) -> (r: Result<Object, TiledError>)
        ensures
            outcome(r) == template_of(document.deep_view()),
    {
        match document {
            None => Err(TiledError::Syntax),
            Some(j) => match j.get("object") {
                None => Err(TiledError::format("object")),
                Some(record) => template_record(record, "object"),
            },
        }
    }

    /// Gives a reference what its template holds: the id, the position and
    /// the properties stay, the rest comes from the template.
    pub fn merge(reference: Object, template: Object) -> (r: Object)
        ensures
            r.deep_view() == merged_object(reference.deep_view(), template.deep_view()),
    {
        let mut object = template;
        object.id = reference.id;
        object.x = reference.x;
        object.y = reference.y;
        object.properties = reference.properties;
        object
    }
}

impl Decode for Object {
    open spec fn decoded(j: JsonView, key: Seq<char>, sources: SourcesView) -> Result<
        ObjectView,
        TiledErrorView,
    > {
        object_of(j, key, sources)
    }

    fn decode(j: &Json, key: &str, sources: &Sources) -> (r: Result<Object, TiledError>) {
        match inline_object(j, key) {
            Ok(object) => Ok(object),
            Err(_) => match object_reference(j, key) {
                Err(_) => Err(TiledError::AmbiguousShape),
                Ok(found) => {
                    let (reference, path) = found;
                    match sources.get(path.as_str()) {
                        None => Err(TiledError::Reference(path)),
                        Some(text) => {
                            let template = Object::from_template(Json::read(text.as_str()))?;
                            Ok(Object::merge(reference, template))
                        },
                    }
                },
            },
        }
    }
}

} // verus!
