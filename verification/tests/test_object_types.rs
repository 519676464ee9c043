use tiled_json_rs::{
    Color, Decode, Json, Number, Object, ObjectType, Sources, Text, TiledError, TiledValue, Vec2,
};

fn object_from(data: &str) -> Result<Object, TiledError> {
    Object::decode(&Json::parse(data)?, "object", &Sources::new())
}

fn shape_from(data: &str) -> ObjectType {
    ObjectType::resolve(&Json::parse(data).expect("fail"))
}

#[test]
fn object() {
    let data = r##"
        {
          "gid":5,
          "height":0,
          "id":1,
          "name":"villager",
          "properties":[
            {
              "name":"hp",
              "type":"int",
              "value":12
            }],
          "rotation":0,
          "type":"npc",
          "visible":true,
          "width":0,
          "x":32,
          "y":32
        }"##;
    let m: Object = object_from(data).expect("fail");

    assert_eq!(m.properties.get("hp"), Some(&TiledValue::Int(12)));
}

#[test]
fn ellipse() {
    let data = r##"
        {
          "ellipse":true,
          "height":152,
          "id":13,
          "name":"",
          "rotation":0,
          "type":"",
          "visible":true,
          "width":248,
          "x":560,
          "y":808
        }"##;
    assert!(object_from(data).is_ok());
}

#[test]
fn rectangle() {
    let data = r##"
        {
          "height":184,
          "id":14,
          "name":"",
          "rotation":0,
          "type":"",
          "visible":true,
          "width":368,
          "x":576,
          "y":584
        }"##;
    assert!(object_from(data).is_ok());
}

#[test]
fn point() {
    let data = r##"
        {
          "point":true,
          "height":0,
          "id":20,
          "name":"",
          "rotation":0,
          "type":"",
          "visible":true,
          "width":0,
          "x":220,
          "y":350
        }"##;
    assert!(object_from(data).is_ok());
}

#[test]
fn polygon() {
    let data = r##"
        {
          "height":0,
          "id":15,
          "name":"",
          "polygon":[
          {
            "x":0,
            "y":0
          },
          {
            "x":152,
            "y":88
          },
          {
            "x":136,
            "y":-128
          },
          {
            "x":80,
            "y":-280
          },
          {
            "x":16,
            "y":-288
          }],
          "rotation":0,
          "type":"",
          "visible":true,
          "width":0,
          "x":-176,
          "y":432
        }"##;
    assert!(object_from(data).is_ok());
}

#[test]
fn polyline() {
    let data = r##"
        {
          "height":0,
          "id":16,
          "name":"",
          "polyline":[
          {
            "x":0,
            "y":0
          },
          {
            "x":248,
            "y":-32
          },
          {
            "x":376,
            "y":72
          },
          {
            "x":544,
            "y":288
          },
          {
            "x":656,
            "y":120
          },
          {
            "x":512,
            "y":0
          }],
          "rotation":0,
          "type":"",
          "visible":true,
          "width":0,
          "x":240,
          "y":88
        }"##;
    assert!(object_from(data).is_ok());
}

#[test]
fn text() {
    let data = r##"
        {
          "height":19,
          "id":15,
          "name":"",
          "text":
          {
            "text":"Hello World",
            "wrap":true
          },
          "rotation":0,
          "type":"",
          "visible":true,
          "width":248,
          "x":48,
          "y":136
        }"##;
    assert!(object_from(data).is_ok());
}

#[test]
fn shapes_by_their_keys() {
    assert_eq!(shape_from(r##"{"ellipse":true, "visible":true}"##), ObjectType::Ellipse);
    assert_eq!(shape_from(r##"{"ellipse":false, "point":true}"##), ObjectType::Rectangle);
    assert_eq!(shape_from(r##"{"visible":true, "name":"x"}"##), ObjectType::Rectangle);
    assert_eq!(shape_from(r##"{"point":true}"##), ObjectType::Point);
    assert_eq!(shape_from(r##"{"point":false, "polygon":[]}"##), ObjectType::Rectangle);
    assert_eq!(
        shape_from(r##"{"polygon":[{"x":0,"y":0},{"x":1,"y":1}]}"##),
        ObjectType::Polygon(vec![Vec2 { x: 0, y: 0 }, Vec2 { x: 1, y: 1 }])
    );
    assert_eq!(
        shape_from(r##"{"polyline":[{"x":-2,"y":7}]}"##),
        ObjectType::PolyLine(vec![Vec2 { x: -2, y: 7 }])
    );
    assert_eq!(shape_from("7"), ObjectType::Rectangle);
    assert!(shape_from(r##"{"point":true}"##).is_some());
    assert!(!shape_from(r##"{"point":true}"##).is_none());
    assert!(shape_from(r##"{"point":false}"##).is_none());
    assert!(!shape_from(r##"{"point":false}"##).is_some());
}

#[test]
fn the_first_shape_that_fits_decides() {
    // a flag that is no flag does not decide
    assert_eq!(shape_from(r##"{"ellipse":"yes", "point":true}"##), ObjectType::Point);
    assert_eq!(shape_from(r##"{"ellipse":true, "point":true}"##), ObjectType::Ellipse);
    // points must be whole numbers
    assert_eq!(
        shape_from(r##"{"polygon":[{"x":0.5,"y":0}], "polyline":[{"x":1,"y":2}]}"##),
        ObjectType::PolyLine(vec![Vec2 { x: 1, y: 2 }])
    );
    assert_eq!(
        shape_from(r##"{"polygon":[], "polyline":[{"x":1,"y":2}]}"##),
        ObjectType::Polygon(vec![])
    );
    assert_eq!(shape_from(r##"{"polygon":[{"x":1}], "text":{"bold":true}}"##), ObjectType::Rectangle);
}

#[test]
fn text_flags_and_colour() {
    assert_eq!(
        shape_from(r##"{"text":{"text":"Hello World", "wrap":true}}"##),
        ObjectType::Text(Text { flags: 4, color: Color(0, 0, 0, 255), text: "Hello World".to_string() })
    );
    assert_eq!(
        shape_from(
            r##"{"text":{"text":"a", "bold":true, "italic":true, "wrap":true, "color":"#80ff0000"}}"##
        ),
        ObjectType::Text(Text { flags: 7, color: Color(255, 0, 0, 8), text: "a".to_string() })
    );
    assert_eq!(
        shape_from(r##"{"text":{"text":"a", "bold":true, "italic":false}}"##),
        ObjectType::Text(Text { flags: 1, color: Color(0, 0, 0, 255), text: "a".to_string() })
    );
    assert_eq!(
        shape_from(r##"{"text":{"text":"a", "italic":true}}"##),
        ObjectType::Text(Text { flags: 2, color: Color(0, 0, 0, 255), text: "a".to_string() })
    );
    assert_eq!(shape_from(r##"{"text":{"text":"a", "bold":1}}"##), ObjectType::Rectangle);
    assert_eq!(shape_from(r##"{"text":{"bold":true}}"##), ObjectType::Rectangle);
}

#[test]
fn object_fields() {
    let data = r##"
        {"gid":5, "height":2.5, "id":1, "name":"villager", "rotation":-90, "type":"npc",
         "width":3, "ellipse":true, "visible":true}"##;
    let m = object_from(data).expect("fail");
    assert_eq!(m.gid, Some(5));
    assert_eq!(m.id, Some(1));
    assert_eq!(m.name, "villager");
    assert_eq!(m.custom_type, "npc");
    assert_eq!(m.rotation, Number::NegInt(-90));
    assert_eq!(m.height, Number::Float(2.5f64.to_bits()));
    assert_eq!(m.width, Number::PosInt(3));
    assert_eq!(m.x, Number::PosInt(0));
    assert_eq!(m.y, Number::PosInt(0));
    assert!(m.properties.is_empty());
    assert_eq!(m.object_type, ObjectType::Ellipse);
}

#[test]
fn object_from_a_template() {
    let mut sources = Sources::new();
    sources.insert(
        "tree.json".to_string(),
        r##"{"object":{"gid":7, "id":99, "name":"tree", "type":"plant", "rotation":0,
             "height":64, "width":32, "x":500, "y":600, "point":true,
             "properties":[{"name":"kind", "type":"string", "value":"oak"}]},
             "type":"template"}"##
            .to_string(),
    );
    let data = r##"{"id":3, "template":"tree.json", "x":10, "y":20,
        "properties":[{"name":"hp", "type":"int", "value":4}]}"##;
    let m = Object::decode(&Json::parse(data).expect("fail"), "object", &sources).expect("fail");
    assert_eq!(m.id, Some(3));
    assert_eq!(m.gid, Some(7));
    assert_eq!(m.name, "tree");
    assert_eq!(m.custom_type, "plant");
    assert_eq!(m.height, Number::PosInt(64));
    assert_eq!(m.width, Number::PosInt(32));
    assert_eq!(m.x, Number::PosInt(10));
    assert_eq!(m.y, Number::PosInt(20));
    assert_eq!(m.properties.len(), 1);
    assert_eq!(m.properties.get("hp"), Some(&TiledValue::Int(4)));
    assert_eq!(m.properties.get("kind"), None);
    assert_eq!(m.object_type, ObjectType::Point);

    let bare = r##"{"id":4, "template":"tree.json"}"##;
    let m = Object::decode(&Json::parse(bare).expect("fail"), "object", &sources).expect("fail");
    assert_eq!(m.id, Some(4));
    assert_eq!(m.x, Number::PosInt(0));
    assert_eq!(m.y, Number::PosInt(0));
    assert!(m.properties.is_empty());
}

#[test]
fn object_failures() {
    let mut sources = Sources::new();
    assert_eq!(
        object_from(r##"{"id":3, "template":"tree.json"}"##),
        Err(TiledError::Reference("tree.json".to_string()))
    );
    assert_eq!(object_from(r##"{"id":3, "name":"x"}"##), Err(TiledError::AmbiguousShape));
    assert_eq!(object_from("12"), Err(TiledError::AmbiguousShape));
    sources.insert("broken.json".to_string(), "{".to_string());
    sources.insert("empty.json".to_string(), "{}".to_string());
    sources.insert("thin.json".to_string(), r##"{"object":{"name":"x"}}"##.to_string());
    let decode = |path: &str| {
        let mut text = r##"{"id":3, "template":""##.to_string();
        text.push_str(path);
        text.push_str(r##""}"##);
        Object::decode(&Json::parse(&text).expect("fail"), "object", &sources)
    };
    assert_eq!(decode("broken.json"), Err(TiledError::Syntax));
    assert_eq!(decode("empty.json"), Err(TiledError::Format("object".to_string())));
    assert_eq!(decode("thin.json"), Err(TiledError::Format("rotation".to_string())));
    assert_eq!(decode("other.json"), Err(TiledError::Reference("other.json".to_string())));
    assert_eq!(Object::from_template(None), Err(TiledError::Syntax));
    assert_eq!(
        Object::from_template(Some(Json::Array(vec![]))),
        Err(TiledError::Format("object".to_string()))
    );
}
