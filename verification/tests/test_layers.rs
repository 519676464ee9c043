use tiled_json_rs::{
    Chunk, Color, Decode, DrawOrder, Json, Layer, LayerType, Number, Sources, TiledError,
    TiledValue,
};

fn layer_from(data: &str) -> Result<Layer, TiledError> {
    Layer::decode(&Json::parse(data)?, "layer", &Sources::new())
}

fn as_f32(n: &Number) -> f32 {
    match n {
        Number::PosInt(u) => *u as f32,
        Number::NegInt(i) => *i as f32,
        Number::Float(bits) => f64::from_bits(*bits) as f32,
    }
}

#[test]
fn parse_tile_layer_no_encoding() {
    // Some JSON input data as a &str. Maybe this comes from the user.
    let data = r##"
        {
          "data":[1, 2, 1, 2, 3, 1, 3, 1, 2, 2, 3, 3, 4, 4, 4, 1],
          "height":4,
          "name":"ground",
          "opacity":1,
          "properties":[
            {
              "name":"tileLayerProp",
              "type":"int",
              "value":1
            },
            {
                "name": "test",
                "type": "bool",
                "value": false
            }],
          "type":"tilelayer",
          "visible":true,
          "width":4,
          "x":0,
          "y":0
        }"##;

    let m: Layer = layer_from(data).expect("fail");

    match m.layer_type {
        LayerType::TileLayer(data) => {
            assert!(data.chunks.is_none());
            assert_eq!(data.data.len(), 16);
        }
        _ => {}
    }

    assert_eq!(m.properties.get("test"), Some(&TiledValue::Bool(false)));
    assert_eq!(m.properties.get("tileLayerProp"), Some(&TiledValue::Int(1)));
}

#[test]
fn parse_tile_layer_encoding() {
    // Some JSON input data as a &str. Maybe this comes from the user.
    let data = r##"
        {
          "data":"UQAAAFMAAAAsAAAALAAAACwAAAAsAAAALAAAACwAAAAsAAAALAAAACwAAAA", 
          "encoding": "base64",
          "height":4,
          "name":"ground",
          "opacity":1,
          "properties":[
          ],
          "type":"tilelayer",
          "visible":true,
          "width":4,
          "x":0,
          "y":0
        }"##;

    let m: Layer = layer_from(data).expect("fail");

    match m.layer_type {
        LayerType::TileLayer(data) => {
            assert_eq!(data.data.len(), 11);
        }
        _ => {}
    }
}

#[test]
fn check_property_variants() {
    // Some JSON input data as a &str. Maybe this comes from the user.
    let data = r##"
        {
          "draworder":"topdown",
          "height":0,
          "name":"people",
          "objects":[ ],
          "opacity":1,
          "properties":[
            {
              "name":"layerProp1",
              "type":"bool",
              "value":true
            },
            {
              "name":"layerProp2",
              "type":"float",
              "value":1.6
            },
            {
              "name":"layerProp3",
              "type":"int",
              "value":1
            },
            {
              "name":"layerProp4",
              "type":"color",
              "value": "#fff22a9c"
            },
            {
              "name":"layerProp5",
              "type":"string",
              "value":"naff"
            }],
          "type":"objectgroup",
          "visible":true,
          "width":0,
          "x":0,
          "y":0
        }"##;

    let m: Layer = layer_from(data).expect("fail");

    match m.layer_type {
        LayerType::ObjectGroup(data) => {
            assert_eq!(&data.draw_order, &DrawOrder::TopDown);
        }
        _ => {}
    }

    assert_eq!(m.properties.get("layerProp1"), Some(&TiledValue::Bool(true)));
    match m.properties.get("layerProp2") {
        Some(TiledValue::Float(n)) => assert_eq!(as_f32(n), 1.6),
        _ => panic!("should be a float"),
    }
    assert_eq!(m.properties.get("layerProp3"), Some(&TiledValue::Int(1)));
    match m.properties.get("layerProp4") {
        Some(TiledValue::Color(c)) => {
            assert_eq!(c.r(), 47);
            assert_eq!(c.g(), 162);
            assert_eq!(c.b(), 201);
            assert_eq!(c.a(), 255);
        }
        _ => panic!("shouldn't be a color"),
    }
    assert_eq!(
        m.properties.get("layerProp5"),
        Some(&TiledValue::String("naff".to_string()))
    );
}

#[test]
fn check_layer_type_variations() {
    // Some JSON input data as a &str. Maybe this comes from the user.
    let data = r##"
        {
          "height":4,
          "name":"ground",
          "opacity":1,
          "properties":[
          ],
          "type":"tilelayer",
          "visible":true,
          "width":4,
          "x":0,
          "y":0
        }"##;
    let m: Layer = layer_from(data).expect("fail");
    if let LayerType::TileLayer(data) = m.layer_type {
        assert_eq!(data.data.len(), 0)
    } else {
        panic!("Should have been a LayerType::TileLayer");
    }

    let data = r##"
        {
          "height":4,
          "name":"ground",
          "opacity":1,
          "properties":[
          ],
          "type":"objectgroup",
          "visible":true,
          "width":4,
          "x":0,
          "y":0
        }"##;
    let m: Layer = layer_from(data).expect("fail");
    if let LayerType::ObjectGroup(data) = &m.layer_type {
        assert_eq!(data.objects.len(), 0)
    } else {
        panic!("Should have been a LayerType::ObjectGroup");
    }

    let data = r##"
        {
          "height":4,
          "name":"ground",
          "opacity":1,
          "properties":[
          ],
          "type":"imagelayer",
          "visible":true,
          "width":4,
          "x":0,
          "y":0
        }"##;
    let m: Layer = layer_from(data).expect("fail");
    if let LayerType::ImageLayer(data) = &m.layer_type {
        assert_eq!(&data.transparent_color, &Color(0, 0, 0, 0))
    } else {
        panic!("Should have been a LayerType::ObjectGroup");
    }
}

#[test]
fn chunk() {
    let data = r##"{
          "data":[1, 2, 1, 2, 3, 1, 3, 1, 2, 2, 3, 3, 4, 4, 4, 1],
          "height":16,
          "width":16,
          "x":0,
          "y":-16
        }"##;
    let m: Chunk =
        Chunk::decode(&Json::parse(data).expect("fail"), "chunk", &Sources::new()).expect("fail");

    assert_eq!(m.data.len(), 16);
    assert_eq!(m.data[2], 1);
    assert_eq!(m.y, -16);
}

#[test]
fn group_keeps_the_order_of_its_layers() {
    let data = r##"
        {
          "name":"Group",
          "opacity":1,
          "type":"group",
          "visible":true,
          "x":0,
          "y":0,
          "layers":[
            {"name":"bg", "opacity":0.5, "type":"imagelayer", "image":"bg.jpg",
             "visible":true, "x":0, "y":0},
            {"name":"tiles", "opacity":1, "type":"tilelayer", "data":[1, 2, 3, 4],
             "height":2, "width":2, "visible":false, "x":0, "y":0, "offsetx":-3}
          ]
        }"##;
    let m = layer_from(data).expect("fail");
    assert_eq!(m.name, "Group");
    if let LayerType::Group { layers } = &m.layer_type {
        assert_eq!(layers.len(), 2);
        if let LayerType::ImageLayer(image) = &layers[0].layer_type {
            assert_eq!(image.image, "bg.jpg");
            assert_eq!(image.transparent_color, Color(0, 0, 0, 0));
        } else {
            panic!("First layer in group should be image layer")
        }
        assert_eq!(as_f32(&layers[0].opacity), 0.5);
        if let LayerType::TileLayer(tiles) = &layers[1].layer_type {
            assert_eq!(tiles.data, vec![1, 2, 3, 4]);
        } else {
            panic!("Second layer in group should be tile layer")
        }
        assert_eq!(layers[1].offset_x, Number::NegInt(-3));
        assert_eq!(layers[1].offset_y, Number::PosInt(0));
        assert!(!layers[1].visible);
    } else {
        panic!("Layer should be Group");
    }
}

#[test]
fn layer_failures_name_the_field() {
    let no_type = r##"{"name":"a", "opacity":1, "visible":true, "x":0, "y":0}"##;
    assert_eq!(layer_from(no_type), Err(TiledError::Format("type".to_string())));
    let odd_type = r##"{"name":"a", "opacity":1, "type":"sky", "visible":true, "x":0, "y":0}"##;
    assert_eq!(layer_from(odd_type), Err(TiledError::Format("type".to_string())));
    let no_layers = r##"{"name":"a", "opacity":1, "type":"group", "visible":true, "x":0, "y":0}"##;
    assert_eq!(layer_from(no_layers), Err(TiledError::Format("layers".to_string())));
    let bad_child = r##"{"name":"a", "opacity":1, "type":"group", "visible":true, "x":0, "y":0,
        "layers":[{"name":"b", "opacity":1, "type":"imagelayer", "visible":true, "x":0}]}"##;
    assert_eq!(layer_from(bad_child), Err(TiledError::Format("y".to_string())));
    let real_x = r##"{"name":"a", "opacity":1, "type":"imagelayer", "visible":true, "x":0.5, "y":0}"##;
    assert_eq!(layer_from(real_x), Err(TiledError::Format("x".to_string())));
    assert_eq!(layer_from("[1, 2]"), Err(TiledError::Format("layer".to_string())));
    assert_eq!(layer_from("{"), Err(TiledError::Syntax));
}

#[test]
fn chunks_of_a_layer_without_bounds() {
    let data = r##"
        {
          "name":"far", "opacity":1, "type":"tilelayer", "visible":true, "x":0, "y":0,
          "height":32, "width":32,
          "chunks":[
            {"data":[1, 2, 3, 4], "height":2, "width":2, "x":-16, "y":0},
            {"data":"AQAAAAIAAAA=", "height":1, "width":2, "x":0, "y":-16}
          ]
        }"##;
    let m = layer_from(data).expect("fail");
    if let LayerType::TileLayer(tiles) = m.layer_type {
        assert_eq!(tiles.data.len(), 0);
        let chunks = tiles.chunks.expect("chunks");
        assert_eq!(chunks.len(), 2);
        assert_eq!(chunks[0].x, -16);
        assert_eq!(chunks[0].data, vec![1, 2, 3, 4]);
        assert_eq!(chunks[1].y, -16);
        assert_eq!(chunks[1].data, vec![1, 2]);
        assert_eq!(tiles.width, 32);
    } else {
        panic!("Should have been a LayerType::TileLayer");
    }
}
