use tiled_json_rs::{Color, Orientation, RenderOrder, Sources, TiledError, TiledMap, TiledValue};

#[test]
fn parse_map_basic() {
    // Some JSON input data as a &str. Maybe this comes from the user.
    let data = r##"
        {
          "backgroundcolor":"#656667",
          "height":4,
          "layers":[ ],
          "nextobjectid":1,
          "orientation":"orthogonal",
          "properties":[
            {
              "name":"mapProperty1",
              "type":"string",
              "value":"string"
            },
            {
              "name":"mapProperty2",
              "type":"string",
              "value":"string"
            }],
          "renderorder":"right-down",
          "tileheight":32,
          "tilesets":[ ],
          "tilewidth":32,
          "version":1,
          "tiledversion":"1.0.3",
          "width":4
        }"##;

    let m: TiledMap = TiledMap::load_from_str(data, &Sources::new()).expect("fail");

    assert_eq!(&m.background_color, &Color(86, 102, 118, 255));

    assert!(m.hex_side_length.is_none());

    assert!(!m.infinite);

    assert_eq!(m.layers.len(), 0);

    assert_eq!(&m.orientation, &Orientation::Orthogonal);

    assert_ne!(m.properties.len(), 0);
    assert_eq!(
        m.properties.get("mapProperty1"),
        Some(&TiledValue::String("string".to_string()))
    );

    assert!(m.render_order.is_some());
    assert_eq!(&m.render_order.unwrap(), &RenderOrder::RightDown);

    assert!(m.stagger_axis.is_none());
    assert!(m.stagger_index.is_none());

    assert_eq!(m.tile_height, 32);
    assert_eq!(m.tile_width, 32);

    assert_eq!(m.tile_sets.len(), 0);

    assert_eq!(m.height, 4);
    assert_eq!(m.width, 4);
}

#[test]
fn map_with_one_tile_layer() {
    let data = r##"
        {
          "height":4, "width":4, "tileheight":16, "tilewidth":16,
          "orientation":"hexagonal", "hexsidelength":6,
          "staggeraxis":"y", "staggerindex":"odd", "infinite":false,
          "tilesets":[],
          "layers":[
            {"name":"ground", "opacity":1, "type":"tilelayer", "visible":true, "x":0, "y":0,
             "height":4, "width":4,
             "data":[1, 2, 1, 2, 3, 1, 3, 1, 2, 2, 3, 3, 4, 4, 4, 1]}
          ]
        }"##;
    let m = TiledMap::load_from_str(data, &Sources::new()).expect("fail");
    assert_eq!(m.layers.len(), 1);
    if let tiled_json_rs::LayerType::TileLayer(tiles) = &m.layers[0].layer_type {
        assert_eq!(tiles.data.len(), 16);
        assert!(tiles.chunks.is_none());
    } else {
        panic!("Should have been a LayerType::TileLayer");
    }
    assert_eq!(m.background_color, Color(0, 0, 0, 0));
    assert_eq!(m.orientation, Orientation::Hexagonal);
    assert_eq!(m.hex_side_length, Some(6));
    assert_eq!(m.stagger_axis, Some(tiled_json_rs::StaggerAxis::Y));
    assert_eq!(m.stagger_index, Some(tiled_json_rs::StaggerIndex::Odd));
    assert_eq!(m.render_order, None);
    assert!(m.properties.is_empty());
}

#[test]
fn map_failures() {
    let none = Sources::new();
    assert_eq!(TiledMap::load_from_str("not json", &none), Err(TiledError::Syntax));
    assert_eq!(
        TiledMap::load_from_str("[]", &none),
        Err(TiledError::Format("map".to_string()))
    );
    assert_eq!(
        TiledMap::load_from_str(r##"{"layers":[]}"##, &none),
        Err(TiledError::Format("orientation".to_string()))
    );
    assert_eq!(
        TiledMap::load_from_str(r##"{"layers":[], "orientation":"round"}"##, &none),
        Err(TiledError::Format("orientation".to_string()))
    );
    assert_eq!(
        TiledMap::load_from_str(r##"{"layers":[], "backgroundcolor":"#12"}"##, &none),
        Err(TiledError::Format("backgroundcolor".to_string()))
    );
    let bad_order = r##"{"layers":[], "orientation":"isometric", "renderorder":"up"}"##;
    assert_eq!(
        TiledMap::load_from_str(bad_order, &none),
        Err(TiledError::Format("renderorder".to_string()))
    );
    assert_eq!(
        TiledError::Format("width".to_string()).message(),
        "missing or malformed field: width"
    );
    assert_eq!(TiledError::Reference("a.json".to_string()).message(), "file not available: a.json");
}
