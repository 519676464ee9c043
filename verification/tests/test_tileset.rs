use tiled_json_rs::{
    Color, Decode, Frame, Json, Number, ObjectType, Sources, TileRect, TileSet, TiledError,
    TiledMap, TiledValue, Vec2,
};

fn tile_set_from(data: &str) -> Result<TileSet, TiledError> {
    TileSet::decode(&Json::parse(data)?, "tileset", &Sources::new())
}

#[test]
fn tileset() {
    let data = r##"
        {
         "columns":19,
         "firstgid":1,
         "image":"..\/image\/fishbaddie_parts.png",
         "imageheight":480,
         "imagewidth":640,
         "margin":3,
         "name":"",
         "properties":[
           {
             "name":"myProperty1",
             "type":"string",
             "value":"myProperty1_value"
           }],
         "spacing":1,
         "tilecount":266,
         "tileheight":32,
         "tilewidth":32
        }"##;
    assert!(tile_set_from(data).is_ok());
}

#[test]
fn tile_set_tiles() {
    let data = r##"
     {
         "columns":19,
         "firstgid":1,
         "image":"..\/image\/fishbaddie_parts.png",
         "imageheight":480,
         "imagewidth":640,
         "margin":3,
         "name":"",
         "properties":[
           {
             "name":"myProperty1",
             "type":"string",
             "value":"myProperty1_value"
           }],
         "spacing":1,
         "tilecount":266,
         "tileheight":32,
         "tilewidth":32,
         "tiles":[
              {
                "id":0,
                "properties":[
                  {
                    "name":"myProperty1",
                    "type":"string",
                    "value":"myProperty1_value"
                  },
                  {
                    "name":"color",
                    "type":"color",
                    "value":"#ffff2a9c"
                  }],
                "terrain":[0, 0, 0, 0]
              },
              {
                "id":11,
                "properties":[
                  {
                    "name":"myProperty2",
                    "type":"string",
                    "value":"myProperty2_value"
                  }],
                "terrain":[0, 1, 0, 1]
              },
              {
                "id":12,
                "properties":[
                  {
                    "name":"myProperty3",
                    "type":"string",
                    "value":"myProperty3_value"
                  }],
                "terrain":[1, 1, 1, 1]
              }
         ]
      }"##;
    assert!(tile_set_from(data).is_ok());
}

#[test]
fn tileset_wang() {
    let data = r##"
        {
         "columns":19,
         "firstgid":1,
         "image":"..\/image\/fishbaddie_parts.png",
         "imageheight":480,
         "imagewidth":640,
         "margin":3,
         "name":"",
         "properties":[
           {
             "name":"myProperty1",
             "type":"string",
             "value":"myProperty1_value"
           }],
         "spacing":1,
         "tilecount":266,
         "tileheight":32,
         "tilewidth":32,
         "wangsets":[
           {
             "cornercolors":[{
                  "color": "#d31313",
                  "name": "Rails",
                  "probability": 1,
                  "tile": 18
                }],
             "edgecolors":[{
                  "color": "#d31313",
                  "name": "Rails",
                  "probability": 1,
                  "tile": 18
                }],
             "name":"some_name",
             "tile":42,
             "wangtiles":[{
                  "dflip": false,
                  "hflip": false,
                  "tileid": 0,
                  "vflip": false,
                  "wangid": [2, 0, 1, 0, 1, 0, 2, 0]
                }]
           }]
        }"##;

    let m = tile_set_from(data).unwrap();
    assert!(tile_set_from(data).is_ok());

    assert_eq!(
        m.wang_sets.as_ref().unwrap()[0].corner_colors[0].color.r(),
        61
    );

    assert_eq!(
        m.wang_sets.as_ref().unwrap()[0].corner_colors[0].color,
        Color(61, 49, 49, 255)
    );

    assert_eq!(
        m.wang_sets.unwrap()[0].wang_tiles[0].wang_id,
        [2, 0, 1, 0, 1, 0, 2, 0]
    );
}

const NUMBERS: &str = r##"
    {"columns":4, "firstgid":99, "image":"numbers.png", "imageheight":64, "imagewidth":128,
     "margin":0, "name":"numbers", "spacing":0, "tilecount":8, "tileheight":32, "tilewidth":16,
     "tileoffset":{"x":-1, "y":2},
     "terrains":[{"name":"grass", "tile":3}],
     "tiles":[{"id":2, "type":"door", "image":"door.png", "imagewidth":16,
               "animation":[{"duration":100, "tileid":2}, {"duration":50, "tileid":3}],
               "objectgroup":{"draworder":"index", "objects":[
                   {"id":1, "name":"hit", "rotation":0, "height":25.25, "width":4, "point":true}]}}]}"##;

#[test]
fn tile_set_fields() {
    let m = tile_set_from(NUMBERS).expect("fail");
    assert_eq!(m.columns, 4);
    assert_eq!(m.first_gid, 99);
    assert_eq!(m.image, "numbers.png");
    assert_eq!((m.image_width, m.image_height), (128, 64));
    assert_eq!(m.name, "numbers");
    assert_eq!((m.tile_count, m.tile_height, m.tile_width), (8, 32, 16));
    assert_eq!(m.tile_offset, Some(Vec2 { x: -1, y: 2 }));
    assert_eq!(m.transparent_color, Color(0, 0, 0, 0));
    assert!(m.wang_sets.is_none());
    let terrains = m.terrains.as_ref().expect("terrains");
    assert_eq!(terrains[0].name, "grass");
    assert_eq!(terrains[0].tile, 3);
    let tile = &m.tiles.as_ref().expect("tiles")[0];
    assert_eq!(tile.id, 2);
    assert_eq!(tile.tile_type, Some("door".to_string()));
    assert_eq!(tile.image, Some("door.png".to_string()));
    assert_eq!((tile.image_width, tile.image_height), (16, 0));
    assert_eq!(tile.terrain, None);
    assert_eq!(
        tile.animation,
        Some(vec![Frame { duration: 100, tile_id: 2 }, Frame { duration: 50, tile_id: 3 }])
    );
    let group = tile.object_group.as_ref().expect("objects");
    assert_eq!(group.draw_order, tiled_json_rs::DrawOrder::Index);
    assert_eq!(group.objects[0].height, Number::Float(25.25f64.to_bits()));
    assert_eq!(group.objects[0].object_type, ObjectType::Point);
    assert!(std::ptr::eq(m.internal(), &m));
}

#[test]
fn tile_set_from_another_file() {
    let mut sources = Sources::new();
    sources.insert("a.json".to_string(), NUMBERS.to_string());
    let entry = Json::parse(r##"{"firstgid":1, "source":"a.json"}"##).expect("fail");
    let m = TileSet::decode(&entry, "tileset", &sources).expect("fail");
    assert_eq!(m.first_gid, 1);
    assert_eq!(m.name, "numbers");
    assert_eq!(m.tile_count, 8);
    let inline = tile_set_from(NUMBERS).expect("fail");
    assert_eq!(TileSet { first_gid: 99, ..m }, inline);

    let again = TileSet::from_file(Json::read(NUMBERS), 5, &sources).expect("fail");
    assert_eq!(again.first_gid, 5);
}

#[test]
fn tile_set_failures() {
    let mut sources = Sources::new();
    sources.insert("broken.json".to_string(), "]".to_string());
    sources.insert("thin.json".to_string(), r##"{"columns":4}"##.to_string());
    sources.insert("ref.json".to_string(), r##"{"firstgid":1, "source":"a.json"}"##.to_string());
    let decode = |text: &str| TileSet::decode(&Json::parse(text).expect("fail"), "tileset", &sources);
    assert_eq!(
        decode(r##"{"firstgid":1, "source":"a.json"}"##),
        Err(TiledError::Reference("a.json".to_string()))
    );
    assert_eq!(decode(r##"{"firstgid":1, "source":"broken.json"}"##), Err(TiledError::Syntax));
    assert_eq!(
        decode(r##"{"firstgid":1, "source":"thin.json"}"##),
        Err(TiledError::Format("image".to_string()))
    );
    // a file of a tile set holds the tile set itself, not a reference to yet another file
    assert_eq!(
        decode(r##"{"firstgid":1, "source":"ref.json"}"##),
        Err(TiledError::Format("columns".to_string()))
    );
    assert_eq!(decode(r##"{"columns":4}"##), Err(TiledError::AmbiguousShape));
    assert_eq!(decode(r##"{"source":"a.json"}"##), Err(TiledError::AmbiguousShape));
    assert_eq!(decode("3"), Err(TiledError::AmbiguousShape));
    assert_eq!(TileSet::from_file(None, 1, &sources), Err(TiledError::Syntax));
    // a template that is missing below a tile set that says everything itself
    let with_object = NUMBERS.replace(
        r##"{"id":1, "name":"hit", "rotation":0, "height":25.25, "width":4, "point":true}"##,
        r##"{"id":1, "template":"hit.json"}"##,
    );
    assert_eq!(decode(&with_object), Err(TiledError::Reference("hit.json".to_string())));
    let bad_terrain = NUMBERS.replace(r##""type":"door""##, r##""terrain":[0, 1, 2]"##);
    assert_eq!(decode(&bad_terrain), Err(TiledError::AmbiguousShape));
}

fn two_sets() -> TiledMap {
    let data = r##"
        {"height":3, "width":5, "tileheight":16, "tilewidth":16, "orientation":"orthogonal",
         "layers":[],
         "tilesets":[
           {"columns":4, "firstgid":1, "image":"first.png", "imageheight":64, "imagewidth":128,
            "margin":0, "name":"first", "spacing":0, "tilecount":10, "tileheight":32, "tilewidth":16},
           {"columns":2, "firstgid":11, "image":"second.png", "imageheight":64, "imagewidth":128,
            "margin":0, "name":"second", "spacing":0, "tilecount":5, "tileheight":8, "tilewidth":24}
         ]}"##;
    TiledMap::load_from_str(data, &Sources::new()).expect("fail")
}

#[test]
fn tile_set_of_a_global_id() {
    let m = two_sets();
    assert_eq!(m.tileset_index(11), Some(1));
    assert_eq!(m.tileset_index(0), None);
    assert_eq!(m.tileset_index(1), Some(0));
    assert_eq!(m.tileset_index(10), Some(0));
    assert_eq!(m.tileset_index(15), Some(1));
    assert_eq!(m.tileset_index(16), None);
    assert_eq!(m.tileset_name(11), Some("second"));
    assert_eq!(m.tileset_name(3), Some("first"));
    assert_eq!(m.tileset_name(0), None);
    assert_eq!(m.tileset_image_path(12), Some("second.png"));
    assert_eq!(m.tileset_image_path(40), None);
}

#[test]
fn overlapping_tile_sets_go_to_the_first() {
    let data = r##"
        {"height":3, "width":5, "tileheight":16, "tilewidth":16, "orientation":"orthogonal",
         "layers":[],
         "tilesets":[
           {"columns":4, "image":"zero.png", "imageheight":64, "imagewidth":128,
            "margin":0, "name":"zero", "spacing":0, "tilecount":4, "tileheight":32, "tilewidth":16},
           {"columns":2, "firstgid":4294967290, "image":"high.png", "imageheight":64, "imagewidth":128,
            "margin":0, "name":"high", "spacing":0, "tilecount":100, "tileheight":8, "tilewidth":24},
           {"columns":2, "firstgid":2, "image":"late.png", "imageheight":64, "imagewidth":128,
            "margin":0, "name":"late", "spacing":0, "tilecount":100, "tileheight":8, "tilewidth":24}
         ]}"##;
    let m = TiledMap::load_from_str(data, &Sources::new()).expect("fail");
    assert_eq!(m.tile_sets[0].first_gid, 0);
    assert_eq!(m.tileset_name(0), None);
    assert_eq!(m.tileset_name(3), Some("zero"));
    assert_eq!(m.tileset_name(4), Some("late"));
    assert_eq!(m.tileset_name(4294967295), Some("high"));
}

#[test]
fn place_of_a_tile_on_its_image() {
    let m = two_sets();
    // local id 6 of four columns: column 2, row 1
    assert_eq!(
        m.tile_sets[0].tile_position_on_image(6),
        TileRect { x: 32, y: 32, width: 16, height: 32 }
    );
    assert_eq!(m.tile_position_on_image(7), TileRect { x: 32, y: 32, width: 16, height: 32 });
    // global id 14 is local id 3 of two columns: column 1, row 1
    assert_eq!(m.tile_position_on_image(14), TileRect { x: 24, y: 8, width: 24, height: 8 });
    // no tile set holds 40: the first one is asked, with 40 itself
    assert_eq!(m.tile_position_on_image(40), TileRect { x: 0, y: 320, width: 16, height: 32 });
}

#[test]
fn place_of_a_tile_on_the_map() {
    let m = two_sets();
    // place 7 of five columns: column 2, row 1; both scaled by the tile width
    assert_eq!(m.tile_position_on_map(7, 3), Vec2 { x: 32, y: 16 });
    assert_eq!(m.tile_position_on_map(7, 12), Vec2 { x: 48, y: 24 });
    assert_eq!(m.tile_position_on_map(14, 0), Vec2 { x: 64, y: 32 });
}

#[test]
fn place_of_a_tile_in_a_layer() {
    let layer = tiled_json_rs::TileLayer { chunks: None, data: vec![0; 12], height: 3, width: 4 };
    assert_eq!(layer.tile_position_on_layer(0), Vec2 { x: 0, y: 0 });
    assert_eq!(layer.tile_position_on_layer(7), Vec2 { x: 3, y: 1 });
    assert_eq!(layer.tile_position_on_layer(8), Vec2 { x: 0, y: 2 });
}

#[test]
fn property_of_a_tile_set() {
    let data = NUMBERS.replace(
        r##""tileoffset""##,
        r##""properties":[{"name":"pi", "type":"float", "value":3.14}], "tileoffset""##,
    );
    let m = tile_set_from(&data).expect("fail");
    assert_eq!(
        m.properties.get("pi"),
        Some(&TiledValue::Float(Number::Float(3.14f64.to_bits())))
    );
}
