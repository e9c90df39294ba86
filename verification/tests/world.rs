use tile_world::world::{setup, AssetError, OutOfBounds, WorldMap, WorldProps};

fn asset(height: i64, width: i64, data: &[i64]) -> String {
    let list: Vec<String> = data.iter().map(|c| c.to_string()).collect();
    format!(
        "{{\"height\": {}, \"width\": {}, \"layers\": [{{\"data\": [{}], \"name\": \"ground\"}}]}}",
        height,
        width,
        list.join(", ")
    )
}

#[test]
fn parses_a_square_map() {
    // Rows are listed top first; the grid counts y from the bottom.
    let text = asset(2, 2, &[1, 11, 4, 2]);
    let map = WorldMap::parse(&text).unwrap();
    assert_eq!(map.height, 2);
    assert_eq!(map.width, 2);
    assert_eq!(map.tiles, vec![vec![4, 1], vec![2, 11]]);
}

#[test]
fn parses_a_wide_map() {
    // height 2, width 3: cell (x, y) is read at 2 * (1 - y) + x.
    let text = asset(2, 3, &[10, 20, 30, 40, 50, 60]);
    let map = WorldMap::parse(&text).unwrap();
    assert_eq!(map.tiles, vec![vec![30, 10], vec![40, 20], vec![50, 30]]);
}

#[test]
fn parses_an_empty_map() {
    let map = WorldMap::parse(&asset(0, 0, &[])).unwrap();
    assert_eq!(map.width, 0);
    assert_eq!(map.height, 0);
    assert!(map.tiles.is_empty());
}

#[test]
fn from_layer_data_matches_parse() {
    let data = vec![Some(1), Some(11), Some(4), Some(2)];
    let map = WorldMap::from_layer_data(2, 2, &data).unwrap();
    assert_eq!(map.tiles, vec![vec![4, 1], vec![2, 11]]);
}

#[test]
fn rejects_text_that_is_not_json() {
    assert_eq!(WorldMap::parse("{\"height\": 2,").err(), Some(AssetError::Malformed));
    assert_eq!(WorldMap::parse("").err(), Some(AssetError::Malformed));
}

#[test]
fn rejects_a_missing_height() {
    let text = "{\"width\": 1, \"layers\": [{\"data\": [1]}]}";
    assert_eq!(WorldMap::parse(text).err(), Some(AssetError::MissingHeight));
    let text = "{\"height\": \"tall\", \"width\": 1, \"layers\": [{\"data\": [1]}]}";
    assert_eq!(WorldMap::parse(text).err(), Some(AssetError::MissingHeight));
    let text = "{\"height\": 1.5, \"width\": 1, \"layers\": [{\"data\": [1]}]}";
    assert_eq!(WorldMap::parse(text).err(), Some(AssetError::MissingHeight));
}

#[test]
fn rejects_a_missing_width() {
    let text = "{\"height\": 1, \"layers\": [{\"data\": [1]}]}";
    assert_eq!(WorldMap::parse(text).err(), Some(AssetError::MissingWidth));
}

#[test]
fn rejects_missing_layer_data() {
    let text = "{\"height\": 1, \"width\": 1}";
    assert_eq!(WorldMap::parse(text).err(), Some(AssetError::MissingLayerData));
    let text = "{\"height\": 1, \"width\": 1, \"layers\": []}";
    assert_eq!(WorldMap::parse(text).err(), Some(AssetError::MissingLayerData));
    let text = "{\"height\": 1, \"width\": 1, \"layers\": [{\"name\": \"ground\"}]}";
    assert_eq!(WorldMap::parse(text).err(), Some(AssetError::MissingLayerData));
    let text = "{\"height\": 1, \"width\": 1, \"layers\": [{\"data\": 7}]}";
    assert_eq!(WorldMap::parse(text).err(), Some(AssetError::MissingLayerData));
}

#[test]
fn rejects_bad_dimensions() {
    assert_eq!(WorldMap::parse(&asset(-1, 2, &[1, 1])).err(), Some(AssetError::BadDimensions));
    assert_eq!(WorldMap::parse(&asset(2, -1, &[1, 1])).err(), Some(AssetError::BadDimensions));
    assert_eq!(
        WorldMap::parse(&asset(0x8000_0000, 0, &[])).err(),
        Some(AssetError::BadDimensions)
    );
}

#[test]
fn rejects_short_layer_data() {
    assert_eq!(WorldMap::parse(&asset(2, 2, &[1, 1, 1])).err(), Some(AssetError::TooShort));
    assert_eq!(
        WorldMap::from_layer_data(3, 3, &vec![Some(1); 8]).err(),
        Some(AssetError::TooShort)
    );
    // Three rows of one cell: the last row is read at 3 * 2 + 0.
    assert_eq!(
        WorldMap::from_layer_data(3, 1, &vec![Some(1); 6]).err(),
        Some(AssetError::TooShort)
    );
    assert!(WorldMap::from_layer_data(3, 1, &vec![Some(1); 7]).is_ok());
}

#[test]
fn rejects_a_cell_that_is_no_integer() {
    let text = "{\"height\": 1, \"width\": 2, \"layers\": [{\"data\": [1, \"x\"]}]}";
    assert_eq!(WorldMap::parse(text).err(), Some(AssetError::BadTileCode));
    assert_eq!(
        WorldMap::from_layer_data(1, 2, &vec![None, Some(1)]).err(),
        Some(AssetError::BadTileCode)
    );
}

#[test]
fn an_entry_that_no_cell_reads_may_be_anything() {
    let map = WorldMap::from_layer_data(1, 1, &vec![Some(5), None]).unwrap();
    assert_eq!(map.tiles, vec![vec![5]]);
}

#[test]
fn tile_at_reads_cells_and_refuses_the_outside() {
    let map = WorldMap::parse(&asset(2, 2, &[1, 11, 4, 2])).unwrap();
    assert_eq!(map.tile_at(0, 0), Ok(4));
    assert_eq!(map.tile_at(0, 1), Ok(1));
    assert_eq!(map.tile_at(1, 0), Ok(2));
    assert_eq!(map.tile_at(1, 1), Ok(11));
    assert_eq!(map.tile_at(2, 0), Err(OutOfBounds { x: 2, y: 0 }));
    assert_eq!(map.tile_at(0, 2), Err(OutOfBounds { x: 0, y: 2 }));
    assert_eq!(map.tile_at(-1, 0), Err(OutOfBounds { x: -1, y: 0 }));
    assert_eq!(map.tile_at(0, -1), Err(OutOfBounds { x: 0, y: -1 }));
}

#[test]
fn standard_props() {
    let props = WorldProps::standard();
    assert_eq!(props.chunk_width, 50);
    assert_eq!(props.chunk_height, 50);
    assert_eq!(props.tilemap_width, 1000);
    assert_eq!(props.tilemap_height, 1000);
    assert_eq!(props.tile_size, 8);
}

#[test]
fn setup_sets_props_and_reads_the_map() {
    let mut map = WorldMap::default();
    let mut props = WorldProps::default();
    let done = setup(&mut map, &mut props, &asset(1, 2, &[7, 8]));
    assert_eq!(done, Ok(()));
    assert_eq!(props, WorldProps::standard());
    assert_eq!(map.tiles, vec![vec![7], vec![8]]);
}

#[test]
fn setup_keeps_the_map_on_an_error() {
    let mut map = WorldMap::parse(&asset(1, 1, &[3])).unwrap();
    let mut props = WorldProps::default();
    let done = setup(&mut map, &mut props, "not a map");
    assert_eq!(done, Err(AssetError::Malformed));
    assert_eq!(props, WorldProps::standard());
    assert_eq!(map.tiles, vec![vec![3]]);
}
