//! The world's configuration and its grid of tile codes, with the reader of
//! the map asset.

use vstd::prelude::*;
use crate::json::{
    json_at, json_document, json_integer, json_items, parse_document, value_as_array,
    value_as_i64, value_at,
};

verus! {

/// The dimensions of the world: of a chunk and of the whole map in cells, and
/// of a cell in pixels. Set once.
#[derive(Default, Clone, Copy, Debug, PartialEq, Eq, Structural)]
pub struct WorldProps {
    pub chunk_width: i32,
    pub chunk_height: i32,
    pub tilemap_width: i32,
    pub tilemap_height: i32,
    pub tile_size: i32,
}

/// The largest width or height a grid may have: cells are addressed by `i32`.
pub const MAX_DIMENSION: i64 = 0x7fff_ffff;

impl WorldProps {
    /// Chunks have at least one cell on each axis, so that every cell lies in
    /// a chunk.
    pub open spec fn wf(&self) -> bool {
        self.chunk_width > 0 && self.chunk_height > 0
    }

    /// The configuration the game runs with: chunks of 50 by 50 cells, a map of
    /// 1000 by 1000 cells, cells of 8 pixels.
    pub fn standard() -> (props: WorldProps)
        ensures
            props == (WorldProps {
                chunk_width: 50,
                chunk_height: 50,
                tilemap_width: 1000,
                tilemap_height: 1000,
                tile_size: 8,
            }),
            props.wf(),
    {
        WorldProps {
            chunk_width: 50,
            chunk_height: 50,
            tilemap_width: 1000,
            tilemap_height: 1000,
            tile_size: 8,
        }
    }
}

/// Why a map asset could not be turned into a grid.
#[derive(Clone, Copy, Debug, PartialEq, Eq, Structural)]
pub enum AssetError {
    /// The text is not JSON.
    Malformed,
    /// There is no integer `height`.
    MissingHeight,
    /// There is no integer `width`.
    MissingWidth,
    /// There is no array `layers[0].data`.
    MissingLayerData,
    /// A dimension is negative or larger than [`MAX_DIMENSION`].
    BadDimensions,
    /// The layer data is too short for the dimensions.
    TooShort,
    /// A cell's entry in the layer data is not an integer.
    BadTileCode,
}

/// A grid access outside the grid's dimensions.
#[derive(Clone, Copy, Debug, PartialEq, Eq, Structural)]
pub struct OutOfBounds {
    pub x: i32,
    pub y: i32,
}

/// The grid: for each cell its tile code, stored column by column.
#[derive(Default, Clone)]
pub struct WorldMap {
    pub height: i64,
    pub width: i64,
    pub tiles: Vec<Vec<i64>>,
}

/// Where the code of cell (`x`, `y`) stands in the layer data of a map that is
/// `height` cells tall: rows are stored one after another, the topmost first,
/// while `y` counts from the bottom, and a row advances the index by the
/// map's height.
pub open spec fn layer_index(height: int, x: int, y: int) -> int {
    height * (height - 1 - y) + x
}

/// Whether layer data of length `len` covers a grid of the given dimensions:
/// it holds an entry per cell and reaches the largest index that a cell has.
pub open spec fn layout_fits(width: int, height: int, len: int) -> bool {
    &&& width * height <= len
    &&& width > 0 && height > 0 ==> height * (height - 1) + width <= len
}

/// Whether every cell of the grid has an integer in the layer data.
pub open spec fn cells_are_integers(width: int, height: int, data: Seq<Option<i64>>) -> bool {
    forall|x: int, y: int|
        0 <= x < width && 0 <= y < height ==> (#[trigger] data[layer_index(height, x, y)]) is Some
}

/// The grid that layer data describes, or the reason why it describes none.
pub open spec fn grid_of(height: int, width: int, data: Seq<Option<i64>>) -> Result<
    Seq<Seq<i64>>,
    AssetError,
> {
    if height < 0 || width < 0 || height > MAX_DIMENSION || width > MAX_DIMENSION {
        Err(AssetError::BadDimensions)
    } else if !layout_fits(width, height, data.len() as int) {
        Err(AssetError::TooShort)
    } else if !cells_are_integers(width, height, data) {
        Err(AssetError::BadTileCode)
    } else {
        Ok(
            Seq::new(
                width as nat,
                |x: int|
                    Seq::new(height as nat, |y: int| data[layer_index(height, x, y)].unwrap()),
            ),
        )
    }
}

/// The entries of a JSON array read as integers: `None` for an entry that is
/// not an integer of 64 bits.
pub open spec fn integers_of(items: Seq<serde_json::Value>) -> Seq<Option<i64>> {
    Seq::new(items.len(), |i: int| json_integer(items[i]))
}

/// The grid that a map asset describes, or the reason why it describes none:
/// the `height`, the `width` and `layers[0].data` of the JSON document, read
/// as layer data.
pub open spec fn grid_of_asset(text: Seq<char>) -> Result<(int, int, Seq<Seq<i64>>), AssetError> {
    match json_document(text) {
        None => Err(AssetError::Malformed),
        Some(document) => match json_at(document, "/height"@) {
            None => Err(AssetError::MissingHeight),
            Some(h) => match json_integer(h) {
                None => Err(AssetError::MissingHeight),
                Some(height) => match json_at(document, "/width"@) {
                    None => Err(AssetError::MissingWidth),
                    Some(w) => match json_integer(w) {
                        None => Err(AssetError::MissingWidth),
                        Some(width) => match json_at(document, "/layers/0/data"@) {
                            None => Err(AssetError::MissingLayerData),
                            Some(d) => match json_items(d) {
                                None => Err(AssetError::MissingLayerData),
                                Some(items) => match grid_of(
                                    height as int,
                                    width as int,
                                    integers_of(items),
                                ) {
                                    Err(e) => Err(e),
                                    Ok(cells) => Ok((height as int, width as int, cells)),
                                },
                            },
                        },
                    },
                },
            },
        },
    }
}

/// Reads each entry of a JSON array as an integer.
fn read_integers(items: &Vec<serde_json::Value>) -> (data: Vec<Option<i64>>)
    ensures
        data@ == integers_of(items@),
{
    let mut data: Vec<Option<i64>> = Vec::new();
    let mut i: usize = 0;
    while i < items.len()
        invariant
            i <= items@.len(),
            data@.len() == i,
            forall|j: int| 0 <= j < i ==> data@[j] == json_integer(items@[j]),
        decreases items@.len() - i,
    {
        data.push(value_as_i64(&items[i]));
        i += 1;
    }
    assert(data@ =~= integers_of(items@));
    data
}

impl WorldMap {
    /// The dimensions are within bounds and there is a code for every cell.
    pub open spec fn wf(&self) -> bool {
        &&& 0 <= self.width <= MAX_DIMENSION
        &&& 0 <= self.height <= MAX_DIMENSION
        &&& self.tiles@.len() == self.width
        &&& forall|x: int| 0 <= x < self.width ==> (#[trigger] self.tiles@[x])@.len() == self.height
    }

    /// The codes as a matrix: `self.cells()[x][y]` is the code of cell (x, y).
    pub open spec fn cells(&self) -> Seq<Seq<i64>> {
        Seq::new(self.tiles@.len(), |x: int| self.tiles@[x]@)
    }

    /// Whether (`x`, `y`) is a cell of the grid.
    pub open spec fn in_bounds(&self, x: int, y: int) -> bool {
        0 <= x < self.width && 0 <= y < self.height
    }

    /// The code of cell (`x`, `y`).
    pub open spec fn code(&self, x: int, y: int) -> i64 {
        self.tiles@[x]@[y]
    }

    /// Builds the grid from the dimensions and the layer data of a map asset.
    pub fn from_layer_data(height: i64, width: i64, data: &Vec<Option<i64>>) -> (built: Result<
        WorldMap,
        AssetError,
    >)
        ensures
            match built {
                Ok(map) => {
                    &&& map.wf()
                    &&& map.height == height
                    &&& map.width == width
                    &&& grid_of(height as int, width as int, data@) == Ok::<
                        Seq<Seq<i64>>,
                        AssetError,
                    >(map.cells())
                },
                Err(e) => grid_of(height as int, width as int, data@) == Err::<
                    Seq<Seq<i64>>,
                    AssetError,
                >(e),
            },
    {
        if height < 0 || width < 0 || height > MAX_DIMENSION || width > MAX_DIMENSION {
            return Err(AssetError::BadDimensions);
        }
        assert(0 <= width * height <= MAX_DIMENSION * MAX_DIMENSION) by (nonlinear_arith)
            requires
                0 <= width <= MAX_DIMENSION,
                0 <= height <= MAX_DIMENSION,
        ;
        assert(-MAX_DIMENSION <= height * (height - 1) <= MAX_DIMENSION * MAX_DIMENSION)
            by (nonlinear_arith)
            requires
                0 <= height <= MAX_DIMENSION,
        ;
        let entries: usize = data.len();
        let len: u64 = entries as u64;
        let area: u64 = (width as u64) * (height as u64);
        if area > len {
            return Err(AssetError::TooShort);
        }
        if width > 0 && height > 0 {
            let reach: u64 = (height as u64) * ((height - 1) as u64) + (width as u64);
            if reach > len {
                return Err(AssetError::TooShort);
            }
        }
        let mut tiles: Vec<Vec<i64>> = Vec::new();
        let mut x: i64 = 0;
        while x < width
            invariant
                0 <= x <= width <= MAX_DIMENSION,
                0 <= height <= MAX_DIMENSION,
                layout_fits(width as int, height as int, data@.len() as int),
                data@.len() == entries,
                tiles@.len() == x,
                forall|a: int| 0 <= a < x ==> (#[trigger] tiles@[a])@.len() == height,
                forall|a: int, b: int|
                    0 <= a < x && 0 <= b < height ==> {
                        &&& (#[trigger] data@[layer_index(height as int, a, b)]) is Some
                        &&& tiles@[a]@[b] == data@[layer_index(height as int, a, b)].unwrap()
                    },
            decreases width - x,
        {
            let mut column: Vec<i64> = Vec::new();
            let mut y: i64 = 0;
            while y < height
                invariant
                    0 <= x < width <= MAX_DIMENSION,
                    0 <= y <= height <= MAX_DIMENSION,
                    layout_fits(width as int, height as int, data@.len() as int),
                    data@.len() == entries,
                    column@.len() == y,
                    forall|b: int|
                        0 <= b < y ==> {
                            &&& (#[trigger] data@[layer_index(height as int, x as int, b)]) is Some
                            &&& column@[b] == data@[layer_index(height as int, x as int, b)].unwrap()
                        },
                decreases height - y,
            {
                assert(0 <= height * (height - 1 - y) <= height * (height - 1)) by (nonlinear_arith)
                    requires
                        0 <= y < height,
                ;
                assert(height * (height - 1) <= MAX_DIMENSION * MAX_DIMENSION) by (nonlinear_arith)
                    requires
                        0 <= height <= MAX_DIMENSION,
                ;
                let index: i64 = height * (height - 1 - y) + x;
                let at: usize = index as usize;
                let entry: Option<i64> = data[at];
                assert(entry == data@[layer_index(height as int, x as int, y as int)]);
                match entry {
                    Some(code) => {
                        column.push(code);
                    },
                    None => {
                        return Err(AssetError::BadTileCode);
                    },
                }
                y += 1;
            }
            tiles.push(column);
            x += 1;
        }
        let map = WorldMap { height, width, tiles };
        proof {
            let want = grid_of(height as int, width as int, data@).unwrap();
            assert forall|a: int| 0 <= a < width implies map.cells()[a] =~= want[a] by {
                assert forall|b: int| 0 <= b < height implies map.cells()[a][b] == want[a][b] by {
                }
            }
            assert(map.cells() =~= want);
        }
        Ok(map)
    }

    /// Reads a map asset: a JSON document with an integer `height`, an integer
    /// `width`, and the layer data under `layers[0].data`.
    pub fn parse(text: &str) -> (read: Result<WorldMap, AssetError>)
        ensures
            match read {
                Ok(map) => {
                    &&& map.wf()
                    &&& grid_of_asset(text@) == Ok::<(int, int, Seq<Seq<i64>>), AssetError>(
                        (map.height as int, map.width as int, map.cells()),
                    )
                },
                Err(e) => grid_of_asset(text@) == Err::<(int, int, Seq<Seq<i64>>), AssetError>(e),
            },
    {
        let document = match parse_document(text) {
            Ok(document) => document,
            Err(_) => {
                return Err(AssetError::Malformed);
            },
        };
        let height = match value_at(&document, "/height") {
            Some(value) => match value_as_i64(value) {
                Some(height) => height,
                None => {
                    return Err(AssetError::MissingHeight);
                },
            },
            None => {
                return Err(AssetError::MissingHeight);
            },
        };
        let width = match value_at(&document, "/width") {
            Some(value) => match value_as_i64(value) {
                Some(width) => width,
                None => {
                    return Err(AssetError::MissingWidth);
                },
            },
            None => {
                return Err(AssetError::MissingWidth);
            },
        };
        let items = match value_at(&document, "/layers/0/data") {
            Some(value) => match value_as_array(value) {
                Some(items) => items,
                None => {
                    return Err(AssetError::MissingLayerData);
                },
            },
            None => {
                return Err(AssetError::MissingLayerData);
            },
        };
        let data = read_integers(items);
        WorldMap::from_layer_data(height, width, &data)
    }

    /// The code of cell (`x`, `y`), or an error outside the grid.
    pub fn tile_at(&self, x: i32, y: i32) -> (code: Result<i64, OutOfBounds>)
        requires
            self.wf(),
        ensures
            code == if self.in_bounds(x as int, y as int) {
                Ok::<i64, OutOfBounds>(self.code(x as int, y as int))
            } else {
                Err::<i64, OutOfBounds>(OutOfBounds { x, y })
            },
    {
        if x < 0 || y < 0 || x as i64 >= self.width || y as i64 >= self.height {
            return Err(OutOfBounds { x, y });
        }
        Ok(self.tiles[x as usize][y as usize])
    }
}

/// Sets the world's configuration and reads the grid from the text of the map
/// asset. On an error the grid is left as it was.
pub fn setup(world_map: &mut WorldMap, world: &mut WorldProps, asset: &str) -> (done: Result<
    (),
    AssetError,
>)
    ensures
        *final(world) == (WorldProps {
            chunk_width: 50,
            chunk_height: 50,
            tilemap_width: 1000,
            tilemap_height: 1000,
            tile_size: 8,
        }),
        match done {
            Ok(_) => {
                &&& final(world_map).wf()
                &&& grid_of_asset(asset@) == Ok::<(int, int, Seq<Seq<i64>>), AssetError>(
                    (
                        final(world_map).height as int,
                        final(world_map).width as int,
                        final(world_map).cells(),
                    ),
                )
            },
            Err(e) => {
                &&& grid_of_asset(asset@) == Err::<(int, int, Seq<Seq<i64>>), AssetError>(e)
                &&& *final(world_map) == *old(world_map)
            },
        },
{
    *world = WorldProps::standard();
    match WorldMap::parse(asset) {
        Ok(map) => {
            *world_map = map;
            Ok(())
        },
        Err(e) => Err(e),
    }
}

} // verus!
