use vstd::prelude::*;

verus! {

/// The semantic category of one board cell.
#[derive(Clone, Copy, Debug, PartialEq, Eq, Structural)]
pub enum TileType {
    Normal,
    Elevation,
    SpecialZone,
    AdverseTerrain,
    Objective,
    Stair,
    Wall,
    Hazard,
}

/// Position accessors shared by every kind of tile.
pub trait Tile {
    spec fn x_spec(&self) -> usize;

    spec fn y_spec(&self) -> usize;

    fn x(&self) -> (r: usize)
        ensures
            r == self.x_spec(),
    ;

    fn y(&self) -> (r: usize)
        ensures
            r == self.y_spec(),
    ;
}

/// Gameplay state of one cell: its position and whether a unit stands on it.
pub struct GameTile {
    x: usize,
    y: usize,
    is_occupied: bool,
}

impl GameTile {
    pub closed spec fn pos_x(&self) -> usize {
        self.x
    }

    pub closed spec fn pos_y(&self) -> usize {
        self.y
    }

    pub closed spec fn occupied(&self) -> bool {
        self.is_occupied
    }

    /// A tile at `(x, y)` that nobody occupies yet.
    pub fn new(x: usize, y: usize) -> (r: Self)
        ensures
            r.pos_x() == x,
            r.pos_y() == y,
            !r.occupied(),
    {
        GameTile { x, y, is_occupied: false }
    }

    pub fn is_occupied(&self) -> (r: bool)
        ensures
            r == self.occupied(),
    {
        self.is_occupied
    }

    pub fn set_occupied(&mut self, occupied: bool)
        ensures
            final(self).occupied() == occupied,
            final(self).pos_x() == old(self).pos_x(),
            final(self).pos_y() == old(self).pos_y(),
    {
        self.is_occupied = occupied;
    }
}

impl Tile for GameTile {
    open spec fn x_spec(&self) -> usize {
        self.pos_x()
    }

    open spec fn y_spec(&self) -> usize {
        self.pos_y()
    }

    fn x(&self) -> (r: usize) {
        self.x
    }

    fn y(&self) -> (r: usize) {
        self.y
    }
}

/// A surface color, kept exactly as it was authored.
#[derive(Clone, Copy, Debug, PartialEq, Eq, Structural)]
#[allow(inconsistent_fields)]
pub enum TileColor {
    /// Normalized sRGB channels given in thousandths (`1000` is full intensity).
    SrgbMilli { r: u16, g: u16, b: u16 },
    /// sRGB channels given as bytes (`255` is full intensity).
    SrgbU8 { r: u8, g: u8, b: u8 },
}

/// A cuboid, measured in quarter world units.
#[derive(Clone, Copy, Debug, PartialEq, Eq, Structural)]
pub struct TileShape {
    pub width_quarters: u32,
    pub depth_quarters: u32,
    pub height_quarters: u32,
}

/// Where a primitive is placed: grid column and row, and a height above the
/// ground in quarter world units.
#[derive(Clone, Copy, Debug, PartialEq, Eq, Structural)]
pub struct Placement {
    pub x: usize,
    pub y: usize,
    pub z_quarters: u32,
}

/// Everything a renderer needs to draw one cell.
#[derive(Clone, Copy, Debug, PartialEq, Eq, Structural)]
pub struct TilePrimitive {
    pub shape: TileShape,
    pub color: TileColor,
    pub placement: Placement,
}

/// Side length of a cell's footprint, in quarter units (one world unit).
pub const TILE_FOOTPRINT: u32 = 4;

/// Height of a flat cell, in quarter units.
pub const FLAT_TILE_HEIGHT: u32 = 2;

/// Height of a stair cell, in quarter units.
pub const STAIRS_TILE_HEIGHT: u32 = 3;

/// Height of an elevated cell, in quarter units.
pub const ELEVATED_TILE_HEIGHT: u32 = 4;

/// Height of a wall cell, in quarter units.
pub const WALL_TILE_HEIGHT: u32 = 8;

/// Height at which every primitive is placed, in quarter units.
pub const TRANSFORM_TILE_HEIGHT: u32 = 2;

/// Height of the cuboid drawn for a tile type, in quarter units.
pub open spec fn height_of(t: TileType) -> u32 {
    match t {
        TileType::Normal => FLAT_TILE_HEIGHT,
        TileType::Elevation => ELEVATED_TILE_HEIGHT,
        TileType::SpecialZone => FLAT_TILE_HEIGHT,
        TileType::AdverseTerrain => FLAT_TILE_HEIGHT,
        TileType::Objective => FLAT_TILE_HEIGHT,
        TileType::Stair => STAIRS_TILE_HEIGHT,
        TileType::Wall => WALL_TILE_HEIGHT,
        TileType::Hazard => FLAT_TILE_HEIGHT,
    }
}

/// Surface color of a tile type.
pub open spec fn color_of(t: TileType) -> TileColor {
    match t {
        TileType::Normal => TileColor::SrgbMilli { r: 230, g: 230, b: 220 },
        TileType::Elevation => TileColor::SrgbMilli { r: 800, g: 700, b: 600 },
        TileType::SpecialZone => TileColor::SrgbU8 { r: 137, g: 171, b: 162 },
        TileType::AdverseTerrain => TileColor::SrgbU8 { r: 46, g: 19, b: 71 },
        TileType::Objective => TileColor::SrgbU8 { r: 219, g: 215, b: 81 },
        TileType::Stair => TileColor::SrgbU8 { r: 14, g: 14, b: 14 },
        TileType::Wall => TileColor::SrgbMilli { r: 0, g: 0, b: 0 },
        TileType::Hazard => TileColor::SrgbMilli { r: 219, g: 164, b: 810 },
    }
}

/// The primitive drawn for a cell of type `t` at column `x`, row `y`: a cuboid
/// with a one-unit footprint and the type's height, in the type's color, placed
/// at a fixed height whatever the cuboid's own height.
pub open spec fn primitive_of(x: usize, y: usize, t: TileType) -> TilePrimitive {
    TilePrimitive {
        shape: TileShape {
            width_quarters: TILE_FOOTPRINT,
            depth_quarters: TILE_FOOTPRINT,
            height_quarters: height_of(t),
        },
        color: color_of(t),
        placement: Placement { x, y, z_quarters: TRANSFORM_TILE_HEIGHT },
    }
}

/// Visual descriptor of one cell: its position and its type.
#[derive(Clone, Copy, Debug)]
pub struct BoardTile {
    x: usize,
    y: usize,
    tile_type: TileType,
}

impl BoardTile {
    pub closed spec fn pos_x(&self) -> usize {
        self.x
    }

    pub closed spec fn pos_y(&self) -> usize {
        self.y
    }

    pub closed spec fn kind(&self) -> TileType {
        self.tile_type
    }

    pub fn new(x: usize, y: usize, tile_type: TileType) -> (r: Self)
        ensures
            r.pos_x() == x,
            r.pos_y() == y,
            r.kind() == tile_type,
    {
        BoardTile { x, y, tile_type }
    }

    /// The type of this cell.
    pub fn tile_type(&self) -> (r: TileType)
        ensures
            r == self.kind(),
    {
        self.tile_type
    }

    /// The primitive that draws this cell.
    pub fn render(&self) -> (r: TilePrimitive)
        ensures
            r == primitive_of(self.pos_x(), self.pos_y(), self.kind()),
    {
        let height = match self.tile_type {
            TileType::Normal => FLAT_TILE_HEIGHT,
            TileType::Elevation => ELEVATED_TILE_HEIGHT,
            TileType::SpecialZone => FLAT_TILE_HEIGHT,
            TileType::AdverseTerrain => FLAT_TILE_HEIGHT,
            TileType::Objective => FLAT_TILE_HEIGHT,
            TileType::Stair => STAIRS_TILE_HEIGHT,
            TileType::Wall => WALL_TILE_HEIGHT,
            TileType::Hazard => FLAT_TILE_HEIGHT,
        };
        let color = match self.tile_type {
            TileType::Normal => TileColor::SrgbMilli { r: 230, g: 230, b: 220 },
            TileType::Elevation => TileColor::SrgbMilli { r: 800, g: 700, b: 600 },
            TileType::SpecialZone => TileColor::SrgbU8 { r: 137, g: 171, b: 162 },
            TileType::AdverseTerrain => TileColor::SrgbU8 { r: 46, g: 19, b: 71 },
            TileType::Objective => TileColor::SrgbU8 { r: 219, g: 215, b: 81 },
            TileType::Stair => TileColor::SrgbU8 { r: 14, g: 14, b: 14 },
            TileType::Wall => TileColor::SrgbMilli { r: 0, g: 0, b: 0 },
            TileType::Hazard => TileColor::SrgbMilli { r: 219, g: 164, b: 810 },
        };
        TilePrimitive {
            shape: TileShape {
                width_quarters: TILE_FOOTPRINT,
                depth_quarters: TILE_FOOTPRINT,
                height_quarters: height,
            },
            color,
            placement: Placement { x: self.x, y: self.y, z_quarters: TRANSFORM_TILE_HEIGHT },
        }
    }
}

impl Tile for BoardTile {
    open spec fn x_spec(&self) -> usize {
        self.pos_x()
    }

    open spec fn y_spec(&self) -> usize {
        self.pos_y()
    }

    fn x(&self) -> (r: usize) {
        self.x
    }

    fn y(&self) -> (r: usize) {
        self.y
    }
}

} // verus!
