use vstd::prelude::*;

use crate::tile::{primitive_of, BoardTile, GameTile, TilePrimitive, TileType};

verus! {

/// A participant in the game.
pub struct Player {
    name: String,
}

impl Player {
    pub closed spec fn name_view(&self) -> Seq<char> {
        self.name@
    }

    pub fn new(name: String) -> (r: Self)
        ensures
            r.name_view() == name@,
    {
        Player { name }
    }

    pub fn name(&self) -> (r: &String)
        ensures
            r@ == self.name_view(),
    {
        &self.name
    }
}

/// The gameplay state and the visual descriptor of one cell.
pub struct TileStack {
    game_tile: GameTile,
    board_tile: BoardTile,
}

impl TileStack {
    pub closed spec fn game(&self) -> GameTile {
        self.game_tile
    }

    pub closed spec fn board(&self) -> BoardTile {
        self.board_tile
    }

    pub fn new(game_tile: GameTile, board_tile: BoardTile) -> (r: Self)
        ensures
            r.game() == game_tile,
            r.board() == board_tile,
    {
        TileStack { game_tile, board_tile }
    }

    pub fn game_tile(&self) -> (r: &GameTile)
        ensures
            *r == self.game(),
    {
        &self.game_tile
    }

    pub fn board_tile(&self) -> (r: &BoardTile)
        ensures
            *r == self.board(),
    {
        &self.board_tile
    }

    /// The primitive that draws this cell.
    pub fn render(&self) -> (r: TilePrimitive)
        ensures
            r == primitive_of(self.board().pos_x(), self.board().pos_y(), self.board().kind()),
    {
        self.board_tile.render()
    }
}

/// The stack for column `x`, row `y` of a cell of type `t`.
pub open spec fn stack_at(s: TileStack, x: usize, y: usize, t: TileType) -> bool {
    &&& s.game().pos_x() == x
    &&& s.game().pos_y() == y
    &&& s.board().pos_x() == x
    &&& s.board().pos_y() == y
    &&& s.board().kind() == t
}

/// `stacks` has the shape of `tiles`, row for row, and each stack stands for
/// the cell of `tiles` at its own row and column.
pub open spec fn stacks_match(stacks: Seq<Seq<TileStack>>, tiles: Seq<Seq<TileType>>) -> bool {
    &&& stacks.len() == tiles.len()
    &&& forall|y: int| 0 <= y < tiles.len() ==> (#[trigger] stacks[y]).len() == tiles[y].len()
    &&& forall|y: int, x: int|
        0 <= y < tiles.len() && 0 <= x < tiles[y].len() ==> stack_at(
            #[trigger] stacks[y][x],
            x as usize,
            y as usize,
            tiles[y][x],
        )
}

/// No stack of `stacks` is occupied.
pub open spec fn all_unoccupied(stacks: Seq<Seq<TileStack>>) -> bool {
    forall|y: int, x: int|
        0 <= y < stacks.len() && 0 <= x < stacks[y].len() ==> !(#[trigger] stacks[y][x]).game().occupied()
}

/// Every row has `cols` cells.
pub open spec fn is_rectangular(tiles: Seq<Seq<TileType>>, cols: int) -> bool {
    forall|y: int| 0 <= y < tiles.len() ==> (#[trigger] tiles[y]).len() == cols
}

/// The primitives of a grid of tile types, row by row, each row from its first
/// column on.
pub open spec fn grid_primitives(tiles: Seq<Seq<TileType>>) -> Seq<TilePrimitive> {
    tiles.map(
        |y: int, row: Seq<TileType>|
            row.map(|x: int, t: TileType| primitive_of(x as usize, y as usize, t)),
    ).flatten()
}

/// A map: its name, its texts, and its grid of tile types indexed by row, then
/// column.
#[derive(Clone)]
pub struct GameMap {
    pub name: String,
    pub tiles: Vec<Vec<TileType>>,
    pub flavor_text: String,
    pub description: String,
}

impl GameMap {
    /// The grid, as rows of tile types.
    pub open spec fn grid(&self) -> Seq<Seq<TileType>> {
        self.tiles@.map_values(|row: Vec<TileType>| row@)
    }

    /// Builds a map from its parts. Rows are kept as given: a row shorter or
    /// longer than the others stays so, and yields as many stacks as it has
    /// cells.
    pub fn new(
        name: String,
        tiles: Vec<Vec<TileType>>,
        flavor_text: String,
        description: String,
    ) -> (r: Self)
        ensures
            r.name@ == name@,
            r.grid() == tiles@.map_values(|row: Vec<TileType>| row@),
            r.flavor_text@ == flavor_text@,
            r.description@ == description@,
    {
        GameMap { name, tiles, flavor_text, description }
    }

    /// One unoccupied stack for each cell of the grid, with the cell's
    /// position and type, in the grid's own rows and columns.
    pub fn get_tile_stacks(&self) -> (r: Vec<Vec<TileStack>>)
        ensures
            stacks_match(r@.map_values(|row: Vec<TileStack>| row@), self.grid()),
            all_unoccupied(r@.map_values(|row: Vec<TileStack>| row@)),
    {
        let mut tile_stacks: Vec<Vec<TileStack>> = Vec::new();
        let n = self.tiles.len();
        let mut y: usize = 0;
        while y < n
            invariant
                n == self.tiles@.len(),
                y <= n,
                tile_stacks@.len() == y,
                forall|j: int|
                    0 <= j < y ==> (#[trigger] tile_stacks@[j])@.len() == self.tiles@[j]@.len(),
                forall|j: int, i: int|
                    0 <= j < y && 0 <= i < self.tiles@[j]@.len() ==> stack_at(
                        #[trigger] tile_stacks@[j]@[i],
                        i as usize,
                        j as usize,
                        self.tiles@[j]@[i],
                    ) && !tile_stacks@[j]@[i].game().occupied(),
            decreases n - y,
        {
            let row = &self.tiles[y];
            let m = row.len();
            let mut tile_stack: Vec<TileStack> = Vec::new();
            let mut x: usize = 0;
            while x < m
                invariant
                    m == row@.len(),
                    x <= m,
                    tile_stack@.len() == x,
                    forall|i: int|
                        0 <= i < x ==> stack_at(
                            #[trigger] tile_stack@[i],
                            i as usize,
                            y,
                            row@[i],
                        ) && !tile_stack@[i].game().occupied(),
                decreases m - x,
            {
                let game_tile = GameTile::new(x, y);
                let board_tile = BoardTile::new(x, y, row[x]);
                tile_stack.push(TileStack::new(game_tile, board_tile));
                x = x + 1;
            }
            tile_stacks.push(tile_stack);
            y = y + 1;
        }
        proof {
            let v = tile_stacks@.map_values(|row: Vec<TileStack>| row@);
            assert forall|j: int| 0 <= j < self.grid().len() implies (#[trigger] v[j]).len()
                == self.grid()[j].len() by {
                assert(v[j] == tile_stacks@[j]@);
            }
            assert forall|j: int, i: int|
                0 <= j < self.grid().len() && 0 <= i < self.grid()[j].len() implies stack_at(
                #[trigger] v[j][i],
                i as usize,
                j as usize,
                self.grid()[j][i],
            ) by {
                assert(v[j] == tile_stacks@[j]@);
            }
            assert forall|j: int, i: int| 0 <= j < v.len() && 0 <= i < v[j].len() implies !(
            #[trigger] v[j][i]).game().occupied() by {
                assert(v[j] == tile_stacks@[j]@);
            }
        }
        tile_stacks
    }
}

/// The primitive drawn for the cell that `s` stands for.
pub open spec fn stack_primitive(s: TileStack) -> TilePrimitive {
    primitive_of(s.board().pos_x(), s.board().pos_y(), s.board().kind())
}

/// The primitives of a grid of stacks, row by row.
pub open spec fn stacks_primitives(stacks: Seq<Seq<TileStack>>) -> Seq<TilePrimitive> {
    stacks.map(|y: int, row: Seq<TileStack>| row.map(|x: int, s: TileStack| stack_primitive(s))).flatten()
}

/// A board: a map and one stack for each of its cells.
pub struct Board {
    pub map: GameMap,
    tile_stacks: Vec<Vec<TileStack>>,
}

impl Board {
    /// The stacks, as rows.
    pub closed spec fn stacks(&self) -> Seq<Seq<TileStack>> {
        self.tile_stacks@.map_values(|row: Vec<TileStack>| row@)
    }

    /// The map the board was built on.
    pub closed spec fn game_map(&self) -> GameMap {
        self.map
    }

    /// The stacks stand for the cells of the map, row for row.
    pub open spec fn wf(&self) -> bool {
        stacks_match(self.stacks(), self.game_map().grid())
    }

    /// A board on `map`, with one unoccupied stack for each of its cells.
    pub fn new(map: GameMap) -> (r: Self)
        ensures
            r.game_map() == map,
            r.wf(),
            all_unoccupied(r.stacks()),
    {
        let tile_stacks = map.get_tile_stacks();
        Board { map, tile_stacks }
    }

    /// The primitive of every stack, row by row, each row from its first
    /// column on.
    pub fn render_board_tiles(&self) -> (r: Vec<TilePrimitive>)
        ensures
            r@ == stacks_primitives(self.stacks()),
    {
        let ghost rows = self.stacks().map(
            |y: int, row: Seq<TileStack>| row.map(|x: int, s: TileStack| stack_primitive(s)),
        );
        let mut out: Vec<TilePrimitive> = Vec::new();
        let n = self.tile_stacks.len();
        let mut y: usize = 0;
        while y < n
            invariant
                n == self.tile_stacks@.len(),
                rows.len() == n,
                rows == self.stacks().map(
                    |y: int, row: Seq<TileStack>| row.map(|x: int, s: TileStack| stack_primitive(s)),
                ),
                y <= n,
                out@ == rows.take(y as int).flatten(),
            decreases n - y,
        {
            let row = &self.tile_stacks[y];
            let m = row.len();
            proof {
                assert(self.stacks()[y as int] == row@);
            }
            let mut x: usize = 0;
            while x < m
                invariant
                    m == row@.len(),
                    row@ == self.stacks()[y as int],
                    rows[y as int].len() == m,
                    rows[y as int] == row@.map(|x: int, s: TileStack| stack_primitive(s)),
                    x <= m,
                    out@ == rows.take(y as int).flatten() + rows[y as int].take(x as int),
                decreases m - x,
            {
                let p = row[x].render();
                out.push(p);
                proof {
                    assert(rows[y as int].take(x + 1) =~= rows[y as int].take(x as int).push(p));
                }
                x = x + 1;
            }
            proof {
                assert(rows[y as int].take(m as int) =~= rows[y as int]);
                assert(rows.take(y + 1) =~= rows.take(y as int).push(rows[y as int]));
                rows.take(y as int).lemma_flatten_push(rows[y as int]);
            }
            y = y + 1;
        }
        proof {
            assert(rows.take(n as int) =~= rows);
        }
        out
    }
}

/// Flattening rows of `cols` items each gives `rows * cols` items, the item
/// of row `y` and column `x` at `y * cols + x`.
pub proof fn lemma_flatten_rectangular<A>(s: Seq<Seq<A>>, cols: int)
    requires
        cols >= 0,
        forall|y: int| 0 <= y < s.len() ==> (#[trigger] s[y]).len() == cols,
    ensures
        s.flatten().len() == s.len() * cols,
        forall|y: int, x: int|
            0 <= y < s.len() && 0 <= x < cols ==> s.flatten()[y * cols + x] == #[trigger] s[y][x],
    decreases s.len(),
{
    if s.len() > 0 {
        let n = s.len();
        let p = s.drop_last();
        lemma_flatten_rectangular(p, cols);
        assert(p.push(s.last()) =~= s);
        p.lemma_flatten_push(s.last());
        assert(s.flatten() == p.flatten() + s.last());
        assert((n - 1) * cols + cols == n * cols) by (nonlinear_arith);
        assert forall|y: int, x: int| 0 <= y < n && 0 <= x < cols implies s.flatten()[y * cols + x]
            == #[trigger] s[y][x] by {
            if y < n - 1 {
                assert(y * cols + x < (n - 1) * cols) by (nonlinear_arith)
                    requires
                        0 <= y < n - 1,
                        0 <= x < cols,
                ;
                assert(p[y] == s[y]);
            } else {
                assert(y * cols == (n - 1) * cols);
            }
        }
    }
}

/// On a grid of `rows` rows of `cols` cells each, the stacks that
/// `get_tile_stacks` promises are `rows * cols` in all; the one at row `y`,
/// column `x` has that position in both its tiles, the cell's type, and is
/// unoccupied.
pub proof fn lemma_tile_stacks_cover_grid(
    stacks: Seq<Seq<TileStack>>,
    tiles: Seq<Seq<TileType>>,
    rows: int,
    cols: int,
)
    requires
        stacks_match(stacks, tiles),
        all_unoccupied(stacks),
        tiles.len() == rows,
        cols >= 0,
        is_rectangular(tiles, cols),
    ensures
        stacks.len() == rows,
        stacks.flatten().len() == rows * cols,
        forall|y: int, x: int|
            0 <= y < rows && 0 <= x < cols ==> {
                &&& stacks.flatten()[y * cols + x] == #[trigger] stacks[y][x]
                &&& stack_at(stacks[y][x], x as usize, y as usize, tiles[y][x])
                &&& !stacks[y][x].game().occupied()
            },
{
    assert forall|y: int| 0 <= y < stacks.len() implies (#[trigger] stacks[y]).len() == cols by {
        assert(tiles[y].len() == cols);
    }
    lemma_flatten_rectangular(stacks, cols);
}

/// Rendering a board whose map has `rows` rows of `cols` cells each gives
/// `rows * cols` primitives in row-major order: the one at `y * cols + x` is
/// the primitive of the map's cell at row `y`, column `x`.
pub proof fn lemma_render_row_major(b: Board, cols: int)
    requires
        b.wf(),
        cols >= 0,
        is_rectangular(b.game_map().grid(), cols),
    ensures
        stacks_primitives(b.stacks()).len() == b.game_map().grid().len() * cols,
        forall|y: int, x: int|
            0 <= y < b.game_map().grid().len() && 0 <= x < cols ==> #[trigger] stacks_primitives(
                b.stacks(),
            )[y * cols + x] == primitive_of(x as usize, y as usize, b.game_map().grid()[y][x]),
{
    let tiles = b.game_map().grid();
    let stacks = b.stacks();
    let rows = stacks.map(
        |y: int, row: Seq<TileStack>| row.map(|x: int, s: TileStack| stack_primitive(s)),
    );
    assert forall|y: int| 0 <= y < rows.len() implies (#[trigger] rows[y]).len() == cols by {
        assert(tiles[y].len() == cols);
    }
    lemma_flatten_rectangular(rows, cols);
    assert forall|y: int, x: int|
        0 <= y < tiles.len() && 0 <= x < cols implies #[trigger] stacks_primitives(stacks)[y * cols
        + x] == primitive_of(x as usize, y as usize, tiles[y][x]) by {
        assert(tiles[y].len() == cols);
        assert(rows[y][x] == stack_primitive(stacks[y][x]));
        assert(stack_at(stacks[y][x], x as usize, y as usize, tiles[y][x]));
    }
}

} // verus!
