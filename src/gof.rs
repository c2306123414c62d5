use vstd::prelude::*;

verus! {

/// The state of a cell that has zero or one live neighbours.
#[derive(Debug, Clone, Copy, PartialEq, Eq, Structural)]
pub struct ZeroOrOneNeighbors {
    pub alive: bool,
}

impl ZeroOrOneNeighbors {
    pub fn new(alive: bool) -> (r: ZeroOrOneNeighbors)
        ensures
            r.alive == alive,
    {
        ZeroOrOneNeighbors { alive }
    }
}

/// The state of a cell that has two or three live neighbours; `will_spawn`
/// marks a dead cell that comes to life on the next generation.
#[derive(Debug, Clone, Copy, PartialEq, Eq, Structural)]
pub struct TwoOrThreeNeighbors {
    pub alive: bool,
    pub will_spawn: bool,
}

impl TwoOrThreeNeighbors {
    pub fn new(alive: bool, will_spawn: bool) -> (r: TwoOrThreeNeighbors)
        ensures
            r.alive == alive,
            r.will_spawn == will_spawn,
    {
        TwoOrThreeNeighbors { alive, will_spawn }
    }

    pub fn will_spawn(&self) -> (r: bool)
        ensures
            r == self.will_spawn,
    {
        self.will_spawn
    }
}

/// The state of a cell that has four or more live neighbours.
#[derive(Debug, Clone, Copy, PartialEq, Eq, Structural)]
pub struct FourOrMoreNeighbors {
    pub alive: bool,
}

impl FourOrMoreNeighbors {
    pub fn new(alive: bool) -> (r: FourOrMoreNeighbors)
        ensures
            r.alive == alive,
    {
        FourOrMoreNeighbors { alive }
    }
}

/// A cell, tagged with the class of its neighbourhood at its last
/// classification.
#[derive(Debug, Clone, Copy, PartialEq, Eq, Structural)]
pub enum Cell {
    ZeroOrOneNeighbors(ZeroOrOneNeighbors),
    TwoOrThreeNeighbors(TwoOrThreeNeighbors),
    FourOrMoreNeighbors(FourOrMoreNeighbors),
}

impl Cell {
    pub open spec fn alive(self) -> bool {
        match self {
            Cell::ZeroOrOneNeighbors(c) => c.alive,
            Cell::TwoOrThreeNeighbors(c) => c.alive,
            Cell::FourOrMoreNeighbors(c) => c.alive,
        }
    }

    /// The transition that the class decided: under- and over-populated cells
    /// die, a marked cell is born, any other cell keeps its state.
    pub open spec fn lived_through(self) -> Cell {
        match self {
            Cell::ZeroOrOneNeighbors(c) => Cell::ZeroOrOneNeighbors(ZeroOrOneNeighbors { alive: false }),
            Cell::TwoOrThreeNeighbors(c) => Cell::TwoOrThreeNeighbors(
                TwoOrThreeNeighbors { alive: c.alive || c.will_spawn, will_spawn: c.will_spawn },
            ),
            Cell::FourOrMoreNeighbors(c) => Cell::FourOrMoreNeighbors(FourOrMoreNeighbors { alive: false }),
        }
    }

    fn set_alive(&mut self, alive: bool)
        ensures
            final(self).alive() == alive,
            match *old(self) {
                Cell::ZeroOrOneNeighbors(_) => *final(self) == Cell::ZeroOrOneNeighbors(
                    ZeroOrOneNeighbors { alive },
                ),
                Cell::TwoOrThreeNeighbors(c) => *final(self) == Cell::TwoOrThreeNeighbors(
                    TwoOrThreeNeighbors { alive, will_spawn: c.will_spawn },
                ),
                Cell::FourOrMoreNeighbors(_) => *final(self) == Cell::FourOrMoreNeighbors(
                    FourOrMoreNeighbors { alive },
                ),
            },
    {
        match self {
            Cell::ZeroOrOneNeighbors(zero_or_one) => zero_or_one.alive = alive,
            Cell::TwoOrThreeNeighbors(two_or_three) => two_or_three.alive = alive,
            Cell::FourOrMoreNeighbors(four_or_more) => four_or_more.alive = alive,
        }
    }

    pub fn is_alive(&self) -> (r: bool)
        ensures
            r == self.alive(),
    {
        match self {
            Cell::ZeroOrOneNeighbors(zero_or_one) => zero_or_one.alive,
            Cell::TwoOrThreeNeighbors(two_or_three) => two_or_three.alive,
            Cell::FourOrMoreNeighbors(four_or_more) => four_or_more.alive,
        }
    }

    fn live_through(cell: &mut Cell)
        ensures
            *final(cell) == old(cell).lived_through(),
    {
        match cell {
            Cell::ZeroOrOneNeighbors(_) => cell.set_alive(false),
            Cell::TwoOrThreeNeighbors(two_or_three) => {
                if two_or_three.will_spawn {
                    cell.set_alive(true)
                }
            },
            Cell::FourOrMoreNeighbors(_) => cell.set_alive(false),
        }
    }
}

/// The class that a cell takes with `n` live neighbours; only a dead cell
/// with exactly three is marked to spawn.
pub open spec fn classified(alive: bool, n: int) -> Cell {
    if n <= 1 {
        Cell::ZeroOrOneNeighbors(ZeroOrOneNeighbors { alive })
    } else if n <= 3 {
        Cell::TwoOrThreeNeighbors(TwoOrThreeNeighbors { alive, will_spawn: !alive && n == 3 })
    } else {
        Cell::FourOrMoreNeighbors(FourOrMoreNeighbors { alive })
    }
}

/// 1 where `(i, j)` lies on the pattern and is alive, else 0: positions past
/// the edges count as dead, the grid does not wrap.
pub open spec fn live_at(p: Seq<Seq<bool>>, i: int, j: int) -> int {
    if 0 <= i < p.len() && 0 <= j < p[i].len() && p[i][j] {
        1
    } else {
        0
    }
}

/// The live cells among the eight around `(i, j)`.
pub open spec fn live_neighbors(p: Seq<Seq<bool>>, i: int, j: int) -> int {
    live_at(p, i - 1, j - 1) + live_at(p, i - 1, j) + live_at(p, i - 1, j + 1)
        + live_at(p, i, j - 1) + live_at(p, i, j + 1)
        + live_at(p, i + 1, j - 1) + live_at(p, i + 1, j) + live_at(p, i + 1, j + 1)
}

/// Conway's rule B3/S23 on a pattern: a cell is alive next if it has three
/// live neighbours, or is alive and has two.
pub open spec fn life_rule(p: Seq<Seq<bool>>) -> Seq<Seq<bool>> {
    Seq::new(
        p.len(),
        |i: int| Seq::new(p[i].len(), |j: int| live_neighbors(p, i, j) == 3 || (p[i][j] && live_neighbors(p, i, j) == 2)),
    )
}

/// A non-empty rectangle of rows.
pub open spec fn is_grid<T>(g: Seq<Seq<T>>) -> bool {
    &&& g.len() > 0
    &&& g[0].len() > 0
    &&& forall|i: int| 0 <= i < g.len() ==> #[trigger] g[i].len() == g[0].len()
}

/// Two grids of the same shape.
pub open spec fn same_shape<S, T>(a: Seq<Seq<S>>, b: Seq<Seq<T>>) -> bool {
    &&& a.len() == b.len()
    &&& forall|i: int| 0 <= i < a.len() ==> #[trigger] a[i].len() == b[i].len()
}

/// Which cells are alive.
pub open spec fn pattern(g: Seq<Seq<Cell>>) -> Seq<Seq<bool>> {
    g.map_values(|row: Seq<Cell>| row.map_values(|c: Cell| c.alive()))
}

/// The first phase of a generation: every cell takes the transition that
/// its class decided.
pub open spec fn resolve(g: Seq<Seq<Cell>>) -> Seq<Seq<Cell>> {
    g.map_values(|row: Seq<Cell>| row.map_values(|c: Cell| c.lived_through()))
}

/// The second phase of a generation: every cell keeps its state and is
/// classified by its live neighbours.
pub open spec fn reclassify(g: Seq<Seq<Cell>>) -> Seq<Seq<Cell>> {
    Seq::new(
        g.len(),
        |i: int| Seq::new(g[i].len(), |j: int| classified(g[i][j].alive(), live_neighbors(pattern(g), i, j))),
    )
}

/// One generation.
pub open spec fn step(g: Seq<Seq<Cell>>) -> Seq<Seq<Cell>> {
    reclassify(resolve(g))
}

/// Every cell's class agrees with its live neighbours.
pub open spec fn is_classified(g: Seq<Seq<Cell>>) -> bool {
    forall|i: int, j: int|
        0 <= i < g.len() && 0 <= j < g[i].len() ==> #[trigger] g[i][j] == classified(
            g[i][j].alive(),
            live_neighbors(pattern(g), i, j),
        )
}

/// Why a grid could not be built.
#[derive(Debug, Clone, Copy, PartialEq, Eq, Structural)]
pub enum SeedError {
    /// No rows or no columns.
    Empty,
    /// Rows of different lengths.
    Ragged,
    /// A position off the grid.
    OutOfRange,
}

/// A fixed rectangle of cells, with the number of generations it has gone
/// through.
#[derive(Debug)]
pub struct Board {
    cells: Vec<Vec<Cell>>,
    generation: u64,
}

impl View for Board {
    type V = Seq<Seq<Cell>>;

    closed spec fn view(&self) -> Seq<Seq<Cell>> {
        self.cells@.map_values(|row: Vec<Cell>| row@)
    }
}

impl Board {
    pub open spec fn wf(self) -> bool {
        is_grid(self@)
    }

    pub open spec fn num_rows(self) -> nat {
        self@.len()
    }

    pub open spec fn num_cols(self) -> nat {
        self@[0].len()
    }

    pub closed spec fn generations(self) -> nat {
        self.generation as nat
    }

    /// How many generations the board has gone through.
    pub fn generation(&self) -> (r: u64)
        ensures
            r == self.generations(),
    {
        self.generation
    }

    /// 1 if the cell at `(i + di, j + dj)` is on the board and alive, else 0.
    fn live_offset(&self, i: usize, j: usize, di: i8, dj: i8) -> (r: u8)
        requires
            self.wf(),
            i < self.num_rows(),
            j < self.num_cols(),
            -1 <= di <= 1,
            -1 <= dj <= 1,
        ensures
            r == live_at(pattern(self@), i + di, j + dj),
    {
        if (di < 0 && i == 0) || (dj < 0 && j == 0) {
            return 0;
        }
        let num_rows = self.cells.len();
        let row_len = self.cells[i].len();
        assert(self@[i as int] == self.cells@[i as int]@);
        let ni: usize = if di < 0 {
            i - 1
        } else if di > 0 {
            i + 1
        } else {
            i
        };
        let nj: usize = if dj < 0 {
            j - 1
        } else if dj > 0 {
            j + 1
        } else {
            j
        };
        if ni >= num_rows || nj >= row_len {
            return 0;
        }
        assert(self@[ni as int] == self.cells@[ni as int]@);
        if self.cells[ni][nj].is_alive() {
            1
        } else {
            0
        }
    }
}

impl Cell {
    /// The live cells among the eight around `pos`.
    fn count_neighbors(pos: (usize, usize), board: &Board) -> (r: u8)
        requires
            board.wf(),
            pos.0 < board.num_rows(),
            pos.1 < board.num_cols(),
        ensures
            r == live_neighbors(pattern(board@), pos.0 as int, pos.1 as int),
            r <= 8,
    {
        let (i, j) = pos;
        board.live_offset(i, j, -1, -1) + board.live_offset(i, j, -1, 0) + board.live_offset(i, j, -1, 1)
            + board.live_offset(i, j, 0, -1) + board.live_offset(i, j, 0, 1) + board.live_offset(i, j, 1, -1)
            + board.live_offset(i, j, 1, 0) + board.live_offset(i, j, 1, 1)
    }

    /// The cell with the given state and number of live neighbours.
    pub fn classify(alive: bool, live_neighbors: u8) -> (r: Cell)
        ensures
            r == classified(alive, live_neighbors as int),
    {
        if live_neighbors == 0 || live_neighbors == 1 {
            Cell::ZeroOrOneNeighbors(ZeroOrOneNeighbors::new(alive))
        } else if live_neighbors == 2 || live_neighbors == 3 {
            Cell::TwoOrThreeNeighbors(TwoOrThreeNeighbors::new(alive, !alive && live_neighbors == 3))
        } else {
            Cell::FourOrMoreNeighbors(FourOrMoreNeighbors::new(alive))
        }
    }
}

impl Cell {
    /// The cell at `pos`, keeping its state, classified by its live neighbours.
    fn reincarnate(pos: (usize, usize), board: &Board) -> (r: Cell)
        requires
            board.wf(),
            pos.0 < board.num_rows(),
            pos.1 < board.num_cols(),
        ensures
            r == classified(
                board@[pos.0 as int][pos.1 as int].alive(),
                live_neighbors(pattern(board@), pos.0 as int, pos.1 as int),
            ),
    {
        let (i, j) = pos;
        assert(board@[i as int] == board.cells@[i as int]@);
        let alive = board.cells[i][j].is_alive();
        let neighbors_count = Cell::count_neighbors(pos, board);
        Cell::classify(alive, neighbors_count)
    }

    /// Advances the board by one generation: first every cell takes the
    /// transition that its class decided, then every cell is classified anew
    /// by the live neighbours it has after that.
    pub fn complete_lifecycle(board: &mut Board)
        requires
            old(board).wf(),
            old(board).generations() < u64::MAX,
        ensures
            final(board).wf(),
            final(board).generations() == old(board).generations() + 1,
            same_shape(final(board)@, old(board)@),
            final(board)@ == step(old(board)@),
            pattern(final(board)@) == pattern(resolve(old(board)@)),
            is_classified(final(board)@),
            is_classified(old(board)@) ==> pattern(final(board)@) == life_rule(pattern(old(board)@)),
    {
        let ghost start = board@;
        let num_rows = board.cells.len();
        let num_cols = board.cells[0].len();
        assert(forall|k: int| 0 <= k < num_rows ==> #[trigger] board.cells@[k]@ == start[k]);
        let mut resolved: Vec<Vec<Cell>> = Vec::new();
        for i in 0..num_rows
            invariant
                num_rows == board.cells@.len(),
                board@ == start,
                is_grid(start),
                num_cols == start[0].len(),
                start.len() == num_rows,
                forall|k: int| 0 <= k < num_rows ==> #[trigger] board.cells@[k]@ == start[k],
                resolved@.len() == i,
                forall|k: int| 0 <= k < i ==> #[trigger] resolved@[k]@ == resolve(start)[k],
        {
            let mut row: Vec<Cell> = Vec::new();
            assert(start[i as int].len() == num_cols);
            for j in 0..num_cols
                invariant
                    num_rows == board.cells@.len(),
                    i < num_rows,
                    board@ == start,
                    num_cols == start[i as int].len(),
                    forall|k: int| 0 <= k < num_rows ==> #[trigger] board.cells@[k]@ == start[k],
                    row@.len() == j,
                    forall|l: int| 0 <= l < j ==> #[trigger] row@[l] == start[i as int][l].lived_through(),
            {
                let mut c = board.cells[i][j];
                Cell::live_through(&mut c);
                row.push(c);
            }
            assert(row@ =~= resolve(start)[i as int]);
            resolved.push(row);
        }
        board.cells = resolved;
        assert(board@ =~= resolve(start));
        Board::reclassify_all(board);
        board.generation = board.generation + 1;
        proof {
            lemma_step_shape(start);
            lemma_reclassify_classified(resolve(start));
            if is_classified(start) {
                lemma_step_follows_life_rule(start);
            }
        }
    }
}

impl Board {
    /// Classifies every cell by its live neighbours, keeping its state.
    fn reclassify_all(board: &mut Board)
        requires
            old(board).wf(),
        ensures
            final(board)@ == reclassify(old(board)@),
            final(board).generations() == old(board).generations(),
    {
        let ghost mid = board@;
        let num_rows = board.cells.len();
        let num_cols = board.cells[0].len();
        assert(board.cells@[0]@ == mid[0]);
        let mut next: Vec<Vec<Cell>> = Vec::new();
        for i in 0..num_rows
            invariant
                num_rows == board.cells@.len(),
                board@ == mid,
                is_grid(mid),
                num_cols == mid[0].len(),
                mid.len() == num_rows,
                next@.len() == i,
                forall|k: int| 0 <= k < i ==> #[trigger] next@[k]@ == reclassify(mid)[k],
        {
            let mut row: Vec<Cell> = Vec::new();
            assert(mid[i as int].len() == num_cols);
            for j in 0..num_cols
                invariant
                    i < num_rows,
                    board@ == mid,
                    is_grid(mid),
                    num_cols == mid[0].len(),
                    mid.len() == num_rows,
                    num_cols == mid[i as int].len(),
                    row@.len() == j,
                    forall|l: int| 0 <= l < j ==> #[trigger] row@[l] == reclassify(mid)[i as int][l],
            {
                row.push(Cell::reincarnate((i, j), board));
            }
            assert(row@ =~= reclassify(mid)[i as int]);
            next.push(row);
        }
        board.cells = next;
        assert(board@ =~= reclassify(mid));
    }

    /// A board of the given size with every cell dead.
    pub fn new(rows: usize, cols: usize) -> (r: Result<Board, SeedError>)
        ensures
            rows == 0 || cols == 0 ==> r == Err::<Board, SeedError>(SeedError::Empty),
            rows > 0 && cols > 0 ==> r is Ok && {
                let b = r->Ok_0;
                &&& b.wf()
                &&& b.num_rows() == rows
                &&& b.num_cols() == cols
                &&& b.generations() == 0
                &&& forall|i: int, j: int|
                    0 <= i < rows && 0 <= j < cols ==> #[trigger] b@[i][j] == Cell::ZeroOrOneNeighbors(
                        ZeroOrOneNeighbors { alive: false },
                    )
            },
    {
        if rows == 0 || cols == 0 {
            return Err(SeedError::Empty);
        }
        let mut cells: Vec<Vec<Cell>> = Vec::new();
        for i in 0..rows
            invariant
                cells@.len() == i,
                forall|k: int, j: int|
                    0 <= k < i && 0 <= j < cols ==> #[trigger] cells@[k]@[j] == Cell::ZeroOrOneNeighbors(
                        ZeroOrOneNeighbors { alive: false },
                    ),
                forall|k: int| 0 <= k < i ==> #[trigger] cells@[k]@.len() == cols,
        {
            let mut row: Vec<Cell> = Vec::new();
            for j in 0..cols
                invariant
                    row@.len() == j,
                    forall|l: int| 0 <= l < j ==> #[trigger] row@[l] == Cell::ZeroOrOneNeighbors(
                        ZeroOrOneNeighbors { alive: false },
                    ),
            {
                row.push(Cell::ZeroOrOneNeighbors(ZeroOrOneNeighbors::new(false)));
            }
            cells.push(row);
        }
        let b = Board { cells, generation: 0 };
        assert(forall|k: int| 0 <= k < rows ==> #[trigger] b@[k] == b.cells@[k]@);
        Ok(b)
    }

    /// A board with the given live cells, each classified by its live
    /// neighbours.
    pub fn from_alive(alive: &Vec<Vec<bool>>) -> (r: Result<Board, SeedError>)
        ensures
            alive@.len() == 0 || alive@[0]@.len() == 0 ==> r == Err::<Board, SeedError>(SeedError::Empty),
            alive@.len() > 0 && alive@[0]@.len() > 0 ==> (r == Err::<Board, SeedError>(SeedError::Ragged)
                <==> exists|i: int| 0 <= i < alive@.len() && #[trigger] alive@[i]@.len() != alive@[0]@.len()),
            r is Ok <==> alive@.len() > 0 && alive@[0]@.len() > 0 && forall|i: int|
                0 <= i < alive@.len() ==> #[trigger] alive@[i]@.len() == alive@[0]@.len(),
            r is Ok ==> {
                let b = r->Ok_0;
                &&& b.wf()
                &&& b.num_rows() == alive@.len()
                &&& b.num_cols() == alive@[0]@.len()
                &&& b.generations() == 0
                &&& pattern(b@) == alive@.map_values(|row: Vec<bool>| row@)
                &&& is_classified(b@)
            },
    {
        if alive.len() == 0 || alive[0].len() == 0 {
            return Err(SeedError::Empty);
        }
        let num_cols = alive[0].len();
        let mut cells: Vec<Vec<Cell>> = Vec::new();
        for i in 0..alive.len()
            invariant
                num_cols == alive@[0]@.len(),
                num_cols > 0,
                cells@.len() == i,
                forall|k: int| 0 <= k < i ==> #[trigger] alive@[k]@.len() == num_cols,
                forall|k: int| 0 <= k < i ==> #[trigger] cells@[k]@.len() == num_cols,
                forall|k: int, j: int|
                    0 <= k < i && 0 <= j < num_cols ==> #[trigger] cells@[k]@[j] == Cell::ZeroOrOneNeighbors(
                        ZeroOrOneNeighbors { alive: alive@[k]@[j] },
                    ),
        {
            if alive[i].len() != num_cols {
                return Err(SeedError::Ragged);
            }
            let mut row: Vec<Cell> = Vec::new();
            for j in 0..num_cols
                invariant
                    num_cols == alive@[i as int]@.len(),
                    i < alive@.len(),
                    row@.len() == j,
                    forall|l: int| 0 <= l < j ==> #[trigger] row@[l] == Cell::ZeroOrOneNeighbors(
                        ZeroOrOneNeighbors { alive: alive@[i as int]@[l] },
                    ),
            {
                row.push(Cell::ZeroOrOneNeighbors(ZeroOrOneNeighbors::new(alive[i][j])));
            }
            cells.push(row);
        }
        let mut b = Board { cells, generation: 0 };
        let ghost seeded = b@;
        assert(forall|k: int| 0 <= k < alive@.len() ==> #[trigger] b@[k] == b.cells@[k]@);
        assert(pattern(seeded) =~~= alive@.map_values(|row: Vec<bool>| row@));
        Board::reclassify_all(&mut b);
        proof {
            lemma_reclassify_classified(seeded);
            assert(is_grid(b@));
        }
        Ok(b)
    }

    pub fn rows(&self) -> (r: usize)
        requires
            self.wf(),
        ensures
            r == self.num_rows(),
    {
        self.cells.len()
    }

    pub fn cols(&self) -> (r: usize)
        requires
            self.wf(),
        ensures
            r == self.num_cols(),
    {
        self.cells[0].len()
    }

    /// The cell at row `i`, column `j`.
    pub fn cell(&self, i: usize, j: usize) -> (r: Cell)
        requires
            self.wf(),
            i < self.num_rows(),
            j < self.num_cols(),
        ensures
            r == self@[i as int][j as int],
    {
        assert(self@[i as int] == self.cells@[i as int]@);
        self.cells[i][j]
    }

    /// Puts `cell` at row `i`, column `j`; a position off the board is
    /// refused and leaves the board as it was.
    pub fn set_cell(&mut self, i: usize, j: usize, cell: Cell) -> (r: Result<(), SeedError>)
        requires
            old(self).wf(),
        ensures
            final(self).wf(),
            final(self).generations() == old(self).generations(),
            i >= old(self).num_rows() || j >= old(self).num_cols() ==> r == Err::<(), SeedError>(
                SeedError::OutOfRange,
            ) && final(self)@ == old(self)@,
            i < old(self).num_rows() && j < old(self).num_cols() ==> r is Ok && final(self)@ == old(
                self,
            )@.update(i as int, old(self)@[i as int].update(j as int, cell)),
    {
        if i >= self.cells.len() || j >= self.cells[0].len() {
            return Err(SeedError::OutOfRange);
        }
        let ghost before = self@;
        assert(self@[i as int] == self.cells@[i as int]@);
        assert(self@[0] == self.cells@[0]@);
        self.cells[i][j] = cell;
        assert(self@ =~~= before.update(i as int, before[i as int].update(j as int, cell)));
        Ok(())
    }
}

/// A generation keeps the grid's shape and gives each cell the state that
/// the first phase gave it.
pub proof fn lemma_step_shape(g: Seq<Seq<Cell>>)
    requires
        is_grid(g),
    ensures
        is_grid(step(g)),
        same_shape(step(g), g),
        pattern(step(g)) == pattern(resolve(g)),
{
    assert(pattern(step(g)) =~~= pattern(resolve(g)));
}

/// After the second phase every cell's class agrees with its live
/// neighbours, which that phase left as they were.
pub proof fn lemma_reclassify_classified(g: Seq<Seq<Cell>>)
    ensures
        is_classified(reclassify(g)),
        pattern(reclassify(g)) == pattern(g),
{
    assert(pattern(reclassify(g)) =~~= pattern(g));
}

/// A classified grid is what the second phase makes of it.
proof fn lemma_classified_fixed(g: Seq<Seq<Cell>>)
    requires
        is_classified(g),
    ensures
        reclassify(g) == g,
{
    assert(reclassify(g) =~~= g);
}

/// The second phase reads only which cells are alive.
proof fn lemma_reclassify_by_pattern(a: Seq<Seq<Cell>>, b: Seq<Seq<Cell>>)
    requires
        pattern(a) == pattern(b),
    ensures
        reclassify(a) == reclassify(b),
{
    assert(a.len() == pattern(a).len());
    assert forall|i: int| 0 <= i < a.len() implies #[trigger] a[i].len() == b[i].len() by {
        assert(a[i].len() == pattern(a)[i].len());
        assert(b[i].len() == pattern(b)[i].len());
    }
    assert forall|i: int, j: int| 0 <= i < a.len() && 0 <= j < a[i].len() implies #[trigger] a[i][j].alive()
        == b[i][j].alive() by {
        assert(a[i][j].alive() == pattern(a)[i][j]);
        assert(b[i][j].alive() == pattern(b)[i][j]);
    }
    assert(reclassify(a) =~~= reclassify(b));
}

/// Every generation leaves each cell classified by its live neighbours.
pub proof fn lemma_step_classified(g: Seq<Seq<Cell>>)
    ensures
        is_classified(step(g)),
{
    lemma_reclassify_classified(resolve(g));
}

/// On a classified grid a generation applies Conway's rule to the live
/// cells.
pub proof fn lemma_step_follows_life_rule(g: Seq<Seq<Cell>>)
    requires
        is_classified(g),
    ensures
        pattern(step(g)) == life_rule(pattern(g)),
{
    lemma_reclassify_classified(resolve(g));
    assert(pattern(step(g)) =~~= life_rule(pattern(g)));
}

/// A classified still life stays as it is: one generation gives the same
/// cells back, so two generations give the same live cells.
pub proof fn lemma_still_life_twice(g: Seq<Seq<Cell>>)
    requires
        is_classified(g),
        pattern(step(g)) == pattern(g),
    ensures
        step(g) == g,
        pattern(step(step(g))) == pattern(g),
{
    lemma_reclassify_classified(resolve(g));
    assert(pattern(reclassify(resolve(g))) =~~= pattern(resolve(g)));
    lemma_reclassify_by_pattern(resolve(g), g);
    lemma_classified_fixed(g);
}

/// In a classified grid a cell marked to spawn is dead and has exactly three
/// live neighbours.
pub proof fn lemma_will_spawn_marks_birth(g: Seq<Seq<Cell>>, i: int, j: int)
    requires
        is_classified(g),
        0 <= i < g.len(),
        0 <= j < g[i].len(),
        g[i][j] is TwoOrThreeNeighbors,
        g[i][j]->TwoOrThreeNeighbors_0.will_spawn,
    ensures
        !g[i][j].alive(),
        live_neighbors(pattern(g), i, j) == 3,
{
}

} // verus!
