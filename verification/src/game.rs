//! The state of one match and the rule by which a move changes it.

use vstd::prelude::*;
use vstd::string::StringExecFns;
use crate::identity::Identity;

verus! {

/// Number of rows, and of columns, of the grid.
pub const GRID_SIZE: usize = 3;

/// The symbol that occupies a cell.
#[derive(Clone, Copy, Debug, PartialEq, Eq, Structural)]
pub enum Mark {
    E,
    X,
    O,
}

impl Default for Mark {
    fn default() -> (mark: Mark)
        ensures
            mark == Mark::E,
    {
        Mark::E
    }
}

/// How a mark is drawn: two characters, the second a column separator.
pub open spec fn mark_text(mark: Mark) -> Seq<char> {
    match mark {
        Mark::E => seq!['_', '|'],
        Mark::X => seq!['x', '|'],
        Mark::O => seq!['o', '|'],
    }
}

impl Mark {
    /// The text that draws this mark.
    pub fn text(&self) -> (text: &'static str)
        ensures
            text@ == mark_text(*self),
    {
        match self {
            Mark::E => {
                proof {
                    reveal_strlit("_|");
                }
                assert("_|"@ =~= mark_text(Mark::E));
                "_|"
            },
            Mark::X => {
                proof {
                    reveal_strlit("x|");
                }
                assert("x|"@ =~= mark_text(Mark::X));
                "x|"
            },
            Mark::O => {
                proof {
                    reveal_strlit("o|");
                }
                assert("o|"@ =~= mark_text(Mark::O));
                "o|"
            },
        }
    }
}

/// A move as a player submits it: a cell of the grid and the mark to put there.
#[derive(Clone, Copy, Debug, PartialEq, Eq)]
pub struct Move {
    pub row: usize,
    pub col: usize,
    pub mark: Mark,
}

/// Why a move was refused.
#[derive(Clone, Copy, Debug, PartialEq, Eq)]
pub enum GameError {
    /// The row or the column lies outside the grid.
    InvalidMove { row: usize, col: usize },
}

/// Position in the row-major grid of the cell at `row` and `col`.
pub open spec fn cell_index(row: int, col: int) -> int {
    row * 3 + col
}

/// Whether `row` and `col` name a cell of the grid.
pub open spec fn in_grid(row: int, col: int) -> bool {
    0 <= row < 3 && 0 <= col < 3
}

/// The three cells at `a`, `b` and `c` hold one and the same mark, and it is
/// not the empty one.
pub open spec fn line_complete(grid: Seq<Mark>, a: int, b: int, c: int) -> bool {
    grid[a] != Mark::E && grid[a] == grid[b] && grid[b] == grid[c]
}

/// Row `row` of the grid is complete.
pub open spec fn row_complete(grid: Seq<Mark>, row: int) -> bool {
    line_complete(grid, cell_index(row, 0), cell_index(row, 1), cell_index(row, 2))
}

/// Column `col` of the grid is complete.
pub open spec fn col_complete(grid: Seq<Mark>, col: int) -> bool {
    line_complete(grid, cell_index(0, col), cell_index(1, col), cell_index(2, col))
}

/// Some row, some column or one of the two diagonals of the grid is complete.
pub open spec fn has_line(grid: Seq<Mark>) -> bool {
    ||| exists|row: int| 0 <= row < 3 && #[trigger] row_complete(grid, row)
    ||| exists|col: int| 0 <= col < 3 && #[trigger] col_complete(grid, col)
    ||| line_complete(grid, 0, 4, 8)
    ||| line_complete(grid, 2, 4, 6)
}

/// No cell of the grid is empty.
pub open spec fn fully_marked(grid: Seq<Mark>) -> bool {
    forall|i: int| 0 <= i < 9 ==> #[trigger] grid[i] != Mark::E
}

/// Every cell of the grid is empty.
pub open spec fn all_empty(grid: Seq<Mark>) -> bool {
    forall|i: int| 0 <= i < 9 ==> #[trigger] grid[i] == Mark::E
}

/// The rows are the grid: three rows of three marks, each mark the one in
/// the cell of its row and column.
pub open spec fn shows_grid(rows: Seq<Vec<Mark>>, grid: Seq<Mark>) -> bool {
    &&& rows.len() == 3
    &&& forall|row: int| 0 <= row < 3 ==> (#[trigger] rows[row])@.len() == 3
    &&& forall|row: int, col: int|
        in_grid(row, col) ==> rows[row]@[col] == #[trigger] grid[cell_index(row, col)]
}

/// What a match is, apart from how it is stored.
pub struct GameView {
    pub player_1: Seq<u8>,
    pub player_2: Seq<u8>,
    pub most_recent: Option<Seq<u8>>,
    pub winner: Option<Seq<u8>>,
    pub grid: Seq<Mark>,
}

impl GameView {
    /// The match has a winner, or no cell is left to play.
    pub open spec fn is_over(self) -> bool {
        self.winner is Some || fully_marked(self.grid)
    }

    /// The move is applied: the match goes on and the cell lies in the grid.
    pub open spec fn accepts(self, row: int, col: int) -> bool {
        !self.is_over() && in_grid(row, col)
    }

    /// The match after `player` has asked to put `mark` at `row` and `col`.
    /// A finished match stays as it is, and so does one that is asked for a
    /// cell outside the grid.
    pub open spec fn after_play(self, player: Seq<u8>, row: int, col: int, mark: Mark) -> GameView {
        if self.accepts(row, col) {
            let grid = self.grid.update(cell_index(row, col), mark);
            GameView {
                player_1: self.player_1,
                player_2: self.player_2,
                most_recent: Some(player),
                winner: if has_line(grid) {
                    Some(player)
                } else {
                    self.winner
                },
                grid,
            }
        } else {
            self
        }
    }

    /// The identities have the length of an identity and the grid has nine
    /// cells. This holds of the view of every stored match.
    pub open spec fn well_formed(self) -> bool {
        &&& self.player_1.len() == 32
        &&& self.player_2.len() == 32
        &&& self.most_recent matches Some(player) ==> player.len() == 32
        &&& self.winner matches Some(player) ==> player.len() == 32
        &&& self.grid.len() == 9
    }

    /// A winner is recorded exactly when a line is complete, and then it is
    /// the player who moved last. This holds of a new match and of every
    /// match that moves have made of one.
    pub open spec fn consistent(self) -> bool {
        &&& self.winner is Some <==> has_line(self.grid)
        &&& self.winner is Some ==> self.most_recent == self.winner
    }
}

/// The view of an identity that may be absent.
pub open spec fn optional_view(id: Option<Identity>) -> Option<Seq<u8>> {
    match id {
        Some(id) => Some(id@),
        None => None,
    }
}

/// The persisted record of one match.
#[derive(Clone, Copy, Debug, PartialEq, Eq)]
pub struct Game {
    player_1: Identity,
    player_2: Identity,
    most_recent: Option<Identity>,
    winner: Option<Identity>,
    grid: [Mark; 9],
}

impl View for Game {
    type V = GameView;

    closed spec fn view(&self) -> GameView {
        GameView {
            player_1: self.player_1@,
            player_2: self.player_2@,
            most_recent: optional_view(self.most_recent),
            winner: optional_view(self.winner),
            grid: self.grid@,
        }
    }
}

impl Game {
    /// Two stored matches with the same view are the same in every field.
    pub proof fn lemma_view_decides(self, other: Game)
        requires
            self@ == other@,
        ensures
            self == other,
    {
        self.player_1.lemma_view_decides(other.player_1);
        self.player_2.lemma_view_decides(other.player_2);
        if let Some(player) = self.most_recent {
            player.lemma_view_decides(other.most_recent->0);
        }
        if let Some(player) = self.winner {
            player.lemma_view_decides(other.winner->0);
        }
        assert(self.grid =~= other.grid);
    }

    /// A match between two players in which nothing has been played.
    pub fn new(player_1: Identity, player_2: Identity) -> (game: Game)
        ensures
            game@.player_1 == player_1@,
            game@.player_2 == player_2@,
            game@.most_recent is None,
            game@.winner is None,
            all_empty(game@.grid),
            game@.well_formed(),
            game@.consistent(),
    {
        let game = Game {
            player_1,
            player_2,
            most_recent: None,
            winner: None,
            grid: [Mark::E;9],
        };
        assert(!has_line(game@.grid));
        game
    }

    /// The match that holds exactly the given values.
    pub fn from_parts(
        player_1: Identity,
        player_2: Identity,
        most_recent: Option<Identity>,
        winner: Option<Identity>,
        grid: [Mark; 9],
    ) -> (game: Game)
        ensures
            game@ == (GameView {
                player_1: player_1@,
                player_2: player_2@,
                most_recent: optional_view(most_recent),
                winner: optional_view(winner),
                grid: grid@,
            }),
            game@.well_formed(),
    {
        Game { player_1, player_2, most_recent, winner, grid }
    }

    /// Applies one move. A finished match takes no move and reports none as
    /// refused; a match that goes on refuses a cell outside the grid.
    pub fn play(&mut self, player: Identity, row: usize, col: usize, mark: Mark) -> (result: Result<
        (),
        GameError,
    >)
        ensures
            final(self)@ == old(self)@.after_play(player@, row as int, col as int, mark),
            final(self)@.well_formed(),
            old(self)@.is_over() ==> final(self)@ == old(self)@,
            old(self)@.winner is Some ==> final(self)@.winner == old(self)@.winner,
            old(self)@.accepts(row as int, col as int) ==> {
                &&& final(self)@.most_recent == Some(player@)
                &&& final(self)@.grid == old(self)@.grid.update(
                    cell_index(row as int, col as int),
                    mark,
                )
            },
            old(self)@.consistent() ==> final(self)@.consistent(),
            result is Err <==> !old(self)@.is_over() && !in_grid(row as int, col as int),
            result is Err ==> result == Err::<(), GameError>(GameError::InvalidMove { row, col }),
    {
        if self.is_over() {
            return Ok(());
        }
        if row >= GRID_SIZE || col >= GRID_SIZE {
            return Err(GameError::InvalidMove { row, col });
        }
        let i: usize = row * GRID_SIZE + col;
        self.grid[i] = mark;
        self.most_recent = Some(player);
        if self.is_win() {
            self.winner = Some(player);
        }
        Ok(())
    }

    /// The grid as three rows of three marks.
    pub fn get_grid(&self) -> (rows: Vec<Vec<Mark>>)
        ensures
            shows_grid(rows@, self@.grid),
    {
        let mut rows: Vec<Vec<Mark>> = Vec::new();
        let mut i: usize = 0;
        while i < GRID_SIZE
            invariant
                i <= 3,
                rows@.len() == i,
                forall|row: int| 0 <= row < i ==> (#[trigger] rows@[row])@.len() == 3,
                forall|row: int, col: int|
                    0 <= row < i && 0 <= col < 3 ==> rows@[row]@[col] == #[trigger] self@.grid[cell_index(
                        row,
                        col,
                    )],
            decreases 3 - i,
        {
            let mut cells: Vec<Mark> = Vec::new();
            let mut j: usize = 0;
            while j < GRID_SIZE
                invariant
                    i < 3,
                    j <= 3,
                    cells@.len() == j,
                    forall|col: int|
                        0 <= col < j ==> cells@[col] == #[trigger] self@.grid[cell_index(
                            i as int,
                            col,
                        )],
                decreases 3 - j,
            {
                cells.push(self.grid[i * GRID_SIZE + j]);
                j += 1;
            }
            rows.push(cells);
            i += 1;
        }
        rows
    }

    /// Whether the match has ended, by a win or by a full grid.
    pub fn is_over(&self) -> (over: bool)
        ensures
            over == self@.is_over(),
    {
        self.winner.is_some() || self.is_fully_marked()
    }

    /// The winner, if the match has one.
    pub fn get_winner(&self) -> (winner: Option<Identity>)
        ensures
            optional_view(winner) == self@.winner,
    {
        self.winner
    }

    /// The player whose move was applied last, if any was.
    pub fn get_most_recent(&self) -> (player: Option<Identity>)
        ensures
            optional_view(player) == self@.most_recent,
    {
        self.most_recent
    }

    /// The first of the two players.
    pub fn get_player_1(&self) -> (player: Identity)
        ensures
            player@ == self@.player_1,
    {
        self.player_1
    }

    /// The second of the two players.
    pub fn get_player_2(&self) -> (player: Identity)
        ensures
            player@ == self@.player_2,
    {
        self.player_2
    }

    /// The nine cells, row by row.
    pub fn get_cells(&self) -> (cells: [Mark; 9])
        ensures
            cells@ == self@.grid,
    {
        self.grid
    }

    /// Whether a row, a column or a diagonal is complete. Rows are examined
    /// first, then columns, then the two diagonals.
    pub fn is_win(&self) -> (win: bool)
        ensures
            win == has_line(self@.grid),
    {
        let mut i: usize = 0;
        while i < GRID_SIZE
            invariant
                i <= 3,
                forall|row: int| 0 <= row < i ==> !#[trigger] row_complete(self@.grid, row),
            decreases 3 - i,
        {
            let j: usize = i * GRID_SIZE;
            if self.grid[j] != Mark::E && self.grid[j] == self.grid[j + 1] && self.grid[j + 1]
                == self.grid[j + 2] {
                assert(row_complete(self@.grid, i as int));
                return true;
            }
            i += 1;
        }
        let mut i: usize = 0;
        while i < GRID_SIZE
            invariant
                i <= 3,
                forall|row: int| 0 <= row < 3 ==> !#[trigger] row_complete(self@.grid, row),
                forall|col: int| 0 <= col < i ==> !#[trigger] col_complete(self@.grid, col),
            decreases 3 - i,
        {
            if self.grid[i] != Mark::E && self.grid[i] == self.grid[i + GRID_SIZE] && self.grid[i
                + GRID_SIZE] == self.grid[i + 2 * GRID_SIZE] {
                assert(col_complete(self@.grid, i as int));
                return true;
            }
            i += 1;
        }
        if self.grid[0] != Mark::E && self.grid[0] == self.grid[4] && self.grid[4] == self.grid[8] {
            return true;
        }
        if self.grid[2] != Mark::E && self.grid[2] == self.grid[4] && self.grid[4] == self.grid[6] {
            return true;
        }
        false
    }

    /// Whether no cell is empty.
    pub fn is_fully_marked(&self) -> (full: bool)
        ensures
            full == fully_marked(self@.grid),
    {
        let mut i: usize = 0;
        while i < GRID_SIZE
            invariant
                i <= 3,
                forall|k: int| 0 <= k < 3 * i ==> #[trigger] self@.grid[k] != Mark::E,
            decreases 3 - i,
        {
            let mut j: usize = 0;
            while j < GRID_SIZE
                invariant
                    i < 3,
                    j <= 3,
                    forall|k: int| 0 <= k < 3 * i + j ==> #[trigger] self@.grid[k] != Mark::E,
                decreases 3 - j,
            {
                if let Mark::E = self.grid[i * GRID_SIZE + j] {
                    return false;
                }
                j += 1;
            }
            i += 1;
        }
        true
    }
}

/// The marks of a row drawn one after the other.
pub open spec fn marks_text(row: Seq<Mark>) -> Seq<char>
    decreases row.len(),
{
    if row.len() == 0 {
        Seq::empty()
    } else {
        marks_text(row.drop_last()) + mark_text(row.last())
    }
}

/// The rows drawn one below the other, each ended by a line break.
pub open spec fn rows_text(rows: Seq<Vec<Mark>>) -> Seq<char>
    decreases rows.len(),
{
    if rows.len() == 0 {
        Seq::empty()
    } else {
        rows_text(rows.drop_last()) + (marks_text(rows.last()@) + seq!['\n'])
    }
}

/// The drawing of a grid: its rows, and below them a line of ten asterisks.
pub open spec fn drawing(rows: Seq<Vec<Mark>>) -> Seq<char> {
    rows_text(rows) + ("**********"@ + seq!['\n'])
}

/// Draws a grid that is given by its rows.
pub fn grid_text(grid: &Vec<Vec<Mark>>) -> (text: String)
    ensures
        text@ == drawing(grid@),
{
    proof {
        reveal_strlit("\n");
    }
    let mut text = String::new();
    let mut i: usize = 0;
    while i < grid.len()
        invariant
            i <= grid@.len(),
            "\n"@ == seq!['\n'],
            text@ == rows_text(grid@.take(i as int)),
        decreases grid@.len() - i,
    {
        let row = &grid[i];
        let ghost above = text@;
        let mut j: usize = 0;
        while j < row.len()
            invariant
                j <= row@.len(),
                text@ == above + marks_text(row@.take(j as int)),
            decreases row@.len() - j,
        {
            text.append(row[j].text());
            assert(row@.take(j + 1).drop_last() =~= row@.take(j as int));
            assert(text@ =~= above + marks_text(row@.take(j + 1)));
            j += 1;
        }
        text.append("\n");
        assert(row@.take(row@.len() as int) =~= row@);
        assert(grid@.take(i + 1).drop_last() =~= grid@.take(i as int));
        assert(text@ =~= rows_text(grid@.take(i + 1)));
        i += 1;
    }
    assert(grid@.take(grid@.len() as int) =~= grid@);
    text.append("**********");
    text.append("\n");
    assert(text@ =~= drawing(grid@));
    text
}

/// One request to play: who asks, for which cell, and with which mark.
pub struct Request {
    pub player: Seq<u8>,
    pub row: int,
    pub col: int,
    pub mark: Mark,
}

impl GameView {
    /// The match after the requests have been made of it one after the other.
    pub open spec fn after_requests(self, requests: Seq<Request>) -> GameView
        decreases requests.len(),
    {
        if requests.len() == 0 {
            self
        } else {
            let first = requests[0];
            self.after_play(first.player, first.row, first.col, first.mark).after_requests(
                requests.drop_first(),
            )
        }
    }
}

/// A grid has a complete line exactly when one of its three rows, its three
/// columns or its two diagonals holds three equal marks that are not empty.
pub proof fn lemma_lines_of_the_grid(grid: Seq<Mark>)
    ensures
        has_line(grid) <==> {
            ||| line_complete(grid, 0, 1, 2)
            ||| line_complete(grid, 3, 4, 5)
            ||| line_complete(grid, 6, 7, 8)
            ||| line_complete(grid, 0, 3, 6)
            ||| line_complete(grid, 1, 4, 7)
            ||| line_complete(grid, 2, 5, 8)
            ||| line_complete(grid, 0, 4, 8)
            ||| line_complete(grid, 2, 4, 6)
        },
{
    if line_complete(grid, 0, 1, 2) {
        assert(row_complete(grid, 0));
    }
    if line_complete(grid, 3, 4, 5) {
        assert(row_complete(grid, 1));
    }
    if line_complete(grid, 6, 7, 8) {
        assert(row_complete(grid, 2));
    }
    if line_complete(grid, 0, 3, 6) {
        assert(col_complete(grid, 0));
    }
    if line_complete(grid, 1, 4, 7) {
        assert(col_complete(grid, 1));
    }
    if line_complete(grid, 2, 5, 8) {
        assert(col_complete(grid, 2));
    }
}

/// A match that is over takes no move: whatever is asked of it, and however
/// often, its grid, its winner and its last player stay as they are.
pub proof fn lemma_finished_match_is_frozen(game: GameView, requests: Seq<Request>)
    requires
        game.is_over(),
    ensures
        game.after_requests(requests) == game,
    decreases requests.len(),
{
    if requests.len() > 0 {
        lemma_finished_match_is_frozen(game, requests.drop_first());
    }
}

/// A move that is applied writes its mark into its cell, leaves every other
/// cell as it was, and makes the acting player the last one.
pub proof fn lemma_accepted_move_writes_one_cell(
    game: GameView,
    player: Seq<u8>,
    row: int,
    col: int,
    mark: Mark,
)
    requires
        game.grid.len() == 9,
        game.accepts(row, col),
    ensures
        game.after_play(player, row, col, mark).most_recent == Some(player),
        game.after_play(player, row, col, mark).grid.len() == 9,
        game.after_play(player, row, col, mark).grid[cell_index(row, col)] == mark,
        forall|i: int|
            0 <= i < 9 && i != cell_index(row, col) ==> game.after_play(
                player,
                row,
                col,
                mark,
            ).grid[i] == game.grid[i],
{
}

/// A move that is applied to an empty cell with a mark other than the empty
/// one changes exactly that cell.
pub proof fn lemma_accepted_move_changes_one_cell(
    game: GameView,
    player: Seq<u8>,
    row: int,
    col: int,
    mark: Mark,
)
    requires
        game.grid.len() == 9,
        game.accepts(row, col),
        game.grid[cell_index(row, col)] == Mark::E,
        mark != Mark::E,
    ensures
        forall|i: int|
            0 <= i < 9 ==> (game.after_play(player, row, col, mark).grid[i] != game.grid[i] <==> i
                == cell_index(row, col)),
{
}

/// A winner, once recorded, stays the winner whatever is asked of the match
/// afterwards.
pub proof fn lemma_winner_is_final(game: GameView, requests: Seq<Request>)
    requires
        game.winner is Some,
    ensures
        game.after_requests(requests).winner == game.winner,
{
    lemma_finished_match_is_frozen(game, requests);
}

/// Moves keep a match consistent: after any requests a winner is recorded
/// exactly when a line is complete, and it is the player who moved last.
pub proof fn lemma_moves_keep_consistency(game: GameView, requests: Seq<Request>)
    requires
        game.consistent(),
    ensures
        game.after_requests(requests).consistent(),
    decreases requests.len(),
{
    if requests.len() > 0 {
        let first = requests[0];
        lemma_moves_keep_consistency(
            game.after_play(first.player, first.row, first.col, first.mark),
            requests.drop_first(),
        );
    }
}

} // verus!
