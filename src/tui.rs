use vstd::prelude::*;

use crate::gof::is_classified;
use crate::gof::pattern;
use crate::gof::step;
use crate::gof::Board;
use crate::gof::Cell;

verus! {

pub const ROWS: usize = 6;

pub const COLS: usize = 11;

/// A key as the loop sees it: a character, or any other key.
#[derive(Debug, Clone, Copy, PartialEq, Eq, Structural)]
pub enum KeyPress {
    Char(char),
    Other,
}

/// What reaches the loop: the start signal, a pressed key, or a tick.
#[derive(Debug, Clone, Copy, PartialEq, Eq, Structural)]
pub enum Event {
    Init,
    Key(KeyPress),
    Render,
}

/// What the loop does after an event.
#[derive(Debug, Clone, Copy, PartialEq, Eq, Structural)]
pub enum Flow {
    /// Wait for the next event.
    Continue,
    /// The board has moved on: paint it, then wait.
    Redraw,
    /// Leave the loop and restore the terminal.
    Quit,
}

/// Whether the seed has a live cell at row `i`, column `j`.
pub open spec fn seed_alive(i: int, j: int) -> bool {
    ||| i == 0 && j == 5
    ||| (i == 1 || i == 2) && 4 <= j <= 6
    ||| i == 3 && j == 5
}

/// The starting board: a plus-shaped cluster near the top, each cell
/// classified by its live neighbours.
pub fn init_board() -> (r: Board)
    ensures
        r.wf(),
        r.num_rows() == ROWS,
        r.num_cols() == COLS,
        r.generations() == 0,
        forall|i: int, j: int|
            0 <= i < ROWS && 0 <= j < COLS ==> #[trigger] pattern(r@)[i][j] == seed_alive(i, j),
        is_classified(r@),
{
    let mut alive: Vec<Vec<bool>> = Vec::new();
    for i in 0..ROWS
        invariant
            alive@.len() == i,
            forall|k: int| 0 <= k < i ==> #[trigger] alive@[k]@.len() == COLS,
            forall|k: int, j: int|
                0 <= k < i && 0 <= j < COLS ==> #[trigger] alive@[k]@[j] == seed_alive(k, j),
    {
        let mut row: Vec<bool> = Vec::new();
        for j in 0..COLS
            invariant
                row@.len() == j,
                forall|l: int| 0 <= l < j ==> #[trigger] row@[l] == seed_alive(i as int, l),
        {
            row.push((i == 0 && j == 5) || ((i == 1 || i == 2) && 4 <= j && j <= 6) || (i == 3 && j == 5));
        }
        alive.push(row);
    }
    let ghost seed = alive@.map_values(|row: Vec<bool>| row@);
    assert(forall|k: int| 0 <= k < ROWS ==> #[trigger] seed[k] == alive@[k]@);
    let board = Board::from_alive(&alive);
    assert(board is Ok);
    board.unwrap()
}

/// The event that a key hands to the loop: presses pass, releases and
/// repeats do not.
pub fn key_event(key: KeyPress, is_press: bool) -> (r: Option<Event>)
    ensures
        is_press ==> r == Some(Event::Key(key)),
        !is_press ==> r is None,
{
    if is_press {
        Some(Event::Key(key))
    } else {
        None
    }
}

/// The loop's answer to one event, `None` meaning that the channel closed:
/// `q` or a closed channel ends the loop, a tick advances the board by one
/// generation and asks for a redraw, anything else changes nothing.
pub fn handle_event(board: &mut Board, event: Option<Event>) -> (r: Flow)
    requires
        old(board).wf(),
        old(board).generations() < u64::MAX,
    ensures
        final(board).wf(),
        r == (match event {
            None => Flow::Quit,
            Some(Event::Key(KeyPress::Char('q'))) => Flow::Quit,
            Some(Event::Render) => Flow::Redraw,
            _ => Flow::Continue,
        }),
        event == Some(Event::Render) ==> final(board)@ == step(old(board)@),
        event == Some(Event::Render) ==> final(board).generations() == old(board).generations() + 1,
        event != Some(Event::Render) ==> final(board)@ == old(board)@ && final(board).generations()
            == old(board).generations(),
{
    match event {
        None => Flow::Quit,
        Some(Event::Key(KeyPress::Char('q'))) => Flow::Quit,
        Some(Event::Render) => {
            Cell::complete_lifecycle(board);
            Flow::Redraw
        },
        Some(_) => Flow::Continue,
    }
}

} // verus!
