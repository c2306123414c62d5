use vstd::prelude::*;
use vstd::string::*;

use crate::gof::Cell;

verus! {

/// The colours that a cell is painted in.
#[derive(Debug, Clone, Copy, PartialEq, Eq, Structural)]
pub enum Tone {
    White,
    Magenta,
    Blue,
    Red,
    Yellow,
    Black,
}

pub const ALIVE_BG_COLOR: Tone = Tone::Yellow;

pub const DEAD_BG_COLOR: Tone = Tone::Black;

pub const ZERO_OR_ONE_COLOR: Tone = Tone::White;

pub const TWO_OR_THREE_COLOR: Tone = Tone::Magenta;

pub const FOUR_OR_MORE_COLOR: Tone = Tone::Blue;

/// The two lines of text in a cell: its class, in the class's colour, and a
/// badge, on an emphasis background, for what the next generation does to it.
#[derive(Debug)]
pub struct StateUI {
    pub state_text_color: Tone,
    pub state_text: String,
    pub extra_text_bg: Tone,
    pub extra_text: Option<String>,
}

/// The label of a cell's class.
pub open spec fn state_label(cell: Cell) -> Seq<char> {
    match cell {
        Cell::ZeroOrOneNeighbors(_) => "ZERO OR ONE NEIGHBORS"@,
        Cell::TwoOrThreeNeighbors(_) => "TWO OR THREE NEIGHBORS"@,
        Cell::FourOrMoreNeighbors(_) => "FOUR OR MORE NEIGHBORS"@,
    }
}

/// The badge of a cell, if it has one: a live cell of an outer class will
/// die, a marked cell of the middle class will spawn.
pub open spec fn badge(cell: Cell) -> Option<Seq<char>> {
    match cell {
        Cell::ZeroOrOneNeighbors(c) => if c.alive { Some("WILL DIE"@) } else { None },
        Cell::TwoOrThreeNeighbors(c) => if c.will_spawn { Some("WILL SPAWN"@) } else { None },
        Cell::FourOrMoreNeighbors(c) => if c.alive { Some("WILL DIE"@) } else { None },
    }
}

pub open spec fn state_color(cell: Cell) -> Tone {
    match cell {
        Cell::ZeroOrOneNeighbors(_) => ZERO_OR_ONE_COLOR,
        Cell::TwoOrThreeNeighbors(_) => TWO_OR_THREE_COLOR,
        Cell::FourOrMoreNeighbors(_) => FOUR_OR_MORE_COLOR,
    }
}

pub open spec fn badge_bg(cell: Cell) -> Tone {
    match cell {
        Cell::TwoOrThreeNeighbors(_) => Tone::Yellow,
        _ => Tone::Red,
    }
}

/// What to write in a cell.
pub fn get_state_ui(cell: &Cell) -> (r: StateUI)
    ensures
        r.state_text@ == state_label(*cell),
        r.state_text_color == state_color(*cell),
        r.extra_text_bg == badge_bg(*cell),
        r.extra_text.is_some() == badge(*cell).is_some(),
        r.extra_text.is_some() ==> r.extra_text.unwrap()@ == badge(*cell).unwrap(),
{
    match cell {
        Cell::ZeroOrOneNeighbors(_) => StateUI {
            state_text: String::from_str("ZERO OR ONE NEIGHBORS"),
            state_text_color: ZERO_OR_ONE_COLOR,
            extra_text: if cell.is_alive() {
                Some(String::from_str("WILL DIE"))
            } else {
                None
            },
            extra_text_bg: Tone::Red,
        },
        Cell::TwoOrThreeNeighbors(two_or_three) => StateUI {
            state_text: String::from_str("TWO OR THREE NEIGHBORS"),
            state_text_color: TWO_OR_THREE_COLOR,
            extra_text: if two_or_three.will_spawn() {
                Some(String::from_str("WILL SPAWN"))
            } else {
                None
            },
            extra_text_bg: Tone::Yellow,
        },
        Cell::FourOrMoreNeighbors(_) => StateUI {
            state_text: String::from_str("FOUR OR MORE NEIGHBORS"),
            state_text_color: FOUR_OR_MORE_COLOR,
            extra_text: if cell.is_alive() {
                Some(String::from_str("WILL DIE"))
            } else {
                None
            },
            extra_text_bg: Tone::Red,
        },
    }
}

/// The background of a cell: one colour for live cells, one for dead.
pub fn background(cell: &Cell) -> (r: Tone)
    ensures
        r == if cell.alive() { ALIVE_BG_COLOR } else { DEAD_BG_COLOR },
{
    if cell.is_alive() {
        ALIVE_BG_COLOR
    } else {
        DEAD_BG_COLOR
    }
}

} // verus!
