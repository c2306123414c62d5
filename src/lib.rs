pub mod gof;
pub mod tui;
pub mod ui;
