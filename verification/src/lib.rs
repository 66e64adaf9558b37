//! Differential terminal rendering: a grid of character cells, the escape
//! codes that bring a terminal in line with it, and the parser for the
//! terminal's cursor-position report.
//!
//! Nothing in this crate reads or writes a terminal. `Curse::refresh` and
//! the methods of `Cursor` produce the bytes to write, and `Query` takes
//! the bytes that were read.

pub mod cell;
pub mod cu;
pub mod decimal;
pub mod frame;
pub mod order;
pub mod query;
pub mod stream;
pub mod x1b;

pub use crate::cell::{Char, TextAttr, TA_ALL, TA_BLINK, TA_BOLD, TA_DIM, TA_REV, TA_UNDER};
pub use crate::cu::Curse;
pub use crate::frame::Frame;
pub use crate::query::{
    ascii2digit, get_cursor_xy, get_cursor_xy_with_esc, get_tty_wh, get_tty_wh_dirty, Curp, Query,
    QueryError,
};
pub use crate::stream::{CursorState, Pen};
pub use crate::x1b::{Cursor, ESC, RGB, RGB4, RGB8};
