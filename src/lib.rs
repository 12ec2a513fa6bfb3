//! A terminal's control-sequence interpreter and screen state: bytes in, a grid of
//! styled cells, a cursor, modes, charsets and tab stops out.

pub mod ansi;
pub mod cell;
pub mod grid;
pub mod charset;
pub mod mode;
pub mod term;
pub mod ops;
pub mod parser;
pub mod dispatch;
pub mod laws;
