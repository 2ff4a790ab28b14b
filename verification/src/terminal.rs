//! What the library knows of the terminal: its size, and the escape sequences
//! for its cursor.

pub mod cursor;
pub mod term;
