//! Removal of emoji from text.
//!
//! A character counts as an emoji when its code point lies in one of a fixed
//! set of closed ranges (see [`table`]). Every maximal run of such characters
//! is deleted; the remaining text keeps its order.
pub mod compiled;
pub mod filter;
pub mod laws;
pub mod matcher;
pub mod table;

pub use filter::{demoji, Demoji};
pub use matcher::{CompileError, Matcher};
