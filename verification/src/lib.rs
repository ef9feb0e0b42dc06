//! The timing breakdown of one HTTP or HTTPS request, drawn as an aligned
//! diagram for a terminal.
//!
//! The transfer tool reports the times of a request as lines `label:value`.
//! [`connection`] puts the command for the tool together, reads its report
//! and holds the times in whole milliseconds. [`template`] names the ten
//! times that the diagram shows and lays the diagram out, [`progress`]
//! renders one time for its place, [`format`] wraps text in the escape
//! sequences of a terminal, and [`stat`] draws the whole diagram of a
//! request. [`text`] and [`table`] hold what these share: numerals, padding,
//! trimming and splitting, and a mapping from strings to values.
pub mod connection;
pub mod format;
pub mod progress;
pub mod stat;
pub mod table;
pub mod template;
pub mod text;
