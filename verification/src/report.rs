//! Report lines and their severity.
//!
//! The pipeline produces an ordered list of `(String, Color)` pairs; the
//! presenter maps each color to a rendering.  `Black` marks plain
//! information, `Yellow` a warning, `Green` a success and `Red` an error.

use vstd::prelude::*;

verus! {

/// Severity of a report line, named by the color a presenter would use.
#[derive(Clone, Copy, Debug, PartialEq, Eq, Structural)]
pub enum Color {
    Red,
    Yellow,
    Green,
    Black,
}

/// The mathematical value of a report: each line as its text and color.
pub open spec fn lines_of(v: Seq<(String, Color)>) -> Seq<(Seq<char>, Color)> {
    v.map_values(|p: (String, Color)| (p.0@, p.1))
}

} // verus!
