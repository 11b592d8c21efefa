//! Output settings.

use vstd::prelude::*;

verus! {

/// How results are written.
#[derive(Debug, Clone, Copy, PartialEq, Eq, Structural)]
pub enum OutputMode {
    /// Text for people.
    Human,
    /// JSON documents.
    Json,
}

/// Output settings.
#[derive(Debug, Clone, Copy, PartialEq, Eq, Structural)]
pub struct Display {
    /// Output mode.
    pub mode: OutputMode,
    /// Whether text output is coloured.
    pub color: bool,
}

impl Display {
    /// Settings with JSON output when `json`, and colour when `color`.
    pub fn new(json: bool, color: bool) -> (r: Display)
        ensures
            r.mode == (if json { OutputMode::Json } else { OutputMode::Human }),
            r.color == color,
    {
        Display { mode: if json { OutputMode::Json } else { OutputMode::Human }, color }
    }

    /// Whether output is JSON.
    pub fn is_json(&self) -> (r: bool)
        ensures
            r == (self.mode == OutputMode::Json),
    {
        match self.mode {
            OutputMode::Json => true,
            OutputMode::Human => false,
        }
    }
}

impl Default for Display {
    /// Human-readable, coloured output.
    fn default() -> (r: Display)
        ensures
            r.mode == OutputMode::Human,
            r.color,
    {
        Display { mode: OutputMode::Human, color: true }
    }
}

} // verus!
