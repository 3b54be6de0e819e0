//! Typing statistics.

use vstd::prelude::*;

verus! {

/// Counters accumulated while the user types.
#[derive(Debug, Clone, Copy, PartialEq, Eq, Structural)]
pub struct Stats {
    /// Number of keystrokes that carried a character.
    pub words: usize,
    /// Number of keystrokes that did not match the expected character.
    pub typos: usize,
}

impl Stats {
    /// Both counters at zero.
    pub fn new() -> (stats: Self)
        ensures
            stats.words == 0,
            stats.typos == 0,
    {
        Stats { words: 0, typos: 0 }
    }
}

impl Default for Stats {
    /// Both counters at zero.
    fn default() -> (stats: Self)
        ensures
            stats.words == 0,
            stats.typos == 0,
    {
        Stats { words: 0, typos: 0 }
    }
}

} // verus!
