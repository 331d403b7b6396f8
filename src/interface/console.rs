//! Console input and its statistics.
use vstd::prelude::*;

verus! {

/// Console input.
pub trait Read {
    /// Blocks until a character arrives, and returns it.
    fn read_char(&self) -> char {
        ' '
    }

    /// Drops whatever input is buffered.
    fn clear(&self);
}

/// Console statistics.
pub trait Statistics {
    fn chars_written(&self) -> usize {
        0
    }

    fn chars_read(&self) -> usize {
        0
    }
}

} // verus!
