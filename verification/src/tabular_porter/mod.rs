use vstd::prelude::*;

pub mod error;

use error::TabularPortError;

verus! {

/// One line of a tabular file: the text of each of its fields, in order.
pub type TabularStringRecord = Vec<String>;

/// A source of tabular data that can be walked line by line.
pub trait TabularCursor {
    /// What walks the lines, first line first.
    type Cursor<'a>: Iterator<Item = TabularStringRecord> where Self: 'a;

    /// Starts a walk over the lines. A source that is not ready to be walked
    /// answers with `NotInitialized`.
    fn cursor<'a>(&'a mut self) -> Result<Self::Cursor<'a>, TabularPortError>;
}

/// A source of tabular data that is opened from the file at a path.
pub trait TabularPorter: Sized {
    fn new(src: &str) -> Result<Self, TabularPortError>;
}

} // verus!
