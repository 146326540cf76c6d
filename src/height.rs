//! The shared current-height cell, split into a single writing capability
//! and any number of reading capabilities.

use std::sync::atomic::{AtomicU32, Ordering};
use std::sync::Arc;
use vstd::prelude::*;

verus! {

/// Write side of the cell. Only the inbound event processor holds one.
///
/// Besides the cell it keeps the last height it stored: as the cell's only
/// writer, that is what the cell holds.
pub struct HeightWriter {
    cell: Arc<AtomicU32>,
    last: u32,
}

/// Read side of the cell, held by every job built in the session.
#[derive(Clone)]
pub struct HeightReader {
    cell: Arc<AtomicU32>,
}

impl HeightWriter {
    /// The last height this writer stored.
    pub closed spec fn published(&self) -> u32 {
        self.last
    }

    /// A fresh cell that holds no block yet (height zero).
    pub fn new() -> (r: Self)
        ensures
            r.published() == 0,
    {
        HeightWriter { cell: Arc::new(AtomicU32::new(0)), last: 0 }
    }

    /// The last height stored, as seen by the writer.
    pub fn current(&self) -> (r: u32)
        ensures
            r == self.published(),
    {
        self.last
    }

    /// Stores a new current height; every reader sees it from now on.
    pub fn publish(&mut self, height: u32)
        ensures
            final(self).published() == height,
            forall|r: HeightReader| r.reads(old(self)) ==> r.reads(final(self)),
    {
        self.cell.store(height, Ordering::Relaxed);
        self.last = height;
    }

    /// A reading handle to the same cell.
    pub fn reader(&self) -> (r: HeightReader)
        ensures
            r.reads(self),
    {
        HeightReader { cell: self.cell.clone() }
    }
}

impl HeightReader {
    /// This handle reads the very cell that `writer` stores into.
    pub closed spec fn reads(&self, writer: &HeightWriter) -> bool {
        self.cell == writer.cell
    }

    /// The height that the cell holds now. The writer may store a new one at
    /// any moment, so nothing is promised about the value.
    pub fn current(&self) -> (r: u32) {
        self.cell.load(Ordering::Relaxed)
    }
}

} // verus!
