//! One report per timed pass: which variant and operation ran, over what key
//! size, and what the pass measured.

use vstd::prelude::*;

verus! {

/// Which container variant a pass ran against.
#[derive(Clone, Copy, Debug, PartialEq, Eq, Structural)]
pub enum ContainerVariant {
    /// The standard hasher-backed map.
    General,
    /// The FNV-hashed map.
    Fnv,
}

/// Which operation a pass timed.
#[derive(Clone, Copy, Debug, PartialEq, Eq, Structural)]
pub enum PassOperation {
    Insert,
    Lookup,
}

/// The outcome of one timed pass. Reports are built after timing stops and
/// have no effect on what was measured.
#[derive(Clone, Debug)]
pub struct PassReport {
    /// The container variant the pass ran against.
    pub variant: ContainerVariant,
    /// The operation the pass timed.
    pub operation: PassOperation,
    /// The byte length of every key in the batch.
    pub key_size: usize,
    /// How many keys the batch held: one timed operation per key.
    pub count: usize,
    /// The total elapsed nanoseconds over all timed operations.
    pub total_ns: u128,
    /// The total divided by the number of operations.
    pub average_ns: u128,
    /// The checksum of the values found; lookup passes only.
    pub checksum: Option<u64>,
}

impl PassReport {
    /// Builds the report for one pass; the average is the total over the
    /// count, rounded down.
    pub fn new(
        variant: ContainerVariant,
        operation: PassOperation,
        key_size: usize,
        count: usize,
        total_ns: u128,
        checksum: Option<u64>,
    ) -> (r: PassReport)
        requires
            count >= 1,
        ensures
            r.variant == variant,
            r.operation == operation,
            r.key_size == key_size,
            r.count == count,
            r.total_ns == total_ns,
            r.average_ns == total_ns / (count as u128),
            r.checksum == checksum,
    {
        PassReport {
            variant,
            operation,
            key_size,
            count,
            total_ns,
            average_ns: total_ns / (count as u128),
            checksum,
        }
    }
}

} // verus!
