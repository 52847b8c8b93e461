//! The finished configuration the collector core consumes: the flush
//! thresholds and the optional root namespace. How such a record is
//! assembled and validated is the concern of the surrounding application.

use vstd::prelude::*;

use crate::metric::Namespace;

verus! {

/// The two independent flush thresholds. Either, both, or neither may be
/// set; with neither set, only an explicit flush (or the collector's
/// teardown) ever drains the buffer.
#[derive(Debug, Clone, Copy)]
pub struct FlushConfigurationOptions {
    /// Flush as soon as this many records are buffered.
    pub flush_after_amount: Option<usize>,
    /// Flush on the first submission made strictly more than this many
    /// seconds after the previous flush.
    pub flush_after_interval: Option<u64>,
}

/// The part of a finished configuration that the collector owns: the root
/// namespace metrics are prefixed with, and the flush thresholds.
pub struct ConfigurationOptions {
    pub namespace: Option<Namespace>,
    pub flush: FlushConfigurationOptions,
}

} // verus!
