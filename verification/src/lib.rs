//! An in-process telemetry emitter core: counter, gauge and timer handles
//! produce immutable metric records, a buffer accumulates them and decides
//! when to flush, and wire-format encoders turn the drained records into
//! framed byte packets for StatsD or Graphite collectors.

use vstd::prelude::*;
use vstd::string::StringExecFns;

mod clock;
pub mod collector;
pub mod configuration;
pub mod metric;
pub mod protocol;
pub mod render;

pub use metric::{Counter, Gauge, Timer};

verus! {

/// An error of this library.
///
/// The only error surfaced at this level is an invalid configuration,
/// reported with a human-readable reason and fatal to initialization.
#[derive(Debug, Clone, Copy)]
pub enum MetricalError {
    ConfigurationInvalid(&'static str),
}

impl MetricalError {
    /// The human-readable description of the error.
    pub fn message(&self) -> (r: String)
        ensures
            match self {
                MetricalError::ConfigurationInvalid(reason) => r@ == "Configuration Error: "@
                    + reason@,
            },
    {
        match self {
            MetricalError::ConfigurationInvalid(reason) => {
                let mut text = "Configuration Error: ".to_owned();
                text.append(reason);
                text
            },
        }
    }
}

} // verus!
