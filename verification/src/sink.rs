//! The sink abstraction: render one counter event into one wire-format
//! line and hand it to the transport queue.
use crate::Label;
use vstd::prelude::*;

verus! {

pub trait Sink {
    /// Emit a counter metric.
    fn count(&self, key: &str, val: usize);

    /// Emit a counter metric with labels (labels are not supported by all
    /// sink types).
    fn count_with_labels(&self, key: &str, val: usize, labels: &Vec<Label>);
}

/// The default, no-op sink.
pub struct NoopSink;

impl Sink for NoopSink {
    fn count(&self, _key: &str, _val: usize) {
    }

    fn count_with_labels(&self, _key: &str, _val: usize, _labels: &Vec<Label>) {
    }
}

} // verus!
