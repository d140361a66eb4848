//! Filters between the detector and the trackers.

use crate::calibration::Calibration;
use crate::detector::MappedDetection;
use crate::number::Real64;
use vstd::prelude::*;

verus! {

/// What a filter gets besides the detections.
#[derive(Clone, Copy)]
pub struct FilterContext<'a> {
    /// Index of the frame.
    pub frame_index: u64,
    /// Time since the start, in milliseconds.
    pub timestamp_ms: Real64,
    /// The calibration in use.
    pub calibration: &'a Calibration,
}

/// Drops, reorders or replaces detections before the trackers see them.
pub trait DetectionFilter: Send {
    /// Short name of the filter.
    fn name(&self) -> &'static str;

    /// Filter the detections of a frame.
    fn filter(&mut self, detections: &mut Vec<MappedDetection>, ctx: &FilterContext<'_>);
}

} // verus!
