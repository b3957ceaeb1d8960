//! Per-frame decisions taken before any sample is touched: whether an
//! analysis call processes its frame or only zeroes the metrics, and whether
//! a render call writes nothing, writes silence, or mixes the stored bands.

use vstd::prelude::*;
use crate::scratch::BandScratch;

verus! {

/// What an analysis call does with its frame.
#[derive(Clone, Copy, Debug, PartialEq, Eq, Structural)]
pub enum AnalysisPlan {
    /// No input or an empty frame: metrics become all zero and the filter
    /// state is left untouched.
    ZeroMetrics,
    /// Stream the frame through the filters.
    Process,
}

/// What a render call writes.
#[derive(Clone, Copy, Debug, PartialEq, Eq, Structural)]
pub enum RenderPlan {
    /// No output buffer or an empty frame: nothing is written.
    Skip,
    /// The last analysis did not cover the frame: every output sample is zero.
    Silence,
    /// Every output sample is mixed from the stored bands.
    Mix,
}

/// Decides an analysis call on a frame of `frame_size` samples; `has_input`
/// tells whether an input buffer was given at all.
pub fn plan_analysis(has_input: bool, frame_size: usize) -> (r: AnalysisPlan)
    ensures
        r == (if has_input && frame_size > 0 {
            AnalysisPlan::Process
        } else {
            AnalysisPlan::ZeroMetrics
        }),
{
    if has_input && frame_size > 0 {
        AnalysisPlan::Process
    } else {
        AnalysisPlan::ZeroMetrics
    }
}

/// Decides a render call of `frame_size` samples against the bands stored by
/// the last analysis; `has_output` tells whether an output buffer was given.
pub fn plan_render<T: Copy>(has_output: bool, frame_size: usize, bands: &BandScratch<T>) -> (r:
    RenderPlan)
    requires
        bands.wf(),
    ensures
        r == (if !has_output || frame_size == 0 {
            RenderPlan::Skip
        } else if frame_size > bands@.len() {
            RenderPlan::Silence
        } else {
            RenderPlan::Mix
        }),
{
    if !has_output || frame_size == 0 {
        RenderPlan::Skip
    } else if !bands.covers(frame_size) {
        RenderPlan::Silence
    } else {
        RenderPlan::Mix
    }
}

} // verus!
