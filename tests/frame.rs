use voice_engine_core::frame::{plan_analysis, plan_render, AnalysisPlan, RenderPlan};
use voice_engine_core::scratch::BandScratch;

#[test]
fn analysis_without_input_zeroes_metrics() {
    assert_eq!(plan_analysis(false, 480), AnalysisPlan::ZeroMetrics);
}

#[test]
fn analysis_of_empty_frame_zeroes_metrics() {
    assert_eq!(plan_analysis(true, 0), AnalysisPlan::ZeroMetrics);
}

#[test]
fn analysis_of_non_empty_frame_processes() {
    assert_eq!(plan_analysis(true, 1), AnalysisPlan::Process);
}

#[test]
fn render_without_output_or_of_empty_frame_skips() {
    let s: BandScratch<f32> = BandScratch::new();
    assert_eq!(plan_render(false, 480, &s), RenderPlan::Skip);
    assert_eq!(plan_render(true, 0, &s), RenderPlan::Skip);
}

#[test]
fn render_before_any_analysis_is_silent() {
    let s: BandScratch<f32> = BandScratch::new();
    assert_eq!(plan_render(true, 1, &s), RenderPlan::Silence);
}

#[test]
fn render_of_longer_frame_is_silent_and_of_covered_frame_mixes() {
    let mut s: BandScratch<f32> = BandScratch::new();
    s.ensure_size(480, 0.0);
    assert_eq!(plan_render(true, 481, &s), RenderPlan::Silence);
    assert_eq!(plan_render(true, 480, &s), RenderPlan::Mix);
    assert_eq!(plan_render(true, 160, &s), RenderPlan::Mix);
}
