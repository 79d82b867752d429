use fbo_bench::harness::progress_report;
use fbo_bench::harness::start;
use fbo_bench::harness::Phase;
use fbo_bench::harness::ProgressReport;
use fbo_bench::harness::StepOutcome;
use fbo_bench::stats::summarize;

#[test]
fn zero_duration_run_records_nothing_and_reports_no_data() {
    let mut state = start(1_000);
    let outcome = state.step(1_000, 0, 0);
    assert_eq!(outcome, StepOutcome::Finish);
    assert_eq!(state.phase, Phase::Finished);
    assert_eq!(state.frame_count, 0);
    assert!(state.samples.is_empty());
    assert!(summarize(&state.samples, state.frame_count, 0).is_none());
}

#[test]
fn a_rendering_step_records_the_sample() {
    let mut state = start(0);
    let outcome = state.step(16_000, 16_000, 4_000_000);
    assert_eq!(outcome, StepOutcome::Render { emit_report: false });
    assert_eq!(state.phase, Phase::Running);
    assert_eq!(state.frame_count, 1);
    assert_eq!(state.samples, vec![16_000]);
}

#[test]
fn a_report_is_due_after_half_a_second() {
    let mut state = start(0);
    let outcome = state.step(499_999, 16_000, 4_000_000);
    assert_eq!(outcome, StepOutcome::Render { emit_report: false });
    assert_eq!(state.last_report_us, 0);
    let outcome = state.step(600_000, 16_000, 4_000_000);
    assert_eq!(outcome, StepOutcome::Render { emit_report: true });
    assert_eq!(state.last_report_us, 600_000);
}

#[test]
fn the_run_finishes_once_the_duration_has_elapsed() {
    let mut state = start(100);
    let outcome = state.step(4_000_100, 16_000, 4_000_000);
    assert_eq!(outcome, StepOutcome::Finish);
    assert_eq!(state.phase, Phase::Finished);
    assert_eq!(state.frame_count, 0);
}

#[test]
fn a_progress_report_carries_the_rolling_average() {
    let mut state = start(0);
    assert!(progress_report(&state, 0).is_none());
    state.step(100_000, 10_000, 4_000_000);
    state.step(200_000, 30_000, 4_000_000);
    assert_eq!(
        progress_report(&state, 600_000),
        Some(ProgressReport {
            elapsed_us: 600_000,
            avg_frame_us: 20_000,
            fps_milli: 50_000,
        })
    );
}

#[test]
fn a_simulated_run_yields_the_expected_summary() {
    let mut state = start(0);
    let mut now = 0u64;
    loop {
        match state.step(now, 20_000, 4_000_000) {
            StepOutcome::Finish => break,
            StepOutcome::Render { emit_report: _ } => {
                now += 20_000;
            }
        }
    }
    assert_eq!(state.phase, Phase::Finished);
    assert_eq!(state.frame_count, 200);
    let total = now;
    let stats = summarize(&state.samples, state.frame_count, total).unwrap();
    assert_eq!(stats.frames, 200);
    assert_eq!(stats.avg_fps_milli, 50_000);
    assert_eq!(stats.p50_us, 20_000);
    assert_eq!(stats.p95_us, 20_000);
}
