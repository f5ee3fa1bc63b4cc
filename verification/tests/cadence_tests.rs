use quest_makepad_camera_shell::cadence::{projection_readiness, CadenceCounters};
use quest_makepad_camera_shell::paired_import::{
    xr_update_follow_up, CompletionOutcome, ImportSettings, PairedImportState, XrUpdateFollowUp,
};

#[test]
fn cadence_sample_reports_deltas_since_previous_sample() {
    let mut counters = CadenceCounters::new();
    for _ in 0..5 {
        counters.count_frame();
    }
    counters.count_xr_update();
    counters.count_xr_update();
    counters.count_draw_event();
    let first = counters.take_sample(7, 4);
    assert_eq!(first.frame_delta, 5);
    assert_eq!(first.xr_update_delta, 2);
    assert_eq!(first.draw_event_delta, 1);
    assert_eq!(first.left_texture_update_delta, 7);
    assert_eq!(first.right_texture_update_delta, 4);
    assert_eq!(first.paired_texture_update_delta, 4);
    assert_eq!(first.paired_texture_update_count, 4);

    let idle = counters.take_sample(7, 4);
    assert_eq!(idle.frame_delta, 0);
    assert_eq!(idle.left_texture_update_delta, 0);
    assert_eq!(idle.paired_texture_update_delta, 0);
    assert_eq!(idle.paired_texture_update_count, 4);

    counters.count_frame();
    let later = counters.take_sample(9, 10);
    assert_eq!(later.frame_delta, 1);
    assert_eq!(later.left_texture_update_delta, 2);
    assert_eq!(later.right_texture_update_delta, 6);
    assert_eq!(later.paired_texture_update_delta, 2);
    assert_eq!(later.paired_texture_update_count, 9);
    assert_eq!(first.frame_delta + idle.frame_delta + later.frame_delta, counters.frame_count);
}

#[test]
fn cadence_counts_saturate_and_deltas_never_underflow() {
    let mut counters = CadenceCounters::new();
    counters.frame_count = u64::MAX;
    counters.count_frame();
    assert_eq!(counters.frame_count, u64::MAX);
    counters.left_texture_update_count_at_last_sample = 10;
    let d = counters.take_sample(3, 0);
    assert_eq!(d.left_texture_update_delta, 0);
    assert_eq!(d.frame_delta, u64::MAX);
}

#[test]
fn projection_readiness_needs_paired_buffers() {
    assert_eq!(projection_readiness(false, true), (false, false));
    assert_eq!(projection_readiness(true, true), (true, true));
    assert_eq!(projection_readiness(true, false), (false, false));
}

#[test]
fn xr_update_checks_completion_only_while_import_runs() {
    assert_eq!(xr_update_follow_up(true, false, false), XrUpdateFollowUp::CheckCompletion);
    assert_eq!(xr_update_follow_up(false, true, false), XrUpdateFollowUp::CheckCompletion);
    assert_eq!(xr_update_follow_up(true, true, true), XrUpdateFollowUp::BindPanel);
    assert_eq!(xr_update_follow_up(false, true, true), XrUpdateFollowUp::Nothing);
    assert_eq!(xr_update_follow_up(false, false, false), XrUpdateFollowUp::Nothing);
}

#[test]
fn completion_outside_texture_updates_leaves_finished_import_alone() {
    let settings = ImportSettings {
        broker_h264_enabled: true,
        broker_cpu_yuv_requested: false,
        direct_path_yuv_sampling: false,
        max_waits: 1,
    };
    let mut import = PairedImportState::new();
    assert_eq!(import.complete_if_ready(settings, false), CompletionOutcome::Progress);
    assert_eq!(import.complete_if_ready(settings, true), CompletionOutcome::NoPair);
    import.choice_present = true;
    assert_eq!(import.complete_if_ready(settings, true), CompletionOutcome::Complete);
    assert!(import.finished);
    assert_eq!(import.complete_if_ready(settings, true), CompletionOutcome::NotChecked);
}
