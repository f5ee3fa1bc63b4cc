use quest_makepad_camera_shell::paired_import::{
    CompletionOutcome, ImportSettings, PairedImportEvent, PairedImportState, StartOutcome,
};
use quest_makepad_camera_shell::panel_binding::{
    plan_panel_binding, AdoptedFrameBinding, PairedImportYuv, PanelBindingPlan, PanelBindingState,
    ProofSourceSide, YuvPlaneSet,
};
use quest_makepad_camera_shell::stereo_frames::StereoEye;
use quest_makepad_camera_shell::texture_path::MakepadCameraTexturePath;

fn direct_settings(max_waits: u64) -> ImportSettings {
    ImportSettings {
        broker_h264_enabled: false,
        broker_cpu_yuv_requested: false,
        direct_path_yuv_sampling: true,
        max_waits,
    }
}

fn yuv(left_updated: bool, right_updated: bool, left_ready: bool, right_ready: bool) -> PairedImportYuv {
    PairedImportYuv {
        left_updated,
        right_updated,
        left_planes_ready: left_ready,
        right_planes_ready: right_ready,
    }
}

#[test]
fn direct_import_runs_from_startup_to_completion() {
    let settings = direct_settings(8);
    let mut import = PairedImportState::new();

    let startup = import.step(PairedImportEvent::Startup, settings);
    assert!(startup.request_camera_permissions);
    assert!(!startup.use_broker_pair);
    assert!(startup.arm_timer);
    assert!(import.timer_armed);

    let inputs = import.step(PairedImportEvent::VideoInputs { pair_found: true }, settings);
    assert!(inputs.emit_selection_marker);
    assert!(!inputs.arm_timer);
    assert!(import.choice_present);
    let again = import.step(PairedImportEvent::VideoInputs { pair_found: true }, settings);
    assert!(!again.emit_selection_marker);

    let fired = import.step(PairedImportEvent::ImportTimerFired, settings);
    assert_eq!(fired.start, StartOutcome::Started);
    assert!(import.started);
    assert!(!import.timer_armed);

    let update = import.step(
        PairedImportEvent::TextureUpdated { side: StereoEye::Left, paired_streams_ready: false },
        settings,
    );
    assert_eq!(update.completion, CompletionOutcome::Progress);
    assert!(import.left_updated);

    import.step(PairedImportEvent::YuvTexturesReady { side: StereoEye::Left }, settings);
    let single = import.step(
        PairedImportEvent::TextureUpdated { side: StereoEye::Left, paired_streams_ready: false },
        settings,
    );
    assert_eq!(single.completion, CompletionOutcome::SingleStreamWait { log: true });
    let single_again = import.step(
        PairedImportEvent::TextureUpdated { side: StereoEye::Left, paired_streams_ready: false },
        settings,
    );
    assert_eq!(single_again.completion, CompletionOutcome::SingleStreamWait { log: false });

    let complete = import.step(
        PairedImportEvent::TextureUpdated { side: StereoEye::Right, paired_streams_ready: true },
        settings,
    );
    assert_eq!(complete.completion, CompletionOutcome::Complete);
    assert!(import.finished);

    let after = import.step(
        PairedImportEvent::TextureUpdated { side: StereoEye::Right, paired_streams_ready: true },
        settings,
    );
    assert_eq!(after.completion, CompletionOutcome::NotChecked);
}

#[test]
fn import_without_a_pair_gives_up_after_max_waits() {
    let settings = direct_settings(2);
    let mut import = PairedImportState::new();
    import.step(PairedImportEvent::Startup, settings);
    let first = import.step(PairedImportEvent::ImportTimerFired, settings);
    assert_eq!(first.start, StartOutcome::Waiting);
    assert!(first.arm_timer);
    assert_eq!(import.wait_count, 1);
    let second = import.step(PairedImportEvent::ImportTimerFired, settings);
    assert_eq!(second.start, StartOutcome::Waiting);
    let third = import.step(PairedImportEvent::ImportTimerFired, settings);
    assert_eq!(third.start, StartOutcome::GaveUp);
    assert_eq!(import.wait_count, 3);
    assert!(import.finished);
    let unarmed = import.step(PairedImportEvent::ImportTimerFired, settings);
    assert_eq!(unarmed.start, StartOutcome::NotAttempted);
}

#[test]
fn broker_import_takes_the_broker_pair_and_starts() {
    let settings = ImportSettings {
        broker_h264_enabled: true,
        broker_cpu_yuv_requested: true,
        direct_path_yuv_sampling: true,
        max_waits: 4,
    };
    let mut import = PairedImportState::new();
    let startup = import.step(PairedImportEvent::Startup, settings);
    assert!(startup.use_broker_pair);
    assert!(!startup.request_camera_permissions);
    let ignored = import.step(PairedImportEvent::VideoInputs { pair_found: false }, settings);
    assert!(!ignored.emit_selection_marker);
    assert!(import.choice_present);
    let fired = import.step(PairedImportEvent::ImportTimerFired, settings);
    assert_eq!(fired.start, StartOutcome::Started);

    import.binding.textures_bound = true;
    import.binding.paired_textures_bound = true;
    import.step(PairedImportEvent::YuvTexturesReady { side: StereoEye::Right }, settings);
    assert!(import.right_yuv_ready);
    assert!(!import.binding.textures_bound);
    assert!(!import.binding.paired_textures_bound);

    let single = import.step(
        PairedImportEvent::TextureUpdated { side: StereoEye::Left, paired_streams_ready: false },
        settings,
    );
    assert_eq!(single.completion, CompletionOutcome::Progress);
}

#[test]
fn decoding_error_ends_the_import_for_good() {
    let settings = direct_settings(8);
    let mut import = PairedImportState::new();
    import.step(PairedImportEvent::Startup, settings);
    import.step(PairedImportEvent::DecodingError { side: StereoEye::Right }, settings);
    assert!(import.finished);
    let fired = import.step(PairedImportEvent::ImportTimerFired, settings);
    assert_eq!(fired.start, StartOutcome::AlreadyRunning);
    let startup = import.step(PairedImportEvent::Startup, settings);
    assert!(!startup.arm_timer);
    let update = import.step(
        PairedImportEvent::TextureUpdated { side: StereoEye::Left, paired_streams_ready: true },
        settings,
    );
    assert_eq!(update.completion, CompletionOutcome::NotChecked);
    assert!(!import.left_updated);
}

#[test]
fn single_updated_direct_stream_is_shown_on_both_sides() {
    let state = PanelBindingState::new();
    let plan = plan_panel_binding(
        &state,
        None,
        true,
        yuv(true, false, true, false),
        false,
        true,
        MakepadCameraTexturePath::BrokerH264HardwareBuffer,
        MakepadCameraTexturePath::DirectCpuYuvPlane,
    );
    let PanelBindingPlan::Bind(binding) = plan else {
        panic!("expected a binding, got {plan:?}");
    };
    assert!(binding.emit_markers);
    assert_eq!(binding.texture_path, MakepadCameraTexturePath::DirectCpuYuvPlane);
    assert_eq!(binding.proof_source_side, ProofSourceSide::Left);
    assert_eq!(binding.proof_source_side.label(), "left");
    assert!(binding.single_stream_visual_proof);
    assert!(!binding.cpu_yuv_decode);
    assert_eq!(binding.left_yuv, Some(YuvPlaneSet::Left));
    assert_eq!(binding.right_yuv, Some(YuvPlaneSet::Left));
}

#[test]
fn recorded_binding_is_not_repeated_until_a_new_frame_is_adopted() {
    let mut state = PanelBindingState::new();
    let adopted = AdoptedFrameBinding {
        adoption_id: 7,
        left_yuv_enabled: true,
        right_yuv_enabled: true,
        left_texture_path: MakepadCameraTexturePath::DirectHardwareBufferYuvPlane,
    };
    let planes = yuv(true, true, true, true);
    let plan = plan_panel_binding(
        &state,
        Some(adopted),
        true,
        planes,
        false,
        true,
        MakepadCameraTexturePath::BrokerH264HardwareBuffer,
        MakepadCameraTexturePath::DirectCpuYuvPlane,
    );
    let PanelBindingPlan::Bind(binding) = plan else {
        panic!("expected a binding, got {plan:?}");
    };
    assert_eq!(binding.texture_path, MakepadCameraTexturePath::DirectHardwareBufferYuvPlane);
    assert_eq!(binding.proof_source_side, ProofSourceSide::Paired);
    assert!(!binding.single_stream_visual_proof);
    assert_eq!(binding.left_yuv, Some(YuvPlaneSet::Left));
    assert_eq!(binding.right_yuv, Some(YuvPlaneSet::Right));
    state.record_bound(Some(adopted), &binding);
    assert_eq!(state.bound_adopted_frame_id, 7);

    let repeat = plan_panel_binding(
        &state,
        Some(adopted),
        true,
        planes,
        false,
        true,
        MakepadCameraTexturePath::BrokerH264HardwareBuffer,
        MakepadCameraTexturePath::DirectCpuYuvPlane,
    );
    assert_eq!(repeat, PanelBindingPlan::AlreadyBound);

    let next = AdoptedFrameBinding { adoption_id: 8, ..adopted };
    let rebind = plan_panel_binding(
        &state,
        Some(next),
        true,
        planes,
        false,
        true,
        MakepadCameraTexturePath::BrokerH264HardwareBuffer,
        MakepadCameraTexturePath::DirectCpuYuvPlane,
    );
    let PanelBindingPlan::Bind(rebinding) = rebind else {
        panic!("expected a binding, got {rebind:?}");
    };
    assert!(rebinding.emit_markers);
}

#[test]
fn binding_waits_for_import_and_direct_planes() {
    let state = PanelBindingState::new();
    let incomplete = plan_panel_binding(
        &state,
        None,
        false,
        yuv(true, true, true, true),
        false,
        true,
        MakepadCameraTexturePath::BrokerH264HardwareBuffer,
        MakepadCameraTexturePath::DirectCpuYuvPlane,
    );
    assert_eq!(incomplete, PanelBindingPlan::ImportIncomplete);
    let missing = plan_panel_binding(
        &state,
        None,
        true,
        yuv(true, true, false, false),
        false,
        true,
        MakepadCameraTexturePath::BrokerH264HardwareBuffer,
        MakepadCameraTexturePath::DirectCpuYuvPlane,
    );
    assert_eq!(missing, PanelBindingPlan::YuvPlanesMissing);
    let external = plan_panel_binding(
        &state,
        None,
        true,
        yuv(true, true, false, false),
        false,
        true,
        MakepadCameraTexturePath::BrokerH264HardwareBuffer,
        MakepadCameraTexturePath::DirectHardwareBufferExternal,
    );
    let PanelBindingPlan::Bind(binding) = external else {
        panic!("expected a binding, got {external:?}");
    };
    assert_eq!(binding.left_yuv, None);
    assert_eq!(binding.right_yuv, None);
    assert_eq!(binding.proof_source_side, ProofSourceSide::ReadyOnly);
}

#[test]
fn broker_binding_decodes_cpu_planes_and_fills_both_sides() {
    let state = PanelBindingState::new();
    let plan = plan_panel_binding(
        &state,
        None,
        true,
        yuv(false, false, false, true),
        true,
        true,
        MakepadCameraTexturePath::BrokerH264HardwareBuffer,
        MakepadCameraTexturePath::DirectCpuYuvPlane,
    );
    let PanelBindingPlan::Bind(binding) = plan else {
        panic!("expected a binding, got {plan:?}");
    };
    assert!(binding.cpu_yuv_decode);
    assert_eq!(binding.texture_path, MakepadCameraTexturePath::BrokerH264CpuYuv);
    assert_eq!(binding.left_yuv, Some(YuvPlaneSet::Right));
    assert_eq!(binding.right_yuv, Some(YuvPlaneSet::Right));

    let no_planes = plan_panel_binding(
        &state,
        None,
        true,
        yuv(false, false, false, false),
        true,
        true,
        MakepadCameraTexturePath::BrokerH264HardwareBuffer,
        MakepadCameraTexturePath::DirectCpuYuvPlane,
    );
    let PanelBindingPlan::Bind(hardware) = no_planes else {
        panic!("expected a binding, got {no_planes:?}");
    };
    assert!(!hardware.cpu_yuv_decode);
    assert_eq!(hardware.texture_path, MakepadCameraTexturePath::BrokerH264HardwareBuffer);
}
