use quest_makepad_camera_shell::stereo_frames::StereoEye;
use quest_makepad_camera_shell::video_playback::{
    native_widget_start, texture_side, BrokerPlaybackRequests, NativeWidgetStart, VideoWidgetState,
};

#[test]
fn ready_texture_is_matched_to_its_eye() {
    assert_eq!(texture_side(5, Some(5), Some(6)), Some(StereoEye::Left));
    assert_eq!(texture_side(6, Some(5), Some(6)), Some(StereoEye::Right));
    assert_eq!(texture_side(7, Some(5), Some(6)), None);
    assert_eq!(texture_side(5, None, Some(5)), Some(StereoEye::Right));
    assert_eq!(texture_side(5, None, None), None);
}

#[test]
fn each_eye_requests_broker_playback_once() {
    let mut requests = BrokerPlaybackRequests::new();
    assert!(requests.claim(StereoEye::Left));
    assert!(!requests.claim(StereoEye::Left));
    assert!(!requests.right_requested);
    assert!(requests.claim(StereoEye::Right));
    assert!(!requests.claim(StereoEye::Right));
}

#[test]
fn native_widgets_reset_until_the_limit() {
    let free = VideoWidgetState { unprepared: true, cleaning_up: false };
    let busy = VideoWidgetState { unprepared: false, cleaning_up: false };
    let cleaning = VideoWidgetState { unprepared: false, cleaning_up: true };
    assert_eq!(native_widget_start(true, busy, busy, 0, 3), NativeWidgetStart::AlreadyStarted);
    assert_eq!(native_widget_start(false, free, free, 2, 3), NativeWidgetStart::Start);
    assert_eq!(
        native_widget_start(false, busy, cleaning, 1, 3),
        NativeWidgetStart::Reset { cleanup_left: true, cleanup_right: false, retry_count: 2 }
    );
    assert_eq!(native_widget_start(false, free, busy, 3, 3), NativeWidgetStart::GiveUp);
}
