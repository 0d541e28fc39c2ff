use mamp::gpu::GpuContext;
use mamp::session::{
    can_start, initial_capture, pause, set_resolution, start, start_with_camera, FrameLoop, LoopAction,
    LoopEvent, Session, SessionError, Shared, DEFAULT_MAX_WIDTH,
};
use mamp::video::{Action, VideoCapture};
use mamp::words::pack_words;

fn started(video_w: u32, video_h: u32) -> Shared {
    start(GpuContext::new(16384), initial_capture(), video_w, video_h)
}

fn consistent(s: &Shared) -> bool {
    let st = &s.state;
    (st.capture.width, st.capture.height) == (st.width, st.height)
        && (st.pipeline.ow, st.pipeline.oh) == (st.width, st.height)
}

#[test]
fn initial_settings() {
    assert_eq!(DEFAULT_MAX_WIDTH, 640);
    assert_eq!(initial_capture(), VideoCapture::new(640, 480));
    let s = started(1920, 1080);
    assert!(s.running);
    assert_eq!(f32::from_bits(s.state.amplification), 30.0);
    assert_eq!(f32::from_bits(s.state.freq_low), 0.5);
    assert_eq!(f32::from_bits(s.state.freq_high), 3.0);
    assert_eq!((s.state.n_scales, s.state.n_orient), (3, 4));
    assert_eq!((s.state.width, s.state.height), (640, 360));
    assert_eq!((s.state.cam_w, s.state.cam_h), (1920, 1080));
    assert_eq!((s.state.pipeline.pw, s.state.pipeline.ph), (1024, 512));
    assert_eq!((s.state.active_device_id.as_str(), s.state.active_facing.as_str()), ("", ""));
    assert!(consistent(&s));
}

#[test]
fn a_silent_video_is_taken_at_the_capture_size() {
    let s = started(0, 0);
    assert_eq!((s.state.cam_w, s.state.cam_h), (640, 480));
    assert_eq!((s.state.width, s.state.height), (640, 480));
}

#[test]
fn frames_that_cannot_be_counted_are_turned_down() {
    let ctx = GpuContext::new(16384);
    assert!(can_start(&ctx, &initial_capture(), 1920, 1080));
    assert!(!can_start(&ctx, &initial_capture(), 640, u32::MAX));
    let s = started(640, 480);
    assert!(s.can_process(3840, 2160, 640));
    assert!(!s.can_process(640, 0x1000_0000, 640));
}

#[test]
fn requests_need_a_session() {
    let mut session = Session { shared: None };
    match start_with_camera(&mut session, "a", "", false) {
        Err(e) => {
            assert_eq!(e, SessionError::NotInitialized);
            assert_eq!(e.message(), "Not initialized yet");
        }
        Ok(s) => panic!("{:?}", s),
    }
    assert!(matches!(set_resolution(&mut session, 640, false), Err(SessionError::NotInitialized)));
    assert!(session.shared.is_none());
}

#[test]
fn another_camera_of_the_same_size_starts_anew() {
    let mut session = Session { shared: Some(started(1920, 1080)) };
    {
        let s = session.shared.as_mut().unwrap();
        s.state.pipeline.process_and_render(&[], 0, 0, 0, true);
        assert!(!s.state.pipeline.first_frame);
    }
    assert_eq!(pause(&mut session), Ok(()));
    let opening = start_with_camera(&mut session, "back", "environment", true).unwrap();
    assert_eq!(opening.action(), Action::StopTracks);
    assert_eq!(opening.requests.len(), 3);
    assert_eq!(opening.requests[0].label(), "deviceId=back w=4096");
    let s = session.shared.as_mut().unwrap();
    assert!(!s.running);
    assert!(!s.camera_opened("back", "environment", 1280, 720));
    assert!(s.running);
    assert!(s.state.pipeline.first_frame);
    assert_eq!((s.state.cam_w, s.state.cam_h), (1280, 720));
    assert_eq!((s.state.width, s.state.height), (640, 360));
    assert_eq!(s.state.active_device_id, "back");
    assert_eq!(s.state.active_facing, "environment");
    assert!(consistent(s));
}

#[test]
fn another_camera_of_another_size_gets_a_new_pipeline() {
    let mut session = Session { shared: Some(started(1920, 1080)) };
    let opening = start_with_camera(&mut session, "", "user", false).unwrap();
    assert_eq!(opening.action(), Action::Request(0));
    let s = session.shared.as_mut().unwrap();
    assert!(s.camera_opened("", "user", 640, 480));
    assert_eq!((s.state.width, s.state.height), (640, 480));
    assert_eq!((s.state.pipeline.ow, s.state.pipeline.oh), (640, 480));
    assert!(s.state.pipeline.first_frame);
    assert!(consistent(s));
}

#[test]
fn a_camera_that_does_not_open_leaves_the_rendering_stopped() {
    let mut session = Session { shared: Some(started(1920, 1080)) };
    assert_eq!(pause(&mut session), Ok(()));
    let mut opening = start_with_camera(&mut session, "x", "", true).unwrap();
    while !matches!(opening.action(), Action::Finish | Action::Fail) {
        let ok = matches!(opening.action(), Action::StopTracks | Action::Wait(_));
        opening.report(ok);
    }
    assert_eq!(opening.action(), Action::Fail);
    let s = session.shared.as_mut().unwrap();
    assert!(s.busy);
    s.opening_failed();
    assert!(!s.running && !s.busy);
    assert_eq!(s.state.active_device_id, "");
    assert!(start_with_camera(&mut session, "y", "", false).is_ok());
}

#[test]
fn a_busy_session_takes_no_settings() {
    let mut session = Session { shared: Some(started(1920, 1080)) };
    let _ = start_with_camera(&mut session, "x", "", true).unwrap();
    let s = session.shared.as_mut().unwrap();
    s.set_magnification(1);
    s.set_freq_low(2);
    s.set_freq_high(3);
    assert!(!s.set_quality(1, 1));
    assert_eq!(f32::from_bits(s.state.amplification), 30.0);
    assert_eq!(f32::from_bits(s.state.freq_low), 0.5);
    assert_eq!(f32::from_bits(s.state.freq_high), 3.0);
    assert_eq!((s.state.n_scales, s.state.n_orient), (3, 4));
    assert!(s.running && !s.renders());
    s.toggle_magnification();
    assert!(!s.running && !s.renders());
    s.camera_opened("x", "", 1920, 1080);
    assert!(s.renders());
}

#[test]
fn pausing_stops_the_rendering() {
    let mut session = Session { shared: None };
    assert_eq!(pause(&mut session), Err(SessionError::NotInitialized));
    session.shared = Some(started(640, 480));
    assert_eq!(pause(&mut session), Ok(()));
    let s = session.shared.as_ref().unwrap();
    assert!(!s.running && !s.busy);
}

#[test]
fn another_resolution() {
    let mut session = Session { shared: Some(started(1920, 1080)) };
    session.shared.as_mut().unwrap().camera_opened("back", "", 1920, 1080);
    assert_eq!(pause(&mut session), Ok(()));
    let opening = set_resolution(&mut session, 1920, true).unwrap();
    assert_eq!(opening.requests[0].label(), "deviceId=back w=1920");
    let s = session.shared.as_mut().unwrap();
    assert!(!s.running);
    assert_eq!((s.state.capture.width, s.state.capture.height), (1280, 960));
    s.resolution_opened(1920, 1920, 1080);
    assert!(s.running);
    assert_eq!((s.state.width, s.state.height), (1920, 1080));
    assert_eq!((s.state.pipeline.pw, s.state.pipeline.ph), (2048, 2048));
    assert!(consistent(s));
    let _ = set_resolution(&mut session, 321, true).unwrap();
    let s = session.shared.as_mut().unwrap();
    assert_eq!((s.state.capture.width, s.state.capture.height), (321, 240));
    s.resolution_opened(321, 0, 0);
    assert_eq!((s.state.cam_w, s.state.cam_h), (321, 240));
    assert_eq!((s.state.width, s.state.height), (320, 240));
    assert!(consistent(s));
}

#[test]
fn quality_within_its_limits() {
    let mut s = started(1920, 1080);
    s.state.pipeline.process_and_render(&[], 0, 0, 0, true);
    assert!(!s.set_quality(3, 4));
    assert!(!s.state.pipeline.first_frame);
    assert!(s.set_quality(2, 6));
    assert_eq!((s.state.n_scales, s.state.n_orient), (2, 6));
    assert_eq!((s.state.pipeline.n_scales, s.state.pipeline.n_orient), (2, 6));
    assert!(s.state.pipeline.first_frame);
    assert!(s.set_quality(0, 0));
    assert_eq!((s.state.n_scales, s.state.n_orient), (1, 1));
    assert!(s.set_quality(99, 99));
    assert_eq!((s.state.n_scales, s.state.n_orient), (4, 8));
    assert!(s.set_quality(99, 99));
    assert!(!s.set_quality(4, 8));
    assert!(consistent(&s));
}

#[test]
fn settings_of_the_user() {
    let mut s = started(1920, 1080);
    s.set_magnification(1);
    s.set_freq_low(2);
    s.set_freq_high(3);
    assert_eq!((s.state.amplification, s.state.freq_low, s.state.freq_high), (1, 2, 3));
    s.toggle_magnification();
    assert!(!s.running);
    s.toggle_magnification();
    assert!(s.running);
}

#[test]
fn captured_pixels_fill_the_incoming_frame() {
    let s = started(320, 240);
    let bytes = vec![7u8; 320 * 240 * 4];
    let words = pack_words(&bytes);
    assert_eq!(words.len(), 320 * 240);
    assert_eq!(s.state.pipeline.buffers()[0].size, bytes.len() as u64);
}

#[test]
fn openings_begin_with_the_first_request() {
    let mut session = Session { shared: Some(started(1920, 1080)) };
    session.shared.as_mut().unwrap().camera_opened("back", "environment", 1920, 1080);
    let opening = set_resolution(&mut session, 800, false).unwrap();
    assert_eq!(opening.action(), Action::Request(0));
    assert_eq!(opening.requests[0].label(), "deviceId=back w=800");
    session.shared.as_mut().unwrap().opening_failed();
    let opening = set_resolution(&mut session, 800, true).unwrap();
    assert_eq!(opening.action(), Action::StopTracks);
    session.shared.as_mut().unwrap().opening_failed();
    let opening = start_with_camera(&mut session, "front", "user", false).unwrap();
    assert_eq!(opening.action(), Action::Request(0));
    assert_eq!(opening.requests[0].label(), "deviceId=front w=4096");
}

#[test]
fn an_attached_stream_decides_the_mirroring() {
    let mut session = Session { shared: Some(started(1920, 1080)) };
    let _ = start_with_camera(&mut session, "back", "", true).unwrap();
    let s = session.shared.as_mut().unwrap();
    assert!(s.state.capture.mirrored);
    s.stream_attached(1, Some(String::from("environment")));
    assert!(!s.state.capture.mirrored);
    s.opening_failed();
    assert!(!s.state.capture.mirrored);
    let _ = set_resolution(&mut session, 320, true).unwrap();
    let s = session.shared.as_mut().unwrap();
    s.stream_attached(0, None);
    assert!(!s.state.capture.mirrored);
    s.stream_attached(1, None);
    s.resolution_opened(320, 640, 480);
    assert!(s.state.capture.mirrored);
    assert!(consistent(s));
}

#[test]
fn rendering_resumed_during_the_wait_outlasts_a_failed_opening() {
    let mut session = Session { shared: Some(started(1920, 1080)) };
    assert_eq!(pause(&mut session), Ok(()));
    session.shared.as_mut().unwrap().toggle_magnification();
    let _ = start_with_camera(&mut session, "x", "", true).unwrap();
    let s = session.shared.as_mut().unwrap();
    assert!(!s.renders());
    s.opening_failed();
    assert!(s.renders());
    assert_eq!(pause(&mut session), Ok(()));
    session.shared.as_mut().unwrap().toggle_magnification();
    let _ = set_resolution(&mut session, 320, true).unwrap();
    let s = session.shared.as_mut().unwrap();
    assert!(!s.renders());
    s.opening_failed();
    assert!(s.renders());
}

#[test]
fn transforms_fit_their_shader() {
    for (shared, max) in [(32768u32, "2048"), (8192, "1024"), (0, "512")] {
        let mut s = start(GpuContext::new(shared), initial_capture(), 1920, 1080);
        s.resolution_opened(4000, 4000, 3000);
        assert_eq!(s.fft_shader("array<f32, /*SHARED_SIZE*/>"), format!("array<f32, {}>", max));
        let limit: u32 = max.parse().unwrap();
        assert!(s.state.pipeline.pw <= limit && s.state.pipeline.ph <= limit);
    }
}

fn rendered(now: f64, elapsed: f64) -> LoopEvent {
    LoopEvent::Rendered { now: now.to_bits(), elapsed: elapsed.to_bits() }
}

#[test]
fn animation_loop() {
    let mut s = started(1920, 1080);
    s.set_magnification(7);
    let mut l = FrameLoop::new(5f64.to_bits());
    assert_eq!(f64::from_bits(l.since), 5.0);
    assert!(l.accepts(LoopEvent::AnimationFrame));
    assert!(!l.accepts(LoopEvent::Grabbed { success: true }));
    assert_eq!(l.step(&s, LoopEvent::AnimationFrame), LoopAction::Grab);
    assert!(l.accepts(LoopEvent::Grabbed { success: true }));
    assert!(!l.accepts(rendered(6.0, 1.0)));
    s.set_freq_low(8);
    s.set_freq_high(9);
    assert_eq!(
        l.step(&s, LoopEvent::Grabbed { success: true }),
        LoopAction::Render { amplification: 7, freq_low: 8, freq_high: 9, fps: 30f32.to_bits() }
    );
    assert!(l.accepts(rendered(6.0, 1.0)));
    assert!(!l.accepts(LoopEvent::AnimationFrame));
    assert_eq!(l.step(&s, rendered(6.0, 1.0)), LoopAction::NextFrame);
    assert_eq!(l.frame_count, 1);
    assert!(l.accepts(LoopEvent::AnimationFrame));
}

#[test]
fn frames_are_rendered_at_the_measured_rate() {
    let s = started(1920, 1080);
    let mut l = FrameLoop::new(100f64.to_bits());
    let rate = |a: LoopAction| match a {
        LoopAction::Render { fps, .. } => f32::from_bits(fps),
        other => panic!("{:?}", other),
    };
    for now in [400.0, 1099.0] {
        l.step(&s, LoopEvent::AnimationFrame);
        assert_eq!(rate(l.step(&s, LoopEvent::Grabbed { success: true })), 30.0);
        assert_eq!(l.step(&s, rendered(now, now - 100.0)), LoopAction::NextFrame);
    }
    l.step(&s, LoopEvent::AnimationFrame);
    assert_eq!(rate(l.step(&s, LoopEvent::Grabbed { success: true })), 30.0);
    assert_eq!(
        l.step(&s, rendered(1300.0, 1200.0)),
        LoopAction::Report { frames: 3, elapsed: 1200f64.to_bits() }
    );
    assert_eq!(l.frame_count, 0);
    assert_eq!(f64::from_bits(l.since), 1300.0);
    assert!(l.accepts(LoopEvent::Measured { fps: 0 }));
    assert!(!l.accepts(LoopEvent::AnimationFrame));
    let fps = (3f64 / 1200.0 * 1000.0) as f32;
    assert_eq!(l.step(&s, LoopEvent::Measured { fps: fps.to_bits() }), LoopAction::NextFrame);
    l.step(&s, LoopEvent::AnimationFrame);
    assert_eq!(rate(l.step(&s, LoopEvent::Grabbed { success: true })), 2.5);
}

#[test]
fn seconds_are_told_as_by_floating_point() {
    let s = started(640, 480);
    for elapsed in [
        0.0,
        -0.0,
        1.0,
        999.0,
        999.9999999999999,
        1000.0,
        1000.0000000000001,
        1e9,
        f64::MAX,
        f64::INFINITY,
        f64::NEG_INFINITY,
        f64::NAN,
        -f64::NAN,
        -1000.0,
        f64::MIN_POSITIVE,
    ] {
        let mut l = FrameLoop::new(0);
        l.step(&s, LoopEvent::AnimationFrame);
        l.step(&s, LoopEvent::Grabbed { success: true });
        let action = l.step(&s, rendered(1.0, elapsed));
        assert_eq!(matches!(action, LoopAction::Report { .. }), elapsed >= 1000.0, "{}", elapsed);
    }
}

#[test]
fn a_stopped_session_grabs_nothing() {
    let mut s = started(1920, 1080);
    s.toggle_magnification();
    let mut l = FrameLoop::new(0);
    assert_eq!(l.step(&s, LoopEvent::AnimationFrame), LoopAction::Yield);
    assert_eq!(l, FrameLoop::new(0));
    s.toggle_magnification();
    s.busy = true;
    assert_eq!(l.step(&s, LoopEvent::AnimationFrame), LoopAction::Yield);
    assert_eq!(l, FrameLoop::new(0));
}

#[test]
fn frames_are_rendered_and_counted_once() {
    let s = started(1920, 1080);
    let mut l = FrameLoop::new(0);
    let (mut renderings, mut successes, mut reported) = (0, 0, 0);
    for i in 0..100u32 {
        assert_eq!(l.step(&s, LoopEvent::AnimationFrame), LoopAction::Grab);
        let success = i % 3 != 0;
        let count = l.frame_count;
        match l.step(&s, LoopEvent::Grabbed { success }) {
            LoopAction::Render { .. } => renderings += 1,
            other => {
                assert_eq!(other, LoopAction::NextFrame);
                assert_eq!(l.frame_count, count);
                continue;
            }
        }
        successes += 1;
        let elapsed = if i % 10 == 5 { 1000.0 } else { 0.0 };
        if let LoopAction::Report { frames, .. } = l.step(&s, rendered(0.0, elapsed)) {
            reported += frames;
            l.step(&s, LoopEvent::Measured { fps: 1 });
        }
    }
    assert_eq!(renderings, successes);
    assert_eq!(renderings, reported + l.frame_count);
    assert!(reported > 0);
}
