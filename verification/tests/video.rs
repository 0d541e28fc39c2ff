use mamp::video::{
    camera_requests, Action, CameraRequest, GrabStep, Phase, VideoCapture,
};

fn labels(device_id: &str, facing: &str, target: u32) -> Vec<String> {
    camera_requests(device_id, facing, target).iter().map(|r| r.label()).collect()
}

#[test]
fn requests_for_cameras() {
    assert_eq!(labels("", "", 0), vec!["default camera"]);
    assert_eq!(labels("", "", 320), vec!["default camera"]);
    assert_eq!(labels("", "user", 0), vec!["facingMode=user"]);
    assert_eq!(labels("abc", "", 0), vec!["deviceId=abc w=4096", "deviceId=abc (no resolution)"]);
    assert_eq!(
        labels("abc", "environment", 320),
        vec!["deviceId=abc w=320", "facingMode=environment", "deviceId=abc (no resolution)"]
    );
    match &camera_requests("abc", "", 0)[0] {
        CameraRequest::Device { id, ideal_width } => {
            assert_eq!(id, "abc");
            assert_eq!(*ideal_width, 4096);
        }
        other => panic!("{:?}", other),
    }
}

#[test]
fn a_first_camera_opens_at_once() {
    let mut s = VideoCapture::start_with_device("", "", 0, false);
    assert_eq!(s.requests.len(), 1);
    let mut actions = Vec::new();
    while !matches!(s.action(), Action::Finish | Action::Fail) {
        actions.push(s.action());
        s.report(true);
    }
    assert_eq!(
        actions,
        vec![Action::Request(0), Action::AttachStream, Action::Play, Action::Wait(200)]
    );
    assert_eq!(s.action(), Action::Finish);
    assert_eq!(s.phase, Phase::Opened);
    assert_eq!(s.failure(), None);
    s.report(false);
    assert_eq!(s.action(), Action::Finish);
}

#[test]
fn switching_cameras_waits_for_the_hardware() {
    let mut s = VideoCapture::start_with_device("abc", "user", 640, true);
    let mut actions = Vec::new();
    for ok in [true, true, false, false, true, true, true, true] {
        actions.push(s.action());
        s.report(ok);
    }
    assert_eq!(
        actions,
        vec![
            Action::StopTracks,
            Action::Wait(300),
            Action::Request(0),
            Action::Request(1),
            Action::Request(2),
            Action::AttachStream,
            Action::Play,
            Action::Wait(200),
        ]
    );
    assert_eq!(s.action(), Action::Finish);
}

#[test]
fn opening_fails_when_every_request_fails() {
    let mut s = VideoCapture::start_with_device("abc", "user", 0, false);
    for i in 0..3 {
        assert_eq!(s.action(), Action::Request(i));
        assert_eq!(s.failure(), None);
        s.report(false);
    }
    assert_eq!(s.action(), Action::Fail);
    assert_eq!(s.failure(), Some(Action::Request(2)));
    assert_eq!(s.phase, Phase::Failed);
    s.report(true);
    assert_eq!(s.action(), Action::Fail);
}

#[test]
fn opening_fails_when_the_video_does_not_play() {
    let mut s = VideoCapture::start_with_device("", "user", 0, false);
    s.report(true);
    s.report(true);
    assert_eq!(s.action(), Action::Play);
    s.report(false);
    assert_eq!(s.action(), Action::Fail);
    assert_eq!(s.failure(), Some(Action::Play));
}

#[test]
fn a_failure_after_the_requests_hides_those_before() {
    let mut s = VideoCapture::start_with_device("abc", "user", 0, true);
    for ok in [true, true, false, true, true, true] {
        s.report(ok);
    }
    assert_eq!(s.action(), Action::Wait(200));
    s.report(false);
    assert_eq!(s.failure(), Some(Action::Wait(200)));
    let mut s = VideoCapture::start_with_device("abc", "user", 0, true);
    s.report(true);
    s.report(false);
    assert_eq!(s.failure(), Some(Action::Wait(300)));
}

#[test]
fn only_cameras_that_face_away_are_not_mirrored() {
    let mut c = VideoCapture::new(640, 480);
    assert!(c.mirrored);
    c.detect_facing(1, Some(String::from("environment")));
    assert!(!c.mirrored);
    c.detect_facing(0, Some(String::from("user")));
    assert!(!c.mirrored);
    c.detect_facing(1, Some(String::from("user")));
    assert!(c.mirrored);
    c.detect_facing(1, Some(String::from("environment")));
    c.detect_facing(1, None);
    assert!(c.mirrored);
    assert_eq!((c.width, c.height), (640, 480));
}

#[test]
fn actual_size_falls_back_to_the_capture() {
    let mut c = VideoCapture::new(640, 480);
    assert_eq!(c.actual_size(1920, 1080), (1920, 1080));
    assert_eq!(c.actual_size(0, 1080), (640, 480));
    assert_eq!(c.actual_size(1920, 0), (640, 480));
    c.resize(320, 200);
    assert_eq!(c.actual_size(0, 0), (320, 200));
    assert!(c.mirrored);
}

#[test]
fn grabbing_a_frame() {
    let mut c = VideoCapture::new(640, 480);
    assert_eq!(
        c.grab_frame_into(),
        vec![
            GrabStep::Save,
            GrabStep::Translate(640),
            GrabStep::FlipX,
            GrabStep::Draw { width: 640, height: 480 },
            GrabStep::Restore,
            GrabStep::Read { width: 640, height: 480 },
        ]
    );
    c.mirrored = false;
    assert_eq!(
        c.grab_frame_into(),
        vec![
            GrabStep::Draw { width: 640, height: 480 },
            GrabStep::Read { width: 640, height: 480 },
        ]
    );
}
