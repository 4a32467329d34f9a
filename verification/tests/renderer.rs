//! Tests of the rendering loop in plain values.

use std::cell::Cell;

use moron::renderer::{frame_path, frame_time, report_progress, RenderConfig};
use moron::{BridgeConfig, BridgeError, RenderError, RenderProgress, RenderResult, M};

/// Seconds as microseconds.
fn us(seconds: f64) -> u64 {
    (seconds * 1_000_000.0).round() as u64
}

/// An instant in seconds as signed microseconds.
fn at(seconds: f64) -> i64 {
    (seconds * 1_000_000.0).round() as i64
}

#[test]
fn frame_path_formatting() {
    let dir = "/tmp/out";
    assert_eq!(frame_path(dir, 0), "/tmp/out/frame_000000.png");
    assert_eq!(frame_path(dir, 42), "/tmp/out/frame_000042.png");
    assert_eq!(frame_path(dir, 999999), "/tmp/out/frame_999999.png");
}

#[test]
fn frame_path_with_nested_dir() {
    let dir = "/home/user/project/output/frames";
    assert_eq!(
        frame_path(dir, 1),
        "/home/user/project/output/frames/frame_000001.png"
    );
}

#[test]
fn render_config_new() {
    let config: RenderConfig<Box<dyn Fn(RenderProgress)>> =
        RenderConfig::new("/tmp/out", BridgeConfig::new("/tmp/index.html"));
    assert_eq!(config.output_dir, "/tmp/out");
    assert!(config.progress.is_none());
}

#[test]
fn render_config_with_progress_callback() {
    let mut called = false;
    let callback: Box<dyn Fn(RenderProgress)> = Box::new(|_p| {
        // callback exists
    });
    let config = RenderConfig {
        output_dir: "/tmp/out".to_string(),
        bridge_config: BridgeConfig::new("/tmp/index.html"),
        progress: Some(callback),
    };
    assert!(config.progress.is_some());

    // Invoke the callback to verify it works.
    if let Some(cb) = &config.progress {
        cb(RenderProgress {
            current_frame: 0,
            total_frames: 10,
        });
        called = true;
    }
    assert!(called);
}

#[test]
fn render_progress_fields() {
    let p = RenderProgress {
        current_frame: 5,
        total_frames: 100,
    };
    assert_eq!(p.current_frame, 5);
    assert_eq!(p.total_frames, 100);
}

#[test]
fn render_result_fields() {
    let r = RenderResult {
        total_frames: 30,
        output_dir: "/tmp/out".to_string(),
    };
    assert_eq!(r.total_frames, 30);
    assert_eq!(r.output_dir, "/tmp/out");
}

#[test]
fn render_error_display_messages() {
    let err = RenderError::OutputDir {
        path: "/bad/path".to_string(),
        source: "denied".to_string(),
    };
    let msg = err.message();
    assert!(msg.contains("/bad/path"));
    assert!(msg.contains("denied"));

    let err = RenderError::WriteFrame {
        frame: 42,
        path: "/tmp/frame_000042.png".to_string(),
        source: "disk full".to_string(),
    };
    let msg = err.message();
    assert!(msg.contains("42"));
    assert!(msg.contains("disk full"));
}

#[test]
fn empty_timeline_has_zero_frames() {
    let m = M::new();
    assert_eq!(m.timeline().total_frames(), 0);
}

#[test]
fn non_empty_timeline_frame_count() {
    let mut m = M::new();
    m.wait(us(1.0)); // 1 second at 30 fps = 30 frames
    assert_eq!(m.timeline().total_frames(), 30);
    assert_eq!(m.timeline().fps(), 30);
}

#[test]
fn time_computation_matches_frame_at() {
    let mut m = M::new();
    m.wait(us(2.0)); // 2 seconds at 30 fps = 60 frames

    let fps = m.timeline().fps();
    // Frame 0 -> time 0.0
    assert_eq!(0.0_f64 / fps as f64, 0.0);
    // Frame 30 -> time 1.0
    assert!((30.0_f64 / fps as f64 - 1.0).abs() < f64::EPSILON);
    // Frame 59 -> time ~1.967
    let time_59 = 59.0_f64 / fps as f64;
    assert_eq!(m.timeline().frame_at(at(time_59)), 59);
}

#[test]
fn report_progress_with_callback() {
    let cb: Box<dyn Fn(RenderProgress)> = Box::new(|p| {
        // Cannot capture &mut in Fn, but we can verify the callback is invoked
        // by checking that it doesn't panic.
        assert!(p.current_frame < p.total_frames);
    });
    let callback = Some(cb);

    // Should not panic.
    report_progress(&callback, 0, 10);
    report_progress(&callback, 9, 10);
}

#[test]
fn report_progress_without_callback() {
    // This test just verifies it doesn't panic.
    let callback: Option<Box<dyn Fn(RenderProgress)>> = None;
    report_progress(&callback, 0, 10);
    report_progress(&callback, 9, 10);
}

// ---------------------------------------------------------------------------
// Further cases
// ---------------------------------------------------------------------------

#[test]
fn the_callback_gets_the_numbers() {
    let seen = Cell::new((0u32, 0u32));
    let callback = Some(|p: RenderProgress| seen.set((p.current_frame, p.total_frames)));
    report_progress(&callback, 7, 10);
    assert_eq!(seen.get(), (7, 10));
}

#[test]
fn frame_path_pads_to_six_digits() {
    assert_eq!(frame_path("out", 7), "out/frame_000007.png");
    assert_eq!(frame_path("out/", 123456), "out/frame_123456.png");
    assert_eq!(frame_path("", 1234567), "frame_1234567.png");
    assert_eq!(
        frame_path("/", u32::MAX),
        "/frame_4294967295.png"
    );
}

#[test]
fn frame_time_is_the_first_instant_of_the_frame() {
    assert_eq!(frame_time(0, 30), 0);
    assert_eq!(frame_time(30, 30), us(1.0));
    // 59 / 30 s = 1.9666... s, rounded up to the next microsecond.
    assert_eq!(frame_time(59, 30), 1_966_667);
    assert_eq!(frame_time(1, 3), 333_334);
    assert_eq!(frame_time(7, 1), us(7.0));
}

#[test]
fn every_frame_time_maps_back_to_its_frame() {
    for fps in [1u32, 24, 25, 30, 60, 144, 999] {
        let tl = moron::TimelineBuilder::new()
            .fps(fps)
            .silence(us(2.5))
            .build();
        let frames = tl.total_frames();
        assert!(frames > 0);
        for frame in 0..frames {
            let time = frame_time(frame, fps);
            assert_eq!(tl.frame_at(time as i64), frame, "frame {frame} at {fps} fps");
            if time > 0 {
                assert!(tl.frame_at(time as i64 - 1) < frame);
            }
        }
    }
}

#[test]
fn render_error_messages() {
    assert_eq!(
        RenderError::Bridge(BridgeError::ChromeNotFound).message(),
        "bridge error: Chrome executable not found"
    );
    assert_eq!(
        RenderError::OutputDir {
            path: "/bad".to_string(),
            source: "denied".to_string(),
        }
        .message(),
        "failed to create output directory /bad: denied"
    );
    assert_eq!(
        RenderError::Serialize {
            frame: 3,
            source: "nan".to_string(),
        }
        .message(),
        "failed to serialize frame 3: nan"
    );
    assert_eq!(
        RenderError::WriteFrame {
            frame: 42,
            path: "/tmp/frame_000042.png".to_string(),
            source: "disk full".to_string(),
        }
        .message(),
        "failed to write frame 42 to /tmp/frame_000042.png: disk full"
    );
}

#[test]
fn bridge_config_and_errors() {
    let config = BridgeConfig::new("/tmp/index.html");
    assert_eq!(config.width, 1920);
    assert_eq!(config.height, 1080);
    assert_eq!(config.html_path, "/tmp/index.html");
    assert_eq!(config.chrome_executable, None);
    assert!(config.headless);
    assert_eq!(config.launch_timeout, us(20.0));

    assert_eq!(
        BridgeError::LaunchFailed("no display".to_string()).message(),
        "failed to launch Chrome: no display"
    );
    assert_eq!(
        BridgeError::PageLoadFailed {
            path: "file:///x".to_string(),
            source: "gone".to_string(),
        }
        .message(),
        "failed to load page: file:///x"
    );
    assert_eq!(
        BridgeError::JsEvalFailed("boom".to_string()).message(),
        "JavaScript evaluation failed: boom"
    );
    assert_eq!(
        BridgeError::ScreenshotFailed("blank".to_string()).message(),
        "screenshot capture failed: blank"
    );
    assert_eq!(
        BridgeError::RenderTimeout { timeout_secs: 5 }.message(),
        "render timed out after 5s"
    );
    assert_eq!(BridgeError::AlreadyClosed.message(), "bridge already closed");
}
