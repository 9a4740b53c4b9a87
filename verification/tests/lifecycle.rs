use camera_stream::error::{Error, PlatformError};
use camera_stream::platform::macos::device::{
    MacosCameraDevice, NativeFormat, NativeFrameRateRange, FOURCC_2VUY, FOURCC_420F, FOURCC_420V,
    FOURCC_BGRA,
};
use camera_stream::platform::macos::ext::FrameDuration;
use camera_stream::platform::macos::stream::{
    Launched, MacosCameraStream, OpenAbort, OpenAttempt, OpenFailure, OpenProgress, OpenStep,
    SessionPlan, Teardown,
};
use camera_stream::stream::StreamState;
use camera_stream::types::{PixelFormat, Ratio, Size, StreamConfig};

fn native(fourcc: u32, width: i32, height: i32, ranges: usize) -> NativeFormat {
    NativeFormat {
        fourcc,
        width,
        height,
        frame_rate_ranges: vec![
            NativeFrameRateRange { min_millis: 1000, max_millis: 30000 };
            ranges
        ],
    }
}

fn config(pixel_format: PixelFormat, width: u32, height: u32) -> StreamConfig {
    StreamConfig {
        pixel_format,
        size: Size { width, height },
        frame_rate: Ratio { numerator: 30000, denominator: 1000 },
    }
}

fn catalog() -> Vec<NativeFormat> {
    vec![
        native(FOURCC_2VUY, 1280, 720, 1),
        native(FOURCC_420V, 640, 480, 1),
        native(FOURCC_420F, 1280, 720, 2),
        native(FOURCC_420V, 1280, 720, 1),
    ]
}

fn opened() -> MacosCameraStream {
    let mut attempt = OpenAttempt::begin(&catalog(), &config(PixelFormat::Nv12, 1280, 720))
        .expect("the catalog has the format");
    loop {
        match attempt.step_done() {
            OpenProgress::Continue(next) => attempt = next,
            OpenProgress::Configured(stream) => return stream,
            _ => unreachable!(),
        }
    }
}

fn running() -> MacosCameraStream {
    let mut stream = opened();
    stream.start().expect("a configured stream starts");
    stream.launched(Ok(())).expect("the launch succeeded");
    stream
}

fn snapshot(stream: &MacosCameraStream) -> (StreamState, bool, bool, SessionPlan) {
    (stream.state(), stream.config_locked(), stream.callback_registered(), stream.plan())
}

#[test]
fn open_plans_the_first_matching_format() {
    let attempt = OpenAttempt::begin(&catalog(), &config(PixelFormat::Nv12, 1280, 720))
        .expect("the catalog has the format");
    assert_eq!(
        attempt.plan(),
        SessionPlan {
            format_index: 3,
            output_fourcc: FOURCC_420V,
            frame_duration: FrameDuration { value: 1000, timescale: 30000, flags: 1, epoch: 0 },
        }
    );
    assert_eq!(attempt.pending(), OpenStep::CreateInput);
}

#[test]
fn open_matches_format_and_size_together() {
    let formats = catalog();
    let plan = |c: &StreamConfig| OpenAttempt::begin(&formats, c).map(|a| a.plan().format_index);
    assert_eq!(plan(&config(PixelFormat::Uyvy, 1280, 720)), Ok(0));
    assert_eq!(plan(&config(PixelFormat::Nv12, 640, 480)), Ok(1));
    assert_eq!(plan(&config(PixelFormat::Nv12, 1280, 720)), Ok(3));
    assert_eq!(plan(&config(PixelFormat::Uyvy, 640, 480)), Err(Error::UnsupportedFormat));
    assert_eq!(plan(&config(PixelFormat::Nv12, 1280, 480)), Err(Error::UnsupportedFormat));
    assert_eq!(plan(&config(PixelFormat::Nv12, 720, 1280)), Err(Error::UnsupportedFormat));
    assert_eq!(plan(&config(PixelFormat::Bgra32, 1280, 720)), Err(Error::UnsupportedFormat));
    assert_eq!(plan(&config(PixelFormat::Jpeg, 1280, 720)), Err(Error::UnsupportedFormat));
}

#[test]
fn open_with_an_empty_catalog_is_unsupported() {
    let result = OpenAttempt::begin(&[], &config(PixelFormat::Nv12, 1280, 720));
    assert!(matches!(result, Err(Error::UnsupportedFormat)));
}

#[test]
fn open_ignores_unknown_encodings() {
    let formats = vec![native(u32::from_be_bytes(*b"avc1"), 1280, 720, 1)];
    for pixel_format in [
        PixelFormat::Nv12,
        PixelFormat::Yuyv,
        PixelFormat::Uyvy,
        PixelFormat::Bgra32,
        PixelFormat::Jpeg,
    ] {
        let result = OpenAttempt::begin(&formats, &config(pixel_format, 1280, 720));
        assert!(matches!(result, Err(Error::UnsupportedFormat)));
    }
}

#[test]
fn open_with_an_unlisted_pair_fails_as_unsupported() {
    let device = || MacosCameraDevice::new("cam-0".to_string(), "Front".to_string(), catalog());
    let listed = device().supported_formats().expect("listing formats never fails");
    let requests = [
        config(PixelFormat::Nv12, 1280, 720),
        config(PixelFormat::Nv12, 640, 480),
        config(PixelFormat::Nv12, 1920, 1080),
        config(PixelFormat::Uyvy, 1280, 720),
        config(PixelFormat::Uyvy, 640, 480),
        config(PixelFormat::Yuyv, 1280, 720),
        config(PixelFormat::Bgra32, 640, 480),
        config(PixelFormat::Jpeg, 1, 1),
    ];
    for request in requests {
        let is_listed = listed
            .iter()
            .any(|d| d.pixel_format == request.pixel_format && d.size == request.size);
        let result = device().open(&request);
        if is_listed {
            assert!(result.is_ok());
        } else {
            assert!(matches!(result, Err(Error::UnsupportedFormat)));
        }
    }
}

#[test]
fn a_format_without_ranges_is_unlisted_but_opens() {
    let device = MacosCameraDevice::new(
        "cam-0".to_string(),
        "Front".to_string(),
        vec![native(FOURCC_BGRA, 320, 240, 0)],
    );
    assert!(device.supported_formats().expect("listing formats never fails").is_empty());
    let attempt = device.open(&config(PixelFormat::Bgra32, 320, 240)).expect("the format exists");
    assert_eq!(attempt.plan().format_index, 0);
}

#[test]
fn open_prefers_the_encoding_of_the_output() {
    let formats = vec![native(FOURCC_420F, 1280, 720, 1), native(FOURCC_420V, 1280, 720, 1)];
    let attempt = OpenAttempt::begin(&formats, &config(PixelFormat::Nv12, 1280, 720))
        .expect("the catalog has the format");
    assert_eq!(attempt.plan().format_index, 1);
    assert_eq!(attempt.plan().output_fourcc, FOURCC_420V);

    let formats = vec![
        native(FOURCC_420F, 1280, 720, 1),
        native(FOURCC_420V, 640, 480, 1),
        native(FOURCC_420V, 1280, 720, 1),
        native(FOURCC_420V, 1280, 720, 1),
    ];
    let attempt = OpenAttempt::begin(&formats, &config(PixelFormat::Nv12, 1280, 720))
        .expect("the catalog has the format");
    assert_eq!(attempt.plan().format_index, 2);
}

#[test]
fn open_falls_back_to_another_encoding_of_the_format() {
    let formats = vec![
        native(FOURCC_2VUY, 1280, 720, 1),
        native(FOURCC_420F, 640, 480, 1),
        native(FOURCC_420F, 1280, 720, 1),
        native(FOURCC_420F, 1280, 720, 1),
    ];
    let attempt = OpenAttempt::begin(&formats, &config(PixelFormat::Nv12, 1280, 720))
        .expect("the catalog has the format");
    assert_eq!(attempt.plan().format_index, 2);
    assert_eq!(attempt.plan().output_fourcc, FOURCC_420V);
}

#[test]
fn open_never_matches_dimensions_that_are_not_positive() {
    let formats = vec![
        native(FOURCC_420V, -1, 720, 1),
        native(FOURCC_420V, 0, 0, 1),
        native(FOURCC_420V, 1280, i32::MIN, 1),
    ];
    for (width, height) in [(u32::MAX, 720), (0, 0), (1280, 0x8000_0000), (1280, 720)] {
        let attempt = OpenAttempt::begin(&formats, &config(PixelFormat::Nv12, width, height));
        assert!(matches!(attempt, Err(Error::UnsupportedFormat)), "{width}x{height}");
    }
    let device = MacosCameraDevice::new("cam-0".to_string(), "Front".to_string(), formats);
    assert!(device.supported_formats().expect("listing formats never fails").is_empty());
}

#[test]
fn open_takes_its_steps_in_order() {
    let mut attempt = OpenAttempt::begin(&catalog(), &config(PixelFormat::Uyvy, 1280, 720))
        .expect("the catalog has the format");
    let plan = attempt.plan();
    let mut steps = vec![attempt.pending()];
    let stream = loop {
        match attempt.step_done() {
            OpenProgress::Continue(next) => {
                assert_eq!(next.plan(), plan);
                steps.push(next.pending());
                attempt = next;
            }
            OpenProgress::Configured(stream) => break stream,
            _ => unreachable!(),
        }
    };
    assert_eq!(
        steps,
        vec![
            OpenStep::CreateInput,
            OpenStep::ConfigureSession,
            OpenStep::LockConfiguration,
            OpenStep::ApplyFormat,
        ]
    );
    assert_eq!(snapshot(&stream), (StreamState::Configured, true, false, plan));
}

fn fail_at(step: OpenStep, failure: OpenFailure) -> OpenAbort {
    let mut attempt = OpenAttempt::begin(&catalog(), &config(PixelFormat::Nv12, 1280, 720))
        .expect("the catalog has the format");
    while attempt.pending() != step {
        match attempt.step_done() {
            OpenProgress::Continue(next) => attempt = next,
            _ => panic!("the step was never pending"),
        }
    }
    attempt.step_failed(failure)
}

#[test]
fn a_failed_open_gives_the_lock_back_only_if_it_was_taken() {
    let busy = PlatformError::NsError("device busy".to_string());
    for (step, release) in [
        (OpenStep::CreateInput, false),
        (OpenStep::ConfigureSession, false),
        (OpenStep::LockConfiguration, false),
        (OpenStep::ApplyFormat, true),
    ] {
        let abort = fail_at(step, OpenFailure::Platform(busy.clone()));
        assert_eq!(
            abort,
            OpenAbort { error: Error::Platform(busy.clone()), release_config_lock: release }
        );
    }
}

#[test]
fn a_refusal_is_reported_by_its_message() {
    let abort = fail_at(OpenStep::ConfigureSession, OpenFailure::InputRefused);
    assert_eq!(
        abort.error,
        Error::Platform(PlatformError::Message("cannot add input to session".to_string()))
    );
    assert!(!abort.release_config_lock);
    let abort = fail_at(OpenStep::ConfigureSession, OpenFailure::OutputRefused);
    assert_eq!(
        abort.error,
        Error::Platform(PlatformError::Message("cannot add output to session".to_string()))
    );
    assert!(!abort.release_config_lock);
}

#[test]
fn an_exception_while_opening_is_reported_as_it_is() {
    let raised = PlatformError::ObjCException(Some("NSInvalidArgumentException".to_string()));
    let abort = fail_at(OpenStep::ApplyFormat, OpenFailure::Platform(raised.clone()));
    assert_eq!(abort.error, Error::Platform(raised));
    assert!(abort.release_config_lock);
}

#[test]
fn a_stream_opens_configured_and_locked() {
    let stream = opened();
    assert_eq!(stream.state(), StreamState::Configured);
    assert!(stream.config_locked());
    assert!(!stream.callback_registered());
    assert_eq!(stream.plan().format_index, 3);
}

#[test]
fn start_then_launch_runs_the_stream() {
    let mut stream = opened();
    let plan = stream.plan();
    assert_eq!(stream.start(), Ok(()));
    assert_eq!(snapshot(&stream), (StreamState::Starting, true, true, plan));
    assert_eq!(stream.launched(Ok(())), Ok(Launched { release_config_lock: true }));
    assert_eq!(snapshot(&stream), (StreamState::Running, false, true, plan));
}

#[test]
fn a_second_start_is_rejected_and_changes_nothing() {
    let mut stream = running();
    let before = snapshot(&stream);
    assert_eq!(stream.start(), Err(Error::AlreadyStarted));
    assert_eq!(snapshot(&stream), before);
    assert!(stream.callback_registered());
    assert_eq!(stream.start(), Err(Error::AlreadyStarted));
    assert_eq!(snapshot(&stream), before);
}

#[test]
fn a_start_during_a_launch_is_rejected() {
    let mut stream = opened();
    stream.start().expect("a configured stream starts");
    let before = snapshot(&stream);
    assert_eq!(stream.start(), Err(Error::AlreadyStarted));
    assert_eq!(snapshot(&stream), before);
    assert_eq!(stream.launched(Ok(())), Ok(Launched { release_config_lock: true }));
}

#[test]
fn stop_before_any_start_is_rejected_and_changes_nothing() {
    let mut stream = opened();
    let before = snapshot(&stream);
    assert_eq!(stream.stop(), Err(Error::NotStarted));
    assert_eq!(snapshot(&stream), before);
    assert_eq!(stream.start(), Ok(()));
}

#[test]
fn stop_during_a_launch_is_rejected() {
    let mut stream = opened();
    stream.start().expect("a configured stream starts");
    let before = snapshot(&stream);
    assert_eq!(stream.stop(), Err(Error::NotStarted));
    assert_eq!(snapshot(&stream), before);
}

#[test]
fn stop_ends_delivery() {
    let mut stream = running();
    let plan = stream.plan();
    assert_eq!(stream.stop(), Ok(()));
    assert_eq!(snapshot(&stream), (StreamState::Configured, false, false, plan));
    assert_eq!(stream.stop(), Err(Error::NotStarted));
    assert!(!stream.callback_registered());
}

#[test]
fn a_stopped_stream_starts_again() {
    let mut stream = running();
    stream.stop().expect("a running stream stops");
    assert_eq!(stream.start(), Ok(()));
    assert_eq!(stream.launched(Ok(())), Ok(Launched { release_config_lock: false }));
    assert_eq!(stream.state(), StreamState::Running);
    assert_eq!(stream.start(), Err(Error::AlreadyStarted));
    assert_eq!(stream.stop(), Ok(()));
}

#[test]
fn a_failed_launch_leaves_the_stream_configured() {
    let mut stream = opened();
    let plan = stream.plan();
    stream.start().expect("a configured stream starts");
    let raised = PlatformError::ObjCException(None);
    assert_eq!(stream.launched(Err(raised.clone())), Err(Error::Platform(raised)));
    assert_eq!(snapshot(&stream), (StreamState::Configured, true, false, plan));
    assert_eq!(stream.stop(), Err(Error::NotStarted));
    assert_eq!(stream.start(), Ok(()));
    assert_eq!(stream.launched(Ok(())), Ok(Launched { release_config_lock: true }));
}

#[test]
fn a_launch_report_without_a_start_is_rejected() {
    let mut stream = opened();
    let before = snapshot(&stream);
    assert_eq!(stream.launched(Ok(())), Err(Error::NotStarted));
    assert_eq!(snapshot(&stream), before);
    let failure = PlatformError::Message("late".to_string());
    assert_eq!(stream.launched(Err(failure)), Err(Error::NotStarted));
    assert_eq!(snapshot(&stream), before);

    let mut stream = running();
    let before = snapshot(&stream);
    assert_eq!(stream.launched(Ok(())), Err(Error::NotStarted));
    assert_eq!(snapshot(&stream), before);
}

#[test]
fn release_undoes_what_is_left() {
    assert_eq!(
        opened().release(),
        Teardown { stop_session: false, clear_callback: false, release_config_lock: true }
    );
    let mut starting = opened();
    starting.start().expect("a configured stream starts");
    assert_eq!(
        starting.release(),
        Teardown { stop_session: false, clear_callback: true, release_config_lock: true }
    );
    assert_eq!(
        running().release(),
        Teardown { stop_session: true, clear_callback: true, release_config_lock: false }
    );
    let mut stopped = running();
    stopped.stop().expect("a running stream stops");
    assert_eq!(
        stopped.release(),
        Teardown { stop_session: false, clear_callback: false, release_config_lock: false }
    );
    let mut failed = opened();
    failed.start().expect("a configured stream starts");
    let _ = failed.launched(Err(PlatformError::ObjCException(None)));
    assert_eq!(
        failed.release(),
        Teardown { stop_session: false, clear_callback: false, release_config_lock: true }
    );
}
