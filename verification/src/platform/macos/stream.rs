//! Opening a stream and running it: every decision of the capture
//! lifecycle, from the validation of a requested configuration to the
//! release of the device.
//!
//! The backend performs the native work. Before each piece of it the
//! backend asks here what to do, and afterwards it reports what happened.

use vstd::prelude::*;

use crate::error::{Error, PlatformError};
use crate::platform::macos::device::{
    fourcc_of_pixel_format, fourcc_to_pixel_format, has_valid_size, pixel_format_of_fourcc,
    pixel_format_to_fourcc, NativeFormat,
};
use crate::platform::macos::ext::FrameDuration;
use crate::stream::StreamState;
use crate::types::StreamConfig;

verus! {

/// Whether a native format offers what a configuration asks for: its pixel
/// encoding stands for the requested pixel format, its dimensions are
/// positive, and they are the requested size.
pub open spec fn format_matches(format: NativeFormat, config: StreamConfig) -> bool {
    &&& pixel_format_of_fourcc(format.fourcc) == Some(config.pixel_format)
    &&& has_valid_size(format)
    &&& format.width == config.size.width
    &&& format.height == config.size.height
}

/// Whether a native format offers what a configuration asks for in the very
/// encoding that the output is asked to deliver.
pub open spec fn code_matches(format: NativeFormat, config: StreamConfig) -> bool {
    &&& format.fourcc == fourcc_of_pixel_format(config.pixel_format)
    &&& has_valid_size(format)
    &&& format.width == config.size.width
    &&& format.height == config.size.height
}

/// No format of the catalog offers what the configuration asks for.
pub open spec fn no_match(formats: Seq<NativeFormat>, config: StreamConfig) -> bool {
    forall|j: int| 0 <= j < formats.len() ==> !format_matches(#[trigger] formats[j], config)
}

/// No format of the catalog offers it in the encoding of the output.
pub open spec fn no_code_match(formats: Seq<NativeFormat>, config: StreamConfig) -> bool {
    forall|j: int| 0 <= j < formats.len() ==> !code_matches(#[trigger] formats[j], config)
}

/// `index` is the place of the first format of the catalog that offers what
/// the configuration asks for.
pub open spec fn is_first_match(formats: Seq<NativeFormat>, config: StreamConfig, index: int) -> bool {
    &&& 0 <= index < formats.len()
    &&& format_matches(formats[index], config)
    &&& forall|j: int| 0 <= j < index ==> !format_matches(#[trigger] formats[j], config)
}

/// `index` is the place of the first format of the catalog that offers it
/// in the encoding of the output.
pub open spec fn is_first_code_match(
    formats: Seq<NativeFormat>,
    config: StreamConfig,
    index: int,
) -> bool {
    &&& 0 <= index < formats.len()
    &&& code_matches(formats[index], config)
    &&& forall|j: int| 0 <= j < index ==> !code_matches(#[trigger] formats[j], config)
}

/// `index` is the place of the format that opening makes active: the first
/// in the encoding of the output, or, where the catalog has none in that
/// encoding, the first in any encoding that stands for the requested pixel
/// format.
pub open spec fn is_planned_format(
    formats: Seq<NativeFormat>,
    config: StreamConfig,
    index: int,
) -> bool {
    ||| is_first_code_match(formats, config, index)
    ||| no_code_match(formats, config) && is_first_match(formats, config, index)
}

/// What the backend is to set up for a validated configuration.
#[derive(Debug, Clone, Copy, PartialEq, Eq, Structural)]
pub struct SessionPlan {
    /// The place, in the device's catalog, of the format to make active.
    pub format_index: usize,
    /// The pixel encoding to ask of the video output.
    pub output_fourcc: u32,
    /// The frame duration to set as both the shortest and the longest.
    pub frame_duration: FrameDuration,
}

/// The native steps of opening a stream, in the order in which they are
/// taken.
#[derive(Debug, Clone, Copy, PartialEq, Eq, Structural)]
pub enum OpenStep {
    /// Create the capture input for the device.
    CreateInput,
    /// Attach the input and the video output to the session.
    ConfigureSession,
    /// Take the device's configuration lock.
    LockConfiguration,
    /// Make the planned format active and set the frame duration.
    ApplyFormat,
}

/// Why a native step of opening did not succeed.
#[derive(Debug, Clone, PartialEq, Eq)]
pub enum OpenFailure {
    /// The session does not accept the input.
    InputRefused,
    /// The session does not accept the video output.
    OutputRefused,
    /// The platform reported an error or raised an exception.
    Platform(PlatformError),
}

/// How a failed attempt ends: the error to return, and whether the
/// configuration lock was taken and has to be given back first.
#[derive(Debug, Clone, PartialEq, Eq)]
pub struct OpenAbort {
    pub error: Error,
    pub release_config_lock: bool,
}

/// What follows a native step that succeeded.
#[derive(Debug)]
pub enum OpenProgress {
    /// There is another step to take.
    Continue(OpenAttempt),
    /// Every step is taken: the stream is open.
    Configured(MacosCameraStream),
}

/// An attempt to open a stream whose configuration was found valid.
#[derive(Debug)]
pub struct OpenAttempt {
    plan: SessionPlan,
    pending: OpenStep,
}

/// What an [`OpenAttempt`] holds.
pub struct OpenAttemptView {
    pub plan: SessionPlan,
    pub pending: OpenStep,
}

impl View for OpenAttempt {
    type V = OpenAttemptView;

    closed spec fn view(&self) -> OpenAttemptView {
        OpenAttemptView { plan: self.plan, pending: self.pending }
    }
}

/// The step that follows `step`, if `step` is not the last.
pub open spec fn step_after(step: OpenStep) -> Option<OpenStep> {
    match step {
        OpenStep::CreateInput => Some(OpenStep::ConfigureSession),
        OpenStep::ConfigureSession => Some(OpenStep::LockConfiguration),
        OpenStep::LockConfiguration => Some(OpenStep::ApplyFormat),
        OpenStep::ApplyFormat => None,
    }
}

/// Whether the configuration lock is held while `step` is taken: it is
/// taken by the step before the last and held from then on.
pub open spec fn lock_held_during(step: OpenStep) -> bool {
    step == OpenStep::ApplyFormat
}

/// `error` is what a failed step of opening is reported as: a refusal by
/// its message, a platform failure as it is.
pub open spec fn reports(failure: OpenFailure, error: Error) -> bool {
    match failure {
        OpenFailure::InputRefused => error.is_message("cannot add input to session"@),
        OpenFailure::OutputRefused => error.is_message("cannot add output to session"@),
        OpenFailure::Platform(e) => error == Error::Platform(e),
    }
}

impl OpenAttempt {
    /// Validates a requested configuration against the device's catalog and
    /// plans the native work.
    ///
    /// The attempt begins exactly when some format of the catalog has the
    /// requested pixel format and size. The format to make active is the
    /// first in the very encoding that the output is asked for, or, where
    /// there is none, the first in any encoding of the requested pixel
    /// format. Otherwise the configuration is rejected as
    /// `UnsupportedFormat`, before any native step is taken.
    pub fn begin(formats: &[NativeFormat], config: &StreamConfig) -> (attempt: Result<
        OpenAttempt,
        Error,
    >)
        ensures
            match attempt {
                Ok(attempt) => {
                    &&& is_planned_format(formats@, *config, attempt@.plan.format_index as int)
                    &&& attempt@.plan.output_fourcc == fourcc_of_pixel_format(config.pixel_format)
                    &&& attempt@.plan.frame_duration == FrameDuration::of_frame_rate(
                        config.frame_rate,
                    )
                    &&& attempt@.pending == OpenStep::CreateInput
                },
                Err(e) => e == Error::UnsupportedFormat && no_match(formats@, *config),
            },
    {
        let output_fourcc = pixel_format_to_fourcc(&config.pixel_format);
        let frame_duration = FrameDuration::for_frame_rate(config.frame_rate);
        let mut first_match: Option<usize> = None;
        let mut index: usize = 0;
        while index < formats.len()
            invariant
                index <= formats@.len(),
                output_fourcc == fourcc_of_pixel_format(config.pixel_format),
                frame_duration == FrameDuration::of_frame_rate(config.frame_rate),
                forall|j: int| 0 <= j < index ==> !code_matches(#[trigger] formats@[j], *config),
                match first_match {
                    Some(found) => found < index && is_first_match(formats@, *config, found as int),
                    None => forall|j: int|
                        0 <= j < index ==> !format_matches(#[trigger] formats@[j], *config),
                },
            decreases formats.len() - index,
        {
            let format = &formats[index];
            if format.width > 0 && format.height > 0 && format.width as u32 == config.size.width
                && format.height as u32 == config.size.height {
                if format.fourcc == output_fourcc {
                    let plan = SessionPlan { format_index: index, output_fourcc, frame_duration };
                    return Ok(OpenAttempt { plan, pending: OpenStep::CreateInput });
                }
                if first_match.is_none() {
                    let same_format = match fourcc_to_pixel_format(format.fourcc) {
                        Some(pixel_format) => pixel_format == config.pixel_format,
                        None => false,
                    };
                    if same_format {
                        first_match = Some(index);
                    }
                }
            }
            index += 1;
        }
        match first_match {
            Some(found) => {
                let plan = SessionPlan { format_index: found, output_fourcc, frame_duration };
                Ok(OpenAttempt { plan, pending: OpenStep::CreateInput })
            },
            None => Err(Error::UnsupportedFormat),
        }
    }

    /// What the backend is to set up.
    pub fn plan(&self) -> (plan: SessionPlan)
        ensures
            plan == self@.plan,
    {
        self.plan
    }

    /// The native step to take next.
    pub fn pending(&self) -> (step: OpenStep)
        ensures
            step == self@.pending,
    {
        self.pending
    }

    /// Records that the pending step succeeded. The attempt moves on to the
    /// next step; after the last step the stream is open: configured, not
    /// running, with the configuration lock still held.
    pub fn step_done(self) -> (progress: OpenProgress)
        ensures
            match step_after(self@.pending) {
                Some(next) => progress matches OpenProgress::Continue(attempt) && attempt@
                    == (OpenAttemptView { plan: self@.plan, pending: next }),
                None => progress matches OpenProgress::Configured(stream) && stream@
                    == (MacosCameraStreamView {
                    plan: self@.plan,
                    state: StreamState::Configured,
                    config_locked: true,
                }),
            },
    {
        let next = match self.pending {
            OpenStep::CreateInput => OpenStep::ConfigureSession,
            OpenStep::ConfigureSession => OpenStep::LockConfiguration,
            OpenStep::LockConfiguration => OpenStep::ApplyFormat,
            OpenStep::ApplyFormat => {
                return OpenProgress::Configured(
                    MacosCameraStream {
                        plan: self.plan,
                        state: StreamState::Configured,
                        config_locked: true,
                    },
                );
            },
        };
        OpenProgress::Continue(OpenAttempt { plan: self.plan, pending: next })
    }

    /// Records that the pending step failed, which ends the attempt: no
    /// stream comes of it. The failure is reported as a platform error, and
    /// the configuration lock is to be given back if the attempt had taken
    /// it.
    pub fn step_failed(self, failure: OpenFailure) -> (abort: OpenAbort)
        ensures
            reports(failure, abort.error),
            abort.release_config_lock == lock_held_during(self@.pending),
    {
        let error = match failure {
            OpenFailure::InputRefused => Error::message("cannot add input to session"),
            OpenFailure::OutputRefused => Error::message("cannot add output to session"),
            OpenFailure::Platform(e) => Error::Platform(e),
        };
        let release_config_lock = match self.pending {
            OpenStep::ApplyFormat => true,
            _ => false,
        };
        OpenAbort { error, release_config_lock }
    }
}

/// An open stream: the plan it was opened with, its place in the lifecycle,
/// and whether the configuration lock taken at opening is still held.
///
/// A stream comes only from an [`OpenAttempt`] that took every step, it is
/// not copied, and releasing it consumes it.
#[derive(Debug)]
pub struct MacosCameraStream {
    plan: SessionPlan,
    state: StreamState,
    /// True while the device config lock is held (between open and start).
    config_locked: bool,
}

/// What a [`MacosCameraStream`] holds.
pub struct MacosCameraStreamView {
    pub plan: SessionPlan,
    pub state: StreamState,
    pub config_locked: bool,
}

impl View for MacosCameraStream {
    type V = MacosCameraStreamView;

    closed spec fn view(&self) -> MacosCameraStreamView {
        MacosCameraStreamView {
            plan: self.plan,
            state: self.state,
            config_locked: self.config_locked,
        }
    }
}

/// What a successful launch leaves to do.
#[derive(Debug, Clone, Copy, PartialEq, Eq, Structural)]
pub struct Launched {
    /// The configuration lock was held across the launch and is to be
    /// given back now.
    pub release_config_lock: bool,
}

/// What releasing a stream requires of the backend, in this order.
#[derive(Debug, Clone, Copy, PartialEq, Eq, Structural)]
pub struct Teardown {
    /// The session is running and is to be stopped.
    pub stop_session: bool,
    /// A callback is registered and is to be removed.
    pub clear_callback: bool,
    /// The configuration lock is held and is to be given back.
    pub release_config_lock: bool,
}

impl MacosCameraStreamView {
    /// Whether a callback is registered: from the moment a start is
    /// accepted until the stream is stopped or the launch fails.
    pub open spec fn callback_registered(self) -> bool {
        self.state != StreamState::Configured
    }

    /// The stream after a request to start, and the answer to the request.
    pub open spec fn start(self) -> (MacosCameraStreamView, Result<(), Error>) {
        if self.state == StreamState::Configured {
            (MacosCameraStreamView { state: StreamState::Starting, ..self }, Ok(()))
        } else {
            (self, Err(Error::AlreadyStarted))
        }
    }

    /// The stream after the backend reported how the launch went, and what
    /// the start returns.
    pub open spec fn launched(self, launch: Result<(), PlatformError>) -> (
        MacosCameraStreamView,
        Result<Launched, Error>,
    ) {
        if self.state != StreamState::Starting {
            (self, Err(Error::NotStarted))
        } else {
            match launch {
                Ok(()) => (
                    MacosCameraStreamView {
                        state: StreamState::Running,
                        config_locked: false,
                        ..self
                    },
                    Ok(Launched { release_config_lock: self.config_locked }),
                ),
                Err(e) => (
                    MacosCameraStreamView { state: StreamState::Configured, ..self },
                    Err(Error::Platform(e)),
                ),
            }
        }
    }

    /// The stream after a request to stop, and the answer to the request.
    pub open spec fn stop(self) -> (MacosCameraStreamView, Result<(), Error>) {
        if self.state == StreamState::Running {
            (MacosCameraStreamView { state: StreamState::Configured, ..self }, Ok(()))
        } else {
            (self, Err(Error::NotStarted))
        }
    }

    /// What releasing the stream requires.
    pub open spec fn release(self) -> Teardown {
        Teardown {
            stop_session: self.state == StreamState::Running,
            clear_callback: self.callback_registered(),
            release_config_lock: self.config_locked,
        }
    }
}

impl MacosCameraStream {
    /// The configuration lock is held from opening until delivery runs, and
    /// not while it runs.
    #[verifier::type_invariant]
    spec fn lock_is_not_held_while_running(self) -> bool {
        self.state == StreamState::Running ==> !self.config_locked
    }

    /// What the stream was opened with.
    pub fn plan(&self) -> (plan: SessionPlan)
        ensures
            plan == self@.plan,
    {
        self.plan
    }

    /// Where the stream stands in its lifecycle.
    pub fn state(&self) -> (state: StreamState)
        ensures
            state == self@.state,
    {
        self.state
    }

    /// Whether the configuration lock taken at opening is still held. It
    /// never is while the stream runs.
    pub fn config_locked(&self) -> (locked: bool)
        ensures
            locked == self@.config_locked,
            locked ==> self@.state != StreamState::Running,
    {
        proof {
            use_type_invariant(self);
        }
        self.config_locked
    }

    /// Whether a frame that arrives now is handed to a callback.
    pub fn callback_registered(&self) -> (registered: bool)
        ensures
            registered == self@.callback_registered(),
    {
        match self.state {
            StreamState::Configured => false,
            _ => true,
        }
    }

    /// Asks to start delivery.
    ///
    /// A configured stream accepts: the backend is to register the callback
    /// and launch the session, and to report the outcome to
    /// [`launched`](Self::launched). A stream that is starting or running
    /// answers `AlreadyStarted` and stays exactly as it is, callback
    /// included.
    pub fn start(&mut self) -> (accepted: Result<(), Error>)
        ensures
            (final(self)@, accepted) == old(self)@.start(),
    {
        match self.state {
            StreamState::Configured => {
                self.state = StreamState::Starting;
                Ok(())
            },
            _ => Err(Error::AlreadyStarted),
        }
    }

    /// Records how the launch went, and says what the start returns.
    ///
    /// After a launch that succeeded the stream is running, and the
    /// configuration lock, if it was still held, is to be given back. After
    /// one that failed the stream is configured again, as before the start:
    /// the callback is to be removed, the lock stays as it was, and the
    /// failure is returned as a platform error. Without a start under way
    /// the answer is `NotStarted` and nothing changes.
    pub fn launched(&mut self, launch: Result<(), PlatformError>) -> (started: Result<
        Launched,
        Error,
    >)
        ensures
            (final(self)@, started) == old(self)@.launched(launch),
    {
        match self.state {
            StreamState::Starting => match launch {
                Ok(()) => {
                    let release_config_lock = self.config_locked;
                    self.config_locked = false;
                    self.state = StreamState::Running;
                    Ok(Launched { release_config_lock })
                },
                Err(e) => {
                    self.state = StreamState::Configured;
                    Err(Error::Platform(e))
                },
            },
            _ => Err(Error::NotStarted),
        }
    }

    /// Asks to stop delivery.
    ///
    /// A running stream accepts: the backend is to stop the session and
    /// remove the callback, and the stream is configured again. Any other
    /// stream answers `NotStarted` and stays exactly as it is.
    pub fn stop(&mut self) -> (stopped: Result<(), Error>)
        ensures
            (final(self)@, stopped) == old(self)@.stop(),
    {
        match self.state {
            StreamState::Running => {
                self.state = StreamState::Configured;
                Ok(())
            },
            _ => Err(Error::NotStarted),
        }
    }

    /// Releases the stream, which closes it for good, and says what the
    /// backend has to undo: a running session is stopped first, a
    /// registered callback removed, and a configuration lock that is still
    /// held is given back in any case.
    pub fn release(self) -> (teardown: Teardown)
        ensures
            teardown == self@.release(),
            teardown.stop_session ==> teardown.clear_callback && !teardown.release_config_lock,
    {
        proof {
            use_type_invariant(&self);
        }
        let (stop_session, clear_callback) = match self.state {
            StreamState::Configured => (false, false),
            StreamState::Starting => (false, true),
            StreamState::Running => (true, true),
        };
        Teardown { stop_session, clear_callback, release_config_lock: self.config_locked }
    }
}

/// The plan is determined by catalog and configuration: at most one place
/// is planned, the format there offers what was asked, and some place is
/// planned exactly when some format of the catalog offers it.
pub proof fn lemma_plan_is_determined(
    formats: Seq<NativeFormat>,
    config: StreamConfig,
    index: int,
    other: int,
)
    ensures
        is_planned_format(formats, config, index) ==> format_matches(formats[index], config),
        is_planned_format(formats, config, index) && is_planned_format(formats, config, other)
            ==> index == other,
        no_match(formats, config) ==> !is_planned_format(formats, config, index),
        !no_match(formats, config) ==> exists|planned: int|
            is_planned_format(formats, config, planned),
{
    if !no_match(formats, config) {
        if no_code_match(formats, config) {
            let flags = formats.map_values(|f: NativeFormat| format_matches(f, config));
            let some = choose|j: int| 0 <= j < formats.len() && format_matches(formats[j], config);
            assert(flags[some]);
            let first = lemma_first_place(flags);
            assert forall|j: int| 0 <= j < first implies !format_matches(
                #[trigger] formats[j],
                config,
            ) by {
                assert(!flags[j]);
            }
            assert(is_planned_format(formats, config, first));
        } else {
            let flags = formats.map_values(|f: NativeFormat| code_matches(f, config));
            let some = choose|j: int| 0 <= j < formats.len() && code_matches(formats[j], config);
            assert(flags[some]);
            let first = lemma_first_place(flags);
            assert forall|j: int| 0 <= j < first implies !code_matches(
                #[trigger] formats[j],
                config,
            ) by {
                assert(!flags[j]);
            }
            assert(is_planned_format(formats, config, first));
        }
    }
}

/// A sequence of flags of which one is set has a first place that is set.
proof fn lemma_first_place(flags: Seq<bool>) -> (first: int)
    requires
        exists|j: int| 0 <= j < flags.len() && flags[j],
    ensures
        0 <= first < flags.len(),
        flags[first],
        forall|j: int| 0 <= j < first ==> !flags[j],
    decreases flags.len(),
{
    if flags[0] {
        0
    } else {
        let witness = choose|j: int| 0 <= j < flags.len() && flags[j];
        assert(flags.drop_first()[witness - 1]);
        let rest = lemma_first_place(flags.drop_first());
        assert forall|j: int| 0 <= j < rest + 1 implies !flags[j] by {
            if j > 0 {
                assert(!flags.drop_first()[j - 1]);
            }
        }
        rest + 1
    }
}

/// A stream that was started and not stopped rejects another start, and
/// the rejection changes nothing.
///
/// From the moment a start is accepted, whether the launch is still under
/// way or has succeeded, a further start answers `AlreadyStarted`; the
/// stream stays as it is and the callback stays registered.
pub proof fn lemma_second_start_is_rejected(stream: MacosCameraStreamView)
    requires
        stream.state == StreamState::Configured,
    ensures
        ({
            let (starting, accepted) = stream.start();
            let (running, started) = starting.launched(Ok(()));
            &&& accepted.is_ok()
            &&& starting.start() == (starting, Err::<(), Error>(Error::AlreadyStarted))
            &&& started.is_ok()
            &&& running.state == StreamState::Running
            &&& running.start() == (running, Err::<(), Error>(Error::AlreadyStarted))
            &&& running.callback_registered()
        }),
{
}

/// Stopping a stream that is not running answers `NotStarted` and changes
/// nothing; so does, in particular, a stop before any start.
pub proof fn lemma_stop_without_start(stream: MacosCameraStreamView)
    requires
        stream.state != StreamState::Running,
    ensures
        stream.stop() == (stream, Err::<(), Error>(Error::NotStarted)),
{
}

/// Once a stop is accepted no callback is registered, and none is until
/// another start is accepted: a further stop, or the report of a launch
/// that nobody asked for, leaves the stream as it is.
pub proof fn lemma_no_delivery_after_stop(
    stream: MacosCameraStreamView,
    launch: Result<(), PlatformError>,
)
    requires
        stream.stop().1.is_ok(),
    ensures
        ({
            let stopped = stream.stop().0;
            &&& !stopped.callback_registered()
            &&& stopped.stop().0 == stopped
            &&& stopped.launched(launch).0 == stopped
        }),
{
}

/// The configuration lock is held across the start and no longer: it is
/// given back by the launch that succeeds, by the release of a stream that
/// never ran, or not at all, never twice.
pub proof fn lemma_lock_is_released_once(stream: MacosCameraStreamView)
    requires
        stream.state == StreamState::Configured,
    ensures
        ({
            let starting = stream.start().0;
            let (running, started) = starting.launched(Ok(()));
            &&& started == Ok::<Launched, Error>(
                Launched { release_config_lock: stream.config_locked },
            )
            &&& !running.config_locked
            &&& !running.release().release_config_lock
            &&& !running.stop().0.release().release_config_lock
            &&& stream.release().release_config_lock == stream.config_locked
        }),
{
}

} // verus!
