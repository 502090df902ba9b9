//! The lifecycle of a recognition session: at most one session runs at a
//! time, a start while one runs is rejected, and a stop is always safe.
//!
//! The controller keeps two facts: whether a session is marked running, and
//! whether a capture worker is alive. The control thread asks it before it
//! acts and tells it what came of the action; threads and devices are the
//! caller's.

use vstd::prelude::*;
use vstd::string::StringExecFns;
use crate::capture::CaptureSetup;
use crate::config::{AppConfig, AsrModelConfig, has_id, is_first_with_id};

verus! {

/// Why a session did not start.
#[derive(Debug)]
pub enum StartError {
    /// A session is running.
    AlreadyRunning,
    /// The configuration names no model that exists.
    NoModelConfigured,
    /// The model in use is of a kind that cannot be streamed.
    UnsupportedModel,
    /// The audio device could not be acquired or its stream not started.
    CaptureFailed(String),
    /// The recognizer could not be made.
    RecognizerFailed(String),
}

/// The text of an error, as it is shown to the user.
pub open spec fn message_of(error: StartError) -> Seq<char> {
    match error {
        StartError::AlreadyRunning => "Recognition is already running"@,
        StartError::NoModelConfigured => "No ASR model configured"@,
        StartError::UnsupportedModel => "Only Transducer models are supported"@,
        StartError::CaptureFailed(e) => "Failed to start audio capture: "@ + e@,
        StartError::RecognizerFailed(e) => e@,
    }
}

impl StartError {
    /// The text of the error, as it is shown to the user.
    pub fn message(&self) -> (r: String)
        ensures
            r@ == message_of(*self),
    {
        match self {
            StartError::AlreadyRunning => "Recognition is already running".to_owned(),
            StartError::NoModelConfigured => "No ASR model configured".to_owned(),
            StartError::UnsupportedModel => "Only Transducer models are supported".to_owned(),
            StartError::CaptureFailed(e) => "Failed to start audio capture: ".to_owned().concat(
                e.as_str(),
            ),
            StartError::RecognizerFailed(e) => e.clone(),
        }
    }
}

/// The model a session is to use: the one in use by the configuration.
pub fn model_for_session(config: &AppConfig) -> (r: Result<&AsrModelConfig, StartError>)
    ensures
        r is Ok <==> has_id(config.models@, config.current_model_id@),
        r is Ok ==> exists|i: int|
            is_first_with_id(config.models@, config.current_model_id@, i) && *r->Ok_0
                == config.models@[i],
        r is Err ==> r->Err_0 == StartError::NoModelConfigured,
{
    match config.current_model() {
        Some(model) => Ok(model),
        None => Err(StartError::NoModelConfigured),
    }
}

/// The controller as plain values.
pub ghost struct ControllerState {
    /// A session is marked running.
    pub running: bool,
    /// A capture worker is alive.
    pub capture_active: bool,
}

impl ControllerState {
    /// Nothing runs.
    pub open spec fn idle() -> Self {
        ControllerState { running: false, capture_active: false }
    }

    /// Whether a start is admitted.
    pub open spec fn admits_start(self) -> bool {
        !self.running
    }

    /// After a start was requested. An admitted start finds no capture
    /// worker alive any more: one left over is handed to the caller to stop.
    pub open spec fn start_requested(self) -> Self {
        if self.admits_start() {
            ControllerState { running: false, capture_active: false }
        } else {
            self
        }
    }

    /// After the capture of a new session was started, or failed to.
    pub open spec fn capture_started(self, ok: bool) -> Self {
        if ok {
            ControllerState { running: true, capture_active: true }
        } else {
            self
        }
    }

    /// After the recognition worker ended by itself.
    pub open spec fn worker_exited(self) -> Self {
        ControllerState { running: false, ..self }
    }

    /// After a stop, and after the recognizer could not be made.
    pub open spec fn stopped(self) -> Self {
        Self::idle()
    }
}

/// Owns the running flag of the one session that may be in flight.
pub struct SessionController {
    running: bool,
    capture_active: bool,
}

impl View for SessionController {
    type V = ControllerState;

    closed spec fn view(&self) -> ControllerState {
        ControllerState { running: self.running, capture_active: self.capture_active }
    }
}

impl SessionController {
    /// A controller with nothing running.
    pub fn new() -> (r: Self)
        ensures
            r@ == ControllerState::idle(),
    {
        SessionController { running: false, capture_active: false }
    }

    /// Whether a session is marked running.
    pub fn is_running(&self) -> (r: bool)
        ensures
            r == self@.running,
    {
        self.running
    }

    /// Whether a capture worker is alive.
    pub fn is_capturing(&self) -> (r: bool)
        ensures
            r == self@.capture_active,
    {
        self.capture_active
    }

    /// Asks to start a session. While one is running the request is
    /// rejected and nothing changes. Otherwise it is admitted, and the
    /// result says whether a capture worker was left over from a session
    /// whose recognition ended by itself; the caller stops that worker
    /// before it starts a new one.
    pub fn request_start(&mut self) -> (r: Result<bool, StartError>)
        ensures
            final(self)@ == old(self)@.start_requested(),
            !old(self)@.admits_start() ==> r == Err::<bool, StartError>(
                StartError::AlreadyRunning,
            ),
            old(self)@.admits_start() ==> r == Ok::<bool, StartError>(old(self)@.capture_active),
    {
        if self.running {
            return Err(StartError::AlreadyRunning);
        }
        let left_over = self.capture_active;
        self.capture_active = false;
        Ok(left_over)
    }

    /// Records what came of starting the capture of a new session. On
    /// success the session is marked running; a failure is fatal to the
    /// start and leaves the controller as it was.
    pub fn capture_started(&mut self, started: Result<CaptureSetup, String>) -> (r: Result<
        CaptureSetup,
        StartError,
    >)
        ensures
            final(self)@ == old(self)@.capture_started(started is Ok),
            started is Ok ==> r == Ok::<CaptureSetup, StartError>(started->Ok_0),
            started is Err ==> r == Err::<CaptureSetup, StartError>(
                StartError::CaptureFailed(started->Err_0),
            ),
    {
        match started {
            Ok(setup) => {
                self.running = true;
                self.capture_active = true;
                Ok(setup)
            },
            Err(e) => Err(StartError::CaptureFailed(e)),
        }
    }

    /// The recognition worker ended by itself: it saw the channel closed or
    /// the running flag cleared. The capture worker is not touched.
    pub fn worker_exited(&mut self)
        ensures
            final(self)@ == old(self)@.worker_exited(),
    {
        self.running = false;
    }

    /// The recognizer could not be made: the session is over before any
    /// chunk was consumed. Returns whether a capture worker is alive, which
    /// the caller then stops, and the error to show.
    pub fn recognizer_failed(&mut self, error: String) -> (r: (bool, StartError))
        ensures
            final(self)@ == old(self)@.stopped(),
            r.0 == old(self)@.capture_active,
            r.1 == StartError::RecognizerFailed(error),
    {
        let stop_capture = self.capture_active;
        self.running = false;
        self.capture_active = false;
        (stop_capture, StartError::RecognizerFailed(error))
    }

    /// Stops the session. Returns whether a capture worker is alive, which
    /// the caller then signals and joins. With nothing running this changes
    /// nothing and asks for nothing.
    pub fn stop(&mut self) -> (stop_capture: bool)
        ensures
            final(self)@ == old(self)@.stopped(),
            stop_capture == old(self)@.capture_active,
    {
        let stop_capture = self.capture_active;
        self.running = false;
        self.capture_active = false;
        stop_capture
    }
}

/// A single session is in flight: once a session has started, a further
/// start is rejected for as long as no stop intervenes and the worker has
/// not ended, and the rejected request leaves the running session as it is.
pub proof fn lemma_second_start_is_rejected(before: ControllerState)
    requires
        before.admits_start(),
    ensures
        ({
            let running = before.start_requested().capture_started(true);
            running.running && !running.admits_start() && running.start_requested() == running
        }),
{
}

/// Stopping is idempotent: a second stop changes nothing, and after a stop
/// no capture worker is left to join. In particular a stop with nothing
/// running is a no-op.
pub proof fn lemma_stop_is_idempotent(before: ControllerState)
    ensures
        before.stopped().stopped() == before.stopped(),
        !before.stopped().capture_active,
        !before.stopped().running,
        ControllerState::idle().stopped() == ControllerState::idle(),
{
}

/// A stop makes room for the next session.
pub proof fn lemma_start_after_stop_is_admitted(before: ControllerState)
    ensures
        before.stopped().admits_start(),
{
}

} // verus!
