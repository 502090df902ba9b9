use live_subtitles::capture::{capture_for, packet_action, CaptureMode, DeviceFormat, PacketAction};
use live_subtitles::config::AppConfig;
use live_subtitles::lifecycle::{model_for_session, SessionController, StartError};
use live_subtitles::mixer::{mix_frames, silence};
use live_subtitles::online_asr::OnlineRecognizerConfig;
use live_subtitles::orchestrator::{DecodeStep, Phase, RecognitionSession};
use live_subtitles::pipeline::FramePipeline;
use live_subtitles::SubtitleEvent;
use std::collections::VecDeque;
use std::path::PathBuf;
use std::sync::mpsc;
use std::sync::Mutex;

/// A recognizer that answers from a script: for each chunk that it is fed,
/// how often it is ready to decode, and what it reports then.
struct ScriptedRecognizer {
    script: VecDeque<(usize, &'static str, bool)>,
    ready_left: usize,
    current: (String, bool),
    fed: Vec<usize>,
    decodes: usize,
    resets: usize,
}

impl ScriptedRecognizer {
    fn new(script: &[(usize, &'static str, bool)]) -> Self {
        ScriptedRecognizer {
            script: script.iter().cloned().collect(),
            ready_left: 0,
            current: (String::new(), false),
            fed: Vec::new(),
            decodes: 0,
            resets: 0,
        }
    }

    fn accept_waveform(&mut self, samples: &[f32]) {
        self.fed.push(samples.len());
        let (ready, text, endpoint) = self.script.pop_front().unwrap_or((0, "", false));
        self.ready_left = ready;
        self.current = (text.to_string(), endpoint);
    }

    fn is_ready(&self) -> bool {
        self.ready_left > 0
    }

    fn decode(&mut self) {
        self.ready_left -= 1;
        self.decodes += 1;
    }

    fn process(&mut self, session: &RecognitionSession, samples: &[f32]) -> (String, bool) {
        self.accept_waveform(samples);
        while session.decode_step(self.is_ready()) == DecodeStep::Decode {
            self.decode();
        }
        self.current.clone()
    }

    fn reset(&mut self) {
        self.resets += 1;
    }
}

fn device() -> DeviceFormat {
    DeviceFormat { sample_rate: 16000, channels: 2, bits_per_sample: 32 }
}

#[test]
fn a_session_from_start_to_stop() {
    let controller = Mutex::new(SessionController::new());
    let config = AppConfig::default();

    // start
    let left_over = controller.lock().unwrap().request_start().map_err(|e| e.message());
    assert_eq!(left_over, Ok(false));
    let model = model_for_session(&config).map_err(|e| e.message()).unwrap().clone();
    let mut capture = capture_for(model.sample_rate, CaptureMode::SystemAudio, "");
    let started = capture.start(Ok(device()));
    let setup = controller.lock().unwrap().capture_started(started).map_err(|e| e.message());
    let setup = setup.unwrap();
    assert!(!setup.resample);
    assert!(controller.lock().unwrap().is_running());
    let online = OnlineRecognizerConfig::for_model(&model, &PathBuf::from("models"))
        .map_err(|e| e.message())
        .unwrap();
    assert_eq!(online.sample_rate, 16000);

    // a second start is rejected and changes nothing
    let second = controller.lock().unwrap().request_start().map_err(|e| e.message());
    assert_eq!(second, Err("Recognition is already running".to_string()));
    assert!(controller.lock().unwrap().is_running());
    assert!(capture.is_capturing());

    // the capture worker: three polls of stereo frames, the second one silent
    let (tx, rx) = mpsc::channel::<Vec<f32>>();
    let channels = setup.channels as usize;
    let average = |frame: &[f32]| frame.iter().sum::<f32>() / channels as f32;
    let never = |_: Vec<f32>| -> Option<Vec<f32>> { None };
    let mut pipeline: FramePipeline<f32> = FramePipeline::new(&setup, 0);
    for (frames, flags) in [(1000u32, 0u32), (600, 2), (448, 0), (0, 0)] {
        let samples = vec![0.25f32; frames as usize * channels];
        let mono = match packet_action(true, frames, flags, setup.format, setup.channels) {
            PacketAction::EndPoll => break,
            PacketAction::Skip => continue,
            PacketAction::Silence => silence(frames as usize, 0.0f32),
            PacketAction::Mix => mix_frames(&samples, channels, average),
        };
        for chunk in pipeline.ingest(mono, &never) {
            tx.send(chunk).unwrap();
        }
    }
    assert_eq!(pipeline.buffered_len(), 0);

    // stop: the flag is cleared, the capture worker is joined, the channel closes
    let stop_capture = controller.lock().unwrap().stop();
    assert!(stop_capture);
    assert!(capture.stop());
    drop(tx);

    // the recognition worker sees the cleared flag at its first chunk
    let mut session = RecognitionSession::new();
    session.start();
    let received = rx.recv().ok();
    let running = controller.lock().map(|c| c.is_running()).unwrap_or(true);
    assert!(received.is_some());
    assert!(!session.receive(received.is_some(), running));
    assert_eq!(session.phase(), Phase::Idle);
    controller.lock().unwrap().worker_exited();
    assert!(!controller.lock().unwrap().is_running());
    assert!(!controller.lock().unwrap().stop());
}

#[test]
fn chunks_become_subtitles_in_order() {
    let (tx, rx) = mpsc::channel::<Vec<f32>>();
    let setup = live_subtitles::capture::CaptureSetup::new(device(), 16000);
    let never = |_: Vec<f32>| -> Option<Vec<f32>> { None };
    let mut pipeline: FramePipeline<f32> = FramePipeline::new(&setup, 0);
    let mut sent = 0;
    for poll in 0..10 {
        for chunk in pipeline.ingest(vec![poll as f32; 512], &never) {
            assert_eq!(chunk.len(), 1024);
            assert_eq!(chunk[0], (poll - 1) as f32);
            assert_eq!(chunk[1023], poll as f32);
            tx.send(chunk).unwrap();
            sent += 1;
        }
    }
    drop(tx);
    assert_eq!(sent, 5);

    let mut recognizer = ScriptedRecognizer::new(&[
        (2, "hi", false),
        (0, "hi", false),
        (1, "hi there", true),
        (3, "", true),
        (1, "bye", false),
    ]);
    let mut session = RecognitionSession::new();
    session.start();
    let mut shown: Vec<(String, bool)> = Vec::new();
    loop {
        let received = rx.recv().ok();
        let samples = match received {
            Some(samples) if session.receive(true, true) => samples,
            Some(_) => break,
            None => {
                session.receive(false, true);
                break;
            }
        };
        let (text, is_endpoint) = recognizer.process(&session, &samples);
        let emission = session.decoded(text, is_endpoint);
        for event in emission.events {
            let event: SubtitleEvent = event;
            shown.push((event.text, event.is_final));
        }
        if emission.reset {
            recognizer.reset();
        }
    }
    assert_eq!(session.phase(), Phase::Idle);
    assert_eq!(recognizer.fed, vec![1024; 5]);
    assert_eq!(recognizer.decodes, 7);
    assert_eq!(recognizer.resets, 2);
    assert_eq!(
        shown,
        vec![
            ("hi".to_string(), false),
            ("hi there".to_string(), false),
            ("hi there".to_string(), true),
            ("bye".to_string(), false),
        ]
    );
}

#[test]
fn failed_recognizer_ends_the_session_and_the_capture() {
    let mut controller = SessionController::new();
    controller.request_start().unwrap();
    let mut capture = capture_for(16000, CaptureMode::Microphone, "input:0:Mic");
    let started = capture.start(Ok(device()));
    controller.capture_started(started).unwrap();

    let made: Result<(), String> =
        Err("Failed to create OnlineRecognizer. Please check your model files.".to_string());
    let e = made.unwrap_err();
    let (stop_capture, error) = controller.recognizer_failed(e.clone());
    assert!(matches!(error, StartError::RecognizerFailed(_)));
    assert_eq!(error.message(), e);
    assert!(stop_capture);
    assert!(capture.stop());
    assert!(!controller.is_running());
    // the next start is admitted, with nothing left over
    assert!(matches!(controller.request_start(), Ok(false)));
}

#[test]
fn failed_device_is_reported_by_the_start() {
    let mut controller = SessionController::new();
    controller.request_start().unwrap();
    let mut capture = capture_for(16000, CaptureMode::SystemAudio, "");
    let started = capture.start(Err("Failed to get default audio endpoint".to_string()));
    let r = controller.capture_started(started).map_err(|e| e.message());
    assert_eq!(
        r,
        Err("Failed to start audio capture: Failed to get default audio endpoint".to_string())
    );
    assert!(!capture.is_capturing());
    assert!(!controller.is_running());
}
