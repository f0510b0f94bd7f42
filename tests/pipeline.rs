use ezwhisper::capture::RecordingBuffer;
use ezwhisper::config::RewriteMode;
use ezwhisper::input::InputEvent;
use ezwhisper::orchestrator::{AppStatus, Command, Event, Orchestrator};
use ezwhisper::service::ServiceError;
use ezwhisper::wav::decode;

/// What the stub collaborators saw during one session.
struct Trace {
    transcribe_calls: usize,
    rewrite_calls: usize,
    injected: Vec<String>,
    statuses: Vec<AppStatus>,
}

/// Runs the commands that `first` leads to, answering each one with the
/// stubs, until the controller asks for nothing more.
fn run(
    orch: &mut Orchestrator,
    buffer: &mut RecordingBuffer,
    capture: &dyn Fn(&mut RecordingBuffer),
    transcribe: &dyn Fn(&[u8]) -> Result<String, ServiceError>,
    rewrite: &dyn Fn(&str) -> Result<String, ServiceError>,
    first: Event,
    trace: &mut Trace,
) {
    let mut cmd = orch.step(first);
    trace.statuses.push(orch.status());
    loop {
        let event = match cmd {
            Command::Nothing => break,
            Command::Arm => {
                buffer.arm();
                capture(buffer);
                Event::ArmResult(true)
            }
            Command::DrainAndEncode => Event::Encoded(buffer.finish(16000, 1).ok()),
            Command::Transcribe(clip) => {
                trace.transcribe_calls += 1;
                Event::Transcribed(transcribe(&clip))
            }
            Command::Rewrite(_, text) => {
                trace.rewrite_calls += 1;
                Event::Rewritten(rewrite(&text))
            }
            Command::Inject(text) => {
                trace.injected.push(text);
                Event::Injected
            }
        };
        cmd = orch.step(event);
        trace.statuses.push(orch.status());
    }
}

fn new_trace() -> Trace {
    Trace { transcribe_calls: 0, rewrite_calls: 0, injected: Vec::new(), statuses: Vec::new() }
}

fn sine_samples(seconds: usize, rate: usize) -> Vec<i16> {
    (0..seconds * rate)
        .map(|i| {
            let x = (2.0 * std::f32::consts::PI * 440.0 * i as f32 / rate as f32).sin() * 0.5;
            (x * i16::MAX as f32) as i16
        })
        .collect()
}

fn session(
    mode: RewriteMode,
    capture: &dyn Fn(&mut RecordingBuffer),
    transcribe: &dyn Fn(&[u8]) -> Result<String, ServiceError>,
    rewrite: &dyn Fn(&str) -> Result<String, ServiceError>,
) -> (Orchestrator, Trace) {
    let mut orch = Orchestrator::new(mode);
    let mut buffer = RecordingBuffer::new();
    let mut trace = new_trace();
    let press = Event::Trigger(InputEvent::TriggerPressed);
    let release = Event::Trigger(InputEvent::TriggerReleased);
    run(&mut orch, &mut buffer, capture, transcribe, rewrite, press, &mut trace);
    assert_eq!(orch.status(), AppStatus::Recording);
    run(&mut orch, &mut buffer, capture, transcribe, rewrite, release, &mut trace);
    assert!(!buffer.is_armed());
    assert_eq!(buffer.len(), 0);
    (orch, trace)
}

#[test]
fn sine_wave_session_inserts_transcript() {
    let capture = |b: &mut RecordingBuffer| b.append(&sine_samples(2, 16000));
    let transcribe = |clip: &[u8]| {
        let decoded = decode(&clip.to_vec()).expect("a WAV file");
        assert_eq!(decoded.channels, 1);
        assert_eq!(decoded.sample_rate, 16000);
        assert_eq!(decoded.samples, sine_samples(2, 16000));
        Ok("hello world".to_string())
    };
    let rewrite = |_: &str| -> Result<String, ServiceError> { panic!("no rewrite is configured") };
    let (orch, trace) = session(RewriteMode::Off, &capture, &transcribe, &rewrite);
    assert_eq!(trace.transcribe_calls, 1);
    assert_eq!(trace.injected, vec!["hello world".to_string()]);
    assert_eq!(orch.status(), AppStatus::Idle);
    assert!(trace.statuses.contains(&AppStatus::Transcribing));
}

#[test]
fn empty_recording_makes_no_call() {
    let capture = |_: &mut RecordingBuffer| {};
    let transcribe = |_: &[u8]| -> Result<String, ServiceError> { panic!("no call for no audio") };
    let rewrite = |_: &str| -> Result<String, ServiceError> { panic!("no rewrite") };
    let (orch, trace) = session(RewriteMode::Cleanup, &capture, &transcribe, &rewrite);
    assert_eq!(trace.transcribe_calls, 0);
    assert!(trace.injected.is_empty());
    assert_eq!(orch.status(), AppStatus::Idle);
}

#[test]
fn transcription_error_injects_nothing() {
    let capture = |b: &mut RecordingBuffer| b.append(&[1, 2, 3]);
    let transcribe = |_: &[u8]| -> Result<String, ServiceError> {
        Err(ServiceError::Transport("connection refused".to_string()))
    };
    let rewrite = |_: &str| -> Result<String, ServiceError> { panic!("no rewrite") };
    let (orch, trace) = session(RewriteMode::Off, &capture, &transcribe, &rewrite);
    assert_eq!(trace.transcribe_calls, 1);
    assert!(trace.injected.is_empty());
    assert_eq!(orch.status(), AppStatus::Idle);
}

#[test]
fn failed_rewrite_injects_original_transcript() {
    let capture = |b: &mut RecordingBuffer| b.append(&[5, -5, 7]);
    let transcribe = |_: &[u8]| -> Result<String, ServiceError> { Ok("um hello there".to_string()) };
    let rewrite = |_: &str| -> Result<String, ServiceError> {
        Err(ServiceError::Status { code: 500, body: "overloaded".to_string() })
    };
    let (orch, trace) = session(RewriteMode::Cleanup, &capture, &transcribe, &rewrite);
    assert_eq!(trace.rewrite_calls, 1);
    assert_eq!(trace.injected, vec!["um hello there".to_string()]);
    assert_eq!(orch.status(), AppStatus::Idle);
}

#[test]
fn successful_rewrite_is_injected() {
    let capture = |b: &mut RecordingBuffer| b.append(&[5, -5, 7]);
    let transcribe = |_: &[u8]| -> Result<String, ServiceError> { Ok("hola".to_string()) };
    let rewrite = |_: &str| -> Result<String, ServiceError> { Ok("Hello.".to_string()) };
    let (_, trace) = session(RewriteMode::Translate, &capture, &transcribe, &rewrite);
    assert_eq!(trace.injected, vec!["Hello.".to_string()]);
}

#[test]
fn empty_transcript_injects_nothing() {
    let capture = |b: &mut RecordingBuffer| b.append(&[9]);
    let transcribe = |_: &[u8]| -> Result<String, ServiceError> { Ok(String::new()) };
    let rewrite = |_: &str| -> Result<String, ServiceError> { panic!("no rewrite") };
    let (orch, trace) = session(RewriteMode::Cleanup, &capture, &transcribe, &rewrite);
    assert!(trace.injected.is_empty());
    assert_eq!(orch.status(), AppStatus::Idle);
}

#[test]
fn trigger_while_transcribing_is_ignored() {
    let mut orch = Orchestrator::new(RewriteMode::Off);
    assert_eq!(orch.step(Event::Trigger(InputEvent::TriggerPressed)), Command::Arm);
    assert_eq!(orch.step(Event::ArmResult(true)), Command::Nothing);
    assert_eq!(orch.step(Event::Trigger(InputEvent::TriggerReleased)), Command::DrainAndEncode);
    assert_eq!(orch.status(), AppStatus::Transcribing);
    assert_eq!(orch.step(Event::Trigger(InputEvent::TriggerPressed)), Command::Nothing);
    assert_eq!(orch.step(Event::Trigger(InputEvent::TriggerReleased)), Command::Nothing);
    assert_eq!(orch.status(), AppStatus::Transcribing);
    assert_eq!(orch.step(Event::Encoded(Some(vec![1, 2]))), Command::Transcribe(vec![1, 2]));
    assert_eq!(orch.step(Event::Trigger(InputEvent::TriggerPressed)), Command::Nothing);
    assert_eq!(orch.status(), AppStatus::Transcribing);
    assert_eq!(
        orch.step(Event::Transcribed(Ok("x".to_string()))),
        Command::Inject("x".to_string())
    );
    assert_eq!(orch.step(Event::Injected), Command::Nothing);
    assert_eq!(orch.status(), AppStatus::Idle);
}

#[test]
fn failed_arming_stays_idle() {
    let mut orch = Orchestrator::new(RewriteMode::Off);
    assert_eq!(orch.step(Event::Trigger(InputEvent::TriggerPressed)), Command::Arm);
    assert_eq!(orch.step(Event::ArmResult(false)), Command::Nothing);
    assert_eq!(orch.status(), AppStatus::Idle);
    assert_eq!(orch.step(Event::Trigger(InputEvent::TriggerReleased)), Command::Nothing);
    assert_eq!(orch.status(), AppStatus::Idle);
}

#[test]
fn failed_encoding_returns_to_idle() {
    let mut orch = Orchestrator::new(RewriteMode::Off);
    orch.step(Event::Trigger(InputEvent::TriggerPressed));
    orch.step(Event::ArmResult(true));
    orch.step(Event::Trigger(InputEvent::TriggerReleased));
    assert_eq!(orch.step(Event::Encoded(None)), Command::Nothing);
    assert_eq!(orch.status(), AppStatus::Idle);
}

#[test]
fn second_press_while_recording_is_ignored() {
    let mut orch = Orchestrator::new(RewriteMode::Off);
    orch.step(Event::Trigger(InputEvent::TriggerPressed));
    orch.step(Event::ArmResult(true));
    assert_eq!(orch.step(Event::Trigger(InputEvent::TriggerPressed)), Command::Nothing);
    assert_eq!(orch.status(), AppStatus::Recording);
}
