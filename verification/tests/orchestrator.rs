use live_subtitles::orchestrator::{
    DecodeStep, Emission, Phase, RecognitionSession, Utterance,
};
use live_subtitles::subtitle::{stamp_of, SubtitleEvent};
use std::time::{SystemTime, UNIX_EPOCH};

fn now_millis() -> u64 {
    SystemTime::now().duration_since(UNIX_EPOCH).unwrap().as_millis() as u64
}

fn captions(emission: &Emission) -> Vec<(String, bool)> {
    emission.events.iter().map(|e| (e.text.clone(), e.is_final)).collect()
}

fn partial(text: &str) -> (String, bool) {
    (text.to_string(), false)
}

fn closing(text: &str) -> (String, bool) {
    (text.to_string(), true)
}

#[test]
fn scripted_hi_then_endpoint() {
    let mut utterance = Utterance::new();
    let first = utterance.observe("hi".to_string(), false);
    assert_eq!(captions(&first), vec![partial("hi")]);
    assert!(!first.reset);
    let second = utterance.observe("hi".to_string(), true);
    assert_eq!(captions(&second), vec![closing("hi")]);
    assert!(second.reset);
    let third = utterance.observe(String::new(), true);
    assert!(third.events.is_empty());
    assert!(third.reset);
}

#[test]
fn text_and_endpoint_in_one_observation() {
    let mut utterance = Utterance::new();
    let out = utterance.observe_at("hi".to_string(), true, 42);
    assert_eq!(captions(&out), vec![partial("hi"), closing("hi")]);
    assert!(out.events.iter().all(|e| e.timestamp == 42));
    assert!(out.reset);
    // nothing is left of the utterance
    let next = utterance.observe_at(String::new(), true, 43);
    assert!(next.events.is_empty());
}

#[test]
fn unchanged_hypothesis_is_not_emitted_again() {
    let mut utterance = Utterance::new();
    assert_eq!(captions(&utterance.observe("hello".to_string(), false)), vec![partial("hello")]);
    let again = utterance.observe("hello".to_string(), false);
    assert!(again.events.is_empty());
    assert!(!again.reset);
}

#[test]
fn changed_hypothesis_is_emitted() {
    let mut utterance = Utterance::new();
    utterance.observe("hello".to_string(), false);
    let out = utterance.observe("hello world".to_string(), false);
    assert_eq!(captions(&out), vec![partial("hello world")]);
    let back = utterance.observe("hello".to_string(), false);
    assert_eq!(captions(&back), vec![partial("hello")]);
}

#[test]
fn empty_hypothesis_is_never_emitted() {
    let mut utterance = Utterance::new();
    assert!(utterance.observe(String::new(), false).events.is_empty());
    utterance.observe("a".to_string(), false);
    // an empty hypothesis does not replace what was shown
    assert!(utterance.observe(String::new(), false).events.is_empty());
    let end = utterance.observe(String::new(), true);
    assert_eq!(captions(&end), vec![closing("a")]);
}

#[test]
fn final_event_carries_the_text_last_emitted() {
    let mut utterance = Utterance::new();
    utterance.observe("good morning".to_string(), false);
    // the hypothesis at the endpoint is empty; the final text is the one shown
    let end = utterance.observe(String::new(), true);
    assert_eq!(captions(&end), vec![closing("good morning")]);
    assert!(end.reset);
}

#[test]
fn utterances_follow_each_other() {
    let mut utterance = Utterance::new();
    let mut all: Vec<(String, bool)> = Vec::new();
    let script = [("a", false), ("ab", false), ("ab", true), ("", false), ("c", true), ("", true)];
    for (text, endpoint) in script {
        all.extend(captions(&utterance.observe(text.to_string(), endpoint)));
    }
    assert_eq!(
        all,
        vec![partial("a"), partial("ab"), closing("ab"), partial("c"), closing("c")]
    );
    // every final event stands right behind a non-final one with its text
    for k in 0..all.len() {
        if all[k].1 {
            assert!(k > 0);
            assert_eq!(all[k - 1], (all[k].0.clone(), false));
        }
    }
}

#[test]
fn observe_stamps_with_the_clock() {
    let before = now_millis();
    let mut utterance = Utterance::new();
    let out = utterance.observe("now".to_string(), true);
    let after = now_millis();
    assert_eq!(out.events.len(), 2);
    for e in &out.events {
        assert!(before <= e.timestamp && e.timestamp <= after);
    }
    // later than 2020-01-01
    assert!(before > 1_577_836_800_000);
}

#[test]
fn subtitle_event_constructors() {
    let e = SubtitleEvent::at("x".to_string(), true, 5);
    assert_eq!((e.text.as_str(), e.is_final, e.timestamp), ("x", true, 5));
    let copy = e.duplicate();
    assert_eq!((copy.text.as_str(), copy.is_final, copy.timestamp), ("x", true, 5));
    let before = now_millis();
    let n = SubtitleEvent::new("y".to_string(), false);
    assert_eq!((n.text.as_str(), n.is_final), ("y", false));
    assert!(n.timestamp >= before);
}

#[test]
fn session_walks_its_phases() {
    let mut session = RecognitionSession::new();
    assert_eq!(session.phase(), Phase::Idle);
    session.start();
    assert_eq!(session.phase(), Phase::Listening);
    assert!(session.receive(true, true));
    assert_eq!(session.phase(), Phase::Decoding);
    let out = session.decoded_at("hello".to_string(), false, 7);
    assert_eq!(session.phase(), Phase::Listening);
    assert_eq!(captions(&out), vec![partial("hello")]);
    assert_eq!(out.events[0].timestamp, 7);
    assert!(!session.receive(false, true));
    assert_eq!(session.phase(), Phase::Idle);
}

#[test]
fn session_ends_when_the_channel_closes_or_the_flag_is_cleared() {
    for (chunk_arrived, running) in [(false, true), (true, false), (false, false)] {
        let mut session = RecognitionSession::new();
        session.start();
        assert!(!session.receive(chunk_arrived, running));
        assert_eq!(session.phase(), Phase::Idle);
    }
}

#[test]
fn session_emits_only_while_decoding() {
    let mut session = RecognitionSession::new();
    // idle
    let out = session.decoded("early".to_string(), true);
    assert!(out.events.is_empty());
    assert!(!out.reset);
    assert_eq!(session.phase(), Phase::Idle);
    // listening
    session.start();
    let out = session.decoded("early".to_string(), true);
    assert!(out.events.is_empty());
    assert!(!out.reset);
    assert_eq!(session.phase(), Phase::Listening);
    // an idle worker does not decode
    let mut idle = RecognitionSession::new();
    assert!(!idle.receive(true, true));
}

#[test]
fn session_runs_the_scripted_recognizer() {
    let mut session = RecognitionSession::new();
    session.start();
    let mut all: Vec<(String, bool)> = Vec::new();
    let mut resets = 0;
    for (text, endpoint) in [("hi", false), ("hi", true), ("", true)] {
        assert!(session.receive(true, true));
        let out = session.decoded(text.to_string(), endpoint);
        all.extend(captions(&out));
        if out.reset {
            resets += 1;
        }
    }
    assert_eq!(all, vec![partial("hi"), closing("hi")]);
    assert_eq!(resets, 2);
}

#[test]
fn a_new_session_starts_without_text() {
    let mut session = RecognitionSession::new();
    session.start();
    session.receive(true, true);
    session.decoded("left over".to_string(), false);
    // the session ends with an utterance open
    assert!(!session.receive(false, true));
    session.start();
    session.receive(true, true);
    let out = session.decoded(String::new(), true);
    assert!(out.events.is_empty());
    assert!(out.reset);
}

#[test]
fn start_does_not_disturb_a_running_session() {
    let mut session = RecognitionSession::new();
    session.start();
    session.receive(true, true);
    session.start();
    assert_eq!(session.phase(), Phase::Decoding);
}

#[test]
fn worker_decodes_for_as_long_as_the_recognizer_is_ready() {
    let mut session = RecognitionSession::new();
    assert_eq!(session.decode_step(true), DecodeStep::Read);
    session.start();
    assert_eq!(session.decode_step(true), DecodeStep::Read);
    session.receive(true, true);
    // a scripted recognizer that is ready three times
    let mut decodes = 0;
    let mut ready = vec![false, true, true, true];
    while session.decode_step(ready.pop().unwrap()) == DecodeStep::Decode {
        decodes += 1;
    }
    assert_eq!(decodes, 3);
    assert_eq!(session.phase(), Phase::Decoding);
    assert_eq!(session.decode_step(false), DecodeStep::Read);
}

#[test]
fn timestamp_is_the_clock_reading_or_zero() {
    assert_eq!(stamp_of(Some(1_700_000_000_123)), 1_700_000_000_123);
    assert_eq!(stamp_of(Some(0)), 0);
    assert_eq!(stamp_of(Some(u64::MAX)), u64::MAX);
    assert_eq!(stamp_of(None), 0);
}
