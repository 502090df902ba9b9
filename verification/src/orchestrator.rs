//! The streaming-recognition worker as a state machine.
//!
//! The worker waits for a chunk, feeds it to the recognizer, lets the
//! recognizer decode, and reads the current hypothesis and the endpoint flag.
//! What it then emits follows two rules:
//!
//! - *text rule*: a hypothesis that is not empty and differs from the text
//!   last emitted for this utterance is emitted as a non-final event;
//! - *endpoint rule*: at an endpoint, the text last emitted (if any) is
//!   emitted once more as the final event, and the recognizer is reset.
//!
//! The final event carries the text last emitted, not a hypothesis read anew
//! at the endpoint.

use vstd::prelude::*;
use crate::subtitle::{SubtitleEvent, captions, now_millis};

verus! {

/// Whether the text rule emits `text` when `last` was emitted last.
pub open spec fn is_news(last: Seq<char>, text: Seq<char>) -> bool {
    text.len() > 0 && text != last
}

/// The text last emitted once the text rule has run.
pub open spec fn shown(last: Seq<char>, text: Seq<char>) -> Seq<char> {
    if is_news(last, text) {
        text
    } else {
        last
    }
}

/// The events of one observation, as text and finality.
pub open spec fn step_captions(last: Seq<char>, text: Seq<char>, endpoint: bool) -> Seq<
    (Seq<char>, bool),
> {
    let partial = if is_news(last, text) {
        seq![(text, false)]
    } else {
        Seq::empty()
    };
    let closing = if endpoint && shown(last, text).len() > 0 {
        seq![(shown(last, text), true)]
    } else {
        Seq::empty()
    };
    partial + closing
}

/// The text last emitted for the utterance in progress after one observation.
pub open spec fn step_text(last: Seq<char>, text: Seq<char>, endpoint: bool) -> Seq<char> {
    if endpoint {
        Seq::empty()
    } else {
        shown(last, text)
    }
}

/// The events of a whole run: the hypotheses of `script` observed one after
/// another, starting with `last` as the text last emitted.
pub open spec fn run_captions(last: Seq<char>, script: Seq<(Seq<char>, bool)>) -> Seq<
    (Seq<char>, bool),
>
    decreases script.len(),
{
    if script.len() == 0 {
        Seq::empty()
    } else {
        let (text, endpoint) = script.first();
        step_captions(last, text, endpoint) + run_captions(
            step_text(last, text, endpoint),
            script.drop_first(),
        )
    }
}

/// What one observation asks of the worker.
pub struct Emission {
    /// The events to emit, in this order.
    pub events: Vec<SubtitleEvent>,
    /// Whether the recognizer is to be reset for the next utterance.
    pub reset: bool,
}

/// The utterance in progress: the text last emitted for it.
pub struct Utterance {
    last_text: String,
}

impl View for Utterance {
    type V = Seq<char>;

    closed spec fn view(&self) -> Seq<char> {
        self.last_text@
    }
}

impl Utterance {
    /// An utterance for which nothing was emitted yet.
    pub fn new() -> (r: Self)
        ensures
            r@ == Seq::<char>::empty(),
    {
        Utterance { last_text: String::new() }
    }

    /// Applies the text rule and the endpoint rule to one hypothesis, with
    /// `timestamp` on the events.
    pub fn observe_at(&mut self, text: String, is_endpoint: bool, timestamp: u64) -> (r: Emission)
        ensures
            final(self)@ == step_text(old(self)@, text@, is_endpoint),
            captions(r.events@) == step_captions(old(self)@, text@, is_endpoint),
            forall|i: int|
                0 <= i < r.events@.len() ==> (#[trigger] r.events@[i]).timestamp == timestamp,
            r.reset == is_endpoint,
    {
        let mut events: Vec<SubtitleEvent> = Vec::new();
        if !text.as_str().is_empty() && !(text == self.last_text) {
            events.push(SubtitleEvent::at(text.clone(), false, timestamp));
            self.last_text = text;
        }
        if is_endpoint {
            if !self.last_text.as_str().is_empty() {
                events.push(SubtitleEvent::at(self.last_text.clone(), true, timestamp));
            }
            self.last_text = String::new();
        }
        proof {
            assert(captions(events@) =~= step_captions(old(self)@, text@, is_endpoint));
        }
        Emission { events, reset: is_endpoint }
    }

    /// Applies the text rule and the endpoint rule to one hypothesis, with
    /// the current time on the events.
    pub fn observe(&mut self, text: String, is_endpoint: bool) -> (r: Emission)
        ensures
            final(self)@ == step_text(old(self)@, text@, is_endpoint),
            captions(r.events@) == step_captions(old(self)@, text@, is_endpoint),
            r.reset == is_endpoint,
    {
        self.observe_at(text, is_endpoint, now_millis())
    }
}

/// Where the worker stands.
#[derive(Clone, Copy, Debug, PartialEq, Eq, Structural)]
pub enum Phase {
    /// No session: the recognizer is not made yet, or is torn down.
    Idle,
    /// Waiting for the next chunk.
    Listening,
    /// A chunk is with the recognizer.
    Decoding,
}

/// What the worker does next with the chunk that is with the recognizer.
#[derive(Clone, Copy, Debug, PartialEq, Eq, Structural)]
pub enum DecodeStep {
    /// Run one decode step, then ask the recognizer again.
    Decode,
    /// Read the hypothesis and the endpoint flag.
    Read,
}

/// A recognition session as plain values.
pub ghost struct SessionState {
    pub phase: Phase,
    pub last_text: Seq<char>,
}

impl SessionState {
    /// The state before a session and after it.
    pub open spec fn idle() -> Self {
        SessionState { phase: Phase::Idle, last_text: Seq::empty() }
    }

    /// The recognizer was made: an idle worker starts to listen.
    pub open spec fn started(self) -> Self {
        if self.phase == Phase::Idle {
            SessionState { phase: Phase::Listening, last_text: Seq::empty() }
        } else {
            self
        }
    }

    /// Whether a listening worker goes on to decode: a chunk arrived and the
    /// session is still meant to run.
    pub open spec fn proceeds(self, chunk_arrived: bool, running: bool) -> bool {
        self.phase == Phase::Listening && chunk_arrived && running
    }

    /// The wait for a chunk ended.
    pub open spec fn received(self, chunk_arrived: bool, running: bool) -> Self {
        if self.proceeds(chunk_arrived, running) {
            SessionState { phase: Phase::Decoding, ..self }
        } else {
            Self::idle()
        }
    }

    /// The recognizer reported its hypothesis for the chunk.
    pub open spec fn decoded(self, text: Seq<char>, endpoint: bool) -> Self {
        if self.phase == Phase::Decoding {
            SessionState {
                phase: Phase::Listening,
                last_text: step_text(self.last_text, text, endpoint),
            }
        } else {
            self
        }
    }

    /// The events that the hypothesis gives rise to.
    pub open spec fn decoded_captions(self, text: Seq<char>, endpoint: bool) -> Seq<
        (Seq<char>, bool),
    > {
        if self.phase == Phase::Decoding {
            step_captions(self.last_text, text, endpoint)
        } else {
            Seq::empty()
        }
    }
}

/// The recognition worker's state: its phase and the utterance in progress.
pub struct RecognitionSession {
    phase: Phase,
    utterance: Utterance,
}

impl View for RecognitionSession {
    type V = SessionState;

    closed spec fn view(&self) -> SessionState {
        SessionState { phase: self.phase, last_text: self.utterance@ }
    }
}

impl RecognitionSession {
    /// An idle worker.
    pub fn new() -> (r: Self)
        ensures
            r@ == SessionState::idle(),
    {
        RecognitionSession { phase: Phase::Idle, utterance: Utterance::new() }
    }

    /// Where the worker stands.
    pub fn phase(&self) -> (p: Phase)
        ensures
            p == self@.phase,
    {
        self.phase
    }

    /// The recognizer was made; the worker starts to listen. A worker that
    /// is not idle stays as it is.
    pub fn start(&mut self)
        ensures
            final(self)@ == old(self)@.started(),
    {
        if self.phase == Phase::Idle {
            self.phase = Phase::Listening;
            self.utterance = Utterance::new();
        }
    }

    /// The wait for a chunk ended: with a chunk or with the channel closed,
    /// and with the running flag as it was then observed. Returns whether
    /// the worker is to feed the chunk to the recognizer. Where it is not,
    /// the session is over and the recognizer is to be torn down.
    pub fn receive(&mut self, chunk_arrived: bool, running: bool) -> (decode: bool)
        ensures
            decode == old(self)@.proceeds(chunk_arrived, running),
            final(self)@ == old(self)@.received(chunk_arrived, running),
    {
        if self.phase == Phase::Listening && chunk_arrived && running {
            self.phase = Phase::Decoding;
            true
        } else {
            self.phase = Phase::Idle;
            self.utterance = Utterance::new();
            false
        }
    }

    /// The chunk was fed, or a decode step has run, and the recognizer says
    /// whether it is ready for a decode step. For as long as it is, the
    /// worker decodes; then it reads the result. Outside the decoding phase
    /// there is nothing to decode.
    pub fn decode_step(&self, ready: bool) -> (r: DecodeStep)
        ensures
            r == if self@.phase == Phase::Decoding && ready {
                DecodeStep::Decode
            } else {
                DecodeStep::Read
            },
    {
        if self.phase == Phase::Decoding && ready {
            DecodeStep::Decode
        } else {
            DecodeStep::Read
        }
    }

    /// The recognizer decoded the chunk and reports `text` as its hypothesis
    /// and `is_endpoint` as its endpoint flag. Returns the events to emit,
    /// stamped `timestamp`, and whether to reset the recognizer. Outside the
    /// decoding phase nothing is emitted and nothing changes.
    pub fn decoded_at(&mut self, text: String, is_endpoint: bool, timestamp: u64) -> (r: Emission)
        ensures
            final(self)@ == old(self)@.decoded(text@, is_endpoint),
            captions(r.events@) == old(self)@.decoded_captions(text@, is_endpoint),
            forall|i: int|
                0 <= i < r.events@.len() ==> (#[trigger] r.events@[i]).timestamp == timestamp,
            r.reset == (old(self)@.phase == Phase::Decoding && is_endpoint),
    {
        if self.phase == Phase::Decoding {
            self.phase = Phase::Listening;
            self.utterance.observe_at(text, is_endpoint, timestamp)
        } else {
            let events: Vec<SubtitleEvent> = Vec::new();
            proof {
                assert(captions(events@) =~= Seq::<(Seq<char>, bool)>::empty());
            }
            Emission { events, reset: false }
        }
    }

    /// As [`RecognitionSession::decoded_at`], with the current time on the
    /// events.
    pub fn decoded(&mut self, text: String, is_endpoint: bool) -> (r: Emission)
        ensures
            final(self)@ == old(self)@.decoded(text@, is_endpoint),
            captions(r.events@) == old(self)@.decoded_captions(text@, is_endpoint),
            r.reset == (old(self)@.phase == Phase::Decoding && is_endpoint),
    {
        self.decoded_at(text, is_endpoint, now_millis())
    }
}

/// The endpoint law. A hypothesis with text, then an endpoint, gives exactly
/// one non-final event with that text and then one final event with it,
/// whether the endpoint comes with the same observation or with the next;
/// after the endpoint nothing is left of the utterance. An endpoint with
/// nothing emitted before it gives no event.
pub proof fn lemma_text_then_endpoint(text: Seq<char>)
    requires
        text.len() > 0,
    ensures
        step_captions(Seq::empty(), text, false) == seq![(text, false)],
        step_text(Seq::empty(), text, false) == text,
        step_captions(text, text, true) == seq![(text, true)],
        step_text(text, text, true) == Seq::<char>::empty(),
        step_captions(Seq::empty(), text, true) == seq![(text, false), (text, true)],
        step_captions(Seq::empty(), Seq::empty(), true) == Seq::<(Seq<char>, bool)>::empty(),
        run_captions(Seq::empty(), seq![(text, false), (text, true), (Seq::empty(), true)])
            == seq![(text, false), (text, true)],
{
    let none = Seq::<char>::empty();
    assert(step_captions(none, text, false) =~= seq![(text, false)]);
    assert(step_captions(text, text, true) =~= seq![(text, true)]);
    assert(step_captions(none, text, true) =~= seq![(text, false), (text, true)]);
    assert(step_captions(none, none, true) =~= Seq::<(Seq<char>, bool)>::empty());
    let script = seq![(text, false), (text, true), (none, true)];
    let second = script.drop_first();
    let third = second.drop_first();
    assert(third.drop_first() =~= Seq::<(Seq<char>, bool)>::empty());
    assert(run_captions(none, third.drop_first()) =~= Seq::<(Seq<char>, bool)>::empty());
    assert(run_captions(none, third) =~= Seq::<(Seq<char>, bool)>::empty());
    assert(run_captions(text, second) =~= seq![(text, true)]);
    assert(run_captions(none, script) =~= seq![(text, false), (text, true)]);
}

/// Events come in order, and a final event only repeats what was shown: in
/// every run, a final event carries text, and it stands right behind a
/// non-final event with the same text, or first in the run with the text
/// that was last emitted before the run. So no utterance ends twice, and an
/// utterance without text ends without an event.
pub proof fn lemma_final_repeats_last_partial(
    last: Seq<char>,
    script: Seq<(Seq<char>, bool)>,
    k: int,
)
    requires
        0 <= k < run_captions(last, script).len(),
        run_captions(last, script)[k].1,
    ensures
        run_captions(last, script)[k].0.len() > 0,
        k == 0 ==> run_captions(last, script)[k].0 == last,
        k > 0 ==> run_captions(last, script)[k - 1] == (run_captions(last, script)[k].0, false),
    decreases script.len(),
{
    let (text, endpoint) = script.first();
    let head = step_captions(last, text, endpoint);
    let next = step_text(last, text, endpoint);
    let tail = run_captions(next, script.drop_first());
    assert(run_captions(last, script) == head + tail);
    if k >= head.len() {
        lemma_final_repeats_last_partial(next, script.drop_first(), k - head.len());
    }
}

/// Non-final events change the text: in every run, a non-final event never
/// carries the text of the non-final event right before it, and the first
/// event of a run, if it is not final, does not repeat the text that was
/// last emitted before the run.
pub proof fn lemma_partials_change(last: Seq<char>, script: Seq<(Seq<char>, bool)>, k: int)
    requires
        0 <= k < run_captions(last, script).len(),
        !run_captions(last, script)[k].1,
    ensures
        run_captions(last, script)[k].0.len() > 0,
        k == 0 ==> run_captions(last, script)[k].0 != last,
        k > 0 && !run_captions(last, script)[k - 1].1 ==> run_captions(last, script)[k].0
            != run_captions(last, script)[k - 1].0,
    decreases script.len(),
{
    let (text, endpoint) = script.first();
    let head = step_captions(last, text, endpoint);
    let next = step_text(last, text, endpoint);
    let tail = run_captions(next, script.drop_first());
    assert(run_captions(last, script) == head + tail);
    if k >= head.len() {
        lemma_partials_change(next, script.drop_first(), k - head.len());
    }
}

} // verus!
