//! Segment-wise recognition behind a voice-activity detector: which
//! recognizer a model gets, how audio is cut into the detector's windows,
//! and what counts as recognized text.

use vstd::prelude::*;
use crate::config::{AsrModelConfig, AsrModelType};
use crate::text::{trimmed, trim};

verus! {

/// The recognizers that can be made.
#[derive(Debug, Clone, Copy, PartialEq, Eq, Structural)]
pub enum RecognizerKind {
    /// The zipformer transducer.
    ZipFormer,
}

/// Why no recognizer can be made for a kind of model.
pub open spec fn refusal_of(model_type: AsrModelType) -> Seq<char> {
    match model_type {
        AsrModelType::Transducer { .. } => Seq::empty(),
        AsrModelType::Paraformer { .. } => "Paraformer model is not yet implemented"@,
        AsrModelType::Whisper { .. } => "Whisper model is not yet implemented"@,
        AsrModelType::SenseVoice { .. } => "SenseVoice model is not yet implemented"@,
    }
}

/// Chooses the recognizer for a model: a transducer is recognized with the
/// zipformer; for the other kinds there is no recognizer yet.
pub fn create_recognizer(config: &AsrModelConfig) -> (r: Result<RecognizerKind, String>)
    ensures
        r is Ok <==> config.model_type is Transducer,
        r is Ok ==> r->Ok_0 == RecognizerKind::ZipFormer,
        r is Err ==> r->Err_0@ == refusal_of(config.model_type),
{
    match &config.model_type {
        AsrModelType::Transducer { .. } => Ok(RecognizerKind::ZipFormer),
        AsrModelType::Paraformer { .. } => Err(
            "Paraformer model is not yet implemented".to_owned(),
        ),
        AsrModelType::Whisper { .. } => Err("Whisper model is not yet implemented".to_owned()),
        AsrModelType::SenseVoice { .. } => Err(
            "SenseVoice model is not yet implemented".to_owned(),
        ),
    }
}

/// What a recognizer's raw output counts for: the text without the white
/// space around it, or nothing where no text is left.
pub fn recognized_text(raw: &str) -> (r: Option<String>)
    ensures
        trimmed(raw@).len() == 0 ==> r is None,
        trimmed(raw@).len() > 0 ==> r is Some && r->0@ == trimmed(raw@),
{
    let text = trim(raw);
    if text.is_empty() {
        None
    } else {
        Some(text.to_owned())
    }
}

/// Number of samples in one window of the voice-activity detector.
pub const VAD_WINDOW: usize = 512;

/// Number of windows that `len` samples are cut into.
pub open spec fn window_count(len: nat) -> nat {
    if len % 512 == 0 {
        len / 512
    } else {
        len / 512 + 1
    }
}

/// Window `i` of `samples`: 512 samples, the last window filled up with
/// `zero`.
pub open spec fn window<T>(samples: Seq<T>, zero: T, i: int) -> Seq<T> {
    Seq::new(
        512,
        |j: int|
            if i * 512 + j < samples.len() {
                samples[i * 512 + j]
            } else {
                zero
            },
    )
}

/// Cuts `samples` into the windows that the voice-activity detector takes,
/// in order. A last window that the samples do not fill is filled up with
/// `zero`.
pub fn vad_windows<T: Copy>(samples: &[T], zero: T) -> (r: Vec<Vec<T>>)
    ensures
        r@.len() == window_count(samples@.len()),
        forall|i: int| 0 <= i < r@.len() ==> (#[trigger] r@[i])@ == window(samples@, zero, i),
{
    let len = samples.len();
    let mut out: Vec<Vec<T>> = Vec::new();
    let mut start: usize = 0;
    while start < len
        invariant
            len == samples@.len(),
            start <= len,
            start < len ==> start == out@.len() * 512,
            start == len ==> out@.len() == window_count(len as nat),
            forall|i: int|
                0 <= i < out@.len() ==> (#[trigger] out@[i])@ == window(samples@, zero, i),
        decreases len - start,
    {
        let ghost k = out@.len() as int;
        let mut one: Vec<T> = Vec::new();
        let mut j: usize = 0;
        while j < VAD_WINDOW
            invariant
                j <= 512,
                len == samples@.len(),
                start < len,
                start == k * 512,
                one@.len() == j,
                forall|x: int|
                    0 <= x < j ==> #[trigger] one@[x] == if k * 512 + x < samples@.len() {
                        samples@[k * 512 + x]
                    } else {
                        zero
                    },
            decreases 512 - j,
        {
            if j < len - start {
                one.push(samples[start + j]);
            } else {
                one.push(zero);
            }
            j += 1;
        }
        proof {
            assert(one@ =~= window(samples@, zero, k));
        }
        out.push(one);
        if len - start <= VAD_WINDOW {
            start = len;
        } else {
            start = start + VAD_WINDOW;
        }
    }
    out
}

} // verus!
