//! The configuration of the streaming recognizer.
//!
//! The recognizer itself is an outside engine. It is made from the paths of
//! a transducer model's files, the audio format it is fed, and the rules by
//! which it detects the end of an utterance.

use vstd::prelude::*;
use std::path::PathBuf;
use crate::config::{AsrModelConfig, ModelFiles, files_of, path_units};
use crate::lifecycle::StartError;

verus! {

/// Dimension of the features the recognizer computes from the audio.
pub const FEATURE_DIM: i32 = 80;

/// Trailing silence, in milliseconds, that ends a sentence.
pub const SENTENCE_END_SILENCE_MS: u32 = 2400;

/// Trailing silence, in milliseconds, that ends an utterance at a pause in
/// mid-speech.
pub const PAUSE_SILENCE_MS: u32 = 1200;

/// Length, in milliseconds, from which an utterance is ended by force.
pub const UTTERANCE_LENGTH_MS: u32 = 20000;

/// What a streaming recognizer is made from. Durations are in milliseconds.
#[derive(Debug, Clone)]
pub struct OnlineRecognizerConfig {
    /// Path of the encoder model.
    pub encoder: String,
    /// Path of the decoder model.
    pub decoder: String,
    /// Path of the joiner model.
    pub joiner: String,
    /// Path of the tokens file.
    pub tokens: String,
    /// Sample rate of the audio that is fed.
    pub sample_rate: i32,
    /// Dimension of the features.
    pub feature_dim: i32,
    /// Number of threads for inference.
    pub num_threads: i32,
    /// Whether endpoints are detected.
    pub enable_endpoint: bool,
    /// Rule 1: trailing silence that ends a sentence.
    pub rule1_min_trailing_silence_ms: u32,
    /// Rule 2: trailing silence that ends an utterance at a pause.
    pub rule2_min_trailing_silence_ms: u32,
    /// Rule 3: length from which an utterance is ended.
    pub rule3_min_utterance_length_ms: u32,
    /// How hypotheses are searched.
    pub decoding_method: String,
    /// Whether the engine logs what it does.
    pub debug: bool,
}

/// Whether a configuration has the settings that every session uses: the
/// feature dimension, endpoint detection with its three rules, greedy
/// search, and no debug output.
pub open spec fn has_session_settings(c: OnlineRecognizerConfig) -> bool {
    &&& c.feature_dim == FEATURE_DIM
    &&& c.enable_endpoint
    &&& c.rule1_min_trailing_silence_ms == SENTENCE_END_SILENCE_MS
    &&& c.rule2_min_trailing_silence_ms == PAUSE_SILENCE_MS
    &&& c.rule3_min_utterance_length_ms == UTTERANCE_LENGTH_MS
    &&& c.decoding_method@ == "greedy_search"@
    &&& !c.debug
}

impl Default for OnlineRecognizerConfig {
    /// The session settings for 16 kHz audio and two threads, without a
    /// model.
    fn default() -> (r: Self)
        ensures
            has_session_settings(r),
            r.encoder@.len() == 0,
            r.decoder@.len() == 0,
            r.joiner@.len() == 0,
            r.tokens@.len() == 0,
            r.sample_rate == 16000,
            r.num_threads == 2,
    {
        OnlineRecognizerConfig {
            encoder: String::new(),
            decoder: String::new(),
            joiner: String::new(),
            tokens: String::new(),
            sample_rate: 16000,
            feature_dim: FEATURE_DIM,
            num_threads: 2,
            enable_endpoint: true,
            rule1_min_trailing_silence_ms: SENTENCE_END_SILENCE_MS,
            rule2_min_trailing_silence_ms: PAUSE_SILENCE_MS,
            rule3_min_utterance_length_ms: UTTERANCE_LENGTH_MS,
            decoding_method: "greedy_search".to_owned(),
            debug: false,
        }
    }
}

impl OnlineRecognizerConfig {
    /// The model files that the configuration names.
    pub open spec fn files(self) -> ModelFiles {
        ModelFiles {
            encoder: self.encoder,
            decoder: self.decoder,
            joiner: self.joiner,
            tokens: self.tokens,
        }
    }

    /// The session settings for the given model files, with `sample_rate`
    /// reinterpreted as a signed 32-bit number.
    pub fn with_files(files: ModelFiles, sample_rate: u32, num_threads: i32) -> (r: Self)
        ensures
            has_session_settings(r),
            r.encoder == files.encoder,
            r.decoder == files.decoder,
            r.joiner == files.joiner,
            r.tokens == files.tokens,
            r.sample_rate == sample_rate as i32,
            r.num_threads == num_threads,
    {
        OnlineRecognizerConfig {
            encoder: files.encoder,
            decoder: files.decoder,
            joiner: files.joiner,
            tokens: files.tokens,
            sample_rate: #[verifier::truncate]
            (sample_rate as i32),
            feature_dim: FEATURE_DIM,
            num_threads,
            enable_endpoint: true,
            rule1_min_trailing_silence_ms: SENTENCE_END_SILENCE_MS,
            rule2_min_trailing_silence_ms: PAUSE_SILENCE_MS,
            rule3_min_utterance_length_ms: UTTERANCE_LENGTH_MS,
            decoding_method: "greedy_search".to_owned(),
            debug: false,
        }
    }

    /// The configuration for streaming `model` with its files under
    /// `models_dir`. Only a transducer can be streamed.
    pub fn for_model(model: &AsrModelConfig, models_dir: &PathBuf) -> (r: Result<Self, StartError>)
        ensures
            r is Ok <==> model.model_type is Transducer,
            r is Err ==> r->Err_0 == StartError::UnsupportedModel,
            r is Ok ==> has_session_settings(r->Ok_0) && r->Ok_0.sample_rate
                == model.sample_rate as i32 && r->Ok_0.num_threads == model.num_threads,
            r is Ok ==> files_of(*model, path_units(*models_dir), r->Ok_0.files()),
    {
        match model.files_under(models_dir) {
            Some(files) => Ok(
                OnlineRecognizerConfig::with_files(files, model.sample_rate, model.num_threads),
            ),
            None => Err(StartError::UnsupportedModel),
        }
    }
}

} // verus!
