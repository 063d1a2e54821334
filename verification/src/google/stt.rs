//! One-shot speech recognition: the configuration used by default and the
//! transcript taken from a response.

use vstd::prelude::*;

verus! {

/// Phrases that the recognizer should expect.
#[derive(Clone, Debug, PartialEq, Eq)]
pub struct SpeechContext {
    pub phrases: Vec<String>,
}

/// How speakers are told apart.
#[derive(Clone, Copy, Debug, PartialEq, Eq)]
pub struct SpeakerDiarizationConfig {
    pub enable_speaker_diarization: bool,
    pub min_speaker_count: i32,
    pub max_speaker_count: i32,
}

/// What is known of the recording.
#[derive(Clone, Debug, PartialEq, Eq)]
pub struct RecognitionMetadata {
    pub interaction_type: i32,
    pub industry_naics_code_of_audio: u32,
    pub microphone_distance: i32,
    pub original_media_type: i32,
    pub recording_device_type: i32,
    pub recording_device_name: String,
    pub original_mime_type: String,
    pub audio_topic: String,
}

/// How a recording is to be recognized.
#[derive(Clone, Debug, PartialEq, Eq)]
pub struct RecognitionConfig {
    pub encoding: i32,
    pub sample_rate_hertz: i32,
    pub audio_channel_count: i32,
    pub enable_separate_recognition_per_channel: bool,
    pub language_code: String,
    pub max_alternatives: i32,
    pub profanity_filter: bool,
    pub speech_contexts: Vec<SpeechContext>,
    pub enable_word_time_offsets: bool,
    pub enable_automatic_punctuation: bool,
    pub diarization_config: Option<SpeakerDiarizationConfig>,
    pub metadata: Option<RecognitionMetadata>,
    pub model: String,
    pub use_enhanced: bool,
}

/// The configuration used when the caller gives none: 8 kHz mono linear
/// PCM, Russian, the enhanced model, one hypothesis, nothing else switched
/// on.
pub fn default_config() -> (config: RecognitionConfig)
    ensures
        config.encoding == 1,
        config.sample_rate_hertz == 8000,
        config.audio_channel_count == 1,
        !config.enable_separate_recognition_per_channel,
        config.language_code@ == "ru"@,
        config.max_alternatives == 0,
        !config.profanity_filter,
        config.speech_contexts@.len() == 0,
        !config.enable_word_time_offsets,
        !config.enable_automatic_punctuation,
        config.diarization_config is None,
        config.metadata is None,
        config.model@.len() == 0,
        config.use_enhanced,
{
    RecognitionConfig {
        encoding: 1,
        sample_rate_hertz: 8000,
        audio_channel_count: 1,
        enable_separate_recognition_per_channel: false,
        language_code: "ru".to_owned(),
        max_alternatives: 0,
        profanity_filter: false,
        speech_contexts: Vec::new(),
        enable_word_time_offsets: false,
        enable_automatic_punctuation: false,
        diarization_config: None,
        metadata: None,
        model: String::new(),
        use_enhanced: true,
    }
}

/// One hypothesis of what was said.
#[derive(Clone, Debug, PartialEq, Eq)]
pub struct SpeechRecognitionAlternative {
    pub transcript: String,
}

/// The hypotheses for one portion of the audio, best first.
#[derive(Clone, Debug, PartialEq, Eq)]
pub struct SpeechRecognitionResult {
    pub alternatives: Vec<SpeechRecognitionAlternative>,
}

/// The transcript that a response stands for: that of the first hypothesis
/// of its first result, if it has one.
pub open spec fn best_transcript(results: Seq<SpeechRecognitionResult>) -> Option<String> {
    if results.len() > 0 && results[0].alternatives@.len() > 0 {
        Some(results[0].alternatives@[0].transcript)
    } else {
        None
    }
}

/// Takes the transcript out of a response.
pub fn first_transcript(results: &Vec<SpeechRecognitionResult>) -> (transcript: Option<String>)
    ensures
        transcript == best_transcript(results@),
{
    if results.len() == 0 {
        return None;
    }
    let alternatives = &results[0].alternatives;
    if alternatives.len() == 0 {
        return None;
    }
    Some(alternatives[0].transcript.clone())
}

} // verus!
