use vstd::prelude::*;

verus! {

/// Name of the environment variable that holds the API key.
pub const CREDENTIAL_VARIABLE: &'static str = "SYNTH_API_KEY";

/// Endpoint that turns a prompt into an image.
pub const IMG_GEN_URL: &'static str = "https://api.openai.com/v1/images/generations";

/// Endpoint that completes a chat prompt.
pub const TXT_GEN_URL: &'static str = "https://api.openai.com/v1/chat/completions";

/// Endpoint that transcribes an audio file.
pub const SPEECH_URL: &'static str = "https://api.openai.com/v1/audio/transcriptions";

/// Side length of every requested image.
pub const IMAGE_SIZE: &'static str = "256x256";

/// Number of images asked for per request.
pub const IMAGE_COUNT: u32 = 1;

/// Model that answers text prompts.
pub const TEXT_MODEL: &'static str = "gpt-3.5-turbo";

/// Sampling temperature of text completions, in tenths.
pub const TEXT_TEMPERATURE_TENTHS: u32 = 7;

/// Model that transcribes speech.
pub const SPEECH_MODEL: &'static str = "whisper-1";

/// File that accumulates the text exchanges.
pub const TRANSCRIPT_FILE: &'static str = "completion_responses.txt";

/// Longest time, in seconds, a driver should wait for one network call.
pub const REQUEST_TIMEOUT_SECS: u64 = 60;

} // verus!
