use crate::pipeline::{Kind, Pipeline, PipelineView, SpeechOutput, Stage};
use crate::strings::{opt_view, owned};
use vstd::prelude::*;

verus! {

/// The three operations of the client: image generation, text completion
/// and speech transcription.
pub struct Operation;

impl Operation {
    /// A run that asks for an image of `prompt`, fetches it and writes it
    /// to the file named after the prompt.
    pub fn generate_and_download(prompt: &str, credential: Option<String>) -> (pipeline: Pipeline)
        ensures
            pipeline@ == (PipelineView {
                kind: Kind::ImageGenerate,
                input: prompt@,
                credential: opt_view(credential),
                speech_output: SpeechOutput::File,
                stage: Stage::Ready,
            }),
    {
        Pipeline::new(Kind::ImageGenerate, owned(prompt), credential, SpeechOutput::File)
    }

    /// A run that asks for the completion of `prompt` and adds the
    /// exchange to the transcript file.
    pub fn complete_and_write(prompt: &str, credential: Option<String>) -> (pipeline: Pipeline)
        ensures
            pipeline@ == (PipelineView {
                kind: Kind::TextComplete,
                input: prompt@,
                credential: opt_view(credential),
                speech_output: SpeechOutput::File,
                stage: Stage::Ready,
            }),
    {
        Pipeline::new(Kind::TextComplete, owned(prompt), credential, SpeechOutput::File)
    }

    /// A run that has the audio file at `filepath` transcribed and hands
    /// the text to the chosen output.
    pub fn speech_to_text(filepath: &str, credential: Option<String>, output: SpeechOutput) -> (pipeline:
        Pipeline)
        ensures
            pipeline@ == (PipelineView {
                kind: Kind::SpeechTranscribe,
                input: filepath@,
                credential: opt_view(credential),
                speech_output: output,
                stage: Stage::Ready,
            }),
    {
        Pipeline::new(Kind::SpeechTranscribe, owned(filepath), credential, output)
    }
}

} // verus!
