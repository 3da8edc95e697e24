use crate::naming::out_name;
use crate::operation::Operation;
use crate::pipeline::{Kind, Pipeline, PipelineView, SpeechOutput, Stage};
use crate::strings::opt_view;
use vstd::prelude::*;

verus! {

/// The image and text commands: the same runs as those of
/// [`Operation`], without speech.
pub struct Commander;

impl Commander {
    /// Names the file for what `prompt` produced.
    pub fn format_out_name(prompt: &str, ext: &str) -> (name: String)
        ensures
            name@ == out_name(prompt@, ext@),
    {
        Operation::format_out_name(prompt, ext)
    }

    /// A run that asks for an image of `prompt`, fetches it and writes it
    /// to the file named after the prompt.
    pub fn generate_and_download(prompt: &str, credential: Option<String>) -> (pipeline: Pipeline)
        ensures
            pipeline@ == (PipelineView {
                kind: Kind::ImageGenerate,
                input: prompt@,
                credential: opt_view(credential),
                speech_output: SpeechOutput::File,
                stage: Stage::Ready,
            }),
    {
        Operation::generate_and_download(prompt, credential)
    }

    /// A run that asks for the completion of `prompt` and adds the
    /// exchange to the transcript file.
    pub fn complete_and_write(prompt: &str, credential: Option<String>) -> (pipeline: Pipeline)
        ensures
            pipeline@ == (PipelineView {
                kind: Kind::TextComplete,
                input: prompt@,
                credential: opt_view(credential),
                speech_output: SpeechOutput::File,
                stage: Stage::Ready,
            }),
    {
        Operation::complete_and_write(prompt, credential)
    }
}

} // verus!
