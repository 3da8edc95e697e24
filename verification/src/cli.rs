use crate::error::{Error, ErrorView};
use crate::pipeline::{Kind, Pipeline, PipelineView, SpeechOutput, Stage};
use crate::strings::{opt_view, owned, str_eq};
use vstd::prelude::*;
use vstd::string::*;

verus! {

/// The vocabulary of the command line: its subcommands and the operation
/// keyword that each of them acts upon.
pub struct Cli;

/// The operation that a subcommand stands for.
pub open spec fn subcommand_kind(name: Seq<char>) -> Option<Kind> {
    if name == "image"@ {
        Some(Kind::ImageGenerate)
    } else if name == "text"@ {
        Some(Kind::TextComplete)
    } else if name == "speech"@ {
        Some(Kind::SpeechTranscribe)
    } else {
        None
    }
}

/// The keyword that sets an operation going; speech takes none.
pub open spec fn operation_keyword(kind: Kind) -> Option<Seq<char>> {
    match kind {
        Kind::ImageGenerate => Some("generate"@),
        Kind::TextComplete => Some("complete"@),
        Kind::SpeechTranscribe => None,
    }
}

impl Cli {
    /// The operation that the subcommand `name` stands for, if any.
    pub fn subcommand_kind(name: &str) -> (kind: Option<Kind>)
        ensures
            kind == subcommand_kind(name@),
    {
        if str_eq(name, "image") {
            Some(Kind::ImageGenerate)
        } else if str_eq(name, "text") {
            Some(Kind::TextComplete)
        } else if str_eq(name, "speech") {
            Some(Kind::SpeechTranscribe)
        } else {
            None
        }
    }

    /// Whether `word` is the keyword that sets the operation going.
    pub fn is_keyword(kind: Kind, word: &str) -> (is: bool)
        ensures
            is == (operation_keyword(kind) == Some(word@)),
    {
        match kind {
            Kind::ImageGenerate => str_eq(word, "generate"),
            Kind::TextComplete => str_eq(word, "complete"),
            Kind::SpeechTranscribe => false,
        }
    }
}

/// What the argument parser found: the subcommand and the values of its
/// arguments, each by the name it has on the command line.
#[derive(Debug, Clone, PartialEq, Eq)]
pub struct Matched {
    pub subcommand: String,
    pub operation: Option<String>,
    pub prompt: Option<String>,
    pub filepath: Option<String>,
    /// Whether a transcript is to go onto the terminal, not into a file.
    pub print: bool,
}

/// A [`Matched`] as plain values.
pub struct MatchedView {
    pub subcommand: Seq<char>,
    pub operation: Option<Seq<char>>,
    pub prompt: Option<Seq<char>>,
    pub filepath: Option<Seq<char>>,
    pub print: bool,
}

impl View for Matched {
    type V = MatchedView;

    open spec fn view(&self) -> MatchedView {
        MatchedView {
            subcommand: self.subcommand@,
            operation: opt_view(self.operation),
            prompt: opt_view(self.prompt),
            filepath: opt_view(self.filepath),
            print: self.print,
        }
    }
}

/// What is to be done about a command line.
#[derive(Debug)]
pub enum Dispatch {
    /// Drive this run.
    Run(Pipeline),
    /// Nothing: the subcommand is known, its operation keyword is not. No
    /// request is issued.
    Ignored,
    /// Nothing: the subcommand is not known.
    UnknownSubcommand,
    /// Nothing: there is no subcommand.
    NoSubcommand,
    /// Nothing: an argument that the subcommand needs is missing.
    Invalid(Error),
}

/// A [`Dispatch`] as plain values.
pub enum DispatchView {
    Run(PipelineView),
    Ignored,
    UnknownSubcommand,
    NoSubcommand,
    Invalid(ErrorView),
}

impl View for Dispatch {
    type V = DispatchView;

    open spec fn view(&self) -> DispatchView {
        match self {
            Dispatch::Run(pipeline) => DispatchView::Run(pipeline@),
            Dispatch::Ignored => DispatchView::Ignored,
            Dispatch::UnknownSubcommand => DispatchView::UnknownSubcommand,
            Dispatch::NoSubcommand => DispatchView::NoSubcommand,
            Dispatch::Invalid(error) => DispatchView::Invalid(error@),
        }
    }
}

impl DispatchView {
    /// What the user is told where nothing is run.
    pub open spec fn notice(self) -> Option<Seq<char>> {
        match self {
            DispatchView::Run(_) => None,
            DispatchView::Ignored => Some("Unknown operation"@),
            DispatchView::UnknownSubcommand => Some("Unknown subcommands"@),
            DispatchView::NoSubcommand => Some("Failed to match subcommand @ process_input"@),
            DispatchView::Invalid(error) => Some(error.message()),
        }
    }
}

impl Dispatch {
    /// What the user is told where nothing is run.
    pub fn notice(&self) -> (text: Option<String>)
        ensures
            opt_view(text) == self@.notice(),
    {
        match self {
            Dispatch::Run(_) => None,
            Dispatch::Ignored => Some(owned("Unknown operation")),
            Dispatch::UnknownSubcommand => Some(owned("Unknown subcommands")),
            Dispatch::NoSubcommand => Some(owned("Failed to match subcommand @ process_input")),
            Dispatch::Invalid(error) => Some(error.message()),
        }
    }
}

/// A run of `kind` on `input` that has not begun.
pub open spec fn fresh(
    kind: Kind,
    input: Seq<char>,
    credential: Option<Seq<char>>,
    output: SpeechOutput,
) -> PipelineView {
    PipelineView { kind, input, credential, speech_output: output, stage: Stage::Ready }
}

/// Where a transcript goes: into a file, unless the terminal is asked for.
pub open spec fn speech_output(print: bool) -> SpeechOutput {
    if print {
        SpeechOutput::Terminal
    } else {
        SpeechOutput::File
    }
}

/// What is to be done about a command line. `image` and `text` run on
/// their prompt where the operation keyword is theirs and do nothing
/// where it is another; `speech` runs on its file path.
pub open spec fn dispatch(cli: Option<MatchedView>, credential: Option<Seq<char>>) -> DispatchView {
    match cli {
        None => DispatchView::NoSubcommand,
        Some(m) => match subcommand_kind(m.subcommand) {
            None => DispatchView::UnknownSubcommand,
            Some(Kind::SpeechTranscribe) => match m.filepath {
                Some(path) => DispatchView::Run(
                    fresh(Kind::SpeechTranscribe, path, credential, speech_output(m.print)),
                ),
                None => DispatchView::Invalid(ErrorView::CliUsage(m.subcommand)),
            },
            Some(kind) => match (m.operation, m.prompt) {
                (Some(word), Some(prompt)) => if operation_keyword(kind) == Some(word) {
                    DispatchView::Run(fresh(kind, prompt, credential, SpeechOutput::File))
                } else {
                    DispatchView::Ignored
                },
                _ => DispatchView::Invalid(ErrorView::CliUsage(m.subcommand)),
            },
        },
    }
}

/// Decides what is to be done about a command line, with the credential
/// that a run is to use.
pub fn process_input(cli: Option<Matched>, credential: Option<String>) -> (todo: Dispatch)
    ensures
        todo@ == dispatch(
            match cli {
                Some(m) => Some(m@),
                None => None,
            },
            opt_view(credential),
        ),
{
    match cli {
        None => Dispatch::NoSubcommand,
        Some(m) => {
            let Matched { subcommand, operation, prompt, filepath, print } = m;
            match Cli::subcommand_kind(subcommand.as_str()) {
                None => Dispatch::UnknownSubcommand,
                Some(Kind::SpeechTranscribe) => match filepath {
                    Some(path) => {
                        let output = if print {
                            SpeechOutput::Terminal
                        } else {
                            SpeechOutput::File
                        };
                        Dispatch::Run(
                            Pipeline::new(Kind::SpeechTranscribe, path, credential, output),
                        )
                    },
                    None => Dispatch::Invalid(Error::CliUsage(subcommand)),
                },
                Some(kind) => match (operation, prompt) {
                    (Some(word), Some(prompt)) => {
                        if Cli::is_keyword(kind, word.as_str()) {
                            Dispatch::Run(
                                Pipeline::new(kind, prompt, credential, SpeechOutput::File),
                            )
                        } else {
                            Dispatch::Ignored
                        }
                    },
                    _ => Dispatch::Invalid(Error::CliUsage(subcommand)),
                },
            }
        },
    }
}

} // verus!
