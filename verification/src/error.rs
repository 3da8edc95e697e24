use vstd::prelude::*;
use vstd::string::*;

verus! {

/// Why a run ended without its output.
#[derive(Debug, Clone, PartialEq, Eq)]
pub enum Error {
    /// The command line cannot be acted upon.
    CliUsage(String),
    /// No API key was supplied.
    MissingCredential,
    /// The request payload could not be encoded.
    Serialization,
    /// The transport reported a failure; the text is its diagnostic.
    TransportFailure(String),
    /// A network call did not answer in time.
    Timeout,
    /// The response is malformed or lacks what the operation needs.
    Decode,
    /// The output could not be created, opened or written.
    FileIo,
    /// An event arrived that the pipeline was not waiting for.
    OutOfSequence,
}

/// An [`Error`] with its texts as character sequences.
pub enum ErrorView {
    CliUsage(Seq<char>),
    MissingCredential,
    Serialization,
    TransportFailure(Seq<char>),
    Timeout,
    Decode,
    FileIo,
    OutOfSequence,
}

impl View for Error {
    type V = ErrorView;

    open spec fn view(&self) -> ErrorView {
        match self {
            Error::CliUsage(detail) => ErrorView::CliUsage(detail@),
            Error::MissingCredential => ErrorView::MissingCredential,
            Error::Serialization => ErrorView::Serialization,
            Error::TransportFailure(diagnostic) => ErrorView::TransportFailure(diagnostic@),
            Error::Timeout => ErrorView::Timeout,
            Error::Decode => ErrorView::Decode,
            Error::FileIo => ErrorView::FileIo,
            Error::OutOfSequence => ErrorView::OutOfSequence,
        }
    }
}

impl ErrorView {
    /// The line shown to the user for this error.
    pub open spec fn message(self) -> Seq<char> {
        match self {
            ErrorView::CliUsage(_) => "Fatal error ::: command-line interface"@,
            ErrorView::MissingCredential => "Fatal error ::: missing credential"@,
            ErrorView::Serialization => "Fatal error ::: request could not be encoded"@,
            ErrorView::TransportFailure(diagnostic) => "CURL ERROR!: "@ + diagnostic,
            ErrorView::Timeout => "Fatal error ::: request timed out"@,
            ErrorView::Decode => "Fatal error ::: unexpected response"@,
            ErrorView::FileIo => "Fatal error ::: output could not be written"@,
            ErrorView::OutOfSequence => "Fatal error ::: event out of sequence"@,
        }
    }
}

impl Error {
    /// The line shown to the user for this error.
    pub fn message(&self) -> (text: String)
        ensures
            text@ == self@.message(),
    {
        match self {
            Error::CliUsage(_) => String::from_str("Fatal error ::: command-line interface"),
            Error::MissingCredential => String::from_str("Fatal error ::: missing credential"),
            Error::Serialization => String::from_str(
                "Fatal error ::: request could not be encoded",
            ),
            Error::TransportFailure(diagnostic) => {
                let mut text = String::from_str("CURL ERROR!: ");
                text.append(diagnostic.as_str());
                text
            },
            Error::Timeout => String::from_str("Fatal error ::: request timed out"),
            Error::Decode => String::from_str("Fatal error ::: unexpected response"),
            Error::FileIo => String::from_str("Fatal error ::: output could not be written"),
            Error::OutOfSequence => String::from_str("Fatal error ::: event out of sequence"),
        }
    }
}

} // verus!
