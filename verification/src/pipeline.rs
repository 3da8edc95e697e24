use crate::consts::{IMG_GEN_URL, SPEECH_URL, TRANSCRIPT_FILE, TXT_GEN_URL};
use crate::error::{Error, ErrorView};
use crate::models::{
    messages_of, ImageRequest, ImageRequestView, ImageResponse, ImageResponseView, TextRequest,
    TextRequestView, TextResponse, TextResponseView,
};
use crate::naming::{out_name, text_name};
use crate::operation::Operation;
use crate::request::{
    bearer_header, image_payload, json_arguments, text_payload, upload_arguments,
};
use crate::strings::{lossy_text, opt_view, owned, utf8_lossy};
use crate::transcript::transcript;
use vstd::prelude::*;
use vstd::string::*;
use vstd::utf8::{decode_utf8, encode_utf8, valid_utf8};

verus! {

/// Which of the three operations a pipeline carries out.
#[derive(Debug, Clone, Copy, PartialEq, Eq)]
pub enum Kind {
    ImageGenerate,
    TextComplete,
    SpeechTranscribe,
}

/// Where the transcript of an audio file goes.
#[derive(Debug, Clone, Copy, PartialEq, Eq)]
pub enum SpeechOutput {
    /// Into a file named after the audio file.
    File,
    /// Onto the terminal.
    Terminal,
}

/// How an output file is opened.
#[derive(Debug, Clone, Copy, PartialEq, Eq)]
pub enum WriteMode {
    /// Create the file, or empty it if it exists, then write.
    Truncate,
    /// Create the file if it is absent, then write after what it holds.
    Append,
}

/// How far a pipeline has come. A run passes through the stages in this
/// order, leaving out those its operation has no use for, and ends in
/// `Succeeded` or `Failed`.
#[derive(Debug, Clone, Copy, PartialEq, Eq)]
pub enum Stage {
    /// Nothing has been done.
    Ready,
    /// The request payload is being encoded.
    Encoding,
    /// The request is with the transport.
    Sending,
    /// The response is being decoded.
    Decoding,
    /// The image is being fetched.
    Fetching,
    /// The output is being persisted.
    Writing,
    /// The output is persisted.
    Succeeded,
    /// The run was given up.
    Failed,
}

/// A request payload to encode as JSON.
#[derive(Debug, Clone, PartialEq, Eq)]
pub enum Payload {
    Image(ImageRequest),
    Text(TextRequest),
}

/// A [`Payload`] as plain values.
pub enum PayloadView {
    Image(ImageRequestView),
    Text(TextRequestView),
}

impl View for Payload {
    type V = PayloadView;

    open spec fn view(&self) -> PayloadView {
        match self {
            Payload::Image(request) => PayloadView::Image(request@),
            Payload::Text(request) => PayloadView::Text(request@),
        }
    }
}

/// What the driver reports back after it has carried out an action.
#[derive(Debug, PartialEq, Eq)]
pub enum Event {
    /// The run begins.
    Start,
    /// The payload as JSON text, or nothing where it cannot be encoded.
    Encoded(Option<String>),
    /// The transport has returned: whether it succeeded, the response
    /// body and its diagnostic output, both as raw bytes.
    Sent { success: bool, stdout: Vec<u8>, stderr: Vec<u8> },
    /// A network call did not answer in time.
    TimedOut,
    /// The response text decoded as an image response, or nothing where
    /// it is not one.
    ImageDecoded(Option<ImageResponse>),
    /// The response text decoded as a text response, or nothing where it
    /// is not one.
    TextDecoded(Option<TextResponse>),
    /// The bytes found at the address, or why they could not be had.
    Fetched(Result<Vec<u8>, String>),
    /// Whether the output was persisted.
    Written(bool),
}

/// An [`Event`] as plain values.
pub enum EventView {
    Start,
    Encoded(Option<Seq<char>>),
    Sent { success: bool, stdout: Seq<u8>, stderr: Seq<u8> },
    TimedOut,
    ImageDecoded(Option<ImageResponseView>),
    TextDecoded(Option<TextResponseView>),
    Fetched(Result<Seq<u8>, Seq<char>>),
    Written(bool),
}

impl View for Event {
    type V = EventView;

    open spec fn view(&self) -> EventView {
        match self {
            Event::Start => EventView::Start,
            Event::Encoded(body) => EventView::Encoded(opt_view(*body)),
            Event::Sent { success, stdout, stderr } => EventView::Sent {
                success: *success,
                stdout: stdout@,
                stderr: stderr@,
            },
            Event::TimedOut => EventView::TimedOut,
            Event::ImageDecoded(response) => EventView::ImageDecoded(
                match response {
                    Some(r) => Some(r@),
                    None => None,
                },
            ),
            Event::TextDecoded(response) => EventView::TextDecoded(
                match response {
                    Some(r) => Some(r@),
                    None => None,
                },
            ),
            Event::Fetched(outcome) => EventView::Fetched(
                match outcome {
                    Ok(bytes) => Ok(bytes@),
                    Err(diagnostic) => Err(diagnostic@),
                },
            ),
            Event::Written(done) => EventView::Written(*done),
        }
    }
}

/// What the driver has to do next.
#[derive(Debug, Clone, PartialEq, Eq)]
pub enum Action {
    /// Encode the payload as JSON and report `Encoded`.
    Encode(Payload),
    /// Run the HTTP client with these arguments and report `Sent`.
    Send(Vec<String>),
    /// Decode the text as an image response and report `ImageDecoded`.
    DecodeImage(String),
    /// Decode the text as a text response and report `TextDecoded`.
    DecodeText(String),
    /// Fetch what is at the address and report `Fetched`.
    Fetch(String),
    /// Write the bytes to the named file and report `Written`.
    Write { name: String, contents: Vec<u8>, mode: WriteMode },
    /// Show the text on the terminal and report `Written`.
    Print(String),
    /// Nothing: the run has succeeded.
    Finish,
    /// Nothing: the run has failed with this error.
    Fail(Error),
}

/// An [`Action`] as plain values.
pub enum ActionView {
    Encode(PayloadView),
    Send(Seq<Seq<char>>),
    DecodeImage(Seq<char>),
    DecodeText(Seq<char>),
    Fetch(Seq<char>),
    Write { name: Seq<char>, contents: Seq<u8>, mode: WriteMode },
    Print(Seq<char>),
    Finish,
    Fail(ErrorView),
}

impl View for Action {
    type V = ActionView;

    open spec fn view(&self) -> ActionView {
        match self {
            Action::Encode(payload) => ActionView::Encode(payload@),
            Action::Send(arguments) => ActionView::Send(arguments.deep_view()),
            Action::DecodeImage(text) => ActionView::DecodeImage(text@),
            Action::DecodeText(text) => ActionView::DecodeText(text@),
            Action::Fetch(url) => ActionView::Fetch(url@),
            Action::Write { name, contents, mode } => ActionView::Write {
                name: name@,
                contents: contents@,
                mode: *mode,
            },
            Action::Print(text) => ActionView::Print(text@),
            Action::Finish => ActionView::Finish,
            Action::Fail(error) => ActionView::Fail(error@),
        }
    }
}

/// One run of one operation: what was asked, with which credential, and
/// how far the run has come.
#[derive(Debug)]
pub struct Pipeline {
    kind: Kind,
    input: String,
    credential: Option<String>,
    speech_output: SpeechOutput,
    stage: Stage,
}

/// A [`Pipeline`] as plain values.
pub struct PipelineView {
    pub kind: Kind,
    /// The prompt, or for speech the path of the audio file.
    pub input: Seq<char>,
    pub credential: Option<Seq<char>>,
    pub speech_output: SpeechOutput,
    pub stage: Stage,
}

impl PipelineView {
    /// The same run at another stage.
    pub open spec fn at(self, stage: Stage) -> PipelineView {
        PipelineView {
            kind: self.kind,
            input: self.input,
            credential: self.credential,
            speech_output: self.speech_output,
            stage,
        }
    }
}

impl View for Pipeline {
    type V = PipelineView;

    closed spec fn view(&self) -> PipelineView {
        PipelineView {
            kind: self.kind,
            input: self.input@,
            credential: opt_view(self.credential),
            speech_output: self.speech_output,
            stage: self.stage,
        }
    }
}

/// The endpoint of an operation.
pub open spec fn endpoint(kind: Kind) -> Seq<char> {
    match kind {
        Kind::ImageGenerate => IMG_GEN_URL@,
        Kind::TextComplete => TXT_GEN_URL@,
        Kind::SpeechTranscribe => SPEECH_URL@,
    }
}

/// The answer to an event that the pipeline was not waiting for: the run
/// fails, unless it has already succeeded.
pub open spec fn out_of_sequence(p: PipelineView) -> (Stage, ActionView) {
    (
        if p.stage is Succeeded {
            Stage::Succeeded
        } else {
            Stage::Failed
        },
        ActionView::Fail(ErrorView::OutOfSequence),
    )
}

/// The first step. Without a credential the run fails at once. Image
/// and text requests have their payload encoded first; a speech request
/// has none and goes to the transport.
pub open spec fn begin(p: PipelineView) -> (Stage, ActionView) {
    match p.credential {
        None => (Stage::Failed, ActionView::Fail(ErrorView::MissingCredential)),
        Some(key) => match p.kind {
            Kind::ImageGenerate => (
                Stage::Encoding,
                ActionView::Encode(PayloadView::Image(image_payload(p.input))),
            ),
            Kind::TextComplete => (
                Stage::Encoding,
                ActionView::Encode(PayloadView::Text(text_payload(p.input))),
            ),
            Kind::SpeechTranscribe => (
                Stage::Sending,
                ActionView::Send(upload_arguments(SPEECH_URL@, bearer_header(key), p.input)),
            ),
        },
    }
}

/// The step after encoding: the body goes to the endpoint of the
/// operation, with the credential in its header.
pub open spec fn after_encoding(p: PipelineView, body: Option<Seq<char>>) -> (Stage, ActionView) {
    match body {
        None => (Stage::Failed, ActionView::Fail(ErrorView::Serialization)),
        Some(text) => match p.credential {
            None => (Stage::Failed, ActionView::Fail(ErrorView::MissingCredential)),
            Some(key) => (
                Stage::Sending,
                ActionView::Send(json_arguments(endpoint(p.kind), text, bearer_header(key))),
            ),
        },
    }
}

/// What becomes of a transcribed text, by the output that was chosen. A
/// file is named after the audio file and holds the transcript alone.
pub open spec fn persist_speech(p: PipelineView, text: Seq<char>) -> (Stage, ActionView) {
    match p.speech_output {
        SpeechOutput::Terminal => (Stage::Writing, ActionView::Print(text)),
        SpeechOutput::File => (
            Stage::Writing,
            ActionView::Write {
                name: text_name(p.input),
                contents: encode_utf8(text),
                mode: WriteMode::Truncate,
            },
        ),
    }
}

/// The step after the transport, on the response as text. A failure of
/// the transport ends the run. The answer to an image or text request is
/// decoded next; the answer to a speech request is the transcript itself.
pub open spec fn after_transport(
    p: PipelineView,
    success: bool,
    body: Seq<char>,
    diagnostic: Seq<char>,
) -> (Stage, ActionView) {
    if !success {
        (Stage::Failed, ActionView::Fail(ErrorView::TransportFailure(diagnostic)))
    } else {
        match p.kind {
            Kind::ImageGenerate => (Stage::Decoding, ActionView::DecodeImage(body)),
            Kind::TextComplete => (Stage::Decoding, ActionView::DecodeText(body)),
            Kind::SpeechTranscribe => persist_speech(p, body),
        }
    }
}

/// The step after decoding an image response: the first address in it is
/// fetched. A response that is none, or holds no address, ends the run.
pub open spec fn after_image_decode(response: Option<ImageResponseView>) -> (Stage, ActionView) {
    match response {
        Some(r) => if r.urls.len() > 0 {
            (Stage::Fetching, ActionView::Fetch(r.urls[0]))
        } else {
            (Stage::Failed, ActionView::Fail(ErrorView::Decode))
        },
        None => (Stage::Failed, ActionView::Fail(ErrorView::Decode)),
    }
}

/// The step after decoding a text response: the exchange is added to the
/// transcript file. A response that is none ends the run.
pub open spec fn after_text_decode(p: PipelineView, response: Option<TextResponseView>) -> (
    Stage,
    ActionView,
) {
    match response {
        Some(r) => (
            Stage::Writing,
            ActionView::Write {
                name: TRANSCRIPT_FILE@,
                contents: encode_utf8(transcript(p.input, messages_of(r.choices))),
                mode: WriteMode::Append,
            },
        ),
        None => (Stage::Failed, ActionView::Fail(ErrorView::Decode)),
    }
}

/// The step after fetching the image: its bytes go, as they are, to the
/// file named after the prompt.
pub open spec fn after_fetch(p: PipelineView, outcome: Result<Seq<u8>, Seq<char>>) -> (
    Stage,
    ActionView,
) {
    match outcome {
        Ok(bytes) => (
            Stage::Writing,
            ActionView::Write {
                name: out_name(p.input, ".png"@),
                contents: bytes,
                mode: WriteMode::Truncate,
            },
        ),
        Err(diagnostic) => (
            Stage::Failed,
            ActionView::Fail(ErrorView::TransportFailure(diagnostic)),
        ),
    }
}

/// The last step: the run has succeeded if the output was persisted.
pub open spec fn after_write(done: bool) -> (Stage, ActionView) {
    if done {
        (Stage::Succeeded, ActionView::Finish)
    } else {
        (Stage::Failed, ActionView::Fail(ErrorView::FileIo))
    }
}

/// The step that the transport's report causes, on the response as text.
pub open spec fn transport(
    p: PipelineView,
    success: bool,
    body: Seq<char>,
    diagnostic: Seq<char>,
) -> (Stage, ActionView) {
    if p.stage is Sending {
        after_transport(p, success, body, diagnostic)
    } else {
        out_of_sequence(p)
    }
}

/// The stage that a pipeline enters on an event, and the action it asks
/// for. Each stage waits for one kind of event; the stages that wait for
/// the network also take a timeout.
pub open spec fn next(p: PipelineView, event: EventView) -> (Stage, ActionView) {
    match (p.stage, event) {
        (Stage::Ready, EventView::Start) => begin(p),
        (Stage::Encoding, EventView::Encoded(body)) => after_encoding(p, body),
        (Stage::Sending, EventView::Sent { success, stdout, stderr }) => after_transport(
            p,
            success,
            utf8_lossy(stdout),
            utf8_lossy(stderr),
        ),
        (Stage::Sending, EventView::TimedOut) => (
            Stage::Failed,
            ActionView::Fail(ErrorView::Timeout),
        ),
        (Stage::Decoding, EventView::ImageDecoded(response)) => if p.kind is ImageGenerate {
            after_image_decode(response)
        } else {
            out_of_sequence(p)
        },
        (Stage::Decoding, EventView::TextDecoded(response)) => if p.kind is TextComplete {
            after_text_decode(p, response)
        } else {
            out_of_sequence(p)
        },
        (Stage::Fetching, EventView::Fetched(outcome)) => if p.kind is ImageGenerate {
            after_fetch(p, outcome)
        } else {
            out_of_sequence(p)
        },
        (Stage::Fetching, EventView::TimedOut) => (
            Stage::Failed,
            ActionView::Fail(ErrorView::Timeout),
        ),
        (Stage::Writing, EventView::Written(done)) => after_write(done),
        _ => out_of_sequence(p),
    }
}

impl Pipeline {
    /// A run that has not begun.
    pub fn new(
        kind: Kind,
        input: String,
        credential: Option<String>,
        speech_output: SpeechOutput,
    ) -> (pipeline: Pipeline)
        ensures
            pipeline@ == (PipelineView {
                kind,
                input: input@,
                credential: opt_view(credential),
                speech_output,
                stage: Stage::Ready,
            }),
    {
        Pipeline { kind, input, credential, speech_output, stage: Stage::Ready }
    }

    pub fn kind(&self) -> (kind: Kind)
        ensures
            kind == self@.kind,
    {
        self.kind
    }

    pub fn stage(&self) -> (stage: Stage)
        ensures
            stage == self@.stage,
    {
        self.stage
    }

    /// The prompt, or for speech the path of the audio file.
    pub fn input(&self) -> (input: &String)
        ensures
            input@ == self@.input,
    {
        &self.input
    }

    pub fn speech_output(&self) -> (output: SpeechOutput)
        ensures
            output == self@.speech_output,
    {
        self.speech_output
    }

    /// Whether the run has ended, well or badly.
    pub fn is_done(&self) -> (done: bool)
        ensures
            done == (self@.stage is Succeeded || self@.stage is Failed),
    {
        match self.stage {
            Stage::Succeeded => true,
            Stage::Failed => true,
            _ => false,
        }
    }

    fn fail(&mut self, error: Error) -> (action: Action)
        ensures
            final(self)@ == old(self)@.at(Stage::Failed),
            action@ == ActionView::Fail(error@),
    {
        self.stage = Stage::Failed;
        Action::Fail(error)
    }

    fn reject(&mut self) -> (action: Action)
        ensures
            final(self)@ == old(self)@.at(out_of_sequence(old(self)@).0),
            action@ == out_of_sequence(old(self)@).1,
    {
        match self.stage {
            Stage::Succeeded => {},
            _ => {
                self.stage = Stage::Failed;
            },
        }
        Action::Fail(Error::OutOfSequence)
    }

    fn begin(&mut self) -> (action: Action)
        ensures
            final(self)@ == old(self)@.at(begin(old(self)@).0),
            action@ == begin(old(self)@).1,
    {
        match Operation::auth(&self.credential) {
            Err(error) => self.fail(error),
            Ok(header) => match self.kind {
                Kind::ImageGenerate => {
                    self.stage = Stage::Encoding;
                    Action::Encode(Payload::Image(Operation::image_request(self.input.as_str())))
                },
                Kind::TextComplete => {
                    self.stage = Stage::Encoding;
                    Action::Encode(Payload::Text(Operation::text_request(self.input.as_str())))
                },
                Kind::SpeechTranscribe => {
                    self.stage = Stage::Sending;
                    Action::Send(
                        Operation::upload_arguments(
                            SPEECH_URL,
                            header.as_str(),
                            self.input.as_str(),
                        ),
                    )
                },
            },
        }
    }

    fn after_encoding(&mut self, body: Option<String>) -> (action: Action)
        ensures
            final(self)@ == old(self)@.at(after_encoding(old(self)@, opt_view(body)).0),
            action@ == after_encoding(old(self)@, opt_view(body)).1,
    {
        match body {
            None => self.fail(Error::Serialization),
            Some(text) => match Operation::auth(&self.credential) {
                Err(error) => self.fail(error),
                Ok(header) => {
                    let url = match self.kind {
                        Kind::ImageGenerate => IMG_GEN_URL,
                        Kind::TextComplete => TXT_GEN_URL,
                        Kind::SpeechTranscribe => SPEECH_URL,
                    };
                    self.stage = Stage::Sending;
                    Action::Send(Operation::curl_arguments(url, text.as_str(), header.as_str()))
                },
            },
        }
    }

    fn persist_speech(&mut self, text: String) -> (action: Action)
        ensures
            final(self)@ == old(self)@.at(persist_speech(old(self)@, text@).0),
            action@ == persist_speech(old(self)@, text@).1,
    {
        match self.speech_output {
            SpeechOutput::Terminal => {
                self.stage = Stage::Writing;
                Action::Print(text)
            },
            SpeechOutput::File => {
                let name = Operation::text_out_name(self.input.as_str());
                let contents = text.as_str().as_bytes_vec();
                self.stage = Stage::Writing;
                Action::Write { name, contents, mode: WriteMode::Truncate }
            },
        }
    }

    /// Takes the transport's report, with the response body and the
    /// diagnostic output as text, and says what to do next.
    pub fn on_transport(&mut self, success: bool, body: String, diagnostic: String) -> (action:
        Action)
        ensures
            final(self)@ == old(self)@.at(transport(old(self)@, success, body@, diagnostic@).0),
            action@ == transport(old(self)@, success, body@, diagnostic@).1,
    {
        match self.stage {
            Stage::Sending => match Operation::handle_response(success, diagnostic) {
                Err(error) => self.fail(error),
                Ok(()) => match self.kind {
                    Kind::ImageGenerate => {
                        self.stage = Stage::Decoding;
                        Action::DecodeImage(body)
                    },
                    Kind::TextComplete => {
                        self.stage = Stage::Decoding;
                        Action::DecodeText(body)
                    },
                    Kind::SpeechTranscribe => self.persist_speech(body),
                },
            },
            _ => self.reject(),
        }
    }

    fn after_image_decode(&mut self, response: Option<ImageResponse>) -> (action: Action)
        ensures
            final(self)@ == old(self)@.at(
                after_image_decode(
                    match response {
                        Some(r) => Some(r@),
                        None => None,
                    },
                ).0,
            ),
            action@ == after_image_decode(
                match response {
                    Some(r) => Some(r@),
                    None => None,
                },
            ).1,
    {
        match response {
            None => self.fail(Error::Decode),
            Some(r) => {
                let data = r.data();
                if data.len() > 0 {
                    let url = data[0].url.clone();
                    assert(r@.urls[0] == url@);
                    self.stage = Stage::Fetching;
                    Action::Fetch(url)
                } else {
                    self.fail(Error::Decode)
                }
            },
        }
    }

    fn after_text_decode(&mut self, response: Option<TextResponse>) -> (action: Action)
        ensures
            final(self)@ == old(self)@.at(
                after_text_decode(
                    old(self)@,
                    match response {
                        Some(r) => Some(r@),
                        None => None,
                    },
                ).0,
            ),
            action@ == after_text_decode(
                old(self)@,
                match response {
                    Some(r) => Some(r@),
                    None => None,
                },
            ).1,
    {
        match response {
            None => self.fail(Error::Decode),
            Some(r) => {
                let mut text = String::new();
                Operation::write_responses(r.choices(), self.input.as_str(), &mut text);
                assert(text@ =~= transcript(self@.input, messages_of(r@.choices)));
                let contents = text.as_str().as_bytes_vec();
                self.stage = Stage::Writing;
                Action::Write { name: owned(TRANSCRIPT_FILE), contents, mode: WriteMode::Append }
            },
        }
    }

    fn after_fetch(&mut self, outcome: Result<Vec<u8>, String>) -> (action: Action)
        ensures
            final(self)@ == old(self)@.at(
                after_fetch(
                    old(self)@,
                    match outcome {
                        Ok(bytes) => Ok(bytes@),
                        Err(diagnostic) => Err(diagnostic@),
                    },
                ).0,
            ),
            action@ == after_fetch(
                old(self)@,
                match outcome {
                    Ok(bytes) => Ok(bytes@),
                    Err(diagnostic) => Err(diagnostic@),
                },
            ).1,
    {
        match outcome {
            Err(diagnostic) => self.fail(Error::TransportFailure(diagnostic)),
            Ok(contents) => {
                let name = Operation::format_out_name(self.input.as_str(), ".png");
                self.stage = Stage::Writing;
                Action::Write { name, contents, mode: WriteMode::Truncate }
            },
        }
    }

    fn after_write(&mut self, done: bool) -> (action: Action)
        ensures
            final(self)@ == old(self)@.at(after_write(done).0),
            action@ == after_write(done).1,
    {
        if done {
            self.stage = Stage::Succeeded;
            Action::Finish
        } else {
            self.fail(Error::FileIo)
        }
    }

    /// Takes what the driver reports and says what to do next. Only the
    /// stage of the run changes. Where the transport's output is valid
    /// UTF-8, the text made of it is the decoded output.
    pub fn step(&mut self, event: Event) -> (action: Action)
        ensures
            final(self)@ == old(self)@.at(next(old(self)@, event@).0),
            action@ == next(old(self)@, event@).1,
            old(self)@.stage is Sending ==> (event@ matches EventView::Sent { stdout, stderr, .. }
                ==> (valid_utf8(stdout) ==> utf8_lossy(stdout) == decode_utf8(stdout)) && (
            valid_utf8(stderr) ==> utf8_lossy(stderr) == decode_utf8(stderr))),
    {
        match (self.stage, event) {
            (Stage::Ready, Event::Start) => self.begin(),
            (Stage::Encoding, Event::Encoded(body)) => self.after_encoding(body),
            (Stage::Sending, Event::Sent { success, stdout, stderr }) => {
                let body = lossy_text(&stdout);
                let diagnostic = lossy_text(&stderr);
                self.on_transport(success, body, diagnostic)
            },
            (Stage::Sending, Event::TimedOut) => self.fail(Error::Timeout),
            (Stage::Decoding, Event::ImageDecoded(response)) => match self.kind {
                Kind::ImageGenerate => self.after_image_decode(response),
                _ => self.reject(),
            },
            (Stage::Decoding, Event::TextDecoded(response)) => match self.kind {
                Kind::TextComplete => self.after_text_decode(response),
                _ => self.reject(),
            },
            (Stage::Fetching, Event::Fetched(outcome)) => match self.kind {
                Kind::ImageGenerate => self.after_fetch(outcome),
                _ => self.reject(),
            },
            (Stage::Fetching, Event::TimedOut) => self.fail(Error::Timeout),
            (Stage::Writing, Event::Written(done)) => self.after_write(done),
            _ => self.reject(),
        }
    }
}

} // verus!
