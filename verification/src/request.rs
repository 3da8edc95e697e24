use crate::consts::{IMAGE_COUNT, IMAGE_SIZE, SPEECH_MODEL, TEXT_MODEL, TEXT_TEMPERATURE_TENTHS};
use crate::error::{Error, ErrorView};
use crate::models::{
    ImageRequest, ImageRequestView, MessageItem, MessageView, TextRequest, TextRequestView,
};
use crate::operation::Operation;
use crate::strings::{opt_view, owned};
use vstd::prelude::*;
use vstd::string::*;

verus! {

/// The header that carries the API key.
pub open spec fn bearer_header(key: Seq<char>) -> Seq<char> {
    "Authorization: Bearer "@ + key
}

/// The arguments with which the HTTP client posts a JSON body.
pub open spec fn json_arguments(url: Seq<char>, body: Seq<char>, auth: Seq<char>) -> Seq<
    Seq<char>,
> {
    seq![url, "-H"@, "Content-Type: application/json"@, "-H"@, auth, "-d"@, body]
}

/// The arguments with which the HTTP client uploads an audio file as a
/// multipart form: the file, the model and the response format.
pub open spec fn upload_arguments(url: Seq<char>, auth: Seq<char>, filepath: Seq<char>) -> Seq<
    Seq<char>,
> {
    seq![
        "--request"@,
        "POST"@,
        "--url"@,
        url,
        "-H"@,
        "Content-Type: multipart/form-data"@,
        "-H"@,
        auth,
        "--form"@,
        "file=@"@ + filepath,
        "-F"@,
        "model="@ + SPEECH_MODEL@,
        "-F"@,
        "response_format=text"@,
    ]
}

/// The payload that asks for one small image of a prompt.
pub open spec fn image_payload(prompt: Seq<char>) -> ImageRequestView {
    ImageRequestView { prompt, n: IMAGE_COUNT as int, size: IMAGE_SIZE@ }
}

/// The payload that asks for the completion of a prompt: the model, the
/// prompt as the user's one message, and the temperature.
pub open spec fn text_payload(prompt: Seq<char>) -> TextRequestView {
    TextRequestView {
        model: TEXT_MODEL@,
        messages: seq![MessageView { role: "user"@, content: prompt }],
        temperature_tenths: TEXT_TEMPERATURE_TENTHS as int,
    }
}

/// How many ticks the progress bar of an upload shows: one per ten bytes.
pub open spec fn ticks(len: int) -> int {
    len / 10
}

impl Operation {
    /// The authorization header for a credential, or `MissingCredential`
    /// where there is none.
    pub fn auth(credential: &Option<String>) -> (header: Result<String, Error>)
        ensures
            match opt_view(*credential) {
                Some(key) => header matches Ok(text) && text@ == bearer_header(key),
                None => header matches Err(e) && e@ == ErrorView::MissingCredential,
            },
    {
        match credential {
            Some(key) => {
                let mut text = owned("Authorization: Bearer ");
                text.append(key.as_str());
                Ok(text)
            },
            None => Err(Error::MissingCredential),
        }
    }

    /// The arguments for posting `body` to `url`.
    pub fn curl_arguments(url: &str, body: &str, auth: &str) -> (arguments: Vec<String>)
        ensures
            arguments.deep_view() == json_arguments(url@, body@, auth@),
    {
        let mut arguments: Vec<String> = Vec::new();
        arguments.push(owned(url));
        arguments.push(owned("-H"));
        arguments.push(owned("Content-Type: application/json"));
        arguments.push(owned("-H"));
        arguments.push(owned(auth));
        arguments.push(owned("-d"));
        arguments.push(owned(body));
        assert(arguments.deep_view() =~= json_arguments(url@, body@, auth@));
        arguments
    }

    /// The arguments for uploading the audio file at `filepath` to `url`.
    pub fn upload_arguments(url: &str, auth: &str, filepath: &str) -> (arguments: Vec<String>)
        ensures
            arguments.deep_view() == upload_arguments(url@, auth@, filepath@),
    {
        let mut file = owned("file=@");
        file.append(filepath);
        let mut model = owned("model=");
        model.append(SPEECH_MODEL);
        let mut arguments: Vec<String> = Vec::new();
        arguments.push(owned("--request"));
        arguments.push(owned("POST"));
        arguments.push(owned("--url"));
        arguments.push(owned(url));
        arguments.push(owned("-H"));
        arguments.push(owned("Content-Type: multipart/form-data"));
        arguments.push(owned("-H"));
        arguments.push(owned(auth));
        arguments.push(owned("--form"));
        arguments.push(file);
        arguments.push(owned("-F"));
        arguments.push(model);
        arguments.push(owned("-F"));
        arguments.push(owned("response_format=text"));
        assert(arguments.deep_view() =~= upload_arguments(url@, auth@, filepath@));
        arguments
    }

    /// The payload of the image request for `prompt`.
    pub fn image_request(prompt: &str) -> (request: ImageRequest)
        ensures
            request@ == image_payload(prompt@),
    {
        ImageRequest { prompt: owned(prompt), n: IMAGE_COUNT, size: owned(IMAGE_SIZE) }
    }

    /// The payload of the text request for `prompt`.
    pub fn text_request(prompt: &str) -> (request: TextRequest)
        ensures
            request@ == text_payload(prompt@),
    {
        let mut messages: Vec<MessageItem> = Vec::new();
        messages.push(MessageItem::new(owned("user"), owned(prompt)));
        let request = TextRequest {
            model: owned(TEXT_MODEL),
            messages,
            temperature_tenths: TEXT_TEMPERATURE_TENTHS,
        };
        assert(request@.messages =~= text_payload(prompt@).messages);
        request
    }

    /// Judges what the transport reported: a failure is fatal and carries
    /// the transport's diagnostic.
    pub fn handle_response(success: bool, diagnostic: String) -> (verdict: Result<(), Error>)
        ensures
            success ==> verdict is Ok,
            !success ==> (verdict matches Err(e) && e@ == ErrorView::TransportFailure(
                diagnostic@,
            )),
    {
        if success {
            Ok(())
        } else {
            Err(Error::TransportFailure(diagnostic))
        }
    }

    /// How many ticks the progress bar shows for an upload of `len` bytes.
    pub fn progress_ticks(len: u64) -> (count: u64)
        ensures
            count == ticks(len as int),
    {
        len / 10
    }
}

} // verus!
