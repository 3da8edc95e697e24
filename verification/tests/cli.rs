use synthbrain::cli::{Dispatch, Matched};
use synthbrain::pipeline::{Action, Event, Kind, Payload, SpeechOutput, Stage};
use synthbrain::{process_input, Cli, Error, Operation};

fn matched(
    subcommand: &str,
    operation: Option<&str>,
    prompt: Option<&str>,
    filepath: Option<&str>,
) -> Option<Matched> {
    Some(Matched {
        subcommand: subcommand.to_string(),
        operation: operation.map(String::from),
        prompt: prompt.map(String::from),
        filepath: filepath.map(String::from),
        print: false,
    })
}

fn printing(filepath: &str) -> Option<Matched> {
    Some(Matched {
        subcommand: "speech".to_string(),
        operation: None,
        prompt: None,
        filepath: Some(filepath.to_string()),
        print: true,
    })
}

fn key() -> Option<String> {
    Some("k".to_string())
}

#[test]
fn image_generate_runs_the_image_pipeline() {
    let todo = process_input(
        matched("image", Some("generate"), Some("a red fox"), None), key());
    assert_eq!(todo.notice(), None);
    match todo {
        Dispatch::Run(mut run) => {
            assert_eq!(run.kind(), Kind::ImageGenerate);
            assert_eq!(run.input(), "a red fox");
            assert_eq!(run.stage(), Stage::Ready);
            assert_eq!(
                run.step(Event::Start),
                Action::Encode(Payload::Image(Operation::image_request("a red fox")))
            );
        }
        other => panic!("{:?}", other),
    }
}

#[test]
fn text_complete_runs_the_text_pipeline() {
    let todo = process_input(
        matched("text", Some("complete"), Some("hello"), None), key());
    match todo {
        Dispatch::Run(run) => {
            assert_eq!(run.kind(), Kind::TextComplete);
            assert_eq!(run.input(), "hello");
        }
        other => panic!("{:?}", other),
    }
}

#[test]
fn speech_runs_on_its_file_with_the_chosen_output() {
    let todo = process_input(matched("speech", None, None, Some("a.mp3")), key());
    match todo {
        Dispatch::Run(run) => {
            assert_eq!(run.kind(), Kind::SpeechTranscribe);
            assert_eq!(run.input(), "a.mp3");
            assert_eq!(run.speech_output(), SpeechOutput::File);
        }
        other => panic!("{:?}", other),
    }
    match process_input(printing("b.wav"), key()) {
        Dispatch::Run(run) => {
            assert_eq!(run.input(), "b.wav");
            assert_eq!(run.speech_output(), SpeechOutput::Terminal);
        }
        other => panic!("{:?}", other),
    }
}

#[test]
fn run_carries_the_credential_it_was_given() {
    let todo = process_input(matched("text", Some("complete"), Some("hi"), None), None);
    match todo {
        Dispatch::Run(mut run) => {
            assert_eq!(run.step(Event::Start), Action::Fail(Error::MissingCredential));
        }
        other => panic!("{:?}", other),
    }
}

#[test]
fn unknown_operation_keyword_does_nothing() {
    let image = process_input(matched("image", Some("edit"), Some("x"), None), key());
    assert!(matches!(image, Dispatch::Ignored));
    assert_eq!(image.notice(), Some("Unknown operation".to_string()));
    let text = process_input(matched("text", Some("generate"), Some("x"), None), key());
    assert!(matches!(text, Dispatch::Ignored));
    let crossed = process_input(matched("image", Some("complete"), Some("x"), None), key());
    assert!(matches!(crossed, Dispatch::Ignored));
    let cased = process_input(matched("image", Some("Generate"), Some("x"), None), key());
    assert!(matches!(cased, Dispatch::Ignored));
}

#[test]
fn unknown_subcommand_is_told() {
    let todo = process_input(matched("video", Some("generate"), Some("x"), None), key());
    assert!(matches!(todo, Dispatch::UnknownSubcommand));
    assert_eq!(todo.notice(), Some("Unknown subcommands".to_string()));
}

#[test]
fn no_subcommand_is_told() {
    let todo = process_input(None, key());
    assert!(matches!(todo, Dispatch::NoSubcommand));
    assert_eq!(
        todo.notice(),
        Some("Failed to match subcommand @ process_input".to_string())
    );
}

#[test]
fn missing_argument_is_a_usage_error() {
    let no_prompt = process_input(matched("image", Some("generate"), None, None), key());
    match &no_prompt {
        Dispatch::Invalid(error) => assert_eq!(error, &Error::CliUsage("image".to_string())),
        other => panic!("{:?}", other),
    }
    assert_eq!(
        no_prompt.notice(),
        Some("Fatal error ::: command-line interface".to_string())
    );
    let no_keyword = process_input(matched("text", None, Some("x"), None), key());
    assert!(matches!(no_keyword, Dispatch::Invalid(Error::CliUsage(_))));
    let no_path = process_input(matched("speech", None, Some("x"), None), key());
    assert!(matches!(no_path, Dispatch::Invalid(Error::CliUsage(_))));
}

#[test]
fn subcommands_stand_for_their_operations() {
    assert_eq!(Cli::subcommand_kind("image"), Some(Kind::ImageGenerate));
    assert_eq!(Cli::subcommand_kind("text"), Some(Kind::TextComplete));
    assert_eq!(Cli::subcommand_kind("speech"), Some(Kind::SpeechTranscribe));
    assert_eq!(Cli::subcommand_kind("Image"), None);
    assert_eq!(Cli::subcommand_kind(""), None);
    assert_eq!(Cli::subcommand_kind("images"), None);
}

#[test]
fn each_operation_has_its_keyword() {
    assert!(Cli::is_keyword(Kind::ImageGenerate, "generate"));
    assert!(Cli::is_keyword(Kind::TextComplete, "complete"));
    assert!(!Cli::is_keyword(Kind::ImageGenerate, "complete"));
    assert!(!Cli::is_keyword(Kind::TextComplete, "generate"));
    assert!(!Cli::is_keyword(Kind::SpeechTranscribe, ""));
    assert!(!Cli::is_keyword(Kind::SpeechTranscribe, "generate"));
}

#[test]
fn each_error_has_its_message() {
    assert_eq!(
        Error::CliUsage("x".to_string()).message(),
        "Fatal error ::: command-line interface"
    );
    assert_eq!(Error::MissingCredential.message(), "Fatal error ::: missing credential");
    assert_eq!(
        Error::Serialization.message(),
        "Fatal error ::: request could not be encoded"
    );
    assert_eq!(
        Error::TransportFailure("no route".to_string()).message(),
        "CURL ERROR!: no route"
    );
    assert_eq!(Error::Timeout.message(), "Fatal error ::: request timed out");
    assert_eq!(Error::Decode.message(), "Fatal error ::: unexpected response");
    assert_eq!(Error::FileIo.message(), "Fatal error ::: output could not be written");
    assert_eq!(Error::OutOfSequence.message(), "Fatal error ::: event out of sequence");
}
