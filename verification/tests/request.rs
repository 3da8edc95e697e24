use synthbrain::consts::{
    CREDENTIAL_VARIABLE, IMAGE_COUNT, IMAGE_SIZE, IMG_GEN_URL, REQUEST_TIMEOUT_SECS, SPEECH_MODEL, SPEECH_URL,
    TEXT_MODEL, TEXT_TEMPERATURE_TENTHS, TRANSCRIPT_FILE, TXT_GEN_URL,
};
use synthbrain::{Error, MessageItem, Operation};

#[test]
fn auth_makes_the_bearer_header() {
    assert_eq!(
        Operation::auth(&Some("sk-123".to_string())),
        Ok("Authorization: Bearer sk-123".to_string())
    );
}

#[test]
fn auth_with_an_empty_key_still_makes_a_header() {
    assert_eq!(
        Operation::auth(&Some(String::new())),
        Ok("Authorization: Bearer ".to_string())
    );
}

#[test]
fn auth_without_a_key_is_a_missing_credential() {
    assert_eq!(Operation::auth(&None), Err(Error::MissingCredential));
}

#[test]
fn curl_arguments_post_a_json_body() {
    let arguments = Operation::curl_arguments("https://host/x", "{\"a\":1}", "Authorization: Bearer k");
    assert_eq!(
        arguments,
        vec![
            "https://host/x",
            "-H",
            "Content-Type: application/json",
            "-H",
            "Authorization: Bearer k",
            "-d",
            "{\"a\":1}",
        ]
    );
}

#[test]
fn upload_arguments_make_a_multipart_form() {
    let arguments = Operation::upload_arguments(SPEECH_URL, "Authorization: Bearer k", "talk.mp3");
    assert_eq!(
        arguments,
        vec![
            "--request",
            "POST",
            "--url",
            "https://api.openai.com/v1/audio/transcriptions",
            "-H",
            "Content-Type: multipart/form-data",
            "-H",
            "Authorization: Bearer k",
            "--form",
            "file=@talk.mp3",
            "-F",
            "model=whisper-1",
            "-F",
            "response_format=text",
        ]
    );
}

#[test]
fn image_request_asks_for_one_small_image() {
    let request = Operation::image_request("a red fox");
    assert_eq!(request.prompt, "a red fox");
    assert_eq!(request.n, 1);
    assert_eq!(request.size, "256x256");
}

#[test]
fn text_request_carries_the_prompt_as_the_users_message() {
    let request = Operation::text_request("hello");
    assert_eq!(request.model, "gpt-3.5-turbo");
    assert_eq!(
        request.messages,
        vec![MessageItem::new("user".to_string(), "hello".to_string())]
    );
    assert_eq!(request.temperature_tenths, 7);
}

#[test]
fn a_healthy_response_passes() {
    assert_eq!(Operation::handle_response(true, "noise".to_string()), Ok(()));
}

#[test]
fn a_failed_transport_is_fatal_and_keeps_its_diagnostic() {
    assert_eq!(
        Operation::handle_response(false, "could not resolve host".to_string()),
        Err(Error::TransportFailure("could not resolve host".to_string()))
    );
}

#[test]
fn progress_shows_one_tick_per_ten_bytes() {
    assert_eq!(Operation::progress_ticks(0), 0);
    assert_eq!(Operation::progress_ticks(9), 0);
    assert_eq!(Operation::progress_ticks(10), 1);
    assert_eq!(Operation::progress_ticks(105), 10);
    assert_eq!(Operation::progress_ticks(u64::MAX), 1844674407370955161);
}

#[test]
fn constants_hold_the_fixed_values() {
    assert_eq!(IMG_GEN_URL, "https://api.openai.com/v1/images/generations");
    assert_eq!(TXT_GEN_URL, "https://api.openai.com/v1/chat/completions");
    assert_eq!(SPEECH_URL, "https://api.openai.com/v1/audio/transcriptions");
    assert_eq!(IMAGE_SIZE, "256x256");
    assert_eq!(IMAGE_COUNT, 1);
    assert_eq!(TEXT_MODEL, "gpt-3.5-turbo");
    assert_eq!(TEXT_TEMPERATURE_TENTHS, 7);
    assert_eq!(SPEECH_MODEL, "whisper-1");
    assert_eq!(TRANSCRIPT_FILE, "completion_responses.txt");
    assert_eq!(REQUEST_TIMEOUT_SECS, 60);
    assert_eq!(CREDENTIAL_VARIABLE, "SYNTH_API_KEY");
}
