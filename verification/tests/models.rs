use synthbrain::strings::str_eq;
use synthbrain::{CompletionChoice, DataItem, ImageResponse, MessageItem, TextResponse};

#[test]
fn message_item_holds_role_and_content() {
    let item = MessageItem::new("user".to_string(), "hello".to_string());
    assert_eq!(item.role, "user");
    assert_eq!(item.content, "hello");
}

#[test]
fn image_response_holds_its_items_in_order() {
    let response = ImageResponse::new(
        -5,
        vec![DataItem { url: "https://a".to_string() }, DataItem { url: "https://b".to_string() }],
    );
    assert_eq!(response.created(), -5);
    assert_eq!(response.data().len(), 2);
    assert_eq!(response.data()[0].url, "https://a");
    assert_eq!(response.data[1].url, "https://b");
}

#[test]
fn completion_choice_holds_its_parts() {
    let choice = CompletionChoice::new(
        MessageItem::new("assistant".to_string(), "hi".to_string()),
        "length".to_string(),
        3,
    );
    assert_eq!(choice.message().role, "assistant");
    assert_eq!(choice.message.content, "hi");
    assert_eq!(choice.finish_reason(), "length");
    assert_eq!(choice.index(), 3);
}

#[test]
fn text_response_holds_its_parts() {
    let response = TextResponse::new(
        "id-1".to_string(),
        "chat.completion".to_string(),
        42,
        "gpt-3.5-turbo".to_string(),
        vec![CompletionChoice::new(
            MessageItem::new("assistant".to_string(), "hi".to_string()),
            "stop".to_string(),
            0,
        )],
    );
    assert_eq!(response.id(), "id-1");
    assert_eq!(response.object(), "chat.completion");
    assert_eq!(response.created(), 42);
    assert_eq!(response.model(), "gpt-3.5-turbo");
    assert_eq!(response.choices().len(), 1);
    assert_eq!(response.choices[0].message.content, "hi");
}

#[test]
fn strings_are_equal_where_their_signs_are() {
    assert!(str_eq("", ""));
    assert!(str_eq("image", "image"));
    assert!(str_eq("caf\u{e9}", "caf\u{e9}"));
    assert!(!str_eq("image", "images"));
    assert!(!str_eq("image", "imagf"));
    assert!(!str_eq("", "a"));
    assert!(!str_eq("cafe", "caf\u{e9}"));
}
