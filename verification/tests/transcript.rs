use synthbrain::{CompletionChoice, MessageItem, Operation};

fn choice(role: &str, content: &str, index: i16) -> CompletionChoice {
    CompletionChoice::new(
        MessageItem::new(role.to_string(), content.to_string()),
        "stop".to_string(),
        index,
    )
}

#[test]
fn hello_gains_two_lines() {
    let mut out = String::new();
    Operation::write_responses(&vec![choice("assistant", "hi", 0)], "hello", &mut out);
    assert_eq!(out, "user ::: hello\nassistant ::: hi\n");
    let lines: Vec<&str> = out.lines().collect();
    assert_eq!(lines, vec!["user ::: hello", "assistant ::: hi"]);
}

#[test]
fn exchange_comes_after_what_was_there() {
    let mut out = String::from("user ::: first\nassistant ::: one\n");
    Operation::write_responses(&vec![choice("assistant", "two", 0)], "second", &mut out);
    assert_eq!(
        out,
        "user ::: first\nassistant ::: one\nuser ::: second\nassistant ::: two\n"
    );
}

#[test]
fn prior_content_without_a_line_break_stays_as_it_is() {
    let mut out = String::from("loose end");
    Operation::write_responses(&vec![], "p", &mut out);
    assert_eq!(out, "loose enduser ::: p\n");
}

#[test]
fn answers_keep_the_order_of_the_response() {
    let choices = vec![
        choice("assistant", "first", 0),
        choice("system", "second", 1),
        choice("assistant", "third", 2),
    ];
    let mut out = String::new();
    Operation::write_responses(&choices, "which?", &mut out);
    assert_eq!(
        out,
        "user ::: which?\nassistant ::: first\nsystem ::: second\nassistant ::: third\n"
    );
    assert_eq!(out.lines().count(), 4);
    assert_eq!(out.matches("user ::: ").count(), 1);
}

#[test]
fn no_answers_leave_the_users_line_alone() {
    let mut out = String::new();
    Operation::write_responses(&vec![], "anyone?", &mut out);
    assert_eq!(out, "user ::: anyone?\n");
}

#[test]
fn empty_prompt_and_empty_answer_still_make_lines() {
    let mut out = String::new();
    Operation::write_responses(&vec![choice("", "", 0)], "", &mut out);
    assert_eq!(out, "user ::: \n ::: \n");
}

#[test]
fn repeated_exchanges_pile_up() {
    let mut out = String::new();
    Operation::write_responses(&vec![choice("assistant", "a", 0)], "1", &mut out);
    Operation::write_responses(&vec![choice("assistant", "b", 0)], "2", &mut out);
    Operation::write_responses(&vec![choice("assistant", "c", 0)], "3", &mut out);
    assert_eq!(
        out,
        "user ::: 1\nassistant ::: a\nuser ::: 2\nassistant ::: b\nuser ::: 3\nassistant ::: c\n"
    );
}
