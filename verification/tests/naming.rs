use synthbrain::{Commander, Operation};

#[test]
fn out_name_of_a_red_fox() {
    assert_eq!(Operation::format_out_name("a red fox", ".png"), "a_red_fox.png");
}

#[test]
fn out_name_without_spaces_is_prompt_then_extension() {
    assert_eq!(Operation::format_out_name("fox", ".png"), "fox.png");
    assert_eq!(Operation::format_out_name("a_red_fox", ".png"), "a_red_fox.png");
}

#[test]
fn out_name_replaces_every_space() {
    assert_eq!(Operation::format_out_name("  a  b ", ".png"), "__a__b_.png");
    assert_eq!(Operation::format_out_name(" ", ".png"), "_.png");
}

#[test]
fn out_name_keeps_other_white_space_and_signs() {
    assert_eq!(Operation::format_out_name("a\tb\nc/d.e", ".png"), "a\tb\nc/d.e.png");
    assert_eq!(Operation::format_out_name("caf\u{e9} cr\u{e8}me", ".png"), "caf\u{e9}_cr\u{e8}me.png");
}

#[test]
fn out_name_of_the_empty_prompt_is_the_extension() {
    assert_eq!(Operation::format_out_name("", ".png"), ".png");
    assert_eq!(Operation::format_out_name("", ""), "");
}

#[test]
fn out_name_appends_the_extension_once_and_as_it_is() {
    assert_eq!(Operation::format_out_name("a b", ".p n g"), "a_b.p n g");
    assert_eq!(Operation::format_out_name("x.png", ".png"), "x.png.png");
}

#[test]
fn out_name_twice_is_stable_on_the_prompt_part() {
    let once = Operation::format_out_name("a red fox", "");
    let twice = Operation::format_out_name(&once, "");
    assert_eq!(once, twice);
}

#[test]
fn commander_names_files_as_operation_does() {
    assert_eq!(Commander::format_out_name("a red fox", ".png"), "a_red_fox.png");
    assert_eq!(
        Commander::format_out_name("one two", ".txt"),
        Operation::format_out_name("one two", ".txt")
    );
}

#[test]
fn text_name_of_a_plain_file() {
    assert_eq!(Operation::text_out_name("audio.mp3"), "audio.txt");
}

#[test]
fn text_name_leaves_the_directory_out() {
    assert_eq!(Operation::text_out_name("audio/talk.mp3"), "talk.txt");
    assert_eq!(Operation::text_out_name("d/x.mp3"), "x.txt");
    assert_eq!(Operation::text_out_name("/tmp/rec/talk.wav"), "talk.txt");
    assert_eq!(Operation::text_out_name("./a.mp3"), "a.txt");
    assert_eq!(Operation::text_out_name("../up/a.mp3"), "a.txt");
}

#[test]
fn text_name_cuts_the_last_extension_only() {
    assert_eq!(Operation::text_out_name("a.b.mp3"), "a.b.txt");
    assert_eq!(Operation::text_out_name("archive.tar.gz"), "archive.tar.txt");
    assert_eq!(Operation::text_out_name("rec/a.b.c.ogg"), "a.b.c.txt");
    assert_eq!(Operation::text_out_name("a..mp3"), "a..txt");
}

#[test]
fn text_name_of_a_path_without_a_dot() {
    assert_eq!(Operation::text_out_name("talk"), "talk.txt");
    assert_eq!(Operation::text_out_name("dir/talk"), "talk.txt");
    assert_eq!(Operation::text_out_name(""), ".txt");
}

#[test]
fn text_name_ignores_dots_in_the_directory() {
    assert_eq!(Operation::text_out_name("dir.d/talk"), "talk.txt");
    assert_eq!(Operation::text_out_name("v1.2/talk.mp3"), "talk.txt");
    assert_eq!(Operation::text_out_name("a.b/"), ".txt");
}

#[test]
fn text_name_with_an_empty_stem() {
    assert_eq!(Operation::text_out_name(".mp3"), ".txt");
    assert_eq!(Operation::text_out_name("."), ".txt");
    assert_eq!(Operation::text_out_name("dir/"), ".txt");
    assert_eq!(Operation::text_out_name("dir/.mp3"), ".txt");
}

#[test]
fn text_name_with_a_trailing_dot() {
    assert_eq!(Operation::text_out_name("a."), "a.txt");
    assert_eq!(Operation::text_out_name("dir/a."), "a.txt");
    assert_eq!(Operation::text_out_name("a.."), "a..txt");
}

#[test]
fn text_name_keeps_what_is_neither_directory_nor_extension() {
    assert_eq!(Operation::text_out_name("my talk\\one.mp3"), "my talk\\one.txt");
    assert_eq!(Operation::text_out_name("r\u{e9}sum\u{e9}.ogg"), "r\u{e9}sum\u{e9}.txt");
    assert_eq!(Operation::text_out_name("\u{97f3}/\u{58f0}.\u{2713}"), "\u{58f0}.txt");
}

#[test]
fn text_name_has_no_slash_and_ends_with_the_extension() {
    for path in ["a/b/c.mp3", "/x", "x/", "a.b/c.d/e.f.g", "//", "./."] {
        let name = Operation::text_out_name(path);
        assert!(name.ends_with(".txt"));
        assert!(!name.contains('/'));
    }
}
