use calc::shell::{dispatch, find_blank, is_meta, LineAction};

#[test]
fn point_and_a_letter_is_a_meta_command() {
    assert!(is_meta(&".help".to_string()));
    assert!(is_meta(&".quit now".to_string()));
    assert!(is_meta(&"..".to_string()));
}

#[test]
fn point_and_a_digit_is_a_number() {
    assert!(!is_meta(&".5".to_string()));
    assert!(!is_meta(&".5+1".to_string()));
}

#[test]
fn short_or_plain_lines_are_no_meta_commands() {
    assert!(!is_meta(&"".to_string()));
    assert!(!is_meta(&".".to_string()));
    assert!(!is_meta(&"1+1".to_string()));
    assert!(!is_meta(&"help".to_string()));
    assert!(!is_meta(&"\u{e9}".to_string()));
}

#[test]
fn empty_line_is_skipped() {
    assert_eq!(dispatch(&"".to_string()), LineAction::Skip);
}

#[test]
fn expression_is_evaluated() {
    assert_eq!(dispatch(&"1+1".to_string()), LineAction::Evaluate { expr: "1+1" });
    assert_eq!(dispatch(&".5*2".to_string()), LineAction::Evaluate { expr: ".5*2" });
    assert_eq!(dispatch(&" ".to_string()), LineAction::Evaluate { expr: " " });
}

#[test]
fn meta_command_is_split_at_its_blanks() {
    assert_eq!(dispatch(&".help".to_string()), LineAction::Meta { name: ".help", arg: "" });
    assert_eq!(dispatch(&".help quit".to_string()), LineAction::Meta { name: ".help", arg: "quit" });
    assert_eq!(dispatch(&".help quit now".to_string()), LineAction::Meta { name: ".help", arg: "quit" });
    assert_eq!(dispatch(&".help  quit".to_string()), LineAction::Meta { name: ".help", arg: "" });
    assert_eq!(dispatch(&".help ".to_string()), LineAction::Meta { name: ".help", arg: "" });
    assert_eq!(dispatch(&". x".to_string()), LineAction::Meta { name: ".", arg: "x" });
    assert_eq!(dispatch(&".\u{e9}t\u{e9} \u{e0}".to_string()), LineAction::Meta { name: ".\u{e9}t\u{e9}", arg: "\u{e0}" });
}

#[test]
fn first_blank_from_an_offset() {
    let text: Vec<char> = "ab cd e".chars().collect();
    assert_eq!(find_blank(&text, 0), 2);
    assert_eq!(find_blank(&text, 2), 2);
    assert_eq!(find_blank(&text, 3), 5);
    assert_eq!(find_blank(&text, 6), 7);
    assert_eq!(find_blank(&text, 7), 7);
}
