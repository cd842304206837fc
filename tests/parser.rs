use mini_redis::command::{parse_input, Command};
use mini_redis::errors::DBError;
use mini_redis::text::{split_tokens, trim};

#[test]
fn verb_is_case_insensitive() {
    assert_eq!(parse_input("get x"), Ok(Command::Get("x")));
    assert_eq!(parse_input("GET x"), Ok(Command::Get("x")));
    assert_eq!(parse_input("Get x"), Ok(Command::Get("x")));
    assert_eq!(parse_input("sEt k v"), Ok(Command::Put("k", "v")));
    assert_eq!(parse_input("exit"), Ok(Command::Exit));
}

#[test]
fn keys_and_values_are_taken_verbatim() {
    assert_eq!(parse_input("SET Key Value"), Ok(Command::Put("Key", "Value")));
}

#[test]
fn empty_and_blank_lines_are_empty_input() {
    assert_eq!(parse_input(""), Err(DBError::EmptyInput));
    assert_eq!(parse_input("   "), Err(DBError::EmptyInput));
    assert_eq!(parse_input("\t \n\u{3000}"), Err(DBError::EmptyInput));
}

#[test]
fn unknown_verb_is_unexpected_command() {
    assert_eq!(parse_input("FOO"), Err(DBError::UnexpectedCommand("FOO".to_string())));
    assert_eq!(parse_input("foo bar"), Err(DBError::UnexpectedCommand("FOO".to_string())));
}

#[test]
fn missing_key_and_missing_value() {
    assert_eq!(parse_input("GET"), Err(DBError::KeyNotFound));
    assert_eq!(parse_input("SET"), Err(DBError::KeyNotFound));
    assert_eq!(parse_input("SET k"), Err(DBError::ValueNotFound));
}

#[test]
fn extra_tokens_are_ignored() {
    assert_eq!(parse_input("EXIT now please"), Ok(Command::Exit));
    assert_eq!(parse_input("GET a b"), Ok(Command::Get("a")));
    assert_eq!(parse_input("SET a b c d"), Ok(Command::Put("a", "b")));
}

#[test]
fn separators_collapse() {
    assert_eq!(parse_input("  SET \t a\u{2003}\u{2003}b  "), Ok(Command::Put("a", "b")));
}

#[test]
fn splitting_drops_all_white_space() {
    assert_eq!(split_tokens("  ab  c\td\n"), vec!["ab", "c", "d"]);
    assert_eq!(split_tokens(""), Vec::<&str>::new());
    assert_eq!(split_tokens("x"), vec!["x"]);
    assert_eq!(split_tokens("\u{85}é\u{a0}ü"), vec!["é", "ü"]);
}

#[test]
fn trimming_keeps_inner_white_space() {
    assert_eq!(trim("  a b \t"), "a b");
    assert_eq!(trim("   "), "");
    assert_eq!(trim("ab"), "ab");
}

#[test]
fn error_messages() {
    assert_eq!(DBError::EmptyInput.message(), "Empty input received!");
    assert_eq!(DBError::KeyNotFound.message(), "Key not found!");
    assert_eq!(DBError::ValueNotFound.message(), "Value not found!");
    assert_eq!(
        DBError::UnexpectedCommand("FOO".to_string()).message(),
        "Unexpected command: FOO"
    );
}
