use toy_debugger::command::{is_space_char, resolve, Command, CommandError};
use toy_debugger::process::ProcessError;

#[test]
fn continue_and_its_prefixes_resolve() {
    assert_eq!(resolve("c"), Some(Command::Continue));
    assert_eq!(resolve("con"), Some(Command::Continue));
    assert_eq!(resolve("continue"), Some(Command::Continue));
}

#[test]
fn other_words_resolve_to_nothing() {
    assert_eq!(resolve("x"), None);
    assert_eq!(resolve(""), None);
    assert_eq!(resolve("   "), None);
    assert_eq!(resolve("continues"), None);
    assert_eq!(resolve("cx"), None);
    assert_eq!(resolve("C"), None);
}

#[test]
fn only_the_first_word_counts() {
    assert_eq!(resolve("  co  now"), Some(Command::Continue));
    assert_eq!(resolve("\tcont\n"), Some(Command::Continue));
    assert_eq!(resolve("x continue"), None);
    assert_eq!(resolve("\u{3000}c"), Some(Command::Continue));
}

#[test]
fn whitespace_characters() {
    assert!(is_space_char(' '));
    assert!(is_space_char('\n'));
    assert!(is_space_char('\u{a0}'));
    assert!(is_space_char('\u{2009}'));
    assert!(!is_space_char('c'));
    assert!(!is_space_char('\u{200b}'));
    for c in ['a', ' ', '\t', '\u{85}', '\u{1680}', '\u{202f}', '\u{3000}', '\u{200b}', 'x'] {
        assert_eq!(is_space_char(c), c.is_whitespace());
    }
}

#[test]
fn command_error_messages() {
    assert_eq!(CommandError::Unknown.message(), "Unknown command");
    assert_eq!(
        CommandError::Process(ProcessError::Resume).message(),
        "Failed to resume inferior process"
    );
}
