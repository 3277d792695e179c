use laoshi::cmd::Cmd;
use laoshi::instructions::{plan_instruction_sync, InstructionSync};
use laoshi::strutil::{str_contains, str_eq};

#[test]
fn slash_words_select_commands() {
    assert!(matches!(Cmd::from_input("/q".to_string()), Cmd::Quit));
    assert!(matches!(Cmd::from_input("/r".to_string()), Cmd::RefreshAll));
    assert!(matches!(Cmd::from_input("/ra".to_string()), Cmd::RefreshAll));
    assert!(matches!(Cmd::from_input("/ri".to_string()), Cmd::RefreshInstructions));
    assert!(matches!(Cmd::from_input("/rf".to_string()), Cmd::RefreshFiles));
    assert!(matches!(Cmd::from_input("/rc".to_string()), Cmd::RefreshConversation));
}

#[test]
fn anything_else_is_chat() {
    match Cmd::from_input("what is the best language?".to_string()) {
        Cmd::Chat(msg) => assert_eq!(msg, "what is the best language?"),
        other => panic!("expected Chat, got {:?}", other),
    }
    assert!(matches!(Cmd::from_input("/rx".to_string()), Cmd::Chat(_)));
    assert!(matches!(Cmd::from_input("".to_string()), Cmd::Chat(_)));
    assert!(matches!(Cmd::from_input("/q ".to_string()), Cmd::Chat(_)));
}

#[test]
fn instructions_pushed_only_when_file_exists() {
    assert_eq!(plan_instruction_sync(true), InstructionSync::Push);
    assert_eq!(plan_instruction_sync(false), InstructionSync::Skip);
}

#[test]
fn string_helpers() {
    assert!(str_eq("abc", "abc"));
    assert!(!str_eq("abc", "abd"));
    assert!(!str_eq("abc", "abcd"));
    assert!(str_eq("", ""));
    assert!(str_contains("laoshi/.laoshi/files/x.md", ".laoshi"));
    assert!(!str_contains("src/main.rs", ".laoshi"));
    assert!(str_contains("anything", ""));
    assert!(str_contains("abc", "abc"));
    assert!(!str_contains("ab", "abc"));
    // Positions are counted in characters, not bytes.
    assert!(str_contains("l\u{e4}oshi", "\u{e4}o"));
    assert!(!str_eq("l\u{e4}oshi", "laoshi"));
}
