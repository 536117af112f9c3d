use opensay::text::{str_eq, usize_to_string};
use opensay::transcribe::{assemble_transcript, trim_text};

#[test]
fn test_usize_to_string() {
    assert_eq!(usize_to_string(0), "0");
    assert_eq!(usize_to_string(7), "7");
    assert_eq!(usize_to_string(10), "10");
    assert_eq!(usize_to_string(1234), "1234");
    assert_eq!(usize_to_string(1000000), "1000000");
}

#[test]
fn test_str_eq() {
    assert!(str_eq("", ""));
    assert!(str_eq("abc", "abc"));
    assert!(!str_eq("abc", "abd"));
    assert!(!str_eq("abc", "ab"));
    assert!(!str_eq("Abc", "abc"));
}

#[test]
fn test_trim_text() {
    assert_eq!(trim_text(""), "");
    assert_eq!(trim_text("   "), "");
    assert_eq!(trim_text("  hello  "), "hello");
    assert_eq!(trim_text("\t\nhi\r\n"), "hi");
    assert_eq!(trim_text("inner  spaces stay"), "inner  spaces stay");
}

#[test]
fn test_assemble_transcript() {
    let segments = vec![" Hello,".to_string(), " world.".to_string()];
    assert_eq!(assemble_transcript(&segments), "Hello, world.");

    let empty: Vec<String> = Vec::new();
    assert_eq!(assemble_transcript(&empty), "");

    let silence = vec!["  ".to_string(), " ".to_string()];
    assert_eq!(assemble_transcript(&silence), "");
}
