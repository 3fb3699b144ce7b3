use amplify_monitor::search::{find_bytes, find_line_number};
use amplify_monitor::text::{bullets, decimal, owned_texts, repeat, same_text};

#[test]
fn same_text_compares_whole_texts() {
    assert!(same_text("", ""));
    assert!(same_text("FAILED", "FAILED"));
    assert!(!same_text("FAILED", "failed"));
    assert!(!same_text("FAILED", "FAILE"));
    assert!(!same_text("a", ""));
    assert!(same_text("caf\u{e9}", "caf\u{e9}"));
    assert!(!same_text("caf\u{e9}", "cafe"));
}

#[test]
fn decimal_writes_numerals() {
    assert_eq!(decimal(0), "0");
    assert_eq!(decimal(7), "7");
    assert_eq!(decimal(10), "10");
    assert_eq!(decimal(105), "105");
    assert_eq!(decimal(9999), "9999");
    assert_eq!(decimal(usize::MAX), usize::MAX.to_string());
    for n in [1usize, 9, 11, 99, 100, 101, 1234567890] {
        assert_eq!(decimal(n), n.to_string());
    }
}

#[test]
fn repeat_writes_a_text_in_a_row() {
    assert_eq!(repeat("ab", 3), "ababab");
    assert_eq!(repeat("ab", 0), "");
    assert_eq!(repeat("", 5), "");
    assert_eq!(repeat("\u{2500}", 60), "\u{2500}".repeat(60));
}

#[test]
fn bullets_writes_one_line_per_item() {
    assert_eq!(bullets(&vec!["a".to_string(), "b c".to_string()]), "- a\n- b c\n");
    assert_eq!(bullets(&Vec::new()), "");
    assert_eq!(bullets(&vec![String::new()]), "- \n");
}

#[test]
fn owned_texts_copies_in_order() {
    assert_eq!(owned_texts(&["x", "", "y"]), vec!["x", "", "y"]);
    assert!(owned_texts(&[]).is_empty());
}

#[test]
fn find_bytes_gives_the_first_occurrence() {
    assert_eq!(find_bytes(b"abcabc", b"bc"), Some(1));
    assert_eq!(find_bytes(b"abcabc", b"abc"), Some(0));
    assert_eq!(find_bytes(b"abcabc", b"cab"), Some(2));
    assert_eq!(find_bytes(b"abcabc", b"abcabc"), Some(0));
    assert_eq!(find_bytes(b"abcabc", b"abcabcd"), None);
    assert_eq!(find_bytes(b"abcabc", b"x"), None);
    assert_eq!(find_bytes(b"abcabc", b""), Some(0));
    assert_eq!(find_bytes(b"", b""), Some(0));
    assert_eq!(find_bytes(b"", b"a"), None);
    assert_eq!(find_bytes(b"aab", b"ab"), Some(1));
}

#[test]
fn line_numbers_count_from_one() {
    let schema = "type Post\n  @model\n  @auth(rules: [])\n{\n  id: ID! @model\n}\n";
    assert_eq!(find_line_number(schema, "type"), Some(1));
    assert_eq!(find_line_number(schema, "@model"), Some(2));
    assert_eq!(find_line_number(schema, "@auth"), Some(3));
    assert_eq!(find_line_number(schema, "id:"), Some(5));
    assert_eq!(find_line_number(schema, "}"), Some(6));
    assert_eq!(find_line_number(schema, "@searchable"), None);
    assert_eq!(find_line_number("", "x"), None);
    assert_eq!(find_line_number("a\r\nb\r\nc", "c"), Some(3));
    assert_eq!(find_line_number("\n\n\nx", "x"), Some(4));
    let expected =
        schema.lines().enumerate().find(|(_, line)| line.contains("@auth")).map(|(i, _)| i + 1);
    assert_eq!(find_line_number(schema, "@auth"), expected);
}
