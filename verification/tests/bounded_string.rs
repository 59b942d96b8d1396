use grindstone::models::BoundedString;

#[test]
fn test_bounded_string_max_length() {
    let mut s: BoundedString<5> = BoundedString::default();
    s.push('a');
    s.push('b');
    s.push('c');
    s.push('d');
    s.push('e');
    s.push('f'); // Should be ignored
    assert_eq!(s.to_string(), "abcde");
}

#[test]
fn test_bounded_string_empty() {
    let s: BoundedString<10> = BoundedString::default();
    assert!(s.is_empty());
    assert_eq!(s.to_string(), "");
}

#[test]
fn test_bounded_string_pop() {
    let mut s: BoundedString<10> = BoundedString::default();
    s.push('a');
    s.push('b');
    assert_eq!(s.pop(), Some('b'));
    assert_eq!(s.to_string(), "a");
}

#[test]
fn test_bounded_string_clear() {
    let mut s: BoundedString<10> = BoundedString::default();
    s.push('a');
    s.push('b');
    s.clear();
    assert!(s.is_empty());
}

#[test]
fn test_bounded_string_utf8_boundary() {
    // Multi-byte character: é is 2 bytes in UTF-8
    let mut s: BoundedString<3> = BoundedString::default();
    s.push('a'); // 1 byte, total 1
    s.push('é'); // 2 bytes, total 3
    s.push('b'); // Would exceed 3 bytes, ignored
    assert_eq!(s.to_string(), "aé");
}

#[test]
fn test_bounded_string_emoji() {
    // Emoji: 🎉 is 4 bytes in UTF-8
    let mut s: BoundedString<4> = BoundedString::default();
    s.push('🎉'); // 4 bytes, fits exactly
    s.push('a'); // Would exceed, ignored
    assert_eq!(s.to_string(), "🎉");
}

#[test]
fn test_bounded_string_whitespace_only() {
    let mut s: BoundedString<10> = BoundedString::default();
    s.push(' ');
    s.push(' ');
    s.push(' ');
    assert!(!s.is_empty()); // is_empty only checks length, not content
    assert!(s.is_blank()); // is_blank checks for whitespace-only
}

#[test]
fn test_bounded_string_is_blank() {
    let empty: BoundedString<10> = BoundedString::default();
    assert!(empty.is_blank());

    let whitespace: BoundedString<10> = BoundedString::from_string("   ");
    assert!(whitespace.is_blank());

    let content: BoundedString<10> = BoundedString::from_string("hello");
    assert!(!content.is_blank());

    let mixed: BoundedString<10> = BoundedString::from_string("  hi  ");
    assert!(!mixed.is_blank());
}

#[test]
fn test_bounded_string_from_string() {
    let s: BoundedString<5> = BoundedString::from_string("abc");
    assert_eq!(s.to_string(), "abc");

    let s: BoundedString<5> = BoundedString::from_string("abcdefgh");
    assert_eq!(s.to_string(), "abcde");
}

#[test]
fn test_bounded_string_from_string_utf8_truncation() {
    // "héllo" - é is 2 bytes, so "héll" is 5 bytes
    let s: BoundedString<5> = BoundedString::from_string("héllo");
    assert_eq!(s.to_string(), "héll");

    // Truncating in the middle of a multi-byte character
    let s: BoundedString<2> = BoundedString::from_string("é"); // é is 2 bytes
    assert_eq!(s.to_string(), "é");

    let s: BoundedString<1> = BoundedString::from_string("é"); // Can't fit, truncates to empty
    assert_eq!(s.to_string(), "");
}
