use safe_types::sstring::SString;

#[test]
fn owned_round_trip_keeps_bytes() {
    let s = String::from("héllo");
    let bytes = s.clone().into_bytes();
    let back = SString::from_string(s).into_string();
    assert_eq!(back, "héllo");
    assert_eq!(back.into_bytes(), bytes);
}

#[test]
fn empty_round_trip() {
    assert_eq!(SString::from_string(String::new()).into_string(), "");
}

#[test]
fn push_through_write_view() {
    let mut s = SString::from_string(String::from("héllo"));
    s.as_string_mut().push('!');
    assert_eq!(s.into_string(), "héllo!");
}

#[test]
fn growth_through_write_view_is_kept() {
    let mut s = SString::from_string(String::new());
    for _ in 0..100 {
        s.as_string_mut().push_str("ab");
    }
    s.as_string_mut().retain(|c| c == 'a');
    assert_eq!(s.len(), 100);
    assert_eq!(s.into_string(), "a".repeat(100));
}

#[test]
fn read_view_shows_text() {
    let s = SString::from_string(String::from("héllo"));
    assert_eq!(s.as_string().as_str(), "héllo");
    assert_eq!(s.as_string().len(), 6);
}

#[test]
fn from_impls_convert_both_ways() {
    let s: SString = SString::from(String::from("abc"));
    let back: String = String::from(s);
    assert_eq!(back, "abc");
}

#[test]
fn len_counts_bytes() {
    assert_eq!(SString::from_string(String::from("héllo")).len(), 6);
    assert_eq!(SString::from_string(String::from("€")).len(), 3);
    assert_eq!(SString::from_string(String::new()).len(), 0);
}

#[test]
fn is_empty_on_text() {
    assert!(SString::from_string(String::new()).is_empty());
    assert!(!SString::from_string(String::from("x")).is_empty());
}

#[test]
fn push_and_push_str_append() {
    let mut s = SString::from_string(String::from("ab"));
    s.push('c');
    s.push_str("dé");
    assert_eq!(s.into_string(), "abcdé");
}

#[test]
fn pop_takes_last_char() {
    let mut s = SString::from_string(String::from("hé"));
    assert_eq!(s.pop(), Some('é'));
    assert_eq!(s.pop(), Some('h'));
    assert_eq!(s.pop(), None);
    assert_eq!(s.into_string(), "");
}

#[test]
fn clear_empties() {
    let mut s = SString::from_string(String::from("héllo"));
    s.clear();
    assert!(s.is_empty());
    assert_eq!(s.into_string(), "");
}

#[test]
fn truncate_cuts_at_byte_position() {
    let mut s = SString::from_string(String::from("héllo"));
    s.truncate(3);
    assert_eq!(s.into_string(), "hé");
    let mut t = SString::from_string(String::from("abc"));
    t.truncate(10);
    assert_eq!(t.into_string(), "abc");
}

#[test]
fn insert_at_byte_position() {
    let mut s = SString::from_string(String::from("héllo"));
    s.insert(3, 'x');
    assert_eq!(s.as_string().as_str(), "héxllo");
    s.insert(0, '[');
    s.insert_str(s.len(), "]!");
    assert_eq!(s.into_string(), "[héxllo]!");
}
