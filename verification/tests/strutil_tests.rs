use urbit_chatbot::strutil::{prepend_sig, split_char, split_words, str_eq, trim_str};

#[test]
fn str_eq_compares_contents() {
    assert!(str_eq("abc", "abc"));
    assert!(!str_eq("abc", "abd"));
    assert!(!str_eq("abc", "abcd"));
    assert!(str_eq("", ""));
}

#[test]
fn prepend_sig_adds_tilde() {
    assert_eq!(prepend_sig("zod"), "~zod");
    assert_eq!(prepend_sig(""), "~");
}

#[test]
fn trim_removes_blank_ends() {
    assert_eq!(trim_str("  hello  "), "hello");
    assert_eq!(trim_str("\t a b \n"), "a b");
    assert_eq!(trim_str("   "), "");
    assert_eq!(trim_str("x"), "x");
}

#[test]
fn split_words_drops_empty_pieces() {
    let words = split_words(" c ethusd 1h");
    assert_eq!(words, vec!["c".to_string(), "ethusd".to_string(), "1h".to_string()]);
    let nothing = split_words("   ");
    assert_eq!(nothing.len(), 0);
}

#[test]
fn split_char_keeps_empty_pieces() {
    let parts = split_char("/ship/~peerY/chat-1", '/');
    assert_eq!(
        parts,
        vec!["".to_string(), "ship".to_string(), "~peerY".to_string(), "chat-1".to_string()]
    );
    let single = split_char("abc", '/');
    assert_eq!(single, vec!["abc".to_string()]);
}
