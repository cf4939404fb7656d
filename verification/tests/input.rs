use annihilate::input::{char_len, insert_at_char_cursor, mask_secret, remove_before_char_cursor};

#[test]
fn insert_handles_multibyte_input() {
    // Typing after a multi-byte character inserts at a character boundary.
    let mut s = String::from("éa");
    let mut cursor = 1;
    cursor = insert_at_char_cursor(&mut s, cursor, 'X');
    assert_eq!(s, "éXa");
    assert_eq!(cursor, 2);
}

#[test]
fn insert_at_end_appends() {
    let mut s = String::from("héllo");
    let cursor = insert_at_char_cursor(&mut s, char_len("héllo"), '!');
    assert_eq!(s, "héllo!");
    assert_eq!(cursor, 6);
}

#[test]
fn backspace_removes_whole_character() {
    let mut s = String::from("héllo");
    let cursor = remove_before_char_cursor(&mut s, 2);
    assert_eq!(s, "hllo");
    assert_eq!(cursor, 1);
}

#[test]
fn backspace_at_start_is_a_no_op() {
    let mut s = String::from("é");
    let cursor = remove_before_char_cursor(&mut s, 0);
    assert_eq!(s, "é");
    assert_eq!(cursor, 0);
}

#[test]
fn typing_every_position_never_panics() {
    // Walk a cursor through mixed-width text, inserting at each stop.
    for cursor in 0..=char_len("éàü😀z") {
        let mut s = String::from("éàü😀z");
        insert_at_char_cursor(&mut s, cursor, 'q');
        assert_eq!(char_len(&s), 6);
    }
}

#[test]
fn mask_secret_does_not_split_characters() {
    assert_eq!(mask_secret("hf_abcdef"), "hf_******");
    assert_eq!(mask_secret("ab"), "**");
    assert_eq!(mask_secret(""), "");
    // Multi-byte input would panic under byte slicing.
    assert_eq!(mask_secret("éàüxy"), "éàü**");
}

#[test]
fn mask_keeps_the_character_count() {
    for secret in ["", "a", "abc", "abcd", "éàü😀z", "hf_0123456789"] {
        assert_eq!(char_len(&mask_secret(secret)), char_len(secret));
    }
    assert_eq!(mask_secret("abc"), "***");
    assert_eq!(mask_secret("abcd"), "abc*");
}

#[test]
fn insert_then_backspace_restores_the_text() {
    for cursor in 0..=char_len("héllo") {
        let mut s = String::from("héllo");
        let after = insert_at_char_cursor(&mut s, cursor, 'ß');
        assert_eq!(char_len(&s), 6);
        let back = remove_before_char_cursor(&mut s, after);
        assert_eq!(s, "héllo");
        assert_eq!(back, cursor);
    }
}

#[test]
fn insert_past_the_end_appends_and_backspace_past_the_end_is_a_no_op() {
    let mut s = String::from("ab");
    let cursor = insert_at_char_cursor(&mut s, 7, 'c');
    assert_eq!(s, "abc");
    assert_eq!(cursor, 8);
    let cursor = remove_before_char_cursor(&mut s, 9);
    assert_eq!(s, "abc");
    assert_eq!(cursor, 9);
}

#[test]
fn char_len_counts_characters_not_bytes() {
    assert_eq!(char_len(""), 0);
    assert_eq!(char_len("héllo"), 5);
    assert_eq!(char_len("😀"), 1);
}
