use plainpad::index::{
    byte_count, byte_index_from_char, byte_range_to_char_range, char_index_from_byte, chars_of,
    slice_char_range, utf8_width,
};

#[test]
fn byte_index_of_ascii_text() {
    assert_eq!(byte_index_from_char("hello", 0), 0);
    assert_eq!(byte_index_from_char("hello", 3), 3);
    assert_eq!(byte_index_from_char("hello", 5), 5);
}

#[test]
fn byte_index_of_multibyte_text() {
    // 'é' takes two bytes, '€' three, '𝄞' four.
    let text = "aé€𝄞b";
    assert_eq!(byte_index_from_char(text, 1), 1);
    assert_eq!(byte_index_from_char(text, 2), 3);
    assert_eq!(byte_index_from_char(text, 3), 6);
    assert_eq!(byte_index_from_char(text, 4), 10);
    assert_eq!(byte_index_from_char(text, 5), 11);
}

#[test]
fn byte_index_past_the_end_clamps() {
    assert_eq!(byte_index_from_char("aé", 7), 3);
    assert_eq!(byte_index_from_char("", 0), 0);
    assert_eq!(byte_index_from_char("", 4), 0);
}

#[test]
fn char_index_of_byte_offsets() {
    let text = "aé€𝄞b";
    assert_eq!(char_index_from_byte(text, 0), 0);
    assert_eq!(char_index_from_byte(text, 3), 2);
    assert_eq!(char_index_from_byte(text, 10), 4);
    assert_eq!(char_index_from_byte(text, 11), 5);
}

#[test]
fn char_byte_round_trip_on_every_index() {
    let text = "x€y𝄞zé";
    let count = text.chars().count();
    for c in 0..=count {
        let b = byte_index_from_char(text, c);
        assert_eq!(char_index_from_byte(text, b), c);
    }
}

#[test]
fn byte_range_converts_both_ends() {
    let text = "αβγ abc";
    assert_eq!(byte_range_to_char_range(text, 7..10), 4..7);
    assert_eq!(byte_range_to_char_range(text, 0..2), 0..1);
    assert_eq!(byte_range_to_char_range(text, 10..10), 7..7);
}

#[test]
fn slice_by_characters() {
    let text = "aé€𝄞b";
    assert_eq!(slice_char_range(text, &(1..3)), "é€");
    assert_eq!(slice_char_range(text, &(3..99)), "𝄞b");
    assert_eq!(slice_char_range(text, &(7..9)), "");
}

#[test]
fn widths_and_counts() {
    assert_eq!(utf8_width('a'), 1);
    assert_eq!(utf8_width('é'), 2);
    assert_eq!(utf8_width('€'), 3);
    assert_eq!(utf8_width('𝄞'), 4);
    assert_eq!(byte_count("aé€𝄞"), 10);
    assert_eq!(chars_of("aé"), vec!['a', 'é']);
}
