use ioserverlib::frame::{
    blank, has_payload, is_trimmed, is_unbroken, payload, seal, split_frame, trim, LINE_END,
};

#[test]
fn line_end_is_the_line_feed() {
    assert_eq!(LINE_END, b'\n');
}

#[test]
fn blank_bytes_are_the_five_of_ascii() {
    for byte in 0..=255u8 {
        assert_eq!(blank(byte), byte.is_ascii_whitespace(), "byte {}", byte);
    }
}

#[test]
fn vertical_tab_is_not_blank() {
    assert!(!blank(0x0b));
}

#[test]
fn trim_takes_blanks_off_both_ends() {
    assert_eq!(trim(b"  \t\"ping\" \r\n"), b"\"ping\"".to_vec());
}

#[test]
fn trim_keeps_blanks_inside() {
    assert_eq!(trim(b" a b\tc "), b"a b\tc".to_vec());
}

#[test]
fn trim_of_nothing_is_nothing() {
    assert_eq!(trim(b""), Vec::<u8>::new());
}

#[test]
fn trim_of_blanks_is_nothing() {
    assert_eq!(trim(b" \t\r\n\x0c"), Vec::<u8>::new());
}

#[test]
fn trim_agrees_with_std() {
    let samples: [&[u8]; 6] = [b"", b"x", b" x", b"x ", b"\n\nx y\n\n", b"\x0bx\x0b"];
    for sample in samples {
        assert_eq!(trim(sample), sample.trim_ascii().to_vec());
    }
}

#[test]
fn split_frame_without_line_feed_is_none() {
    assert_eq!(split_frame(b"\"pi"), None);
    assert_eq!(split_frame(b""), None);
}

#[test]
fn split_frame_takes_the_first_line_only() {
    assert_eq!(
        split_frame(b"\"ping\"\n\"pong\"\n"),
        Some((7, b"\"ping\"".to_vec()))
    );
}

#[test]
fn split_frame_counts_the_line_feed() {
    assert_eq!(split_frame(b"\n"), Some((1, Vec::new())));
    assert_eq!(split_frame(b"ab\ncd"), Some((3, b"ab".to_vec())));
}

#[test]
fn split_frame_trims_the_payload() {
    assert_eq!(split_frame(b"  7 \r\nrest"), Some((6, b"7".to_vec())));
}

#[test]
fn split_frame_of_a_blank_line_has_no_payload() {
    assert_eq!(split_frame(b" \t \nnext\n"), Some((4, Vec::new())));
}

#[test]
fn seal_appends_one_line_feed() {
    assert_eq!(seal(b"\"ping\"".to_vec()), b"\"ping\"\n".to_vec());
    assert_eq!(seal(Vec::new()), b"\n".to_vec());
}

#[test]
fn sealed_payload_splits_back() {
    let line = seal(b"{\"a\":1}".to_vec());
    assert_eq!(split_frame(&line), Some((line.len(), b"{\"a\":1}".to_vec())));
}

#[test]
fn payload_of_a_line_is_its_trimmed_bytes() {
    assert_eq!(payload(b" \"ping\" \r\n"), Some(b"\"ping\"".to_vec()));
    assert_eq!(payload(b"x"), Some(b"x".to_vec()));
}

#[test]
fn payload_of_a_blank_line_is_none() {
    assert_eq!(payload(b""), None);
    assert_eq!(payload(b"\n"), None);
    assert_eq!(payload(b" \t\r\n"), None);
}

#[test]
fn is_unbroken_looks_for_a_line_feed() {
    assert!(is_unbroken(b""));
    assert!(is_unbroken(b"\"a\\nb\"\r"));
    assert!(!is_unbroken(b"\n"));
    assert!(!is_unbroken(b"ab\ncd"));
    assert!(!is_unbroken(b"abcd\n"));
}

#[test]
fn is_trimmed_looks_at_both_ends() {
    assert!(is_trimmed(b""));
    assert!(is_trimmed(b"x"));
    assert!(is_trimmed(b"a b"));
    assert!(!is_trimmed(b" x"));
    assert!(!is_trimmed(b"x\n"));
    assert!(!is_trimmed(b" "));
}

#[test]
fn is_trimmed_agrees_with_trim() {
    let samples: [&[u8]; 7] = [b"", b" ", b"x", b" x", b"x ", b"x y", b"\tx y\r"];
    for sample in samples {
        assert_eq!(is_trimmed(sample), trim(sample) == sample.to_vec());
    }
}

#[test]
fn has_payload_passes_over_blank_lines() {
    assert!(has_payload(b"x\n"));
    assert!(has_payload(b"\n \n\t\r\nx\nrest"));
    assert!(has_payload(b"  x  \n"));
}

#[test]
fn has_payload_wants_a_whole_line() {
    assert!(!has_payload(b""));
    assert!(!has_payload(b"x"));
    assert!(!has_payload(b"\n\n \n"));
    assert!(!has_payload(b"\n\nx"));
}
