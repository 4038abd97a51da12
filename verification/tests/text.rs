use plain_clipboard::text::{payload_bytes, read_terminated, with_terminator};

fn wide(text: &str) -> Vec<u16> {
    text.encode_utf16().collect()
}

#[test]
fn read_stops_at_first_zero() {
    let mut buffer = wide("plain");
    buffer.push(0);
    buffer.extend(wide("left over"));
    buffer.push(0);
    assert_eq!(read_terminated(&buffer), wide("plain"));
}

#[test]
fn read_takes_all_without_zero() {
    let buffer = wide("no terminator");
    assert_eq!(read_terminated(&buffer), buffer);
}

#[test]
fn read_of_empty_buffer_is_empty() {
    assert_eq!(read_terminated(&[]), Vec::<u16>::new());
}

#[test]
fn read_of_leading_zero_is_empty() {
    assert_eq!(read_terminated(&[0, 65, 66]), Vec::<u16>::new());
}

#[test]
fn read_keeps_unpaired_surrogates() {
    let buffer = vec![0xD800, 0x0041, 0xDC00, 0];
    assert_eq!(read_terminated(&buffer), vec![0xD800, 0x0041, 0xDC00]);
}

#[test]
fn terminator_is_appended() {
    assert_eq!(with_terminator(&wide("ab")), vec![0x61, 0x62, 0]);
    assert_eq!(with_terminator(&Vec::new()), vec![0]);
}

#[test]
fn written_text_reads_back() {
    let text = wide("round trip \u{1F600}");
    assert_eq!(read_terminated(&with_terminator(&text)), text);
}

#[test]
fn payload_size_counts_terminator() {
    assert_eq!(payload_bytes(0), Some(2));
    assert_eq!(payload_bytes(1), Some(4));
    assert_eq!(payload_bytes(5), Some(12));
}

#[test]
fn payload_size_at_the_limit() {
    let most = usize::MAX / 2 - 1;
    assert_eq!(payload_bytes(most), Some(usize::MAX - 1));
    assert_eq!(payload_bytes(most + 1), None);
    assert_eq!(payload_bytes(usize::MAX), None);
}
