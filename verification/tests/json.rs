use ioserverlib::json::{JsonLines, LineError};
use ioserverlib::serializer::Serializer;
use ioserverlib::stream::MemoryStream;

fn stream_of(text: &str) -> MemoryStream {
    MemoryStream::from_bytes(text.as_bytes().to_vec())
}

#[test]
fn try_read_gives_the_first_message() {
    let mut stream = stream_of("\"ping\"\n\"pong\"\n");
    assert_eq!(JsonLines.try_read(&mut stream), Ok(Some("ping".to_string())));
    assert_eq!(stream.as_slice(), b"\"pong\"\n");
}

#[test]
fn try_read_on_nothing_is_no_message_yet() {
    let mut stream = MemoryStream::new();
    assert_eq!(JsonLines.try_read(&mut stream), Ok(None));
    assert_eq!(stream.len(), 0);
}

#[test]
fn try_read_on_a_partial_line_takes_nothing() {
    let mut stream = stream_of("\"pi");
    assert_eq!(JsonLines.try_read(&mut stream), Ok(None));
    assert_eq!(stream.as_slice(), b"\"pi");
    assert_eq!(JsonLines.try_read(&mut stream), Ok(None));
    assert_eq!(stream.as_slice(), b"\"pi");
}

#[test]
fn partial_line_is_completed_by_later_bytes() {
    let mut stream = stream_of("\"pi");
    assert_eq!(JsonLines.try_read(&mut stream), Ok(None));
    assert_eq!(stream.write_all(b"ng\"\n\"po"), Ok(()));
    assert_eq!(JsonLines.try_read(&mut stream), Ok(Some("ping".to_string())));
    assert_eq!(stream.as_slice(), b"\"po");
    assert_eq!(JsonLines.try_read(&mut stream), Ok(None));
    assert_eq!(stream.as_slice(), b"\"po");
}

#[test]
fn try_read_takes_a_blank_line_and_gives_nothing() {
    let mut stream = stream_of(" \t\r\n\"ping\"\n");
    assert_eq!(JsonLines.try_read(&mut stream), Ok(None));
    assert_eq!(stream.as_slice(), b"\"ping\"\n");
}

#[test]
fn try_read_trims_the_line() {
    let mut stream = stream_of("  \"ping\" \r\n");
    assert_eq!(JsonLines.try_read(&mut stream), Ok(Some("ping".to_string())));
    assert_eq!(stream.len(), 0);
}

#[test]
fn try_read_of_a_line_that_is_no_json_string_fails() {
    let mut stream = stream_of("ping\n\"pong\"\n");
    assert_eq!(JsonLines.try_read(&mut stream), Err(LineError::Malformed));
    assert_eq!(stream.as_slice(), b"\"pong\"\n");
}

#[test]
fn try_read_of_json_that_is_no_string_fails() {
    let mut stream = stream_of("42\n");
    assert_eq!(JsonLines.try_read(&mut stream), Err(LineError::Malformed));
}

#[test]
fn try_read_decodes_escapes() {
    let mut stream = stream_of("\"a\\nb\\\"c\\u00e9\"\n");
    assert_eq!(
        JsonLines.try_read(&mut stream),
        Ok(Some("a\nb\"c\u{e9}".to_string()))
    );
}

#[test]
fn read_passes_over_blank_lines() {
    let mut stream = stream_of("\n  \n\"ping\"\n\"pong\"\n");
    assert_eq!(JsonLines.read(&mut stream), Ok("ping".to_string()));
    assert_eq!(stream.as_slice(), b"\"pong\"\n");
}

#[test]
fn read_stops_at_the_first_error() {
    let mut stream = stream_of("\n{\n\"pong\"\n");
    assert_eq!(JsonLines.read(&mut stream), Err(LineError::Malformed));
    assert_eq!(stream.as_slice(), b"\"pong\"\n");
}

#[test]
fn write_appends_the_json_text_and_a_line_feed() {
    let mut stream = MemoryStream::new();
    assert_eq!(JsonLines.write(&mut stream, "ping".to_string()), Ok(()));
    assert_eq!(stream.as_slice(), b"\"ping\"\n");
    assert_eq!(JsonLines.write(&mut stream, "pong".to_string()), Ok(()));
    assert_eq!(stream.as_slice(), b"\"ping\"\n\"pong\"\n");
}

#[test]
fn write_escapes_line_feeds() {
    let mut stream = MemoryStream::new();
    assert_eq!(JsonLines.write(&mut stream, "a\nb".to_string()), Ok(()));
    assert_eq!(stream.as_slice(), b"\"a\\nb\"\n");
}

#[test]
fn write_to_a_closed_stream_fails_and_writes_nothing() {
    let mut stream = stream_of("\"ping\"\n");
    stream.close();
    assert_eq!(
        JsonLines.write(&mut stream, "pong".to_string()),
        Err(LineError::Closed)
    );
    assert_eq!(stream.as_slice(), b"\"ping\"\n");
}

#[test]
fn message_written_is_the_message_read() {
    let messages = [
        "ping",
        "",
        " ",
        "two\nlines",
        "\"quoted\"",
        "tab\there",
        "\u{e9}\u{4e16}\u{1f600}",
        "back\\slash",
        "\r\n",
    ];
    for message in messages {
        let mut stream = MemoryStream::new();
        assert_eq!(JsonLines.write(&mut stream, message.to_string()), Ok(()));
        assert_eq!(JsonLines.read(&mut stream), Ok(message.to_string()));
        assert_eq!(stream.len(), 0);
    }
}

#[test]
fn messages_are_read_in_the_order_written() {
    let mut stream = MemoryStream::new();
    assert_eq!(JsonLines.write(&mut stream, "m1".to_string()), Ok(()));
    assert_eq!(JsonLines.write(&mut stream, "m2".to_string()), Ok(()));
    assert_eq!(JsonLines.write(&mut stream, "m3".to_string()), Ok(()));
    assert_eq!(JsonLines.read(&mut stream), Ok("m1".to_string()));
    assert_eq!(JsonLines.read(&mut stream), Ok("m2".to_string()));
    assert_eq!(JsonLines.read(&mut stream), Ok("m3".to_string()));
    assert_eq!(stream.len(), 0);
}

#[test]
fn accept_maps_what_the_json_reader_made() {
    assert_eq!(
        JsonLines::accept(serde_json::from_slice::<String>(b"\"ping\"")),
        Ok(Some("ping".to_string()))
    );
    assert_eq!(
        JsonLines::accept(serde_json::from_slice::<String>(b"ping")),
        Err(LineError::Malformed)
    );
}

#[test]
fn send_seals_and_writes_what_the_json_writer_made() {
    let mut stream = stream_of("x");
    assert_eq!(JsonLines::send(&mut stream, Ok(b"\"ping\"".to_vec())), Ok(()));
    assert_eq!(stream.as_slice(), b"x\"ping\"\n");
}

#[test]
fn send_of_an_encoding_error_writes_nothing() {
    let mut stream = stream_of("x");
    let error = serde_json::from_slice::<String>(b"?").unwrap_err();
    assert_eq!(
        JsonLines::send(&mut stream, Err(error)),
        Err(LineError::Unencodable)
    );
    assert_eq!(stream.as_slice(), b"x");
}

#[test]
fn send_to_a_closed_stream_fails() {
    let mut stream = stream_of("x");
    stream.close();
    assert_eq!(
        JsonLines::send(&mut stream, Ok(b"\"ping\"".to_vec())),
        Err(LineError::Closed)
    );
    assert_eq!(stream.as_slice(), b"x");
}

#[test]
fn line_format_carries_text_of_every_kind() {
    let messages = [
        "ping",
        "",
        " ",
        "two\nlines",
        "\"quoted\"",
        "tab\there",
        "\u{0}\u{1f}\u{7f}",
        "\u{e9}\u{4e16}\u{1f600}",
        "back\\slash",
        "\r\n",
    ];
    for message in messages {
        assert!(JsonLines::carries(&message.to_string()), "{:?}", message);
    }
}

#[test]
fn survived_tells_what_breaks_a_line() {
    let ping = "ping".to_string();
    let parsed = || serde_json::from_slice::<String>(b"\"ping\"");
    assert!(JsonLines::survived(&ping, b"\"ping\"", parsed()));
    assert!(!JsonLines::survived(&ping, b"\"pi\nng\"", parsed()));
    assert!(!JsonLines::survived(&ping, b" \"ping\"", parsed()));
    assert!(!JsonLines::survived(&ping, b"\"ping\" ", parsed()));
    assert!(!JsonLines::survived(&ping, b"", parsed()));
    assert!(!JsonLines::survived(&"pong".to_string(), b"\"ping\"", parsed()));
    assert!(!JsonLines::survived(
        &ping,
        b"\"ping\"",
        serde_json::from_slice::<String>(b"ping")
    ));
}

#[test]
fn pending_tells_whether_a_read_settles() {
    assert!(!JsonLines::pending(&MemoryStream::new()));
    assert!(!JsonLines::pending(&stream_of("\"pi")));
    assert!(!JsonLines::pending(&stream_of("\n  \n")));
    assert!(JsonLines::pending(&stream_of("\n\"ping\"\n")));
    assert!(JsonLines::pending(&stream_of("no json\n")));
    let mut stream = stream_of("\n\"ping\"\n\"po");
    assert!(JsonLines::pending(&stream));
    assert_eq!(JsonLines.read(&mut stream), Ok("ping".to_string()));
    assert!(!JsonLines::pending(&stream));
}
