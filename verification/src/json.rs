//! Line-delimited JSON of text messages.
//!
//! One message is one JSON string on a line of its own. The JSON itself is the
//! work of `serde_json`; the lines are framed here.

use vstd::prelude::*;
use crate::frame::{
    first_frame, first_payload, has_payload, is_trimmed, is_unbroken, lemma_first_frame_of_sealed,
    lemma_first_payload, lemma_line_len, line_len, seal, sealed, split_frame, trimmed, unbroken,
};
use crate::serializer::Serializer;
use crate::stream::MemoryStream;

verus! {

/// The error of `serde_json`, carried from the call that made it to the
/// function that maps it.
#[verifier::external_type_specification]
#[verifier::external_body]
pub struct ExJsonError(serde_json::Error);

/// The compact JSON text that `serde_json::to_vec` makes of a string, as
/// bytes; `None` where it reports an error.
pub uninterp spec fn json_text_encoding(text: Seq<char>) -> Option<Seq<u8>>;

/// The string that `serde_json::from_slice` reads from JSON text; `None`
/// where it reports an error.
pub uninterp spec fn json_text_decoding(bytes: Seq<u8>) -> Option<Seq<char>>;

/// Calls `serde_json::to_vec` on a string. The result is a function of the
/// string alone and goes by the name `json_text_encoding`; nothing is claimed
/// of what the bytes are.
#[verifier::external_body]
fn encode_text(text: &String) -> (encoded: Result<Vec<u8>, serde_json::Error>)
    ensures
        match encoded {
            Ok(bytes) => json_text_encoding(text@) == Some(bytes@),
            Err(_) => json_text_encoding(text@) is None,
        },
{
    serde_json::to_vec(text)
}

/// Calls `serde_json::from_slice` for a string. The result is a function of
/// the bytes alone and goes by the name `json_text_decoding`; nothing is
/// claimed of which bytes are JSON.
#[verifier::external_body]
fn decode_text(bytes: &[u8]) -> (parsed: Result<String, serde_json::Error>)
    ensures
        match parsed {
            Ok(text) => json_text_decoding(bytes@) == Some(text@),
            Err(_) => json_text_decoding(bytes@) is None,
        },
{
    serde_json::from_slice::<String>(bytes)
}

/// Why a message did not pass.
#[derive(Debug, Clone, Copy, PartialEq, Eq, Structural)]
pub enum LineError {
    /// The transport failed: the stream was closed.
    Closed,
    /// A line was there and is no JSON string.
    Malformed,
    /// The message has no JSON text.
    Unencodable,
}

/// The serializer of text messages as JSON strings, one per line.
#[derive(Debug, Clone, Copy, PartialEq, Eq, Structural)]
pub struct JsonLines;

/// Whether `outcome` is what the payload of a line decodes to.
pub open spec fn decodes_to(payload: Seq<u8>, outcome: Result<String, LineError>) -> bool {
    match json_text_decoding(payload) {
        Some(text) => outcome matches Ok(message) && message@ == text,
        None => outcome == Err::<String, LineError>(LineError::Malformed),
    }
}

/// Whether one attempt on the unread bytes `unread` leaves `rest` and gives
/// `outcome`: without a whole line nothing is taken; a whole line is taken, and
/// gives its message unless it is blank.
pub open spec fn line_attempt(
    unread: Seq<u8>,
    rest: Seq<u8>,
    outcome: Result<Option<String>, LineError>,
) -> bool {
    match first_frame(unread) {
        None => rest == unread && outcome == Ok::<Option<String>, LineError>(None),
        Some((taken, payload)) => {
            &&& rest == unread.skip(taken as int)
            &&& if payload.len() == 0 {
                outcome == Ok::<Option<String>, LineError>(None)
            } else {
                match outcome {
                    Ok(Some(message)) => decodes_to(payload, Ok(message)),
                    Ok(None) => false,
                    Err(error) => decodes_to(payload, Err(error)),
                }
            }
        },
    }
}

/// Whether a blocking read on the unread bytes `unread` leaves `rest` and
/// gives `outcome`: blank lines are passed over, and the first line with a
/// payload is taken and decoded.
pub open spec fn line_read(
    unread: Seq<u8>,
    rest: Seq<u8>,
    outcome: Result<String, LineError>,
) -> bool {
    match first_payload(unread) {
        None => false,
        Some((taken, payload)) => rest == unread.skip(taken as int) && decodes_to(payload, outcome),
    }
}

/// Whether writing `text` after the unread bytes `unread` of a stream that is
/// open or not leaves `rest` and gives `outcome`: the line of the JSON text is
/// appended, unless there is no such text or the stream is closed.
pub open spec fn line_write(
    unread: Seq<u8>,
    open: bool,
    text: Seq<char>,
    rest: Seq<u8>,
    outcome: Result<(), LineError>,
) -> bool {
    match json_text_encoding(text) {
        None => rest == unread && outcome == Err::<(), LineError>(LineError::Unencodable),
        Some(encoding) => if open {
            rest == unread + sealed(encoding) && outcome == Ok::<(), LineError>(())
        } else {
            rest == unread && outcome == Err::<(), LineError>(LineError::Closed)
        },
    }
}

/// Whether JSON text `encoding`, read back as `parsed`, carries `text` on a
/// line: it holds no line feed, is not empty, has no blank byte at either end,
/// and `parsed` is `text`.
pub open spec fn survives(text: Seq<char>, encoding: Seq<u8>, parsed: Option<Seq<char>>) -> bool {
    &&& unbroken(encoding)
    &&& encoding.len() > 0
    &&& trimmed(encoding) == encoding
    &&& parsed == Some(text)
}

/// Whether the line format carries `text`: there is JSON text for it, and that
/// text, read back, survives on a line. The JSON codec decides this; here it
/// is named, and `JsonLines::carries` tells it of a given message.
pub open spec fn carried(text: Seq<char>) -> bool {
    json_text_encoding(text) matches Some(encoding) && survives(
        text,
        encoding,
        json_text_decoding(encoding),
    )
}

/// The line of `text` on the wire.
pub open spec fn line_of(text: Seq<char>) -> Seq<u8> {
    sealed(json_text_encoding(text)->0)
}

impl JsonLines {
    /// Tells whether a blocking read on `reader` settles: whether it holds a
    /// whole line that is not blank.
    pub fn pending(reader: &MemoryStream) -> (out: bool)
        ensures
            out == JsonLines.settles(*reader),
    {
        has_payload(reader.as_slice())
    }

    /// Tells whether the line format carries `message`: encodes it and reads
    /// the text back.
    pub fn carries(message: &String) -> (out: bool)
        ensures
            out == carried(message@),
    {
        match encode_text(message) {
            Ok(encoding) => {
                let parsed = decode_text(encoding.as_slice());
                Self::survived(message, encoding.as_slice(), parsed)
            },
            Err(_) => false,
        }
    }

    /// Tells whether JSON text `encoding`, which the JSON reader made
    /// `parsed` of, carries `message` on a line.
    pub fn survived(
        message: &String,
        encoding: &[u8],
        parsed: Result<String, serde_json::Error>,
    ) -> (out: bool)
        ensures
            out == survives(
                message@,
                encoding@,
                match parsed {
                    Ok(text) => Some(text@),
                    Err(_) => None,
                },
            ),
    {
        match parsed {
            Ok(text) => is_unbroken(encoding) && encoding.len() > 0 && is_trimmed(encoding)
                && text == *message,
            Err(_) => false,
        }
    }

    /// Settles an attempt on a line with a payload, given what the JSON
    /// reader made of the payload.
    pub fn accept(
        parsed: Result<String, serde_json::Error>,
    ) -> (outcome: Result<Option<String>, LineError>)
        ensures
            match parsed {
                Ok(text) => outcome == Ok::<Option<String>, LineError>(Some(text)),
                Err(_) => outcome == Err::<Option<String>, LineError>(LineError::Malformed),
            },
    {
        match parsed {
            Ok(text) => Ok(Some(text)),
            Err(_) => Err(LineError::Malformed),
        }
    }

    /// Writes the line of a message, given what the JSON writer made of the
    /// message: seals the text, writes it in full and flushes.
    pub fn send(
        writer: &mut MemoryStream,
        encoded: Result<Vec<u8>, serde_json::Error>,
    ) -> (outcome: Result<(), LineError>)
        ensures
            final(writer)@.open == old(writer)@.open,
            match encoded {
                Ok(bytes) => if old(writer)@.open {
                    &&& final(writer)@.unread == old(writer)@.unread + sealed(bytes@)
                    &&& outcome == Ok::<(), LineError>(())
                } else {
                    &&& final(writer)@.unread == old(writer)@.unread
                    &&& outcome == Err::<(), LineError>(LineError::Closed)
                },
                Err(_) => {
                    &&& final(writer)@.unread == old(writer)@.unread
                    &&& outcome == Err::<(), LineError>(LineError::Unencodable)
                },
            },
    {
        match encoded {
            Ok(bytes) => {
                let line = seal(bytes);
                match writer.write_all(line.as_slice()) {
                    Ok(()) => match writer.flush() {
                        Ok(()) => Ok(()),
                        Err(_) => Err(LineError::Closed),
                    },
                    Err(_) => Err(LineError::Closed),
                }
            },
            Err(_) => Err(LineError::Unencodable),
        }
    }
}

/// An attempt on a reader that settles is a step of the blocking read: a
/// message or an error ends the read as the attempt ended; an empty attempt
/// took a blank line, and the read goes on behind it.
pub proof fn lemma_attempt_is_a_step(
    codec: JsonLines,
    before: MemoryStream,
    after: MemoryStream,
    outcome: Result<Option<String>, LineError>,
)
    requires
        codec.settles(before),
        codec.attempts(before, after, outcome),
    ensures
        match outcome {
            Ok(Some(message)) => codec.reads(before, after, Ok(message)),
            Ok(None) => {
                &&& codec.settles(after)
                &&& codec.patience(after) < codec.patience(before)
                &&& forall|end: MemoryStream, later: Result<String, LineError>|
                    codec.reads(after, end, later) ==> #[trigger] codec.reads(before, end, later)
            },
            Err(error) => codec.reads(before, after, Err(error)),
        },
{
    let unread = before@.unread;
    lemma_line_len(unread);
    let taken = line_len(unread) + 1;
    let payload = trimmed(unread.take(line_len(unread) as int));
    assert(first_frame(unread) == Some((taken, payload)));
    assert(line_attempt(unread, after@.unread, outcome));
    if payload.len() == 0 {
        assert(first_payload(after@.unread) is Some);
        assert forall|end: MemoryStream, later: Result<String, LineError>|
            codec.reads(after, end, later) implies #[trigger] codec.reads(before, end, later) by {
            let (more, found) = first_payload(after@.unread)->0;
            assert(first_payload(unread) == Some((taken + more, found)));
            lemma_first_payload(after@.unread);
            assert(unread.skip(taken as int).skip(more as int) == unread.skip(
                (taken + more) as int,
            ));
        }
    } else {
        assert(first_payload(unread) == Some((taken, payload)));
    }
}

impl Serializer<MemoryStream, MemoryStream> for JsonLines {
    type Error = LineError;

    type Message = String;

    open spec fn attempts(
        &self,
        before: MemoryStream,
        after: MemoryStream,
        outcome: Result<Option<String>, LineError>,
    ) -> bool {
        after@.open == before@.open && line_attempt(before@.unread, after@.unread, outcome)
    }

    open spec fn reads(
        &self,
        before: MemoryStream,
        after: MemoryStream,
        outcome: Result<String, LineError>,
    ) -> bool {
        after@.open == before@.open && line_read(before@.unread, after@.unread, outcome)
    }

    open spec fn writes(
        &self,
        before: MemoryStream,
        message: String,
        after: MemoryStream,
        outcome: Result<(), LineError>,
    ) -> bool {
        after@.open == before@.open && line_write(
            before@.unread,
            before@.open,
            message@,
            after@.unread,
            outcome,
        )
    }

    open spec fn settles(&self, reader: MemoryStream) -> bool {
        first_payload(reader@.unread) is Some
    }

    open spec fn patience(&self, reader: MemoryStream) -> nat {
        reader@.unread.len()
    }

    fn try_read(&self, reader: &mut MemoryStream) -> (outcome: Result<Option<String>, LineError>) {
        proof {
            lemma_line_len(reader@.unread);
        }
        let outcome = match split_frame(reader.as_slice()) {
            Some((taken, payload)) => {
                reader.consume(taken);
                if payload.len() == 0 {
                    Ok(None)
                } else {
                    Self::accept(decode_text(payload.as_slice()))
                }
            },
            None => Ok(None),
        };
        proof {
            if self.settles(*old(reader)) {
                lemma_attempt_is_a_step(*self, *old(reader), *reader, outcome);
            }
        }
        outcome
    }

    fn write(&self, writer: &mut MemoryStream, message: String) -> (outcome: Result<
        (),
        LineError,
    >) {
        let outcome = Self::send(writer, encode_text(&message));
        assert(self.writes(*old(writer), message, *writer, outcome));
        outcome
    }
}

/// Writing a message that the line format carries to an open stream succeeds
/// and puts the line of the message behind what the stream held.
pub proof fn lemma_write_appends_line(
    before: MemoryStream,
    message: String,
    after: MemoryStream,
    outcome: Result<(), LineError>,
)
    requires
        before@.open,
        carried(message@),
        JsonLines.writes(before, message, after, outcome),
    ensures
        outcome is Ok,
        after@.open,
        after@.unread == before@.unread + line_of(message@),
{
}

/// A stream whose unread bytes start with the line of a message that the line
/// format carries is ready for a blocking read; the read returns that
/// message, takes its line and nothing else.
pub proof fn lemma_read_takes_first_line(
    before: MemoryStream,
    text: Seq<char>,
    rest: Seq<u8>,
    after: MemoryStream,
    outcome: Result<String, LineError>,
)
    requires
        carried(text),
        before@.unread == line_of(text) + rest,
    ensures
        JsonLines.settles(before),
        JsonLines.reads(before, after, outcome) ==> {
            &&& outcome matches Ok(message)
            &&& message@ == text
            &&& after@.unread == rest
            &&& after@.open == before@.open
        },
{
    let encoding = json_text_encoding(text)->0;
    lemma_first_frame_of_sealed(encoding, rest);
    assert(first_payload(before@.unread) == Some(((encoding.len() + 1) as nat, encoding)));
    assert(JsonLines.settles(before));
    if JsonLines.reads(before, after, outcome) {
        assert(line_read(before@.unread, after@.unread, outcome));
    }
}

/// Round trip: a message that the line format carries, written to an open
/// stream with nothing unread and then read from that stream, comes back as it
/// was written, and the stream has nothing unread again.
pub proof fn lemma_round_trip(
    start: MemoryStream,
    message: String,
    written: MemoryStream,
    wrote: Result<(), LineError>,
    end: MemoryStream,
    got: Result<String, LineError>,
)
    requires
        start@.open,
        start@.unread.len() == 0,
        carried(message@),
        JsonLines.writes(start, message, written, wrote),
        JsonLines.reads(written, end, got),
    ensures
        wrote is Ok,
        JsonLines.settles(written),
        got matches Ok(back) && back@ == message@,
        end@.unread.len() == 0,
{
    lemma_write_appends_line(start, message, written, wrote);
    assert(written@.unread == line_of(message@) + Seq::<u8>::empty());
    lemma_read_takes_first_line(written, message@, Seq::<u8>::empty(), end, got);
}

/// Partial input: an attempt on unread bytes that hold no whole line gives
/// "no message yet" and takes nothing. Once `more` bytes have arrived behind
/// them, the next attempt is an attempt on the same bytes followed by `more`.
pub proof fn lemma_partial_input(
    start: MemoryStream,
    waiting: MemoryStream,
    first: Result<Option<String>, LineError>,
    more: Seq<u8>,
    fed: MemoryStream,
    end: MemoryStream,
    second: Result<Option<String>, LineError>,
)
    requires
        unbroken(start@.unread),
        JsonLines.attempts(start, waiting, first),
        fed@.unread == waiting@.unread + more,
        JsonLines.attempts(fed, end, second),
    ensures
        first == Ok::<Option<String>, LineError>(None),
        waiting@.unread == start@.unread,
        waiting@.open == start@.open,
        line_attempt(start@.unread + more, end@.unread, second),
{
    lemma_line_len(start@.unread);
    assert(JsonLines.attempts(start, waiting, first));
    assert(JsonLines.attempts(fed, end, second));
}

/// Order: three messages that the line format carries, written one after the
/// other to an open stream with nothing unread, are read back by three
/// blocking reads in the order in which they were written.
pub proof fn lemma_order_kept(
    start: MemoryStream,
    messages: (String, String, String),
    written: (MemoryStream, MemoryStream, MemoryStream),
    wrote: (Result<(), LineError>, Result<(), LineError>, Result<(), LineError>),
    left: (MemoryStream, MemoryStream, MemoryStream),
    got: (Result<String, LineError>, Result<String, LineError>, Result<String, LineError>),
)
    requires
        start@.open,
        start@.unread.len() == 0,
        carried(messages.0@),
        carried(messages.1@),
        carried(messages.2@),
        JsonLines.writes(start, messages.0, written.0, wrote.0),
        JsonLines.writes(written.0, messages.1, written.1, wrote.1),
        JsonLines.writes(written.1, messages.2, written.2, wrote.2),
        JsonLines.reads(written.2, left.0, got.0),
        JsonLines.reads(left.0, left.1, got.1),
        JsonLines.reads(left.1, left.2, got.2),
    ensures
        wrote.0 is Ok && wrote.1 is Ok && wrote.2 is Ok,
        JsonLines.settles(written.2) && JsonLines.settles(left.0) && JsonLines.settles(left.1),
        got.0 matches Ok(first) && first@ == messages.0@,
        got.1 matches Ok(second) && second@ == messages.1@,
        got.2 matches Ok(third) && third@ == messages.2@,
        left.2@.unread.len() == 0,
{
    let lines = (line_of(messages.0@), line_of(messages.1@), line_of(messages.2@));
    let none = Seq::<u8>::empty();
    lemma_write_appends_line(start, messages.0, written.0, wrote.0);
    lemma_write_appends_line(written.0, messages.1, written.1, wrote.1);
    lemma_write_appends_line(written.1, messages.2, written.2, wrote.2);
    assert(written.2@.unread == lines.0 + (lines.1 + lines.2));
    lemma_read_takes_first_line(written.2, messages.0@, lines.1 + lines.2, left.0, got.0);
    lemma_read_takes_first_line(left.0, messages.1@, lines.2, left.1, got.1);
    assert(left.1@.unread == lines.2 + none);
    lemma_read_takes_first_line(left.1, messages.2@, none, left.2, got.2);
}

} // verus!
