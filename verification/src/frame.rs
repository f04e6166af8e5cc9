//! Newline framing of message payloads.
//!
//! On the wire a message is one line: its payload, then a line feed. Blank
//! bytes around the payload do not belong to it, and a line that holds only
//! blank bytes carries no message. Bytes after the last line feed are the start
//! of a message that has not arrived in full.

use vstd::prelude::*;
use vstd::slice::{slice_subrange, slice_to_vec};

verus! {

/// The byte that ends a frame.
pub const LINE_END: u8 = 10;

/// Whether `byte` is ASCII whitespace: space, tab, line feed, form feed or
/// carriage return.
pub open spec fn is_blank(byte: u8) -> bool {
    byte == 32 || byte == 9 || byte == 10 || byte == 12 || byte == 13
}

/// `bytes` without its leading blank bytes.
pub open spec fn trim_start(bytes: Seq<u8>) -> Seq<u8>
    decreases bytes.len(),
{
    if bytes.len() > 0 && is_blank(bytes[0]) {
        trim_start(bytes.skip(1))
    } else {
        bytes
    }
}

/// `bytes` without its trailing blank bytes.
pub open spec fn trim_end(bytes: Seq<u8>) -> Seq<u8>
    decreases bytes.len(),
{
    if bytes.len() > 0 && is_blank(bytes.last()) {
        trim_end(bytes.drop_last())
    } else {
        bytes
    }
}

/// `bytes` without the blank bytes at either end.
pub open spec fn trimmed(bytes: Seq<u8>) -> Seq<u8> {
    trim_end(trim_start(bytes))
}

/// Whether `bytes` holds no line feed.
pub open spec fn unbroken(bytes: Seq<u8>) -> bool {
    forall|at: int| 0 <= at < bytes.len() ==> bytes[at] != LINE_END
}

/// The number of bytes before the first line feed, or the length of `bytes`
/// where it holds none.
pub open spec fn line_len(bytes: Seq<u8>) -> nat
    decreases bytes.len(),
{
    if bytes.len() == 0 || bytes[0] == LINE_END {
        0
    } else {
        1 + line_len(bytes.skip(1))
    }
}

/// Whether `bytes` holds a whole line, line feed included.
pub open spec fn has_line(bytes: Seq<u8>) -> bool {
    line_len(bytes) < bytes.len()
}

/// The first line of `bytes`: how many bytes it takes up, line feed included,
/// and its payload. `None` where no whole line has arrived.
pub open spec fn first_frame(bytes: Seq<u8>) -> Option<(nat, Seq<u8>)> {
    if has_line(bytes) {
        Some((line_len(bytes) + 1, trimmed(bytes.take(line_len(bytes) as int))))
    } else {
        None
    }
}

/// The first line of `bytes` that carries a payload: how many bytes lie before
/// its end, blank lines included, and the payload. `None` where every whole
/// line is blank.
pub open spec fn first_payload(bytes: Seq<u8>) -> Option<(nat, Seq<u8>)>
    decreases bytes.len(),
{
    if has_line(bytes) {
        let taken = line_len(bytes) + 1;
        let payload = trimmed(bytes.take(line_len(bytes) as int));
        if payload.len() > 0 {
            Some((taken, payload))
        } else {
            match first_payload(bytes.skip(taken as int)) {
                Some((more, later)) => Some((taken + more, later)),
                None => None,
            }
        }
    } else {
        None
    }
}

/// The line that carries `payload`.
pub open spec fn sealed(payload: Seq<u8>) -> Seq<u8> {
    payload.push(LINE_END)
}

/// `line_len` finds the first line feed.
pub proof fn lemma_line_len(bytes: Seq<u8>)
    ensures
        line_len(bytes) <= bytes.len(),
        unbroken(bytes.take(line_len(bytes) as int)),
        has_line(bytes) ==> bytes[line_len(bytes) as int] == LINE_END,
        has_line(bytes) <==> !unbroken(bytes),
    decreases bytes.len(),
{
    if bytes.len() == 0 || bytes[0] == LINE_END {
    } else {
        let rest = bytes.skip(1);
        lemma_line_len(rest);
        let n = line_len(rest) as int;
        let front = bytes.take(n + 1);
        assert forall|at: int| 0 <= at < front.len() implies front[at] != LINE_END by {
            if at > 0 {
                assert(rest.take(n)[at - 1] == bytes[at]);
            }
        }
        if !unbroken(rest) {
            let at = choose|at: int| 0 <= at < rest.len() && rest[at] == LINE_END;
            assert(bytes[at + 1] == LINE_END);
        }
        if !unbroken(bytes) {
            let at = choose|at: int| 0 <= at < bytes.len() && bytes[at] == LINE_END;
            assert(rest[at - 1] == LINE_END);
        }
    }
}

/// The first line feed is where `line_len` says: a line feed at `at` with none
/// before it gives `line_len(bytes) == at`.
pub proof fn lemma_line_len_is(bytes: Seq<u8>, at: int)
    requires
        0 <= at <= bytes.len(),
        unbroken(bytes.take(at)),
        at < bytes.len() ==> bytes[at] == LINE_END,
    ensures
        line_len(bytes) == at,
    decreases at,
{
    if at == 0 {
    } else {
        assert(bytes.take(at)[0] == bytes[0]);
        let rest = bytes.skip(1);
        let front = rest.take(at - 1);
        assert forall|k: int| 0 <= k < front.len() implies front[k] != LINE_END by {
            assert(bytes.take(at)[k + 1] == rest[k]);
        }
        lemma_line_len_is(rest, at - 1);
    }
}

/// What `first_payload` takes lies within `bytes`.
pub proof fn lemma_first_payload(bytes: Seq<u8>)
    ensures
        first_payload(bytes) matches Some((taken, _)) ==> 0 < taken <= bytes.len(),
    decreases bytes.len(),
{
    lemma_line_len(bytes);
    if has_line(bytes) {
        lemma_first_payload(bytes.skip(line_len(bytes) as int + 1));
    }
}

/// A sealed payload in front of other bytes is their first line, whatever
/// follows: it takes up the payload and its line feed, and gives back the
/// payload without the blank bytes at its ends.
pub proof fn lemma_first_frame_of_sealed(payload: Seq<u8>, rest: Seq<u8>)
    requires
        unbroken(payload),
    ensures
        first_frame(sealed(payload) + rest) == Some((payload.len() + 1, trimmed(payload))),
        (sealed(payload) + rest).skip(payload.len() as int + 1) == rest,
{
    let bytes = sealed(payload) + rest;
    let at = payload.len() as int;
    assert(bytes.take(at) == payload);
    assert(bytes[at] == LINE_END);
    lemma_line_len_is(bytes, at);
}

/// Trimming takes bytes away and adds none.
pub proof fn lemma_trim_shortens(bytes: Seq<u8>)
    ensures
        trim_start(bytes).len() <= bytes.len(),
        trim_end(bytes).len() <= bytes.len(),
        trimmed(bytes).len() <= bytes.len(),
    decreases bytes.len(),
{
    if bytes.len() > 0 {
        lemma_trim_shortens(bytes.skip(1));
    }
    lemma_trim_end_shortens(bytes);
    lemma_trim_end_shortens(trim_start(bytes));
}

/// Trimming the end takes bytes away and adds none.
proof fn lemma_trim_end_shortens(bytes: Seq<u8>)
    ensures
        trim_end(bytes).len() <= bytes.len(),
    decreases bytes.len(),
{
    if bytes.len() > 0 {
        lemma_trim_end_shortens(bytes.drop_last());
    }
}

/// Trimming leaves `bytes` as they are exactly where they are empty or
/// neither start nor end with a blank byte.
pub proof fn lemma_trimmed_is_self(bytes: Seq<u8>)
    ensures
        trimmed(bytes) == bytes <==> bytes.len() == 0 || (!is_blank(bytes[0]) && !is_blank(
            bytes.last(),
        )),
{
    if bytes.len() > 0 {
        if is_blank(bytes[0]) {
            lemma_trim_shortens(bytes.skip(1));
        } else if is_blank(bytes.last()) {
            lemma_trim_end_shortens(bytes.drop_last());
        }
    }
}

/// Tells whether `byte` is ASCII whitespace.
pub fn blank(byte: u8) -> (out: bool)
    ensures
        out == is_blank(byte),
{
    byte == 32 || byte == 9 || byte == 10 || byte == 12 || byte == 13
}

/// Copies `bytes` without the blank bytes at either end.
pub fn trim(bytes: &[u8]) -> (payload: Vec<u8>)
    ensures
        payload@ == trimmed(bytes@),
{
    let mut start: usize = 0;
    assert(bytes@.skip(0) == bytes@);
    while start < bytes.len() && blank(bytes[start])
        invariant
            start <= bytes.len(),
            trim_start(bytes@) == trim_start(bytes@.skip(start as int)),
        decreases bytes.len() - start,
    {
        assert(bytes@.skip(start as int).skip(1) == bytes@.skip(start + 1));
        start += 1;
    }
    let mut end: usize = bytes.len();
    assert(bytes@.skip(start as int) == bytes@.subrange(start as int, end as int));
    while end > start && blank(bytes[end - 1])
        invariant
            start <= end <= bytes.len(),
            trimmed(bytes@) == trim_end(bytes@.subrange(start as int, end as int)),
        decreases end,
    {
        assert(bytes@.subrange(start as int, end as int).drop_last() == bytes@.subrange(
            start as int,
            end - 1,
        ));
        end -= 1;
    }
    slice_to_vec(slice_subrange(bytes, start, end))
}

/// The payload of one line that was read whole: a copy of `line` without the
/// blank bytes at either end, or `None` where nothing is left of it.
pub fn payload(line: &[u8]) -> (out: Option<Vec<u8>>)
    ensures
        match out {
            Some(bytes) => bytes@ == trimmed(line@) && bytes@.len() > 0,
            None => trimmed(line@).len() == 0,
        },
{
    let bytes = trim(line);
    if bytes.len() == 0 {
        None
    } else {
        Some(bytes)
    }
}

/// Splits the first line off `bytes`: how many bytes it takes up, line feed
/// included, and a copy of its payload. `None` where no whole line has arrived.
pub fn split_frame(bytes: &[u8]) -> (frame: Option<(usize, Vec<u8>)>)
    ensures
        match frame {
            Some((taken, payload)) => first_frame(bytes@) == Some((taken as nat, payload@)),
            None => first_frame(bytes@) is None,
        },
{
    let mut at: usize = 0;
    while at < bytes.len() && bytes[at] != LINE_END
        invariant
            at <= bytes.len(),
            unbroken(bytes@.take(at as int)),
        decreases bytes.len() - at,
    {
        proof {
            let front = bytes@.take(at + 1);
            assert forall|k: int| 0 <= k < front.len() implies front[k] != LINE_END by {
                if k < at {
                    assert(bytes@.take(at as int)[k] == front[k]);
                }
            }
        }
        at += 1;
    }
    proof {
        lemma_line_len_is(bytes@, at as int);
    }
    if at < bytes.len() {
        assert(bytes@.subrange(0, at as int) == bytes@.take(at as int));
        let payload = trim(slice_subrange(bytes, 0, at));
        Some((at + 1, payload))
    } else {
        None
    }
}

/// Tells whether `bytes` holds no line feed.
pub fn is_unbroken(bytes: &[u8]) -> (out: bool)
    ensures
        out == unbroken(bytes@),
{
    let mut at: usize = 0;
    while at < bytes.len()
        invariant
            at <= bytes.len(),
            forall|k: int| 0 <= k < at ==> bytes@[k] != LINE_END,
        decreases bytes.len() - at,
    {
        if bytes[at] == LINE_END {
            return false;
        }
        at += 1;
    }
    true
}

/// Tells whether trimming would leave `bytes` as they are.
pub fn is_trimmed(bytes: &[u8]) -> (out: bool)
    ensures
        out == (trimmed(bytes@) == bytes@),
{
    proof {
        lemma_trimmed_is_self(bytes@);
    }
    bytes.len() == 0 || (!blank(bytes[0]) && !blank(bytes[bytes.len() - 1]))
}

/// Tells whether `bytes` holds a whole line with a payload.
pub fn has_payload(bytes: &[u8]) -> (out: bool)
    ensures
        out == (first_payload(bytes@) is Some),
{
    let mut at: usize = 0;
    assert(bytes@.skip(0) == bytes@);
    loop
        invariant
            at <= bytes.len(),
            first_payload(bytes@) is Some <==> first_payload(bytes@.skip(at as int)) is Some,
        decreases bytes.len() - at,
    {
        let rest = slice_subrange(bytes, at, bytes.len());
        assert(rest@ == bytes@.skip(at as int));
        proof {
            lemma_line_len(rest@);
        }
        match split_frame(rest) {
            Some((taken, payload)) => {
                if payload.len() > 0 {
                    return true;
                }
                assert(rest@.skip(taken as int) == bytes@.skip(at + taken));
                at += taken;
            },
            None => {
                return false;
            },
        }
    }
}

/// Ends `payload` with a line feed.
pub fn seal(payload: Vec<u8>) -> (line: Vec<u8>)
    ensures
        line@ == sealed(payload@),
{
    let mut line = payload;
    line.push(LINE_END);
    line
}

} // verus!
