//! Framing of server-sent-event streams that carry JSON chunks: splitting the
//! byte stream into events, reading an event's `data:` payload, and the decoder
//! that feeds on network chunks until the `[DONE]` event.
use vstd::prelude::*;
use vstd::utf8::{decode_utf8, valid_utf8};

use crate::transport::TransportError;
use crate::text::{
    chars_of, has_prefix, joined, split_lines, str_eq, string_from_chars, text_lines,
    trim_start, trimmed_start, views, join,
};

verus! {

/// Whether a byte is ASCII white space (`u8::is_ascii_whitespace`).
pub open spec fn is_ascii_space(b: u8) -> bool {
    b == 0x20 || b == 0x09 || b == 0x0a || b == 0x0c || b == 0x0d
}

/// Whether every byte is ASCII white space (true of no bytes).
pub open spec fn all_ascii_space(bytes: Seq<u8>) -> bool {
    forall|i: int| 0 <= i < bytes.len() ==> is_ascii_space(#[trigger] bytes[i])
}

/// Whether `bytes[i..]` starts with `pattern`.
pub open spec fn bytes_at(bytes: Seq<u8>, i: int, pattern: Seq<u8>) -> bool {
    0 <= i && i + pattern.len() <= bytes.len() && bytes.subrange(i, i + pattern.len()) == pattern
}

/// The first event boundary at or after `i`: the end of the event and where the
/// next one starts, for a `"\r\n\r\n"` or `"\n\n"` separator.
pub open spec fn boundary_from(bytes: Seq<u8>, i: int) -> Option<(int, int)>
    decreases bytes.len() - i,
{
    if i < 0 || i >= bytes.len() {
        None
    } else if bytes_at(bytes, i, seq![13u8, 10u8, 13u8, 10u8]) {
        Some((i, i + 4))
    } else if bytes_at(bytes, i, seq![10u8, 10u8]) {
        Some((i, i + 2))
    } else {
        boundary_from(bytes, i + 1)
    }
}

fn starts_with_at(bytes: &[u8], i: usize, pattern: &[u8]) -> (r: bool)
    ensures
        r == bytes_at(bytes@, i as int, pattern@),
{
    if i > bytes.len() || pattern.len() > bytes.len() - i {
        return false;
    }
    let n = bytes.len();
    let mut k: usize = 0;
    while k < pattern.len()
        invariant
            n == bytes@.len(),
            i + pattern@.len() <= n,
            0 <= k <= pattern@.len(),
            forall|j: int| 0 <= j < k ==> bytes@[i + j] == pattern@[j],
        decreases pattern@.len() - k,
    {
        proof {
            assert(i + k < n);
        }
        if bytes[i + k] != pattern[k] {
            proof {
                assert(bytes@.subrange(i as int, i + pattern@.len())[k as int] != pattern@[k as int]);
            }
            return false;
        }
        k = k + 1;
    }
    proof {
        assert(bytes@.subrange(i as int, i + pattern@.len()) =~= pattern@);
    }
    true
}

/// Finds the first event boundary in `buffer`: `(event_end, consumed)`.
pub fn split_event(buffer: &[u8]) -> (r: Option<(usize, usize)>)
    ensures
        match r {
            Some((end, consumed)) => boundary_from(buffer@, 0) == Some((end as int, consumed as int)),
            None => boundary_from(buffer@, 0) is None,
        },
{
    let crlf: [u8; 4] = [13u8, 10u8, 13u8, 10u8];
    let lf: [u8; 2] = [10u8, 10u8];
    let n = buffer.len();
    let mut index: usize = 0;
    proof {
        assert(crlf@ =~= seq![13u8, 10u8, 13u8, 10u8]);
        assert(lf@ =~= seq![10u8, 10u8]);
    }
    while index < n
        invariant
            n == buffer@.len(),
            crlf@ == seq![13u8, 10u8, 13u8, 10u8],
            lf@ == seq![10u8, 10u8],
            0 <= index <= n,
            boundary_from(buffer@, 0) == boundary_from(buffer@, index as int),
        decreases n - index,
    {
        if starts_with_at(buffer, index, crlf.as_slice()) {
            proof {
                assert(index + 4 <= n);
            }
            return Some((index, index + 4));
        }
        if starts_with_at(buffer, index, lf.as_slice()) {
            proof {
                assert(index + 2 <= n);
            }
            return Some((index, index + 2));
        }
        index = index + 1;
    }
    None
}

/// What an event amounts to.
#[derive(Clone, Copy, Debug, PartialEq, Eq, Structural)]
pub enum EventClass {
    /// Empty or white space only.
    Blank,
    /// Not valid UTF-8.
    BadUtf8,
    /// No `data:` lines.
    NoData,
    /// The data is `[DONE]`.
    Done,
    /// The data is a payload.
    Data,
}

/// A line without all its trailing carriage returns.
pub open spec fn without_trailing_cr(line: Seq<char>) -> Seq<char>
    decreases line.len(),
{
    if line.len() > 0 && line.last() == '\r' {
        without_trailing_cr(line.drop_last())
    } else {
        line
    }
}

/// The data a line carries: after a `data:` field name, without leading white
/// space; comment lines (starting with `:`) and other fields carry none.
pub open spec fn line_data(line: Seq<char>) -> Option<Seq<char>> {
    let l = without_trailing_cr(line);
    if has_prefix(l, ":"@) {
        None
    } else if has_prefix(l, "data:"@) {
        Some(trimmed_start(l.skip(5)))
    } else {
        None
    }
}

/// The data lines of an event's text.
pub open spec fn data_lines(text: Seq<char>) -> Seq<Seq<char>> {
    text_lines(text).filter_map(|l: Seq<char>| line_data(l))
}

/// An event's payload: its data lines joined with `'\n'`.
pub open spec fn event_payload(raw: Seq<u8>) -> Seq<char> {
    joined(data_lines(decode_utf8(raw)), "\n"@)
}

/// How an event's bytes are classified.
pub open spec fn event_class(raw: Seq<u8>) -> EventClass {
    if all_ascii_space(raw) {
        EventClass::Blank
    } else if !valid_utf8(raw) {
        EventClass::BadUtf8
    } else if data_lines(decode_utf8(raw)).len() == 0 {
        EventClass::NoData
    } else if event_payload(raw) == "[DONE]"@ {
        EventClass::Done
    } else {
        EventClass::Data
    }
}

/// An event read from the stream.
#[derive(Clone, Debug, PartialEq, Eq)]
pub enum ParsedEvent {
    /// The end-of-stream event.
    Done,
    /// An event without data.
    Skip,
    /// The JSON text of a chunk.
    Payload(String),
}

/// The text of the error `String::from_utf8` reports for `bytes`.
pub uninterp spec fn utf8_error_text(bytes: Seq<u8>) -> Seq<char>;

/// `String::from_utf8`: decodes `bytes` when they are valid UTF-8, else gives the
/// displayed text of the decoding error.
#[verifier::external_body]
fn decode_utf8_text(bytes: &[u8]) -> (r: Result<String, String>)
    ensures
        r is Ok <==> valid_utf8(bytes@),
        r matches Ok(s) ==> s@ == decode_utf8(bytes@),
        r matches Err(m) ==> m@ == utf8_error_text(bytes@),
{
    match String::from_utf8(bytes.to_vec()) {
        Ok(s) => Ok(s),
        Err(e) => Err(e.to_string()),
    }
}

fn is_blank(bytes: &[u8]) -> (r: bool)
    ensures
        r == all_ascii_space(bytes@),
{
    let mut i: usize = 0;
    while i < bytes.len()
        invariant
            0 <= i <= bytes@.len(),
            forall|j: int| 0 <= j < i ==> is_ascii_space(#[trigger] bytes@[j]),
        decreases bytes@.len() - i,
    {
        let b = bytes[i];
        if !(b == 0x20 || b == 0x09 || b == 0x0a || b == 0x0c || b == 0x0d) {
            return false;
        }
        i = i + 1;
    }
    true
}

/// The data a line carries, if any.
fn data_of_line(line: &str) -> (r: Option<String>)
    ensures
        match r {
            Some(d) => line_data(line@) == Some(d@),
            None => line_data(line@) is None,
        },
{
    let cs = chars_of(line);
    let mut end = cs.len();
    proof {
        assert(cs@.take(end as int) =~= cs@);
    }
    while end > 0 && cs[end - 1] == '\r'
        invariant
            end <= cs@.len(),
            cs@ == line@,
            without_trailing_cr(line@) == without_trailing_cr(cs@.take(end as int)),
        decreases end,
    {
        proof {
            assert(cs@.take(end as int).drop_last() =~= cs@.take(end - 1));
        }
        end = end - 1;
    }
    let ghost l = cs@.take(end as int);
    proof {
        assert(without_trailing_cr(l) == l);
        reveal_strlit(":");
        reveal_strlit("data:");
    }
    if end > 0 && cs[0] == ':' {
        proof {
            assert(l.take(1) =~= ":"@);
        }
        return None;
    }
    proof {
        if has_prefix(l, ":"@) {
            assert(l.take(1)[0] == l[0]);
        }
    }
    if end >= 5 && cs[0] == 'd' && cs[1] == 'a' && cs[2] == 't' && cs[3] == 'a' && cs[4] == ':' {
        proof {
            assert(l.take(5) =~= "data:"@);
        }
        let rest = string_from_chars(&cs, 5, end);
        proof {
            assert(rest@ =~= l.skip(5));
        }
        return Some(trim_start(rest.as_str()));
    }
    proof {
        if has_prefix(l, "data:"@) {
            assert(l.take(5)[0] == l[0]);
            assert(l.take(5)[1] == l[1]);
            assert(l.take(5)[2] == l[2]);
            assert(l.take(5)[3] == l[3]);
            assert(l.take(5)[4] == l[4]);
        }
    }
    None
}

/// Reads one event: blank events and events without data are skipped, `[DONE]`
/// ends the stream, anything else is a payload.
pub fn parse_event(raw: &[u8]) -> (r: Result<ParsedEvent, TransportError>)
    ensures
        match event_class(raw@) {
            EventClass::Blank | EventClass::NoData => r == Ok::<ParsedEvent, TransportError>(
                ParsedEvent::Skip,
            ),
            EventClass::BadUtf8 => r matches Err(TransportError::Utf8(m)) && m@ == utf8_error_text(
                raw@,
            ),
            EventClass::Done => r == Ok::<ParsedEvent, TransportError>(ParsedEvent::Done),
            EventClass::Data => r matches Ok(ParsedEvent::Payload(p)) && p@ == event_payload(
                raw@,
            ),
        },
{
    if is_blank(raw) {
        return Ok(ParsedEvent::Skip);
    }
    let text = match decode_utf8_text(raw) {
        Ok(t) => t,
        Err(m) => return Err(TransportError::Utf8(m)),
    };
    let lines = split_lines(text.as_str());
    let ghost ls = text_lines(text@);
    let ghost f = |l: Seq<char>| line_data(l);
    let mut data: Vec<String> = Vec::new();
    let mut i: usize = 0;
    while i < lines.len()
        invariant
            views(lines@) == ls,
            0 <= i <= ls.len(),
            f == (|l: Seq<char>| line_data(l)),
            views(data@) == ls.take(i as int).filter_map(f),
        decreases ls.len() - i,
    {
        let d = data_of_line(lines[i].as_str());
        proof {
            assert(lines@[i as int]@ == ls[i as int]);
            assert(ls.take(i + 1).drop_last() =~= ls.take(i as int));
            assert(ls.take(i + 1).last() == ls[i as int]);
        }
        match d {
            Some(s) => {
                let ghost before = views(data@);
                data.push(s);
                proof {
                    assert(views(data@) =~= before + seq![s@]);
                }
            },
            None => {},
        }
        i = i + 1;
    }
    proof {
        assert(ls.take(ls.len() as int) =~= ls);
        assert(data_lines(text@) == views(data@));
    }
    if data.len() == 0 {
        return Ok(ParsedEvent::Skip);
    }
    let payload = join(&data, "\n");
    if str_eq(payload.as_str(), "[DONE]") {
        return Ok(ParsedEvent::Done);
    }
    Ok(ParsedEvent::Payload(payload))
}

proof fn lemma_boundary_from(bytes: Seq<u8>, i: int)
    requires
        0 <= i,
    ensures
        boundary_from(bytes, i) matches Some((end, consumed)) ==> i <= end && end + 2 <= consumed
            && consumed <= bytes.len() && ((consumed == end + 4 && bytes_at(
            bytes,
            end,
            seq![13u8, 10u8, 13u8, 10u8],
        )) || (consumed == end + 2 && bytes_at(bytes, end, seq![10u8, 10u8]))),
    decreases bytes.len() - i,
{
    if !(i < 0 || i >= bytes.len()) && !bytes_at(bytes, i, seq![13u8, 10u8, 13u8, 10u8])
        && !bytes_at(bytes, i, seq![10u8, 10u8]) {
        lemma_boundary_from(bytes, i + 1);
    }
}

/// What a decoder does with its buffered bytes: the payloads of the complete
/// events in order, the text of the decoding error that stopped it if any, the
/// bytes left over, and whether the stream has ended (at `[DONE]` or an error).
pub open spec fn drain_events(buf: Seq<u8>) -> (Seq<Seq<char>>, Option<Seq<char>>, Seq<u8>, bool)
    decreases buf.len(),
    via drain_events_decreases
{
    match boundary_from(buf, 0) {
        None => (Seq::empty(), None, buf, false),
        Some((end, consumed)) => {
            let ev = buf.take(end);
            let rest = buf.skip(consumed);
            match event_class(ev) {
                EventClass::BadUtf8 => (Seq::empty(), Some(utf8_error_text(ev)), rest, true),
                EventClass::Done => (Seq::empty(), None, rest, true),
                EventClass::Data => {
                    let r = drain_events(rest);
                    (seq![event_payload(ev)] + r.0, r.1, r.2, r.3)
                },
                _ => drain_events(rest),
            }
        },
    }
}

#[via_fn]
proof fn drain_events_decreases(buf: Seq<u8>) {
    lemma_boundary_from(buf, 0);
}

/// A boundary found in some bytes stays the first boundary when more bytes arrive.
proof fn lemma_boundary_stable(x: Seq<u8>, y: Seq<u8>, i: int)
    requires
        0 <= i,
        boundary_from(x, i) is Some,
    ensures
        boundary_from(x + y, i) == boundary_from(x, i),
    decreases x.len() - i,
{
    let z = x + y;
    let crlf = seq![13u8, 10u8, 13u8, 10u8];
    let lf = seq![10u8, 10u8];
    assert(i < x.len());
    if bytes_at(x, i, crlf) {
        assert(z.subrange(i, i + 4) =~= x.subrange(i, i + 4));
    } else if bytes_at(x, i, lf) {
        assert(z.subrange(i, i + 2) =~= x.subrange(i, i + 2));
        if bytes_at(z, i, crlf) {
            assert(z.subrange(i, i + 4)[0] == z[i]);
            assert(x.subrange(i, i + 2)[0] == x[i]);
        }
    } else {
        lemma_boundary_stable(x, y, i + 1);
        lemma_boundary_from(x, i + 1);
        if i + 4 <= x.len() {
            assert(z.subrange(i, i + 4) =~= x.subrange(i, i + 4));
        } else if bytes_at(z, i, crlf) {
            let (e, c) = boundary_from(x, i + 1)->Some_0;
            assert(e == i + 1);
            assert(x.subrange(e, e + 2)[1] == x[i + 2]);
            assert(z.subrange(i, i + 4)[2] == z[i + 2]);
        }
        if i + 2 <= x.len() {
            assert(z.subrange(i, i + 2) =~= x.subrange(i, i + 2));
        } else {
            lemma_boundary_from(x, i + 1);
        }
    }
}

/// Feeding bytes in pieces frames the same events as feeding them at once: the
/// events completed by `x` are followed by those the leftover bytes complete with
/// `y`; once the stream has ended, more bytes change nothing it reported.
pub proof fn law_chunking_preserves_events(x: Seq<u8>, y: Seq<u8>)
    ensures
        ({
            let d = drain_events(x);
            let whole = drain_events(x + y);
            if d.3 {
                whole.0 == d.0 && whole.1 == d.1 && whole.3
            } else {
                let rest = drain_events(d.2 + y);
                whole == (d.0 + rest.0, rest.1, rest.2, rest.3)
            }
        }),
    decreases x.len(),
{
    let d = drain_events(x);
    let z = x + y;
    match boundary_from(x, 0) {
        None => {
            assert(d.2 == x);
            assert(Seq::<Seq<char>>::empty() + drain_events(z).0 =~= drain_events(z).0);
        },
        Some((end, consumed)) => {
            lemma_boundary_stable(x, y, 0);
            lemma_boundary_from(x, 0);
            let ev = x.take(end);
            assert(z.take(end) =~= ev);
            let rest = x.skip(consumed);
            assert(z.skip(consumed) =~= rest + y);
            law_chunking_preserves_events(rest, y);
            match event_class(ev) {
                EventClass::BadUtf8 => {},
                EventClass::Done => {},
                EventClass::Data => {
                    let r = drain_events(rest);
                    if !r.3 {
                        let t = drain_events(r.2 + y);
                        assert(seq![event_payload(ev)] + (r.0 + t.0) =~= (seq![event_payload(ev)]
                            + r.0) + t.0);
                    }
                },
                _ => {},
            }
        },
    }
}

/// Incremental decoder for a stream of server-sent events.
pub struct SseDecoder {
    buffer: Vec<u8>,
    finished: bool,
}

impl SseDecoder {
    /// Bytes received but not yet framed into an event.
    pub closed spec fn spec_buffer(&self) -> Seq<u8> {
        self.buffer@
    }

    /// Whether the stream has ended.
    pub closed spec fn spec_finished(&self) -> bool {
        self.finished
    }

    /// A decoder that has received nothing.
    pub fn new() -> (r: Self)
        ensures
            r.spec_buffer() == Seq::<u8>::empty(),
            !r.spec_finished(),
    {
        SseDecoder { buffer: Vec::new(), finished: false }
    }

    /// Whether the stream has ended.
    pub fn is_finished(&self) -> (r: bool)
        ensures
            r == self.spec_finished(),
    {
        self.finished
    }

    /// Feeds a chunk of the response body; returns the payloads of the events it
    /// completes and the error that ended the stream, if one did. After the stream
    /// has ended, chunks are ignored.
    pub fn push(&mut self, chunk: &[u8]) -> (r: (Vec<String>, Option<TransportError>))
        ensures
            old(self).spec_finished() ==> r.0@.len() == 0 && r.1 is None && *final(self) == *old(
                self,
            ),
            !old(self).spec_finished() ==> {
                let d = drain_events(old(self).spec_buffer() + chunk@);
                &&& views(r.0@) == d.0
                &&& match d.1 {
                    Some(m) => r.1 matches Some(TransportError::Utf8(t)) && t@ == m,
                    None => r.1 is None,
                }
                &&& final(self).spec_buffer() == d.2
                &&& final(self).spec_finished() == d.3
            },
    {
        let mut payloads: Vec<String> = Vec::new();
        if self.finished {
            return (payloads, None);
        }
        let ghost total = self.buffer@ + chunk@;
        self.buffer.extend_from_slice(chunk);
        proof {
            assert(self.buffer@ =~= total);
        }
        loop
            invariant_except_break
                !self.finished,
                !old(self).spec_finished(),
                total == old(self).spec_buffer() + chunk@,
                drain_events(total) == (
                    views(payloads@) + drain_events(self.buffer@).0,
                    drain_events(self.buffer@).1,
                    drain_events(self.buffer@).2,
                    drain_events(self.buffer@).3,
                ),
            ensures
                !self.finished,
                !old(self).spec_finished(),
                total == old(self).spec_buffer() + chunk@,
                drain_events(total) == (views(payloads@), None::<Seq<char>>, self.buffer@, false),
            decreases self.buffer@.len(),
        {
            proof {
                lemma_boundary_from(self.buffer@, 0);
            }
            let split = split_event(self.buffer.as_slice());
            match split {
                None => {
                    proof {
                        assert(views(payloads@) + Seq::<Seq<char>>::empty() =~= views(payloads@));
                    }
                    break;
                },
                Some((end, consumed)) => {
                    let ghost buf = self.buffer@;
                    let rest = self.buffer.split_off(consumed);
                    self.buffer.truncate(end);
                    let ghost ev = buf.take(end as int);
                    proof {
                        assert(self.buffer@ =~= ev);
                        assert(rest@ =~= buf.skip(consumed as int));
                    }
                    let parsed = parse_event(self.buffer.as_slice());
                    self.buffer = rest;
                    match parsed {
                        Err(e) => {
                            self.finished = true;
                            proof {
                                assert(views(payloads@) + Seq::<Seq<char>>::empty() =~= views(payloads@));
                            }
                            return (payloads, Some(e));
                        },
                        Ok(ParsedEvent::Done) => {
                            self.finished = true;
                            proof {
                                assert(views(payloads@) + Seq::<Seq<char>>::empty() =~= views(payloads@));
                            }
                            return (payloads, None);
                        },
                        Ok(ParsedEvent::Skip) => {},
                        Ok(ParsedEvent::Payload(p)) => {
                            let ghost before = views(payloads@);
                            payloads.push(p);
                            proof {
                                assert(views(payloads@) =~= before.push(event_payload(ev)));
                                assert(before + (seq![event_payload(ev)] + drain_events(self.buffer@).0)
                                    =~= views(payloads@) + drain_events(self.buffer@).0);
                            }
                        },
                    }
                },
            }
        }
        (payloads, None)
    }

    /// Ends the stream: the payload of a last event left without a separator, or
    /// the error it causes; nothing when the stream has already ended or only
    /// white space is left.
    pub fn finish(&mut self) -> (r: Option<Result<String, TransportError>>)
        ensures
            final(self).spec_finished(),
            (old(self).spec_finished() || all_ascii_space(old(self).spec_buffer())) ==> r is None,
            !(old(self).spec_finished() || all_ascii_space(old(self).spec_buffer())) ==> match event_class(
                old(self).spec_buffer(),
            ) {
                EventClass::BadUtf8 => r matches Some(Err(TransportError::Utf8(m))) && m@
                    == utf8_error_text(old(self).spec_buffer()),
                EventClass::Data => r matches Some(Ok(p)) && p@ == event_payload(old(self).spec_buffer()),
                _ => r is None,
            },
    {
        if self.finished {
            return None;
        }
        self.finished = true;
        if is_blank(self.buffer.as_slice()) {
            return None;
        }
        match parse_event(self.buffer.as_slice()) {
            Err(e) => Some(Err(e)),
            Ok(ParsedEvent::Payload(p)) => Some(Ok(p)),
            Ok(_) => None,
        }
    }
}

} // verus!
