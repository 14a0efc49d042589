//! Streaming proposal decoder: reassemble the delta-encoded text of an
//! event-stream response and extract a structured command proposal from it,
//! tolerant of truncation and of stray non-JSON text. Every failure degrades
//! to "no proposal"; nothing here is a hard error.

use vstd::prelude::*;
use crate::text::{
    spec_trim, spec_find_first, spec_find_last, trim_vec, find_first, find_last, subrange_vec,
};

verus! {

/// The text carried by one event fragment: the string under the first
/// choice's delta, when the fragment is JSON of that shape.
pub uninterp spec fn delta_of(fragment: Seq<u8>) -> Option<Seq<u8>>;

/// Whether the bytes form one well-formed JSON document.
pub uninterp spec fn json_parses(doc: Seq<u8>) -> bool;

/// The named top-level string field of a JSON document, when the document
/// parses, is indexable and holds that field as a string.
pub uninterp spec fn json_field(doc: Seq<u8>, name: Seq<char>) -> Option<Seq<u8>>;

pub open spec fn view_opt_bytes(o: Option<Vec<u8>>) -> Option<Seq<u8>> {
    match o {
        Some(v) => Some(v@),
        None => None,
    }
}

/// Relies on serde_json::from_slice and serde_json::Value's index,
/// as_object, get and as_str accessors: the incremental text under
/// `choices[0].delta.content`, a function of the fragment bytes alone.
#[verifier::external_body]
fn fragment_delta(data: &Vec<u8>) -> (r: Option<Vec<u8>>)
    ensures
        view_opt_bytes(r) == delta_of(data@),
{
    match serde_json::from_slice::<serde_json::Value>(data.as_slice()) {
        Ok(v) => match v["choices"][0]["delta"].as_object() {
            Some(delta) => delta.get("content").and_then(|c| c.as_str()).map(
                |s| s.as_bytes().to_vec(),
            ),
            None => None,
        },
        Err(_) => None,
    }
}

/// Relies on serde_json::from_slice: whether the bytes are one well-formed
/// JSON document.
#[verifier::external_body]
fn json_is_valid(doc: &Vec<u8>) -> (r: bool)
    ensures
        r == json_parses(doc@),
{
    serde_json::from_slice::<serde_json::Value>(doc.as_slice()).is_ok()
}

/// Relies on serde_json::from_slice, Value::get and Value::as_str: the named
/// top-level string field of the document, a function of the document bytes
/// and the field name alone.
#[verifier::external_body]
fn json_string_field(doc: &Vec<u8>, name: &str) -> (r: Option<Vec<u8>>)
    ensures
        view_opt_bytes(r) == json_field(doc@, name@),
{
    match serde_json::from_slice::<serde_json::Value>(doc.as_slice()) {
        Ok(v) => v.get(name).and_then(|f| f.as_str()).map(|s| s.as_bytes().to_vec()),
        Err(_) => None,
    }
}

/// The event-data line marker, `"data: "`.
pub open spec fn data_prefix() -> Seq<u8> {
    seq![100u8, 97u8, 116u8, 97u8, 58u8, 32u8]
}

/// The end-of-stream sentinel, `"[DONE]"`.
pub open spec fn done_marker() -> Seq<u8> {
    seq![91u8, 68u8, 79u8, 78u8, 69u8, 93u8]
}

/// A line with one trailing carriage return removed.
pub open spec fn strip_cr(line: Seq<u8>) -> Seq<u8> {
    if line.len() > 0 && line.last() == 13 {
        line.drop_last()
    } else {
        line
    }
}

/// What one line contributes to the accumulated text: the fragment's delta
/// for an event-data line that is not the end sentinel, nothing otherwise.
pub open spec fn spec_line_delta(line: Seq<u8>) -> Seq<u8> {
    if line.len() >= 6 && line.subrange(0, 6) == data_prefix() {
        let data = line.skip(6);
        if data == done_marker() {
            Seq::empty()
        } else {
            match delta_of(data) {
                Some(d) => d,
                None => Seq::empty(),
            }
        }
    } else {
        Seq::empty()
    }
}

/// The deltas of the rest of the buffer, with `cur` the line read so far:
/// a line feed closes the current line (dropping one carriage return before
/// it), and the final line needs no line feed.
pub open spec fn spec_run(s: Seq<u8>, cur: Seq<u8>) -> Seq<u8>
    decreases s.len(),
{
    if s.len() == 0 {
        spec_line_delta(cur)
    } else if s[0] == 10 {
        spec_line_delta(strip_cr(cur)) + spec_run(s.skip(1), Seq::empty())
    } else {
        spec_run(s.skip(1), cur.push(s[0]))
    }
}

/// The accumulated text of the whole buffer.
pub open spec fn spec_deltas(buf: Seq<u8>) -> Seq<u8> {
    spec_run(buf, Seq::empty())
}

fn is_done(data: &Vec<u8>) -> (r: bool)
    ensures
        r == (data@ == done_marker()),
{
    if data.len() == 6 && data[0] == 91 && data[1] == 68 && data[2] == 79 && data[3] == 78
        && data[4] == 69 && data[5] == 93 {
        proof {
            assert(data@ =~= done_marker());
        }
        true
    } else {
        proof {
            if data@ == done_marker() {
                assert(data@.len() == 6);
                assert(data@[0] == 91 && data@[1] == 68 && data@[2] == 79 && data@[3] == 78
                    && data@[4] == 69 && data@[5] == 93);
            }
        }
        false
    }
}

fn line_delta(line: &Vec<u8>) -> (r: Vec<u8>)
    ensures
        r@ == spec_line_delta(line@),
{
    if line.len() >= 6 && line[0] == 100 && line[1] == 97 && line[2] == 116 && line[3] == 97
        && line[4] == 58 && line[5] == 32 {
        proof {
            assert(line@.subrange(0, 6) =~= data_prefix());
        }
        let data = subrange_vec(line, 6, line.len());
        proof {
            assert(data@ =~= line@.skip(6));
        }
        if is_done(&data) {
            Vec::new()
        } else {
            match fragment_delta(&data) {
                Some(d) => d,
                None => Vec::new(),
            }
        }
    } else {
        proof {
            if line@.len() >= 6 && line@.subrange(0, 6) == data_prefix() {
                assert(line@.subrange(0, 6)[0] == line@[0]);
                assert(line@.subrange(0, 6)[1] == line@[1]);
                assert(line@.subrange(0, 6)[2] == line@[2]);
                assert(line@.subrange(0, 6)[3] == line@[3]);
                assert(line@.subrange(0, 6)[4] == line@[4]);
                assert(line@.subrange(0, 6)[5] == line@[5]);
            }
        }
        Vec::new()
    }
}

fn push_all(dst: &mut Vec<u8>, src: &Vec<u8>)
    ensures
        final(dst)@ == old(dst)@ + src@,
{
    let n = src.len();
    let mut i: usize = 0;
    while i < n
        invariant
            n == src@.len(),
            i <= n,
            dst@ == old(dst)@ + src@.subrange(0, i as int),
        decreases n - i,
    {
        dst.push(src[i]);
        proof {
            assert(dst@ =~= old(dst)@ + src@.subrange(0, i + 1 as int));
        }
        i += 1;
    }
    proof {
        assert(src@.subrange(0, n as int) =~= src@);
    }
}

/// Reassemble the accumulated text of an event-stream buffer: each
/// `"data: "` line except the end sentinel contributes its fragment's delta,
/// in order; all other lines, and fragments without the delta shape, are
/// skipped.
pub fn accumulate_deltas(buf: &Vec<u8>) -> (r: Vec<u8>)
    ensures
        r@ == spec_deltas(buf@),
{
    let n = buf.len();
    let mut acc: Vec<u8> = Vec::new();
    let mut cur: Vec<u8> = Vec::new();
    let mut i: usize = 0;
    proof {
        assert(buf@.skip(0) =~= buf@);
        assert(acc@ + spec_run(buf@, cur@) =~= spec_run(buf@, cur@));
    }
    while i < n
        invariant
            n == buf@.len(),
            i <= n,
            acc@ + spec_run(buf@.skip(i as int), cur@) == spec_deltas(buf@),
        decreases n - i,
    {
        let ghost rest = buf@.skip(i as int);
        let ghost cur0 = cur@;
        let b = buf[i];
        proof {
            assert(rest[0] == buf@[i as int]);
            assert(rest.skip(1) =~= buf@.skip(i + 1 as int));
        }
        if b == 10 {
            if cur.len() > 0 && cur[cur.len() - 1] == 13 {
                cur.pop();
                proof {
                    assert(cur@ =~= strip_cr(cur0));
                }
            }
            proof {
                assert(cur@ == strip_cr(cur0));
            }
            let d = line_delta(&cur);
            push_all(&mut acc, &d);
            cur = Vec::new();
            proof {
                assert(acc@ + spec_run(buf@.skip(i + 1 as int), cur@) =~= spec_deltas(buf@));
            }
        } else {
            cur.push(b);
            proof {
                assert(cur@ =~= cur0.push(b));
            }
        }
        i += 1;
    }
    proof {
        assert(buf@.skip(n as int) =~= Seq::<u8>::empty());
    }
    let d = line_delta(&cur);
    push_all(&mut acc, &d);
    acc
}

/// The JSON document recovered from the accumulated text by the three-tier
/// fallback: the trimmed text itself; the trimmed text with one closing
/// brace appended (a stream truncated mid-object); the span from the first
/// opening to the last closing brace (stray surrounding text).
pub open spec fn spec_candidate(t: Seq<u8>) -> Option<Seq<u8>> {
    let tr = spec_trim(t);
    if json_parses(tr) {
        Some(tr)
    } else if json_parses(tr.push(125)) {
        Some(tr.push(125))
    } else {
        match (spec_find_first(tr, 123), spec_find_last(tr, 125)) {
            (Some(i), Some(j)) => if i < j && json_parses(tr.subrange(i, j + 1)) {
                Some(tr.subrange(i, j + 1))
            } else {
                None
            },
            _ => None,
        }
    }
}

/// Recover a parseable JSON document from accumulated text, or nothing.
pub fn extract_json(text: &Vec<u8>) -> (r: Option<Vec<u8>>)
    ensures
        view_opt_bytes(r) == spec_candidate(text@),
        r matches Some(c) ==> json_parses(c@),
{
    let tr = trim_vec(text);
    if json_is_valid(&tr) {
        return Some(tr);
    }
    let mut braced = subrange_vec(&tr, 0, tr.len());
    proof {
        assert(braced@ =~= tr@);
    }
    braced.push(125);
    proof {
        assert(braced@ =~= spec_trim(text@).push(125));
    }
    if json_is_valid(&braced) {
        return Some(braced);
    }
    match find_first(&tr, 123) {
        Some(i) => match find_last(&tr, 125) {
            Some(j) => {
                if i < j {
                    let sub = subrange_vec(&tr, i, j + 1);
                    if json_is_valid(&sub) {
                        Some(sub)
                    } else {
                        None
                    }
                } else {
                    None
                }
            },
            None => None,
        },
        None => None,
    }
}

/// A decoded command proposal. The command is non-empty and trimmed;
/// explanation and summary are optional and trimmed.
#[derive(Debug)]
pub struct Proposal {
    pub command: Vec<u8>,
    pub explanation: Option<Vec<u8>>,
    pub summary: Option<Vec<u8>>,
}

/// The mathematical value of a proposal.
pub ghost struct ProposalView {
    pub command: Seq<u8>,
    pub explanation: Option<Seq<u8>>,
    pub summary: Option<Seq<u8>>,
}

impl View for Proposal {
    type V = ProposalView;

    open spec fn view(&self) -> ProposalView {
        ProposalView {
            command: self.command@,
            explanation: view_opt_bytes(self.explanation),
            summary: view_opt_bytes(self.summary),
        }
    }
}

pub open spec fn opt_trim(o: Option<Seq<u8>>) -> Option<Seq<u8>> {
    match o {
        Some(s) => Some(spec_trim(s)),
        None => None,
    }
}

/// The proposal a recovered JSON document yields: its `command` string
/// field, trimmed, when that is non-empty; else nothing.
pub open spec fn spec_proposal_of(doc: Seq<u8>) -> Option<ProposalView> {
    match json_field(doc, "command"@) {
        Some(c) => if spec_trim(c).len() > 0 {
            Some(
                ProposalView {
                    command: spec_trim(c),
                    explanation: opt_trim(json_field(doc, "explanation"@)),
                    summary: opt_trim(json_field(doc, "summary"@)),
                },
            )
        } else {
            None
        },
        None => None,
    }
}

/// The proposal decoded from accumulated text.
pub open spec fn spec_extract(t: Seq<u8>) -> Option<ProposalView> {
    match spec_candidate(t) {
        Some(c) => spec_proposal_of(c),
        None => None,
    }
}

/// The proposal decoded from a whole event-stream buffer: nothing when no
/// text accumulates, else whatever the accumulated text yields.
pub open spec fn spec_decode(buf: Seq<u8>) -> Option<ProposalView> {
    let acc = spec_deltas(buf);
    if acc.len() == 0 {
        None
    } else {
        spec_extract(acc)
    }
}

/// Decode a command proposal from an event-stream buffer. Returns nothing —
/// never an error — when no proposal can be recovered; a returned proposal
/// always carries a non-empty, trimmed command.
pub fn parse_streaming_proposal(buf: &Vec<u8>) -> (r: Option<Proposal>)
    ensures
        r matches Some(p) ==> spec_decode(buf@) == Some(p@) && p@.command.len() > 0,
        r is None ==> spec_decode(buf@) is None,
{
    let acc = accumulate_deltas(buf);
    if acc.len() == 0 {
        return None;
    }
    let doc = match extract_json(&acc) {
        Some(d) => d,
        None => {
            return None;
        },
    };
    let cmd_raw = match json_string_field(&doc, "command") {
        Some(c) => c,
        None => {
            return None;
        },
    };
    let command = trim_vec(&cmd_raw);
    if command.len() == 0 {
        return None;
    }
    let explanation = match json_string_field(&doc, "explanation") {
        Some(e) => Some(trim_vec(&e)),
        None => None,
    };
    let summary = match json_string_field(&doc, "summary") {
        Some(s) => Some(trim_vec(&s)),
        None => None,
    };
    Some(Proposal { command, explanation, summary })
}

} // verus!
