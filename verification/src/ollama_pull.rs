//! The progress stream of a model pull.
//!
//! Ollama answers a pull request with a stream of JSON documents, one a
//! line. The text arrives in chunks that end anywhere, so the stream keeps
//! what follows the last line feed until the rest of the line arrives. Each
//! complete line is read as JSON by `serde_json`; which fields are read, and
//! what the download makes of them, is decided here.

use vstd::prelude::*;
use vstd::slice::slice_subrange;
use crate::text::{
    chars_of, line_end, line_end_in, skip_whitespace, skip_whitespace_in, str_equal,
    string_from_chars, trim_end, trim_end_in, trimmed,
};

verus! {

/// What the download reads of one document of the stream.
pub struct PullFields {
    /// The number under `completed`, where there is one that fits 64 bits.
    pub completed: Option<u64>,
    /// The number under `total`, where there is one that fits 64 bits.
    pub total: Option<u64>,
    /// The text under `status`, where there is one.
    pub status: Option<Seq<char>>,
}

/// One document of the stream, as far as the download reads it.
#[derive(Clone, Debug, PartialEq, Eq)]
pub struct PullUpdate {
    pub completed: Option<u64>,
    pub total: Option<u64>,
    pub status: Option<String>,
}

impl View for PullUpdate {
    type V = PullFields;

    open spec fn view(&self) -> PullFields {
        PullFields {
            completed: self.completed,
            total: self.total,
            status: match self.status {
                Some(text) => Some(text@),
                None => None,
            },
        }
    }
}

/// `serde_json::Value`, a JSON document or a part of one, carried as an
/// opaque value.
#[verifier::external_type_specification]
#[verifier::external_body]
pub struct ExValue(serde_json::Value);

/// The JSON document that a text is, where it is one.
pub uninterp spec fn json_document(text: Seq<char>) -> Option<serde_json::Value>;

/// What a JSON value holds under a key, where it is an object that has the
/// key.
pub uninterp spec fn json_member(value: serde_json::Value, key: Seq<char>) -> Option<
    serde_json::Value,
>;

/// The number that a JSON value is, where it is a whole number that fits 64
/// bits without a sign.
pub uninterp spec fn json_number(value: serde_json::Value) -> Option<u64>;

/// The text that a JSON value is, where it is a string.
pub uninterp spec fn json_text(value: serde_json::Value) -> Option<Seq<char>>;

/// `serde_json::from_str` to a `Value`: the text read as JSON.
#[verifier::external_body]
fn parse_json(text: &str) -> (document: Option<serde_json::Value>)
    ensures
        document == json_document(text@),
{
    serde_json::from_str::<serde_json::Value>(text).ok()
}

/// `Value::get` with a key: the member of an object under the key.
#[verifier::external_body]
fn member<'a>(value: &'a serde_json::Value, key: &str) -> (found: Option<&'a serde_json::Value>)
    ensures
        match json_member(*value, key@) {
            Some(part) => found is Some && *found.unwrap() == part,
            None => found is None,
        },
{
    value.get(key)
}

/// `Value::as_u64`: the number that the value is.
#[verifier::external_body]
fn as_number(value: &serde_json::Value) -> (number: Option<u64>)
    ensures
        number == json_number(*value),
{
    value.as_u64()
}

/// `Value::as_str`: the text that the value is.
#[verifier::external_body]
fn as_text(value: &serde_json::Value) -> (text: Option<String>)
    ensures
        match json_text(*value) {
            Some(chars) => text is Some && text.unwrap()@ == chars,
            None => text is None,
        },
{
    value.as_str().map(|s| s.to_string())
}

/// The number under `key` in a document.
pub open spec fn number_under(document: serde_json::Value, key: Seq<char>) -> Option<u64> {
    match json_member(document, key) {
        Some(part) => json_number(part),
        None => None,
    }
}

/// The text under `key` in a document.
pub open spec fn text_under(document: serde_json::Value, key: Seq<char>) -> Option<Seq<char>> {
    match json_member(document, key) {
        Some(part) => json_text(part),
        None => None,
    }
}

/// What a line holds when read as JSON: nothing where it is not a JSON
/// document, else the three fields that the download reads: the numbers
/// under `completed` and `total`, and the text under `status`.
pub open spec fn pull_fields_of(line: Seq<char>) -> Option<PullFields> {
    match json_document(line) {
        None => None,
        Some(document) => Some(
            PullFields {
                completed: number_under(document, "completed"@),
                total: number_under(document, "total"@),
                status: text_under(document, "status"@),
            },
        ),
    }
}

fn number_at(document: &serde_json::Value, key: &str) -> (number: Option<u64>)
    ensures
        number == number_under(*document, key@),
{
    match member(document, key) {
        Some(part) => as_number(part),
        None => None,
    }
}

fn text_at(document: &serde_json::Value, key: &str) -> (text: Option<String>)
    ensures
        match text_under(*document, key@) {
            Some(chars) => text is Some && text.unwrap()@ == chars,
            None => text is None,
        },
{
    match member(document, key) {
        Some(part) => as_text(part),
        None => None,
    }
}

/// Reads one line of the stream as JSON.
pub fn parse_pull_line(line: &str) -> (update: Option<PullUpdate>)
    ensures
        match pull_fields_of(line@) {
            Some(fields) => update is Some && update.unwrap()@ == fields,
            None => update is None,
        },
{
    let document = match parse_json(line) {
        Some(document) => document,
        None => { return None; },
    };
    Some(
        PullUpdate {
            completed: number_at(&document, "completed"),
            total: number_at(&document, "total"),
            status: text_at(&document, "status"),
        },
    )
}

/// What the download reports.
#[derive(Clone, Copy, Debug, PartialEq, Eq, Structural)]
pub enum PullEvent {
    /// So many bytes of so many have arrived.
    Progress { downloaded: u64, total: u64 },
    /// The pull has finished with success.
    Complete,
}

/// What a stretch of the stream comes to.
pub struct PullOutcome {
    /// The events to report, in order.
    pub events: Seq<PullEvent>,
    /// The index from which the text is kept for the next chunk.
    pub kept_from: int,
    /// The count of downloaded bytes afterwards.
    pub downloaded: u64,
    /// Whether the pull has finished.
    pub finished: bool,
}

/// The events of one document: a progress report where it names a total,
/// with the completed count where it names one and the count so far where it
/// does not; then the completion where its status is `success`.
pub open spec fn events_of(fields: PullFields, downloaded: u64) -> Seq<PullEvent> {
    let count = match fields.completed {
        Some(completed) => completed,
        None => downloaded,
    };
    let progress = match fields.total {
        Some(total) => seq![PullEvent::Progress { downloaded: count, total }],
        None => Seq::<PullEvent>::empty(),
    };
    if fields.status == Some("success"@) {
        progress.push(PullEvent::Complete)
    } else {
        progress
    }
}

/// What the text from index `from` on comes to, line by line.
///
/// Only lines that end in a line feed count; what follows the last line feed
/// is kept. A line is read without the white space around it. Empty lines
/// and lines that are not JSON are passed over. A document whose status is
/// `success` finishes the pull, and nothing after it is read.
pub open spec fn pull_from(text: Seq<char>, from: int, downloaded: u64) -> PullOutcome
    decreases text.len() - from + 1,
{
    let end = line_end(text, from);
    if from < 0 || from > text.len() || end < from || end >= text.len() {
        PullOutcome { events: Seq::empty(), kept_from: from, downloaded, finished: false }
    } else {
        let line = trimmed(text.subrange(from, end));
        let fields = if line.len() == 0 {
            None
        } else {
            pull_fields_of(line)
        };
        match fields {
            None => pull_from(text, end + 1, downloaded),
            Some(fields) => {
                let count = match fields.completed {
                    Some(completed) => completed,
                    None => downloaded,
                };
                if fields.status == Some("success"@) {
                    PullOutcome {
                        events: events_of(fields, downloaded),
                        kept_from: end + 1,
                        downloaded: count,
                        finished: true,
                    }
                } else {
                    let rest = pull_from(text, end + 1, count);
                    PullOutcome {
                        events: events_of(fields, downloaded) + rest.events,
                        kept_from: rest.kept_from,
                        downloaded: rest.downloaded,
                        finished: rest.finished,
                    }
                }
            },
        }
    }
}

/// The progress stream of one pull.
pub struct PullStream {
    buffer: Vec<char>,
    downloaded: u64,
    finished: bool,
}

impl PullStream {
    /// The text that waits for the rest of its line.
    pub closed spec fn pending(&self) -> Seq<char> {
        self.buffer@
    }

    /// The count of downloaded bytes.
    pub closed spec fn count(&self) -> u64 {
        self.downloaded
    }

    /// Whether the pull has finished.
    pub closed spec fn done(&self) -> bool {
        self.finished
    }

    /// A stream at the start of a pull.
    pub fn new() -> (stream: Self)
        ensures
            stream.pending() == Seq::<char>::empty(),
            stream.count() == 0,
            !stream.done(),
    {
        PullStream { buffer: Vec::new(), downloaded: 0, finished: false }
    }

    /// The count of downloaded bytes.
    pub fn downloaded(&self) -> (count: u64)
        ensures
            count == self.count(),
    {
        self.downloaded
    }

    /// Whether the pull has finished.
    pub fn is_finished(&self) -> (done: bool)
        ensures
            done == self.done(),
    {
        self.finished
    }

    /// Takes in the next chunk of the stream and gives the events of every
    /// line that the chunk completes. A finished stream takes in nothing.
    pub fn feed(&mut self, chunk: &str) -> (events: Vec<PullEvent>)
        ensures
            old(self).done() ==> {
                &&& events@ == Seq::<PullEvent>::empty()
                &&& final(self).pending() == old(self).pending()
                &&& final(self).count() == old(self).count()
                &&& final(self).done()
            },
            !old(self).done() ==> ({
                let text = old(self).pending() + chunk@;
                let outcome = pull_from(text, 0, old(self).count());
                &&& events@ == outcome.events
                &&& final(self).pending() == text.subrange(outcome.kept_from, text.len() as int)
                &&& final(self).count() == outcome.downloaded
                &&& final(self).done() == outcome.finished
            }),
    {
        let mut events: Vec<PullEvent> = Vec::new();
        if self.finished {
            return events;
        }
        let added = chars_of(chunk);
        let mut text: Vec<char> = Vec::new();
        let mut i: usize = 0;
        while i < self.buffer.len()
            invariant
                i <= self.buffer.len(),
                text@ == self.buffer@.subrange(0, i as int),
                *self == *old(self),
            decreases self.buffer.len() - i,
        {
            text.push(self.buffer[i]);
            assert(text@ =~= self.buffer@.subrange(0, i + 1));
            i = i + 1;
        }
        let mut j: usize = 0;
        while j < added.len()
            invariant
                j <= added.len(),
                text@ == self.buffer@ + added@.subrange(0, j as int),
                *self == *old(self),
            decreases added.len() - j,
        {
            text.push(added[j]);
            assert(text@ =~= self.buffer@ + added@.subrange(0, j + 1));
            j = j + 1;
        }
        assert(text@ =~= old(self).pending() + chunk@);
        let ghost whole = pull_from(text@, 0, self.downloaded);
        let mut from: usize = 0;
        let mut downloaded = self.downloaded;
        let mut finished = false;
        let mut partial = false;
        while !finished && !partial && from < text.len()
            invariant
                from <= text.len(),
                partial ==> !finished && line_end(text@, from as int) >= text.len(),
                !finished ==> ({
                    let rest = pull_from(text@, from as int, downloaded);
                    &&& whole.events == events@ + rest.events
                    &&& whole.kept_from == rest.kept_from
                    &&& whole.downloaded == rest.downloaded
                    &&& whole.finished == rest.finished
                }),
                finished ==> {
                    &&& whole.events == events@
                    &&& whole.kept_from == from
                    &&& whole.downloaded == downloaded
                    &&& whole.finished
                },
            decreases text.len() - from, (if partial { 0int } else { 1int }),
        {
            let end = line_end_in(text.as_slice(), from);
            if end >= text.len() {
                partial = true;
                continue;
            }
            let line = slice_subrange(text.as_slice(), from, end);
            let start = skip_whitespace_in(line, 0);
            let stop = trim_end_in(line, start, line.len());
            let ghost rest = pull_from(text@, from as int, downloaded);
            let ghost before = events@;
            let update = if stop == start {
                None
            } else {
                let trimmed_line = string_from_chars(slice_subrange(line, start, stop));
                parse_pull_line(trimmed_line.as_str())
            };
            match update {
                None => {},
                Some(update) => {
                    let ghost fields = update@;
                    let ghost next = events_of(fields, downloaded);
                    if let Some(completed) = update.completed {
                        downloaded = completed;
                    }
                    if let Some(total) = update.total {
                        events.push(PullEvent::Progress { downloaded, total });
                    }
                    let success = match &update.status {
                        Some(status) => str_equal(status.as_str(), "success"),
                        None => false,
                    };
                    if success {
                        events.push(PullEvent::Complete);
                        finished = true;
                    }
                    assert(events@ =~= before + next);
                    proof {
                        if !success {
                            let after = pull_from(text@, end + 1, downloaded);
                            assert(rest.events == next + after.events);
                            assert(whole.events =~= events@ + after.events);
                        }
                    }
                },
            }
            from = end + 1;
        }
        proof {
            if !finished {
                let rest = pull_from(text@, from as int, downloaded);
                assert(rest.events =~= Seq::<PullEvent>::empty());
                assert(rest.kept_from == from);
                assert(events@ + rest.events =~= events@);
            }
        }
        let mut kept: Vec<char> = Vec::new();
        let mut k: usize = from;
        while k < text.len()
            invariant
                from <= k <= text.len(),
                kept@ == text@.subrange(from as int, k as int),
            decreases text.len() - k,
        {
            kept.push(text[k]);
            assert(kept@ =~= text@.subrange(from as int, k + 1));
            k = k + 1;
        }
        self.buffer = kept;
        self.downloaded = downloaded;
        self.finished = finished;
        events
    }
}

} // verus!
