//! The diagnostics drain: pending error and message text pulled from the
//! drive after each unit of work, consumed on each drain, and split into
//! one log record per line. Purely observational: it never changes control
//! flow.

use vstd::prelude::*;
use vstd::string::StrSliceExecFns;
use vstd::string::StringExecFns;

verus! {

// ---------------------------------------------------------------------------
// Line splitting
// ---------------------------------------------------------------------------

/// The index of the first line feed, or the length when there is none.
pub open spec fn first_newline(s: Seq<char>) -> int
    decreases s.len(),
{
    if s.len() == 0 {
        0
    } else if s[0] == '\n' {
        0
    } else {
        1 + first_newline(s.drop_first())
    }
}

pub proof fn lemma_first_newline_bounds(s: Seq<char>)
    ensures
        0 <= first_newline(s) <= s.len(),
        forall|j: int| 0 <= j < first_newline(s) ==> s[j] != '\n',
        first_newline(s) < s.len() ==> s[first_newline(s)] == '\n',
    decreases s.len(),
{
    if s.len() == 0 || s[0] == '\n' {
    } else {
        lemma_first_newline_bounds(s.drop_first());
        assert forall|j: int| 0 <= j < first_newline(s) implies s[j] != '\n' by {
            if j > 0 {
                assert(s.drop_first()[j - 1] == s[j]);
            }
        }
    }
}

/// The first line feed is wherever the first line feed is: a position with
/// no line feed before it, and a line feed (or the end) at it.
pub proof fn lemma_first_newline_is(s: Seq<char>, k: int)
    requires
        0 <= k <= s.len(),
        forall|j: int| 0 <= j < k ==> s[j] != '\n',
        k < s.len() ==> s[k] == '\n',
    ensures
        first_newline(s) == k,
    decreases s.len(),
{
    if k == 0 {
    } else {
        assert(s[0] != '\n');
        assert(forall|j: int| 0 <= j < k - 1 ==> s.drop_first()[j] == s[j + 1]);
        lemma_first_newline_is(s.drop_first(), k - 1);
    }
}

/// A carriage return directly before a line feed belongs to the line ending.
pub open spec fn strip_trailing_cr(line: Seq<char>) -> Seq<char> {
    if line.len() > 0 && line.last() == '\r' {
        line.drop_last()
    } else {
        line
    }
}

/// The lines of a text, as std's `str::lines` splits them: terminated by a
/// line feed or by an optional carriage return and line feed, with no empty
/// final line after a trailing line ending.
pub open spec fn spec_lines(s: Seq<char>) -> Seq<Seq<char>>
    decreases s.len(),
    via spec_lines_decreases
{
    if s.len() == 0 {
        Seq::empty()
    } else {
        let i = first_newline(s);
        if i >= s.len() {
            seq![s]
        } else {
            seq![strip_trailing_cr(s.take(i))] + spec_lines(s.skip(i + 1))
        }
    }
}

#[via_fn]
proof fn spec_lines_decreases(s: Seq<char>) {
    lemma_first_newline_bounds(s);
}

fn split_from(text: &str, pos: usize) -> (r: Vec<String>)
    requires
        pos <= text@.len(),
    ensures
        r@.map_values(|line: String| line@) == spec_lines(text@.skip(pos as int)),
    decreases text@.len() - pos,
{
    let ghost tail = text@.skip(pos as int);
    let len = text.unicode_len();
    if pos == len {
        let r: Vec<String> = Vec::new();
        proof {
            assert(tail =~= Seq::<char>::empty());
            assert(r@.map_values(|line: String| line@) =~= spec_lines(tail));
        }
        return r;
    }
    let mut i = pos;
    while i < len && text.get_char(i) != '\n'
        invariant
            len == text@.len(),
            pos <= i <= len,
            forall|j: int| pos <= j < i ==> text@[j] != '\n',
        decreases len - i,
    {
        i += 1;
    }
    proof {
        assert(forall|j: int| 0 <= j < i - pos ==> tail[j] != '\n');
        assert(i < len ==> tail[i - pos] == '\n');
        lemma_first_newline_is(tail, i as int - pos as int);
    }
    if i == len {
        let line = String::from_str(text.substring_char(pos, len));
        let mut r: Vec<String> = Vec::new();
        r.push(line);
        proof {
            assert(tail =~= text@.subrange(pos as int, len as int));
            assert(r@.map_values(|l: String| l@) =~= spec_lines(tail));
        }
        return r;
    }
    let cut = if i > pos && text.get_char(i - 1) == '\r' {
        i - 1
    } else {
        i
    };
    let line = String::from_str(text.substring_char(pos, cut));
    let mut r: Vec<String> = Vec::new();
    r.push(line);
    let mut rest = split_from(text, i + 1);
    r.append(&mut rest);
    proof {
        let piece = tail.take(i as int - pos as int);
        assert(piece =~= text@.subrange(pos as int, i as int));
        if i > pos && text@[i as int - 1] == '\r' {
            assert(piece.last() == '\r');
            assert(line@ =~= strip_trailing_cr(piece));
        } else {
            assert(piece.len() > 0 ==> piece.last() != '\r');
            assert(line@ =~= strip_trailing_cr(piece));
        }
        assert(tail.skip(i as int - pos as int + 1) =~= text@.skip(i as int + 1));
        assert(r@.map_values(|l: String| l@) =~= spec_lines(tail));
    }
    r
}

/// Splits diagnostic text into one record per line, as the drive's
/// multi-line output is forwarded.
pub fn split_lines(text: &str) -> (r: Vec<String>)
    ensures
        r@.map_values(|line: String| line@) == spec_lines(text@),
{
    let r = split_from(text, 0);
    proof {
        assert(text@.skip(0) =~= text@);
    }
    r
}

// ---------------------------------------------------------------------------
// The drain itself
// ---------------------------------------------------------------------------

/// The pending diagnostic text of the drive and read engine since the last
/// drain: at most one block of error text and one block of message text.
pub struct DiagnosticsBuffer {
    pub error_text: Option<String>,
    pub message_text: Option<String>,
}

/// What one drain does: it empties the buffer and yields the pending text.
pub open spec fn spec_drain(b: DiagnosticsBuffer) -> (DiagnosticsBuffer, Option<String>, Option<
    String,
>) {
    (DiagnosticsBuffer { error_text: None, message_text: None }, b.error_text, b.message_text)
}

impl DiagnosticsBuffer {
    /// A fresh buffer holds nothing.
    pub fn new() -> (r: Self)
        ensures
            r.error_text is None,
            r.message_text is None,
    {
        DiagnosticsBuffer { error_text: None, message_text: None }
    }

    /// Stores what the drive reported since the previous drain.
    pub fn record(&mut self, error_text: Option<String>, message_text: Option<String>)
        ensures
            final(self).error_text == error_text,
            final(self).message_text == message_text,
    {
        self.error_text = error_text;
        self.message_text = message_text;
    }

    /// Consumes and clears whatever diagnostic text is pending. Not
    /// idempotent by design: the text is handed out exactly once.
    pub fn drain(&mut self) -> (r: (Option<String>, Option<String>))
        ensures
            *final(self) == spec_drain(*old(self)).0,
            r.0 == spec_drain(*old(self)).1,
            r.1 == spec_drain(*old(self)).2,
    {
        let error_text = self.error_text.take();
        let message_text = self.message_text.take();
        (error_text, message_text)
    }
}

/// Law: draining twice in a row, with nothing recorded in between, yields no
/// text the second time.
pub proof fn lemma_drain_twice_yields_nothing(b: DiagnosticsBuffer)
    ensures
        spec_drain(spec_drain(b).0).1 is None,
        spec_drain(spec_drain(b).0).2 is None,
{
}

} // verus!
