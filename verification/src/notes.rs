//! Removal of prose note blocks from `.tens` sources.
//!
//! A note block opens with a line that (trimmed, ASCII case ignored) reads
//! `<!-- tensorforge:note -->` and closes with `<!-- /tensorforge:note -->`;
//! a legacy block opens with ```` ```notes ```` and closes with a bare
//! ```` ``` ````, where an inner fence with an info string (```` ```rust ````)
//! opens a code block whose bare ```` ``` ```` does not close the note.
//! Every line of a note block, its fences included, is replaced by an empty
//! line (its newline kept), so line numbers of the remaining code are
//! unchanged.

use vstd::prelude::*;
use crate::error::{Error, ErrorModel};
use crate::lexer::line_end;
use crate::text::{ascii_lower, char_is_whitespace, chars_of, eq_ignore_ascii_case, is_whitespace, string_of, to_ascii_lower};

verus! {

#[derive(Clone, Copy, PartialEq, Eq)]
pub enum NoteFence {
    Html,
    Backtick,
}

pub struct NoteState {
    pub in_note: bool,
    pub inner_fence: bool,
    pub kind: NoteFence,
    pub start_line: Option<nat>,
}

pub open spec fn html_open() -> Seq<char> {
    "<!-- tensorforge:note -->"@
}

pub open spec fn html_close() -> Seq<char> {
    "<!-- /tensorforge:note -->"@
}

pub open spec fn backtick_open() -> Seq<char> {
    "```notes"@
}

pub open spec fn fence() -> Seq<char> {
    "```"@
}

/// Index just past the line starting at `i` (its `\n` included).
pub open spec fn line_stop(s: Seq<char>, i: nat) -> nat {
    let e = line_end(s, i);
    if e < s.len() { e + 1 } else { e }
}

/// Length of `t` once trailing `\r` and `\n` characters are removed.
pub open spec fn crlf_trimmed_len(t: Seq<char>) -> nat
    decreases t.len(),
{
    if t.len() > 0 && (t.last() == '\r' || t.last() == '\n') {
        crlf_trimmed_len(t.drop_last())
    } else {
        t.len()
    }
}

/// Number of leading whitespace characters of `t`.
pub open spec fn leading_ws(t: Seq<char>) -> nat
    decreases t.len(),
{
    if t.len() > 0 && char_is_whitespace(t[0]) {
        1 + leading_ws(t.drop_first())
    } else {
        0
    }
}

/// Length of `t` once trailing whitespace is removed.
pub open spec fn trailing_trimmed_len(t: Seq<char>) -> nat
    decreases t.len(),
{
    if t.len() > 0 && char_is_whitespace(t.last()) {
        trailing_trimmed_len(t.drop_last())
    } else {
        t.len()
    }
}

/// `str::trim`: `t` without leading and trailing whitespace.
pub open spec fn trim(t: Seq<char>) -> Seq<char> {
    let u = t.subrange(leading_ws(t) as int, t.len() as int);
    u.subrange(0, trailing_trimmed_len(u) as int)
}

/// The trimmed body of a line (line ending removed, then `trim`).
pub open spec fn trimmed_line(line: Seq<char>) -> Seq<char> {
    trim(line.subrange(0, crlf_trimmed_len(line) as int))
}

pub open spec fn note_open_kind(t: Seq<char>) -> Option<NoteFence> {
    if eq_ignore_ascii_case(t, html_open()) {
        Some(NoteFence::Html)
    } else if eq_ignore_ascii_case(t, backtick_open()) {
        Some(NoteFence::Backtick)
    } else {
        None
    }
}

pub open spec fn is_note_close(t: Seq<char>, kind: NoteFence) -> bool {
    match kind {
        NoteFence::Html => eq_ignore_ascii_case(t, html_close()),
        NoteFence::Backtick => t == fence(),
    }
}

pub open spec fn opens_inner_fence(t: Seq<char>) -> bool {
    t.len() >= 3 && t.subrange(0, 3) == fence() && t != fence()
}

/// What a line inside a note block becomes: its newline, if it has one.
pub open spec fn blank_like(line: Seq<char>) -> Seq<char> {
    if line.len() > 0 && line.last() == '\n' {
        seq!['\n']
    } else {
        Seq::empty()
    }
}

/// One line of the scan: what is emitted, and the state after it.
pub open spec fn note_step(st: NoteState, line: Seq<char>, line_no: nat) -> (Seq<char>, NoteState) {
    let t = trimmed_line(line);
    if st.in_note {
        let next = if st.kind == NoteFence::Backtick {
            if st.inner_fence {
                if t == fence() {
                    NoteState { inner_fence: false, ..st }
                } else {
                    st
                }
            } else if opens_inner_fence(t) {
                NoteState { inner_fence: true, ..st }
            } else if is_note_close(t, st.kind) {
                NoteState { in_note: false, start_line: None, ..st }
            } else {
                st
            }
        } else if is_note_close(t, st.kind) {
            NoteState { in_note: false, start_line: None, ..st }
        } else {
            st
        };
        (blank_like(line), next)
    } else {
        match note_open_kind(t) {
            Some(kind) => (
                blank_like(line),
                NoteState { in_note: true, inner_fence: false, kind, start_line: Some(line_no) },
            ),
            None => (line, st),
        }
    }
}

pub open spec fn cons_text(p: Seq<char>, r: Result<Seq<char>, ErrorModel>) -> Result<Seq<char>, ErrorModel> {
    match r {
        Ok(rest) => Ok(p + rest),
        Err(e) => Err(e),
    }
}

pub proof fn lemma_line_stop(s: Seq<char>, i: nat)
    requires
        i < s.len(),
    ensures
        i < line_stop(s, i) <= s.len(),
{
    crate::lexer::lemma_line_end_bounds(s, i);
}

/// The source from index `i` on with note blocks blanked, the line at `i`
/// being number `line_no` and the scan being in state `st`.
pub open spec fn strip_from(s: Seq<char>, i: nat, line_no: nat, st: NoteState) -> Result<Seq<char>, ErrorModel>
    decreases s.len() - i,
{
    if i >= s.len() {
        if st.in_note {
            Err(ErrorModel { message: "unterminated notes block"@, line: st.start_line })
        } else {
            Ok(Seq::empty())
        }
    } else {
        proof {
            lemma_line_stop(s, i);
        }
        let stop = line_stop(s, i);
        let (piece, next) = note_step(st, s.subrange(i as int, stop as int), line_no);
        cons_text(piece, strip_from(s, stop, line_no + 1, next))
    }
}

pub open spec fn strip_spec(s: Seq<char>) -> Result<Seq<char>, ErrorModel> {
    strip_from(
        s,
        0,
        1,
        NoteState { in_note: false, inner_fence: false, kind: NoteFence::Html, start_line: None },
    )
}

} // verus!

verus! {

/// End of `s[a..b]` once trailing `\r`/`\n` are removed.
fn crlf_stop(s: &Vec<char>, a: usize, b: usize) -> (k: usize)
    requires
        a <= b <= s@.len(),
    ensures
        a <= k <= b,
        k - a == crlf_trimmed_len(s@.subrange(a as int, b as int)),
{
    let mut k = b;
    while k > a && (s[k - 1] == '\r' || s[k - 1] == '\n')
        invariant
            a <= k <= b <= s@.len(),
            crlf_trimmed_len(s@.subrange(a as int, k as int)) == crlf_trimmed_len(
                s@.subrange(a as int, b as int),
            ),
        decreases k,
    {
        assert(s@.subrange(a as int, k as int).drop_last() == s@.subrange(a as int, k - 1));
        k = k - 1;
    }
    k
}

/// End of `s[a..b]` once trailing whitespace is removed.
pub(crate) fn ws_stop(s: &Vec<char>, a: usize, b: usize) -> (k: usize)
    requires
        a <= b <= s@.len(),
    ensures
        a <= k <= b,
        k - a == trailing_trimmed_len(s@.subrange(a as int, b as int)),
{
    let mut k = b;
    while k > a && is_whitespace(s[k - 1])
        invariant
            a <= k <= b <= s@.len(),
            trailing_trimmed_len(s@.subrange(a as int, k as int)) == trailing_trimmed_len(
                s@.subrange(a as int, b as int),
            ),
        decreases k,
    {
        assert(s@.subrange(a as int, k as int).drop_last() == s@.subrange(a as int, k - 1));
        k = k - 1;
    }
    k
}

/// Start of `s[a..b]` once leading whitespace is skipped.
pub(crate) fn ws_start(s: &Vec<char>, a: usize, b: usize) -> (k: usize)
    requires
        a <= b <= s@.len(),
    ensures
        a <= k <= b,
        k - a == leading_ws(s@.subrange(a as int, b as int)),
{
    let mut k = a;
    while k < b && is_whitespace(s[k])
        invariant
            a <= k <= b <= s@.len(),
            leading_ws(s@.subrange(a as int, b as int)) == (k - a) + leading_ws(
                s@.subrange(k as int, b as int),
            ),
        decreases b - k,
    {
        assert(s@.subrange(k as int, b as int).drop_first() == s@.subrange(k + 1, b as int));
        k = k + 1;
    }
    k
}

/// Bounds of the trimmed body of the line `s[a..b]`.
fn trimmed_bounds(s: &Vec<char>, a: usize, b: usize) -> (r: (usize, usize))
    requires
        a <= b <= s@.len(),
    ensures
        a <= r.0 <= r.1 <= b,
        s@.subrange(r.0 as int, r.1 as int) == trimmed_line(s@.subrange(a as int, b as int)),
{
    let e = crlf_stop(s, a, b);
    let line = Ghost(s@.subrange(a as int, b as int));
    assert(line@.subrange(0, crlf_trimmed_len(line@) as int) == s@.subrange(a as int, e as int));
    let ta = ws_start(s, a, e);
    let tb = ws_stop(s, ta, e);
    let ghost t = s@.subrange(a as int, e as int);
    assert(t.subrange(leading_ws(t) as int, t.len() as int) == s@.subrange(ta as int, e as int));
    assert(s@.subrange(ta as int, e as int).subrange(0, (tb - ta) as int) == s@.subrange(
        ta as int,
        tb as int,
    ));
    (ta, tb)
}

/// Whether `s[a..b]` equals `lit`.
fn range_eq(s: &Vec<char>, a: usize, b: usize, lit: &Vec<char>) -> (r: bool)
    requires
        a <= b <= s@.len(),
    ensures
        r == (s@.subrange(a as int, b as int) == lit@),
{
    if b - a != lit.len() {
        return false;
    }
    let mut k: usize = 0;
    while k < lit.len()
        invariant
            b - a == lit@.len(),
            a <= b <= s@.len(),
            k <= lit@.len(),
            forall|m: int| 0 <= m < k ==> s@[a + m] == lit@[m],
        decreases lit.len() - k,
    {
        if s[a + k] != lit[k] {
            assert(s@.subrange(a as int, b as int)[k as int] != lit@[k as int]);
            return false;
        }
        k = k + 1;
    }
    assert(s@.subrange(a as int, b as int) == lit@);
    true
}

/// Whether `s[a..b]` equals `lit` up to ASCII case.
fn range_eq_ignore_case(s: &Vec<char>, a: usize, b: usize, lit: &Vec<char>) -> (r: bool)
    requires
        a <= b <= s@.len(),
    ensures
        r == eq_ignore_ascii_case(s@.subrange(a as int, b as int), lit@),
{
    if b - a != lit.len() {
        return false;
    }
    let mut k: usize = 0;
    while k < lit.len()
        invariant
            b - a == lit@.len(),
            a <= b <= s@.len(),
            k <= lit@.len(),
            forall|m: int| 0 <= m < k ==> ascii_lower(s@[a + m]) == ascii_lower(lit@[m]),
        decreases lit.len() - k,
    {
        if to_ascii_lower(s[a + k]) != to_ascii_lower(lit[k]) {
            assert(ascii_lower(s@.subrange(a as int, b as int)[k as int]) != ascii_lower(lit@[k as int]));
            return false;
        }
        k = k + 1;
    }
    assert forall|m: int| 0 <= m < lit@.len() implies ascii_lower(
        #[trigger] s@.subrange(a as int, b as int)[m],
    ) == ascii_lower(lit@[m]) by {
        assert(s@.subrange(a as int, b as int)[m] == s@[a + m]);
    }
    true
}

/// The scanner's state while walking the lines of a source.
struct ScanState {
    in_note: bool,
    inner_fence: bool,
    kind: NoteFence,
    start_line: Option<usize>,
}

impl ScanState {
    spec fn model(&self) -> NoteState {
        NoteState {
            in_note: self.in_note,
            inner_fence: self.inner_fence,
            kind: self.kind,
            start_line: match self.start_line {
                Some(l) => Some(l as nat),
                None => None,
            },
        }
    }
}

/// The literal lines the scanner compares against.
struct Fences {
    html_open: Vec<char>,
    html_close: Vec<char>,
    backtick_open: Vec<char>,
    fence: Vec<char>,
}

impl Fences {
    spec fn wf(&self) -> bool {
        &&& self.html_open@ == html_open()
        &&& self.html_close@ == html_close()
        &&& self.backtick_open@ == backtick_open()
        &&& self.fence@ == fence()
    }
}

/// Whether the trimmed line `s[ta..tb]` is the bare fence that closes a
/// legacy note block.
fn is_legacy_note_close(s: &Vec<char>, ta: usize, tb: usize, f: &Fences) -> (b: bool)
    requires
        ta <= tb <= s@.len(),
        f.wf(),
    ensures
        b == (s@.subrange(ta as int, tb as int) == fence()),
{
    range_eq(s, ta, tb, &f.fence)
}

/// Whether the trimmed line `s[ta..tb]` opens a fenced code block inside a
/// note: a fence followed by an info string.
fn is_inner_fence_open(s: &Vec<char>, ta: usize, tb: usize, f: &Fences) -> (b: bool)
    requires
        ta <= tb <= s@.len(),
        f.wf(),
    ensures
        b == opens_inner_fence(s@.subrange(ta as int, tb as int)),
{
    let t_len = tb - ta;
    let b = t_len >= 3 && range_eq(s, ta, ta + 3, &f.fence) && !range_eq(s, ta, tb, &f.fence);
    proof {
        if t_len >= 3 {
            assert(s@.subrange(ta as int, tb as int).subrange(0, 3) == s@.subrange(ta as int, ta + 3));
        }
    }
    b
}

/// Processes the line `s[i..stop]`: emits its output onto `out` and
/// updates the state (see [`note_step`]).
fn note_line(s: &Vec<char>, i: usize, stop: usize, line_no: usize, st: &mut ScanState, f: &Fences, out: &mut Vec<char>)
    requires
        i < stop <= s@.len(),
        f.wf(),
    ensures
        final(out)@ == old(out)@ + note_step(old(st).model(), s@.subrange(i as int, stop as int), line_no as nat).0,
        final(st).model() == note_step(old(st).model(), s@.subrange(i as int, stop as int), line_no as nat).1,
{
    let ghost line = s@.subrange(i as int, stop as int);
    let (ta, tb) = trimmed_bounds(s, i, stop);
    let ghost t = trimmed_line(line);
    let ends_nl = s[stop - 1] == '\n';
    assert(blank_like(line) == if ends_nl { seq!['\n'] } else { Seq::<char>::empty() });
    let ghost out0 = out@;
    if st.in_note {
        if ends_nl {
            out.push('\n');
        }
        match st.kind {
            NoteFence::Backtick => {
                if st.inner_fence {
                    if is_legacy_note_close(s, ta, tb, f) {
                        st.inner_fence = false;
                    }
                } else {
                    if is_inner_fence_open(s, ta, tb, f) {
                        st.inner_fence = true;
                    } else if is_legacy_note_close(s, ta, tb, f) {
                        st.in_note = false;
                        st.start_line = None;
                    }
                }
            },
            NoteFence::Html => {
                if range_eq_ignore_case(s, ta, tb, &f.html_close) {
                    st.in_note = false;
                    st.start_line = None;
                }
            },
        }
    } else {
        if range_eq_ignore_case(s, ta, tb, &f.html_open) {
            st.in_note = true;
            st.inner_fence = false;
            st.kind = NoteFence::Html;
            st.start_line = Some(line_no);
            if ends_nl {
                out.push('\n');
            }
        } else if range_eq_ignore_case(s, ta, tb, &f.backtick_open) {
            st.in_note = true;
            st.inner_fence = false;
            st.kind = NoteFence::Backtick;
            st.start_line = Some(line_no);
            if ends_nl {
                out.push('\n');
            }
        } else {
            let mut k = i;
            while k < stop
                invariant
                    i <= k <= stop <= s@.len(),
                    out@ == out0 + s@.subrange(i as int, k as int),
                decreases stop - k,
            {
                out.push(s[k]);
                k = k + 1;
                assert(out@ == out0 + s@.subrange(i as int, k as int));
            }
        }
    }
}

/// Blanks the note blocks of a character sequence (see [`strip_spec`]).
pub fn strip_note_chars(s: &Vec<char>) -> (r: Result<Vec<char>, Error>)
    requires
        s@.len() < usize::MAX,
    ensures
        match r {
            Ok(out) => strip_spec(s@) == Ok::<Seq<char>, ErrorModel>(out@),
            Err(e) => strip_spec(s@) == Err::<Seq<char>, ErrorModel>(e@),
        },
{
    let f = Fences {
        html_open: chars_of("<!-- tensorforge:note -->"),
        html_close: chars_of("<!-- /tensorforge:note -->"),
        backtick_open: chars_of("```notes"),
        fence: chars_of("```"),
    };
    let mut st = ScanState { in_note: false, inner_fence: false, kind: NoteFence::Html, start_line: None };
    let mut out: Vec<char> = Vec::new();
    let mut i: usize = 0;
    let mut line_no: usize = 1;
    proof {
        match strip_spec(s@) {
            Ok(r) => { assert(out@ + r == r); },
            Err(_) => {},
        }
    }
    while i < s.len()
        invariant
            i <= s@.len() < usize::MAX,
            1 <= line_no <= i + 1,
            f.wf(),
            strip_spec(s@) == cons_text(out@, strip_from(s@, i as nat, line_no as nat, st.model())),
        decreases s.len() - i,
    {
        proof {
            lemma_line_stop(s@, i as nat);
            crate::lexer::lemma_line_end_bounds(s@, i as nat);
        }
        let mut stop = i;
        while stop < s.len() && s[stop] != '\n'
            invariant
                i <= stop <= s@.len(),
                line_end(s@, stop as nat) == line_end(s@, i as nat),
            decreases s.len() - stop,
        {
            stop = stop + 1;
        }
        assert(line_end(s@, stop as nat) == stop as nat);
        if stop < s.len() {
            stop = stop + 1;
        }
        let ghost step = note_step(st.model(), s@.subrange(i as int, stop as int), line_no as nat);
        let ghost out0 = out@;
        note_line(s, i, stop, line_no, &mut st, &f, &mut out);
        proof {
            match strip_from(s@, stop as nat, (line_no + 1) as nat, step.1) {
                Ok(rest) => {
                    assert(out0 + (step.0 + rest) == (out0 + step.0) + rest);
                },
                Err(_) => {},
            }
        }
        i = stop;
        line_no = line_no + 1;
    }
    if st.in_note {
        let message = String::from_str("unterminated notes block");
        return Err(Error::new(message, st.start_line));
    }
    assert(out@ + Seq::<char>::empty() == out@);
    Ok(out)
}

/// Blanks the note blocks of `src` (see [`strip_spec`]).
pub fn strip_note_blocks(src: &str) -> (r: Result<String, Error>)
    requires
        src@.len() < usize::MAX,
    ensures
        match r {
            Ok(out) => strip_spec(src@) == Ok::<Seq<char>, ErrorModel>(out@),
            Err(e) => strip_spec(src@) == Err::<Seq<char>, ErrorModel>(e@),
        },
{
    let s = chars_of(src);
    match strip_note_chars(&s) {
        Ok(out) => Ok(string_of(out.as_slice())),
        Err(e) => Err(e),
    }
}

} // verus!

verus! {

/// Blanking never lengthens a source.
pub proof fn lemma_strip_from_len(s: Seq<char>, i: nat, line_no: nat, st: NoteState)
    requires
        i <= s.len(),
    ensures
        strip_from(s, i, line_no, st) matches Ok(out) ==> out.len() <= s.len() - i,
    decreases s.len() - i,
{
    if i < s.len() {
        lemma_line_stop(s, i);
        let stop = line_stop(s, i);
        let line = s.subrange(i as int, stop as int);
        lemma_strip_from_len(s, stop, line_no + 1, note_step(st, line, line_no).1);
        assert(note_step(st, line, line_no).0.len() <= line.len());
    }
}


/// The number of line breaks in `s`.
pub open spec fn newlines(s: Seq<char>) -> nat
    decreases s.len(),
{
    if s.len() == 0 {
        0
    } else {
        newlines(s.drop_last()) + if s.last() == '\n' {
            1nat
        } else {
            0nat
        }
    }
}

proof fn lemma_newlines_concat(a: Seq<char>, b: Seq<char>)
    ensures
        newlines(a + b) == newlines(a) + newlines(b),
    decreases b.len(),
{
    if b.len() == 0 {
        assert(a + b == a);
    } else {
        assert((a + b).drop_last() == a + b.drop_last());
        lemma_newlines_concat(a, b.drop_last());
    }
}

proof fn lemma_no_newlines(s: Seq<char>)
    requires
        forall|k: int| 0 <= k < s.len() ==> s[k] != '\n',
    ensures
        newlines(s) == 0,
    decreases s.len(),
{
    if s.len() > 0 {
        lemma_no_newlines(s.drop_last());
    }
}

proof fn lemma_line_end_clear(s: Seq<char>, i: nat)
    requires
        i <= s.len(),
    ensures
        forall|k: int| i <= k < crate::lexer::line_end(s, i) ==> s[k] != '\n',
    decreases s.len() - i,
{
    if i < s.len() && s[i as int] != '\n' {
        lemma_line_end_clear(s, i + 1);
    }
}

/// A line and its blanked form hold the same number of line breaks.
proof fn lemma_line_newlines(s: Seq<char>, i: nat)
    requires
        i < s.len(),
    ensures
        newlines(s.subrange(i as int, line_stop(s, i) as int)) == newlines(
            blank_like(s.subrange(i as int, line_stop(s, i) as int)),
        ),
{
    let e = crate::lexer::line_end(s, i);
    crate::lexer::lemma_line_end_bounds(s, i);
    lemma_line_end_clear(s, i);
    let body = s.subrange(i as int, e as int);
    lemma_no_newlines(body);
    let line = s.subrange(i as int, line_stop(s, i) as int);
    if e < s.len() {
        assert(line == body + seq!['\n']);
        lemma_newlines_concat(body, seq!['\n']);
        assert(newlines(seq!['\n']) == 1) by {
            let nl = seq!['\n'];
            assert(nl.len() == 1);
            assert(nl.last() == '\n');
            assert(nl.drop_last() =~= Seq::<char>::empty());
            assert(newlines(nl.drop_last()) == 0);
        }
        assert(blank_like(line) == seq!['\n']);
    } else {
        assert(line == body);
        if line.len() > 0 {
            assert(line.last() == s[e - 1]);
        }
        assert(blank_like(line) =~= Seq::<char>::empty());
    }
}

proof fn lemma_strip_from_newlines(s: Seq<char>, i: nat, line_no: nat, st: NoteState)
    requires
        i <= s.len(),
    ensures
        strip_from(s, i, line_no, st) matches Ok(out) ==> newlines(out) == newlines(
            s.subrange(i as int, s.len() as int),
        ),
    decreases s.len() - i,
{
    if i < s.len() {
        lemma_line_stop(s, i);
        let stop = line_stop(s, i);
        let line = s.subrange(i as int, stop as int);
        let step = note_step(st, line, line_no);
        lemma_strip_from_newlines(s, stop, line_no + 1, step.1);
        lemma_line_newlines(s, i);
        assert(s.subrange(i as int, s.len() as int) == line + s.subrange(stop as int, s.len() as int));
        lemma_newlines_concat(line, s.subrange(stop as int, s.len() as int));
        if let Ok(rest) = strip_from(s, stop, line_no + 1, step.1) {
            lemma_newlines_concat(step.0, rest);
        }
    } else {
        assert(s.subrange(i as int, s.len() as int) =~= Seq::<char>::empty());
    }
}

/// Removing note blocks keeps the number of lines: every line of a note
/// block, its fences included, leaves its line break behind, so the lines
/// of the remaining code keep their numbers.
pub proof fn law_strip_keeps_line_count(s: Seq<char>)
    ensures
        strip_spec(s) matches Ok(out) ==> newlines(out) == newlines(s),
{
    lemma_strip_from_newlines(
        s,
        0,
        1,
        NoteState { in_note: false, inner_fence: false, kind: NoteFence::Html, start_line: None },
    );
    assert(s.subrange(0, s.len() as int) == s);
}

} // verus!
