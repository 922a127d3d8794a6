//! Pieces of the isolated analysis that decide rather than perform I/O:
//! the error kinds, the worker protocol's banner, and how much of a
//! worker's error output is kept.
use vstd::prelude::*;
use vstd::string::*;
use vstd::utf8::{decode_utf8, encode_utf8, encode_utf8_decode_utf8, is_char_boundary};
use crate::metrics::{is_whitespace, is_whitespace_char};
use crate::text::{chars_of, decimal, decimal_text_u64, same_text};

verus! {

/// First line a worker prints before its JSON payload.
pub const WORKER_MAGIC: &'static str = "EC-ANALYZE-WORKER-V1";

/// Largest number of bytes of worker output kept in an error.
pub const MAX_EXCERPT_BYTES: usize = 512;

/// Why an isolated analysis failed.
#[derive(Debug, Clone, PartialEq, Eq)]
pub enum IsolationError {
    /// No worker binary could be found.
    WorkerNotFound,
    /// The worker could not be started or talked to.
    Spawn(String),
    /// The worker ran past its time budget and was killed.
    Timeout { millis: u64 },
    /// The worker ended unsuccessfully (stack overflow, signal, nonzero exit).
    Crashed { status: String, stderr: String },
    /// The worker broke the output protocol.
    Protocol(String),
}

/// The message that reports an isolation failure.
pub open spec fn isolation_error_text(e: IsolationError) -> Seq<char> {
    match e {
        IsolationError::WorkerNotFound => "no analysis worker binary could be located"@,
        IsolationError::Spawn(m) => "cannot start analysis worker: "@ + m@,
        IsolationError::Timeout { millis } => "analysis worker exceeded "@ + decimal(millis as nat)
            + "ms budget and was killed"@,
        IsolationError::Crashed { status, stderr } => "analysis worker died ("@ + status@
            + "); stderr: "@ + stderr@,
        IsolationError::Protocol(m) => "analysis worker protocol violation: "@ + m@,
    }
}

impl IsolationError {
    /// The message that reports this failure.
    pub fn message(&self) -> (s: String)
        ensures
            s@ == isolation_error_text(*self),
    {
        match self {
            IsolationError::WorkerNotFound => String::from_str(
                "no analysis worker binary could be located",
            ),
            IsolationError::Spawn(m) => {
                let mut s = String::from_str("cannot start analysis worker: ");
                s.append(m.as_str());
                s
            },
            IsolationError::Timeout { millis } => {
                let mut s = String::from_str("analysis worker exceeded ");
                let d = decimal_text_u64(*millis);
                s.append(d.as_str());
                s.append("ms budget and was killed");
                s
            },
            IsolationError::Crashed { status, stderr } => {
                let mut s = String::from_str("analysis worker died (");
                s.append(status.as_str());
                s.append("); stderr: ");
                s.append(stderr.as_str());
                s
            },
            IsolationError::Protocol(m) => {
                let mut s = String::from_str("analysis worker protocol violation: ");
                s.append(m.as_str());
                s
            },
        }
    }
}

/// The largest character boundary of `b` at or below `end`.
pub open spec fn cut_point(b: Seq<u8>, end: int) -> int
    decreases end,
{
    if end <= 0 {
        0
    } else if is_char_boundary(b, end) {
        end
    } else {
        cut_point(b, end - 1)
    }
}

/// Text kept of `text` in an error: all of it up to `MAX_EXCERPT_BYTES`
/// bytes of UTF-8; otherwise its longest prefix of at most that many bytes
/// that ends on a character boundary, followed by `...`.
pub open spec fn excerpt(text: Seq<char>) -> Seq<char> {
    let b = encode_utf8(text);
    if b.len() <= MAX_EXCERPT_BYTES {
        text
    } else {
        decode_utf8(b.take(cut_point(b, MAX_EXCERPT_BYTES as int))) + "..."@
    }
}

/// Shortens `text` for inclusion in an error.
pub fn truncate(text: &str) -> (r: String)
    ensures
        r@ == excerpt(text@),
{
    let ghost b = text.spec_bytes();
    let bytes = text.as_bytes();
    if bytes.len() <= MAX_EXCERPT_BYTES {
        return text.to_owned();
    }
    let mut end: usize = MAX_EXCERPT_BYTES;
    while end > 0 && !text.is_char_boundary(end)
        invariant
            b == text.spec_bytes(),
            end <= MAX_EXCERPT_BYTES,
            cut_point(b, end as int) == cut_point(b, MAX_EXCERPT_BYTES as int),
        decreases end,
    {
        end = end - 1;
    }
    proof {
        vstd::utf8::encode_utf8_valid_utf8(text@);
        if end == 0 {
            vstd::utf8::is_char_boundary_start_end_of_seq(b);
        }
    }
    let (prefix, _) = text.split_at(end);
    proof {
        encode_utf8_decode_utf8(prefix@);
        assert(b.subrange(0, end as int) =~= b.take(end as int));
    }
    let mut r = String::from_str(prefix);
    r.append("...");
    r
}

/// Index of the first `'\n'` at or after `i`, or the length if none.
pub open spec fn newline_from(s: Seq<char>, i: int) -> int
    decreases s.len() - i,
{
    if i < 0 || i >= s.len() {
        s.len() as int
    } else if s[i] == '\n' {
        i
    } else {
        newline_from(s, i + 1)
    }
}

/// The first line of `s`, as `str::lines` yields it: up to the first
/// `'\n'`, without a `'\r'` just before that `'\n'`; all of `s` when it
/// holds no line break.
pub open spec fn first_line(s: Seq<char>) -> Seq<char> {
    let e = newline_from(s, 0);
    if e < s.len() && e > 0 && s[e - 1] == '\r' {
        s.subrange(0, e - 1)
    } else {
        s.subrange(0, e)
    }
}

/// What follows the first line break of `s`; nothing if there is none.
pub open spec fn after_first_line(s: Seq<char>) -> Seq<char> {
    let e = newline_from(s, 0);
    if e < s.len() {
        s.subrange(e + 1, s.len() as int)
    } else {
        Seq::empty()
    }
}

/// Index of the first non-whitespace character at or after `i`.
pub open spec fn skip_ws_from(s: Seq<char>, i: int) -> int
    decreases s.len() - i,
{
    if i < 0 || i >= s.len() {
        s.len() as int
    } else if is_whitespace(s[i]) {
        skip_ws_from(s, i + 1)
    } else {
        i
    }
}

/// End of `s` once trailing whitespace after position `lo` is dropped.
pub open spec fn trim_end_from(s: Seq<char>, lo: int, j: int) -> int
    decreases j - lo,
{
    if j <= lo {
        lo
    } else if is_whitespace(s[j - 1]) {
        trim_end_from(s, lo, j - 1)
    } else {
        j
    }
}

/// `s` without leading and trailing whitespace, as `str::trim` gives it.
pub open spec fn trimmed(s: Seq<char>) -> Seq<char> {
    let a = skip_ws_from(s, 0);
    s.subrange(a, trim_end_from(s, a, s.len() as int))
}

/// The worker's reply to `raw` output: the payload line when the banner
/// line is the worker magic once trimmed; otherwise a protocol error quoting
/// an excerpt of the banner.
pub open spec fn worker_reply(raw: Seq<char>) -> Result<Seq<char>, Seq<char>> {
    let banner = first_line(raw);
    if trimmed(banner) == WORKER_MAGIC@ {
        Ok(first_line(after_first_line(raw)))
    } else {
        Err("unexpected worker banner: "@ + excerpt(banner))
    }
}

fn newline_index(s: &Vec<char>, i: usize) -> (e: usize)
    requires
        i <= s@.len(),
    ensures
        e == newline_from(s@, i as int),
        i <= e <= s@.len(),
{
    let mut j = i;
    while j < s.len() && s[j] != '\n'
        invariant
            i <= j <= s@.len(),
            newline_from(s@, j as int) == newline_from(s@, i as int),
        decreases s@.len() - j,
    {
        j = j + 1;
    }
    j
}

/// Bounds of the line of `s` starting at `start`: its end without a
/// `'\r'` before the break, and where the following text starts.
fn line_bounds(s: &Vec<char>, start: usize) -> (r: (usize, usize))
    requires
        start <= s@.len(),
    ensures
        start <= r.0 <= r.1 <= s@.len(),
        s@.subrange(start as int, r.0 as int) == first_line(s@.subrange(start as int, s@.len() as int)),
        s@.subrange(r.1 as int, s@.len() as int) == after_first_line(s@.subrange(start as int, s@.len() as int)),
{
    let ghost t = s@.subrange(start as int, s@.len() as int);
    let e = newline_index(s, start);
    proof {
        lemma_newline_shift(s@, start as int, start as int);
    }
    assert(newline_from(t, 0) == e - start);
    if e < s.len() {
        let end = if e > start && s[e - 1] == '\r' {
            e - 1
        } else {
            e
        };
        assert(s@.subrange(start as int, end as int) =~= first_line(t));
        assert(s@.subrange(e + 1, s@.len() as int) =~= after_first_line(t));
        (end, e + 1)
    } else {
        assert(s@.subrange(start as int, e as int) =~= first_line(t));
        assert(s@.subrange(s@.len() as int, s@.len() as int) =~= after_first_line(t));
        (e, e)
    }
}

/// Finding a line break in a suffix is finding it in the whole.
proof fn lemma_newline_shift(s: Seq<char>, start: int, i: int)
    requires
        0 <= start <= i <= s.len(),
    ensures
        newline_from(s.subrange(start, s.len() as int), i - start) == newline_from(s, i) - start,
    decreases s.len() - i,
{
    if i < s.len() && s[i] != '\n' {
        lemma_newline_shift(s, start, i + 1);
    }
}

/// Whether `s[lo..hi]` trimmed is `word`.
fn trimmed_is(s: &Vec<char>, lo: usize, hi: usize, word: &str) -> (b: bool)
    requires
        lo <= hi <= s@.len(),
    ensures
        b == (trimmed(s@.subrange(lo as int, hi as int)) == word@),
{
    let ghost t = s@.subrange(lo as int, hi as int);
    let mut a = lo;
    while a < hi && is_whitespace_char(s[a])
        invariant
            lo <= a <= hi <= s@.len(),
            t == s@.subrange(lo as int, hi as int),
            skip_ws_from(t, a - lo) == skip_ws_from(t, 0),
        decreases hi - a,
    {
        a = a + 1;
    }
    let mut z = hi;
    while z > a && is_whitespace_char(s[z - 1])
        invariant
            lo <= a <= z <= hi <= s@.len(),
            t == s@.subrange(lo as int, hi as int),
            a - lo == skip_ws_from(t, 0),
            trim_end_from(t, a - lo, z - lo) == trim_end_from(t, a - lo, t.len() as int),
        decreases z - a,
    {
        z = z - 1;
    }
    let w = chars_of(word);
    assert(trimmed(t) =~= s@.subrange(a as int, z as int));
    if z - a != w.len() {
        return false;
    }
    let mut k: usize = 0;
    while k < w.len()
        invariant
            a + w@.len() == z,
            z <= s@.len(),
            w@ == word@,
            k <= w@.len(),
            trimmed(t) == s@.subrange(a as int, z as int),
            t == s@.subrange(lo as int, hi as int),
            forall|m: int| 0 <= m < k ==> s@[a + m] == w@[m],
        decreases w@.len() - k,
    {
        if s[a + k] != w[k] {
            assert(trimmed(t)[k as int] != word@[k as int]);
            return false;
        }
        k = k + 1;
    }
    assert(trimmed(t) =~= word@);
    true
}

/// Checks a worker's output: the banner line must be `WORKER_MAGIC` once
/// trimmed; the line after it is the payload (empty when missing).
pub fn worker_payload(raw: &str) -> (r: Result<String, IsolationError>)
    ensures
        match (r, worker_reply(raw@)) {
            (Ok(p), Ok(q)) => p@ == q,
            (Err(IsolationError::Protocol(m)), Err(q)) => m@ == q,
            _ => false,
        },
{
    let s = chars_of(raw);
    let (banner_end, rest) = line_bounds(&s, 0);
    assert(s@.subrange(0, s@.len() as int) =~= raw@);
    if !trimmed_is(&s, 0, banner_end, WORKER_MAGIC) {
        let banner = raw.substring_char(0, banner_end);
        let mut m = String::from_str("unexpected worker banner: ");
        let quoted = truncate(banner);
        m.append(quoted.as_str());
        return Err(IsolationError::Protocol(m));
    }
    let (payload_end, _) = line_bounds(&s, rest);
    proof {
        assert(s@.subrange(rest as int, s@.len() as int) == after_first_line(raw@));
    }
    let payload = raw.substring_char(rest, payload_end);
    Ok(String::from_str(payload))
}

/// The outcome of a finished worker run, decided in this order: a run past
/// its time budget is a timeout; a run without an exit status is a protocol
/// error; an unsuccessful exit is a crash, with an excerpt of the error
/// output; a successful exit hands its output to the protocol check.
/// `status` is the exit status, when there is one: whether it is a success,
/// and its description.
pub fn worker_outcome(
    timed_out: bool,
    timeout_millis: u64,
    status: Option<(bool, String)>,
    stdout: &str,
    stderr: &str,
) -> (r: Result<String, IsolationError>)
    ensures
        timed_out ==> r == Err::<String, IsolationError>(
            IsolationError::Timeout { millis: timeout_millis },
        ),
        !timed_out && status is None ==> (r matches Err(IsolationError::Protocol(m)) && m@
            == "worker status unavailable"@),
        !timed_out && status is Some && !status.unwrap().0 ==> (r matches Err(
            IsolationError::Crashed { status: c, stderr: e },
        ) && c == status.unwrap().1 && e@ == excerpt(stderr@)),
        !timed_out && status is Some && status.unwrap().0 ==> match (r, worker_reply(stdout@)) {
            (Ok(p), Ok(q)) => p@ == q,
            (Err(IsolationError::Protocol(m)), Err(q)) => m@ == q,
            _ => false,
        },
{
    if timed_out {
        return Err(IsolationError::Timeout { millis: timeout_millis });
    }
    match status {
        None => Err(IsolationError::Protocol(String::from_str("worker status unavailable"))),
        Some((ok, st)) => {
            if !ok {
                Err(IsolationError::Crashed { status: st, stderr: truncate(stderr) })
            } else {
                worker_payload(stdout)
            }
        },
    }
}

} // verus!
