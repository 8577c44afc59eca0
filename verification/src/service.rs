use vstd::prelude::*;
use vstd::string::*;
use crate::sidecar::{decimal, decimal_text};

verus! {

/// What the shell sees of the service process when it looks at it.
pub enum ProcessState {
    /// The process runs.
    Running,
    /// The process has ended; the text is its exit status.
    Exited(String),
    /// No process was started.
    NotStarted,
}

/// What to do next while waiting for the service to be ready.
pub enum ReadyStep {
    /// The service has announced its address.
    Ready,
    /// Waiting is over without success, for the reason given.
    Failed(String),
    /// Look again after this many milliseconds.
    Wait(u64),
}

/// Milliseconds between two looks while waiting for the service.
pub const READY_POLL_MS: u64 = 200;

pub open spec fn timeout_message(timeout_secs: u64) -> Seq<char> {
    "等待 DSH 服务就绪超时（"@ + decimal(timeout_secs as nat) + "s）"@
}

pub open spec fn exited_message(status: Seq<char>) -> Seq<char> {
    "DSH 服务已退出: "@ + status
}

pub open spec fn not_started_message() -> Seq<char> {
    "DSH 服务未启动"@
}

/// One look while waiting for the service, `elapsed_ms` after the wait began:
/// past the deadline the wait fails; before it, an announced address means
/// ready, an ended or missing process means failure, and otherwise the shell
/// looks again after 200 ms.
pub fn ready_step(url_seen: bool, process: &ProcessState, elapsed_ms: u64, timeout_secs: u64) -> (r: ReadyStep)
    ensures
        elapsed_ms >= timeout_secs * 1000 ==> (r matches ReadyStep::Failed(m) && m@ == timeout_message(timeout_secs)),
        elapsed_ms < timeout_secs * 1000 && url_seen ==> r is Ready,
        elapsed_ms < timeout_secs * 1000 && !url_seen ==> match process {
            ProcessState::Running => r == ReadyStep::Wait(READY_POLL_MS),
            ProcessState::Exited(s) => (r matches ReadyStep::Failed(m) && m@ == exited_message(s@)),
            ProcessState::NotStarted => (r matches ReadyStep::Failed(m) && m@ == not_started_message()),
        },
{
    if elapsed_ms / 1000 >= timeout_secs {
        let mut m = String::from_str("等待 DSH 服务就绪超时（");
        let t = decimal_text(timeout_secs);
        m.append(t.as_str());
        m.append("s）");
        return ReadyStep::Failed(m);
    }
    if url_seen {
        return ReadyStep::Ready;
    }
    match process {
        ProcessState::Running => ReadyStep::Wait(READY_POLL_MS),
        ProcessState::Exited(s) => {
            let mut m = String::from_str("DSH 服务已退出: ");
            m.append(s.as_str());
            ReadyStep::Failed(m)
        },
        ProcessState::NotStarted => ReadyStep::Failed(String::from_str("DSH 服务未启动")),
    }
}

/// What the shell learns when it asks whether the stopping process has ended.
pub enum ExitCheck {
    Ended,
    StillRunning,
    /// The question itself failed.
    Unknown,
}

/// What to do next while stopping the service.
pub enum StopStep {
    /// Stopping is over.
    Finished,
    /// Kill the process outright; stopping is then over.
    ForceKill,
    /// Ask again after this many milliseconds.
    Wait(u64),
}

/// How long the process tree may take to end, in milliseconds.
pub const STOP_GRACE_MS: u64 = 5000;

/// Milliseconds between two questions while stopping.
pub const STOP_POLL_MS: u64 = 100;

/// One question while stopping, `elapsed_ms` after the process tree was told to
/// end: an ended process, or a failed question, ends the stop; a process still
/// running after 5 s is killed; otherwise the shell asks again after 100 ms.
pub fn stop_step(check: ExitCheck, elapsed_ms: u64) -> (r: StopStep)
    ensures
        match check {
            ExitCheck::Ended => r is Finished,
            ExitCheck::Unknown => r is Finished,
            ExitCheck::StillRunning => if elapsed_ms > STOP_GRACE_MS {
                r is ForceKill
            } else {
                r == StopStep::Wait(STOP_POLL_MS)
            },
        },
{
    match check {
        ExitCheck::Ended => StopStep::Finished,
        ExitCheck::Unknown => StopStep::Finished,
        ExitCheck::StillRunning => if elapsed_ms > STOP_GRACE_MS {
            StopStep::ForceKill
        } else {
            StopStep::Wait(STOP_POLL_MS)
        },
    }
}

/// White space as Rust's `char::is_whitespace` knows it (the Unicode
/// `White_Space` property).
pub open spec fn is_white(c: char) -> bool {
    ||| c == '\t' || c == '\n' || c == '\u{0b}' || c == '\u{0c}' || c == '\r' || c == ' '
    ||| c == '\u{85}' || c == '\u{a0}' || c == '\u{1680}'
    ||| ('\u{2000}' <= c && c <= '\u{200a}')
    ||| c == '\u{2028}' || c == '\u{2029}' || c == '\u{202f}' || c == '\u{205f}' || c == '\u{3000}'
}

fn white(c: char) -> (r: bool)
    ensures
        r == is_white(c),
{
    c == '\t' || c == '\n' || c == '\u{0b}' || c == '\u{0c}' || c == '\r' || c == ' '
        || c == '\u{85}' || c == '\u{a0}' || c == '\u{1680}'
        || ('\u{2000}' <= c && c <= '\u{200a}')
        || c == '\u{2028}' || c == '\u{2029}' || c == '\u{202f}' || c == '\u{205f}' || c == '\u{3000}'
}

/// Where the text `s[lo..hi]` starts once leading white space is removed.
pub open spec fn trim_start(s: Seq<char>, lo: int, hi: int) -> int
    decreases hi - lo,
{
    if lo < hi && is_white(s[lo]) { trim_start(s, lo + 1, hi) } else { lo }
}

/// Where the text `s[lo..hi]` ends once trailing white space is removed.
pub open spec fn trim_end(s: Seq<char>, lo: int, hi: int) -> int
    decreases hi - lo,
{
    if lo < hi && is_white(s[hi - 1]) { trim_end(s, lo, hi - 1) } else { hi }
}

pub open spec fn is_digit(c: char) -> bool {
    '0' <= c && c <= '9'
}

/// The number that the digits `s[lo..hi]` write in decimal.
pub open spec fn digits_value(s: Seq<char>, lo: int, hi: int) -> nat
    decreases hi - lo,
{
    if hi <= lo {
        0
    } else {
        digits_value(s, lo, hi - 1) * 10 + ((s[hi - 1] as int) - ('0' as int)) as nat
    }
}

/// `s[lo..hi]` read as a `u32` the way `str::parse::<u32>` reads it: an
/// optional `+`, then one or more decimal digits, of value at most `u32::MAX`.
pub open spec fn parse_u32(s: Seq<char>, lo: int, hi: int) -> Option<u32> {
    let a = if lo < hi && s[lo] == '+' { lo + 1 } else { lo };
    if a < hi && (forall|k: int| a <= k < hi ==> is_digit(#[trigger] s[k])) && digits_value(s, a, hi) <= u32::MAX {
        Some(digits_value(s, a, hi) as u32)
    } else {
        None
    }
}

/// The process id that the line `s[lo..hi]` holds, once trimmed, if any.
pub open spec fn line_pid(s: Seq<char>, lo: int, hi: int) -> Option<u32> {
    let a = trim_start(s, lo, hi);
    parse_u32(s, a, trim_end(s, a, hi))
}

/// The end of the line that starts at `i`: the next line feed, or the end of `s`.
pub open spec fn line_end(s: Seq<char>, i: int) -> int
    decreases s.len() - i,
{
    if i >= s.len() { s.len() as int } else if s[i] == '\n' { i } else { line_end(s, i + 1) }
}

/// The process ids listed one per line in `s` from position `i` on, in order;
/// lines that do not hold one are passed over.
pub open spec fn pids_from(s: Seq<char>, i: int) -> Seq<u32>
    decreases s.len() - i + 1,
{
    if i < 0 || i > s.len() {
        seq![]
    } else {
        let e = line_end(s, i);
        proof {
            lemma_line_end_bounds(s, i);
        }
        let here = match line_pid(s, i, e) {
            Some(p) => seq![p],
            None => seq![],
        };
        if e < s.len() { here + pids_from(s, e + 1) } else { here }
    }
}

/// A line ends at or after its start and no later than the text.
pub proof fn lemma_line_end_bounds(s: Seq<char>, i: int)
    requires
        0 <= i <= s.len(),
    ensures
        i <= line_end(s, i) <= s.len(),
    decreases s.len() - i,
{
    if i < s.len() && s[i] != '\n' {
        lemma_line_end_bounds(s, i + 1);
    }
}

/// Reads `cs[lo..hi]` as `str::parse::<u32>` does.
fn parse_u32_at(cs: &Vec<char>, lo: usize, hi: usize) -> (r: Option<u32>)
    requires
        lo <= hi <= cs@.len(),
    ensures
        r == parse_u32(cs@, lo as int, hi as int),
{
    let a = if lo < hi && cs[lo] == '+' { lo + 1 } else { lo };
    if a >= hi {
        return None;
    }
    let mut value: u64 = 0;
    let mut too_big = false;
    let mut k = a;
    while k < hi
        invariant
            a < hi <= cs@.len(),
            lo <= hi,
            a as int == (if lo < hi && cs@[lo as int] == '+' { lo + 1 } else { lo as int }),
            a <= k <= hi,
            forall|j: int| a <= j < k ==> is_digit(#[trigger] cs@[j]),
            too_big <==> digits_value(cs@, a as int, k as int) > u32::MAX,
            !too_big ==> value == digits_value(cs@, a as int, k as int),
        decreases hi - k,
    {
        let c = cs[k];
        if !('0' <= c && c <= '9') {
            assert(!is_digit(cs@[k as int]));
            return None;
        }
        let d = (c as u32 - '0' as u32) as u64;
        let ghost before = digits_value(cs@, a as int, k as int);
        assert(digits_value(cs@, a as int, k + 1) == before * 10 + d);
        if !too_big {
            assert(value * 10 + d <= 0xffff_ffff * 10 + 9) by (nonlinear_arith)
                requires value <= 0xffff_ffff, d <= 9;
            value = value * 10 + d;
            if value > 0xffff_ffff {
                too_big = true;
            }
        } else {
            assert(before * 10 + d > u32::MAX) by (nonlinear_arith)
                requires before > u32::MAX, d >= 0;
        }
        k = k + 1;
    }
    if too_big {
        None
    } else {
        Some(value as u32)
    }
}

/// The process ids in `pgrep` output: one per line, each line trimmed and read
/// as `str::parse::<u32>` reads it; other lines are passed over.
pub fn child_pids(output: &str) -> (r: Vec<u32>)
    ensures
        r@ == pids_from(output@, 0),
{
    let n = output.unicode_len();
    let mut cs: Vec<char> = Vec::new();
    for i in 0..n
        invariant
            n == output@.len(),
            cs@ == output@.take(i as int),
    {
        cs.push(output.get_char(i));
        assert(cs@ =~= output@.take(i + 1));
    }
    assert(output@.take(n as int) =~= output@);
    let mut pids: Vec<u32> = Vec::new();
    let mut start: usize = 0;
    loop
        invariant
            cs@ == output@,
            n == cs@.len(),
            start <= n,
            pids@ + pids_from(cs@, start as int) == pids_from(cs@, 0),
        decreases n - start,
    {
        let mut e = start;
        while e < n && cs[e] != '\n'
            invariant
                start <= e <= n,
                n == cs@.len(),
                line_end(cs@, start as int) == line_end(cs@, e as int),
            decreases n - e,
        {
            e = e + 1;
        }
        let mut a = start;
        while a < e && white(cs[a])
            invariant
                start <= a <= e <= n,
                n == cs@.len(),
                trim_start(cs@, start as int, e as int) == trim_start(cs@, a as int, e as int),
            decreases e - a,
        {
            a = a + 1;
        }
        let mut b = e;
        while a < b && white(cs[b - 1])
            invariant
                a <= b <= e <= n,
                n == cs@.len(),
                trim_end(cs@, a as int, e as int) == trim_end(cs@, a as int, b as int),
            decreases b - a,
        {
            b = b - 1;
        }
        let ghost here = pids@;
        let found = parse_u32_at(&cs, a, b);
        assert(found == line_pid(cs@, start as int, e as int));
        match found {
            Some(p) => pids.push(p),
            None => {},
        }
        if e >= n {
            assert(pids_from(cs@, start as int) == match found { Some(p) => seq![p], None => Seq::<u32>::empty() });
            assert(pids@ =~= pids_from(cs@, 0)) by {
                assert(here + pids_from(cs@, start as int) == pids_from(cs@, 0));
            }
            return pids;
        }
        assert(pids@ + pids_from(cs@, e + 1) =~= pids_from(cs@, 0)) by {
            let h = match found { Some(p) => seq![p], None => Seq::<u32>::empty() };
            assert(pids_from(cs@, start as int) == h + pids_from(cs@, e + 1));
            assert(pids@ == here + h);
            assert(here + (h + pids_from(cs@, e + 1)) =~= (here + h) + pids_from(cs@, e + 1));
        }
        start = e + 1;
    }
}

/// `digits_value` reads only the characters of its range.
pub proof fn lemma_digits_value_same(s: Seq<char>, t: Seq<char>, lo: int, hi: int)
    requires
        0 <= lo,
        hi <= s.len(),
        hi <= t.len(),
        forall|k: int| lo <= k < hi ==> s[k] == t[k],
    ensures
        digits_value(s, lo, hi) == digits_value(t, lo, hi),
    decreases hi - lo,
{
    if lo < hi {
        lemma_digits_value_same(s, t, lo, hi - 1);
    }
}

/// Law of decimal notation: `decimal(n)` is made of digits only, has no
/// leading zero unless it is `0` itself, and reads back as `n`.
pub proof fn lemma_decimal_reads_back(n: nat)
    ensures
        decimal(n).len() >= 1,
        forall|k: int| 0 <= k < decimal(n).len() ==> is_digit(#[trigger] decimal(n)[k]),
        decimal(n).len() == 1 || decimal(n)[0] != '0',
        digits_value(decimal(n), 0, decimal(n).len() as int) == n,
    decreases n,
{
    let d = decimal(n);
    if n < 10 {
        assert(d == seq![crate::sidecar::digit_char(n)]);
        assert(digits_value(d, 0, 0) == 0);
    } else {
        let q = decimal(n / 10);
        lemma_decimal_reads_back(n / 10);
        let c = crate::sidecar::digit_char(n % 10);
        assert(d == q.push(c));
        lemma_digits_value_same(d, q, 0, q.len() as int);
        assert(digits_value(d, 0, d.len() as int) == digits_value(d, 0, q.len() as int) * 10 + ((c as int) - ('0' as int)) as nat);
        assert(q.len() > 1 || q[0] != '0') by {
            if q.len() == 1 && q[0] == '0' {
                assert(digits_value(q, 0, 1) == digits_value(q, 0, 0) * 10 + ((q[0] as int) - ('0' as int)) as nat);
            }
        }
        assert(d[0] == q[0]);
        assert forall|k: int| 0 <= k < d.len() implies is_digit(#[trigger] d[k]) by {
            if k < q.len() {
                assert(d[k] == q[k]);
            }
        }
    }
}

/// A line that runs to the end of the text ends there.
pub proof fn lemma_line_end_no_feed(s: Seq<char>, i: int)
    requires
        0 <= i <= s.len(),
        forall|k: int| i <= k < s.len() ==> s[k] != '\n',
    ensures
        line_end(s, i) == s.len(),
    decreases s.len() - i,
{
    if i < s.len() {
        lemma_line_end_no_feed(s, i + 1);
    }
}

/// Law of reading process ids: a text that is the decimal notation of a
/// process id lists exactly that id.
pub proof fn lemma_pid_reads_back(n: u32)
    ensures
        pids_from(decimal(n as nat), 0) == seq![n],
{
    let s = decimal(n as nat);
    lemma_decimal_reads_back(n as nat);
    assert forall|k: int| 0 <= k < s.len() implies s[k] != '\n' by {
        assert(is_digit(s[k]));
    }
    lemma_line_end_no_feed(s, 0);
    assert(is_digit(s[0]));
    assert(is_digit(s[s.len() - 1]));
    assert(trim_start(s, 0, s.len() as int) == 0);
    assert(trim_end(s, 0, s.len() as int) == s.len());
    assert(line_pid(s, 0, s.len() as int) == Some(n));
    assert(pids_from(s, 0) =~= seq![n]);
}

/// Law of reading process ids: a line holding a character that is neither a
/// digit, nor white space, nor `+` lists no id.
pub proof fn lemma_pid_needs_digits(s: Seq<char>, lo: int, hi: int, k: int)
    requires
        0 <= lo <= k < hi <= s.len(),
        !is_digit(s[k]),
        !is_white(s[k]),
        s[k] != '+',
    ensures
        line_pid(s, lo, hi) is None,
{
    lemma_trim_within(s, lo, hi, k);
}

proof fn lemma_trim_within(s: Seq<char>, lo: int, hi: int, k: int)
    requires
        0 <= lo <= k < hi <= s.len(),
        !is_white(s[k]),
    ensures
        lo <= trim_start(s, lo, hi) <= k,
        k < trim_end(s, trim_start(s, lo, hi), hi) <= hi,
    decreases hi - lo,
{
    if lo < hi && is_white(s[lo]) {
        lemma_trim_within(s, lo + 1, hi, k);
    } else {
        lemma_trim_end_within(s, lo, hi, k);
    }
}

proof fn lemma_trim_end_within(s: Seq<char>, lo: int, hi: int, k: int)
    requires
        0 <= lo <= k < hi <= s.len(),
        !is_white(s[k]),
    ensures
        k < trim_end(s, lo, hi) <= hi,
    decreases hi - lo,
{
    if lo < hi && is_white(s[hi - 1]) {
        lemma_trim_end_within(s, lo, hi - 1, k);
    }
}

/// Law of the waiting messages: the time-out message names the time-out in
/// decimal seconds, and the exit message names the exit status.
pub proof fn lemma_ready_messages(timeout_secs: u64, status: Seq<char>)
    ensures
        exists|i: int| 0 <= i && i + decimal(timeout_secs as nat).len() <= timeout_message(timeout_secs).len()
            && #[trigger] timeout_message(timeout_secs).subrange(i, i + decimal(timeout_secs as nat).len())
                == decimal(timeout_secs as nat),
        exited_message(status).len() >= status.len(),
        exited_message(status).subrange(exited_message(status).len() - status.len(), exited_message(status).len() as int)
            == status,
{
    let pre = "等待 DSH 服务就绪超时（"@;
    let d = decimal(timeout_secs as nat);
    let m = timeout_message(timeout_secs);
    assert(m.subrange(pre.len() as int, (pre.len() + d.len()) as int) =~= d);
    let e = exited_message(status);
    assert(e.subrange(e.len() - status.len(), e.len() as int) =~= status);
}

} // verus!
