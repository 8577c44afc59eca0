use vstd::prelude::*;

verus! {

/// The port handed out when the operating system cannot assign one either.
pub const FALLBACK_PORT: u16 = 3080;

/// Ports below this one are never probed.
pub const LOWEST_PROBED_PORT: u16 = 1024;

/// How many ports after the first one are probed at most.
pub const PROBE_SPAN: u16 = 100;

/// First port of the search window for a preferred port.
pub open spec fn window_start(preferred: u16) -> u16 {
    if preferred < 1024 { 1024 } else { preferred }
}

/// Last port of the search window that starts at `start`: `start + 100`,
/// saturating at 65535.
pub open spec fn window_end(start: u16) -> u16 {
    if start as int + 100 > 65535 { 65535 } else { (start + 100) as u16 }
}

/// A search for a free port in progress: `next` is the port to probe now,
/// `first..=last` is the whole window.
pub struct PortScan {
    pub first: u16,
    pub next: u16,
    pub last: u16,
}

/// What the caller is to do next in a port search.
pub enum PortStep {
    /// Try to bind `scan.next` and report whether it worked through `advance`.
    Probe(PortScan),
    /// No port of the window is free (or none was asked for): let the operating
    /// system assign one and settle it with `os_port_or_fallback`.
    AskOs,
    /// The search is over with this port.
    Found(u16),
}

impl PortScan {
    /// The scan stays inside its window, which starts at or above 1024 and spans
    /// at most 101 ports.
    pub open spec fn wf(self) -> bool {
        &&& 1024 <= self.first <= self.next <= self.last
        &&& self.last == window_end(self.first)
    }

    pub open spec fn start_step(preferred: u16) -> PortStep {
        if preferred == 0 {
            PortStep::AskOs
        } else {
            let s = window_start(preferred);
            PortStep::Probe(PortScan { first: s, next: s, last: window_end(s) })
        }
    }

    pub open spec fn advance_step(self, bindable: bool) -> PortStep {
        if bindable {
            PortStep::Found(self.next)
        } else if self.next < self.last {
            PortStep::Probe(PortScan { first: self.first, next: (self.next + 1) as u16, last: self.last })
        } else {
            PortStep::AskOs
        }
    }

    /// Begins the search for a free port, preferring `preferred`: 0 leaves the
    /// choice to the operating system; otherwise the ports from
    /// `max(preferred, 1024)` up to 100 above it (at most 65535) are probed in
    /// order.
    pub fn start(preferred: u16) -> (r: PortStep)
        ensures
            r == Self::start_step(preferred),
            r matches PortStep::Probe(s) ==> s.wf(),
    {
        if preferred == 0 {
            PortStep::AskOs
        } else {
            let start = if preferred < LOWEST_PROBED_PORT { LOWEST_PROBED_PORT } else { preferred };
            let last = start.saturating_add(PROBE_SPAN);
            PortStep::Probe(PortScan { first: start, next: start, last })
        }
    }

    /// The port to probe now.
    pub fn candidate(&self) -> (r: u16)
        ensures
            r == self.next,
    {
        self.next
    }

    /// Goes on after the probe of `candidate()`: a bindable port ends the
    /// search with it; otherwise the next port of the window is probed, and
    /// after the last one the operating system is asked.
    pub fn advance(self, bindable: bool) -> (r: PortStep)
        requires
            self.wf(),
        ensures
            r == self.advance_step(bindable),
            r matches PortStep::Probe(s) ==> s.wf(),
    {
        if bindable {
            PortStep::Found(self.next)
        } else if self.next < self.last {
            PortStep::Probe(PortScan { first: self.first, next: self.next + 1, last: self.last })
        } else {
            PortStep::AskOs
        }
    }
}

/// The port that the operating system assigned, or 3080 when it assigned none.
pub open spec fn os_or_fallback(os: Option<u16>) -> u16 {
    match os {
        Some(p) => p,
        None => FALLBACK_PORT,
    }
}

/// Settles a search that ended with `AskOs`, given the port that the operating
/// system assigned, if it did.
pub fn os_port_or_fallback(os: Option<u16>) -> (r: u16)
    ensures
        r == os_or_fallback(os),
        os matches Some(p) ==> r == p,
        os is None ==> r == 3080,
{
    match os {
        Some(p) => p,
        None => FALLBACK_PORT,
    }
}

/// The first port `p` in `lo..=hi` with `free(p)`.
pub open spec fn first_free(lo: int, hi: int, free: spec_fn(u16) -> bool) -> Option<u16>
    decreases hi - lo + 1,
{
    if lo > hi {
        None
    } else if free(lo as u16) {
        Some(lo as u16)
    } else {
        first_free(lo + 1, hi, free)
    }
}

/// What remains of a search, as a measure that each probe lowers.
pub open spec fn remaining(step: PortStep) -> nat {
    match step {
        PortStep::Probe(s) => if s.next <= s.last { (s.last - s.next + 1) as nat } else { 0 },
        _ => 0,
    }
}

/// The port a search ends with when every probe of a port `p` reports `free(p)`
/// and the operating system answers `os`.
pub open spec fn run_scan(step: PortStep, free: spec_fn(u16) -> bool, os: Option<u16>) -> u16
    decreases remaining(step),
{
    match step {
        PortStep::Found(p) => p,
        PortStep::AskOs => os_or_fallback(os),
        PortStep::Probe(s) => {
            if s.next <= s.last {
                run_scan(s.advance_step(free(s.next)), free, os)
            } else {
                os_or_fallback(os)
            }
        },
    }
}

/// How many ports a search probes when every probe of `p` reports `free(p)`.
pub open spec fn probe_count(step: PortStep, free: spec_fn(u16) -> bool) -> nat
    decreases remaining(step),
{
    match step {
        PortStep::Probe(s) => {
            if s.next <= s.last {
                1 + probe_count(s.advance_step(free(s.next)), free)
            } else {
                1
            }
        },
        _ => 0,
    }
}

/// `first_free` finds the first free port of the range, and none when none is free.
pub proof fn lemma_first_free(lo: int, hi: int, free: spec_fn(u16) -> bool)
    requires
        0 <= lo,
        hi <= 65535,
    ensures
        first_free(lo, hi, free) matches Some(p) ==> {
            &&& lo <= p <= hi
            &&& free(p)
            &&& forall|q: int| lo <= q < p ==> !free(#[trigger] (q as u16))
        },
        first_free(lo, hi, free) is None ==> forall|q: int| lo <= q <= hi ==> !free(#[trigger] (q as u16)),
    decreases hi - lo + 1,
{
    if lo <= hi && !free(lo as u16) {
        lemma_first_free(lo + 1, hi, free);
        assert forall|q: int| lo <= q < lo + 1 implies !free(#[trigger] (q as u16)) by {
            assert(q == lo);
        }
    }
}

proof fn lemma_run_from(s: PortScan, free: spec_fn(u16) -> bool, os: Option<u16>)
    requires
        s.wf(),
    ensures
        run_scan(PortStep::Probe(s), free, os) == (match first_free(s.next as int, s.last as int, free) {
            Some(p) => p,
            None => os_or_fallback(os),
        }),
        1 <= probe_count(PortStep::Probe(s), free) <= s.last - s.next + 1,
    decreases s.last - s.next,
{
    let nxt = s.advance_step(free(s.next));
    if !free(s.next) && s.next < s.last {
        let t = PortScan { first: s.first, next: (s.next + 1) as u16, last: s.last };
        assert(nxt == PortStep::Probe(t));
        lemma_run_from(t, free, os);
    } else {
        assert(run_scan(nxt, free, os) == (match nxt {
            PortStep::Found(p) => p,
            _ => os_or_fallback(os),
        }));
        assert(probe_count(nxt, free) == 0);
        if !free(s.next) {
            assert(first_free(s.next as int + 1, s.last as int, free) is None);
        }
    }
}

/// Law of the port search: driven with the answers of `free` and `os`, the
/// search started from `preferred` ends with the first free port of the window
/// `max(preferred, 1024) ..= min(that + 100, 65535)`, or with the operating
/// system's port (3080 when it gives none) if no port there is free or the
/// preferred port is 0; it probes at most 101 ports, none of them below 1024,
/// and a port it finds in the window is free while every port before it there
/// is taken.
pub proof fn lemma_port_search(preferred: u16, free: spec_fn(u16) -> bool, os: Option<u16>)
    ensures
        preferred == 0 ==> run_scan(PortScan::start_step(preferred), free, os) == os_or_fallback(os)
            && probe_count(PortScan::start_step(preferred), free) == 0,
        preferred != 0 ==> {
            let lo = window_start(preferred);
            let hi = window_end(lo);
            &&& 1024 <= lo <= hi <= 65535
            &&& hi <= lo + 100
            &&& run_scan(PortScan::start_step(preferred), free, os) == (match first_free(lo as int, hi as int, free) {
                Some(p) => p,
                None => os_or_fallback(os),
            })
            &&& probe_count(PortScan::start_step(preferred), free) <= 101
            &&& first_free(lo as int, hi as int, free) matches Some(p) ==> {
                &&& lo <= p <= hi
                &&& free(p)
                &&& forall|q: int| lo <= q < p ==> !free(#[trigger] (q as u16))
            }
        },
{
    if preferred != 0 {
        let lo = window_start(preferred);
        let s = PortScan { first: lo, next: lo, last: window_end(lo) };
        lemma_run_from(s, free, os);
        lemma_first_free(lo as int, window_end(lo) as int, free);
    }
}

/// Law: a port that the operating system assigns is the port the search ends
/// with, whatever it is; 3080 comes only when it assigns none.
pub proof fn lemma_os_port_kept(p: u16)
    ensures
        os_or_fallback(Some(p)) == p,
        os_or_fallback(None) == 3080,
{
}

/// Law of the search window: a preferred port of 1024 or more is the first
/// port probed, a lower non-zero one starts the search at 1024, and the window
/// ends 100 ports after its start or at 65535, whichever comes first.
pub proof fn lemma_window(preferred: u16)
    ensures
        preferred >= 1024 ==> window_start(preferred) == preferred,
        preferred < 1024 ==> window_start(preferred) == 1024,
        window_start(preferred) as int + 100 <= 65535 ==> window_end(window_start(preferred)) == window_start(preferred) + 100,
        window_start(preferred) as int + 100 > 65535 ==> window_end(window_start(preferred)) == 65535,
        preferred != 0 ==> PortScan::start_step(preferred) == PortStep::Probe(PortScan {
            first: window_start(preferred),
            next: window_start(preferred),
            last: window_end(window_start(preferred)),
        }),
        PortScan::start_step(0) == PortStep::AskOs,
{
}

/// Law of one probe: a bindable port ends the search with that very port; a
/// taken one moves on to the next port of the same window, or, after the last
/// one, to the operating system.
pub proof fn lemma_advance(s: PortScan, bindable: bool)
    requires
        s.wf(),
    ensures
        bindable ==> s.advance_step(bindable) == PortStep::Found(s.next),
        !bindable && s.next < s.last ==> s.advance_step(bindable) == PortStep::Probe(
            PortScan { first: s.first, next: (s.next + 1) as u16, last: s.last },
        ),
        !bindable && s.next == s.last ==> s.advance_step(bindable) == PortStep::AskOs,
{
}

} // verus!
