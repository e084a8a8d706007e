use vstd::prelude::*;
use crate::retry::RetryPolicy;
use crate::scanner::{PortStatus, ScanResult};

verus! {

/// Pause before the first retry of an inconclusive probe, in milliseconds.
pub const BASE_BACKOFF_MS: u64 = 100;

/// The well-known ports of a top-ports scan.
pub open spec fn top_ports() -> Seq<u16> {
    seq![21, 22, 23, 25, 53, 80, 110, 143, 443, 445, 3306, 3389, 5432, 5900, 8080, 8443, 9200]
}

/// Every port of `start..=end`, in order.
pub open spec fn port_range(start: u16, end: u16) -> Seq<u16> {
    Seq::new((end - start + 1) as nat, |i: int| (start + i) as u16)
}

/// The parameters of one scan run: the ports to probe, how many probes may
/// be in flight at once, the connect timeout of each attempt and the retry
/// policy.
#[derive(Clone, Debug)]
pub struct ScanPlan {
    pub ports: Vec<u16>,
    pub concurrency: usize,
    pub timeout_ms: u64,
    pub policy: RetryPolicy,
}

impl ScanPlan {
    /// The plan can drive a run: real, distinct ports, room for at least one
    /// probe at a time, and backoff pauses that fit in a `u64`.
    pub open spec fn wf(&self) -> bool {
        &&& self.ports@.no_duplicates()
        &&& forall|i: int| 0 <= i < self.ports@.len() ==> 1 <= #[trigger] self.ports@[i]
        &&& self.concurrency >= 1
        &&& self.policy.fits()
    }
}

/// The plan of a range scan over `start_port..=end_port`: 256 probes at a
/// time, a 3 s connect timeout and one retry.
pub fn range_plan(start_port: u16, end_port: u16) -> (r: ScanPlan)
    requires
        1 <= start_port <= end_port,
    ensures
        r.ports@ == port_range(start_port, end_port),
        r.concurrency == 256,
        r.timeout_ms == 3000,
        r.policy == (RetryPolicy { max_retries: 1, base_backoff_ms: BASE_BACKOFF_MS }),
        r.wf(),
{
    let mut ports: Vec<u16> = Vec::new();
    let mut p: u16 = start_port;
    loop
        invariant_except_break
            start_port <= p <= end_port,
            ports@ == Seq::new((p - start_port) as nat, |i: int| (start_port + i) as u16),
        ensures
            ports@ == port_range(start_port, end_port),
        decreases end_port - p,
    {
        ports.push(p);
        if p == end_port {
            assert(ports@ =~= port_range(start_port, end_port));
            break;
        }
        p = p + 1;
        assert(ports@ =~= Seq::new((p - start_port) as nat, |i: int| (start_port + i) as u16));
    }
    let policy = RetryPolicy { max_retries: 1, base_backoff_ms: BASE_BACKOFF_MS };
    assert(crate::retry::pow2(1) == 2) by {
        assert(crate::retry::pow2(0) == 1);
    }
    ScanPlan { ports, concurrency: 256, timeout_ms: 3000, policy }
}

/// The plan of a top-ports scan: 128 probes at a time, a 2 s connect
/// timeout and no retry.
pub fn top_ports_plan() -> (r: ScanPlan)
    ensures
        r.ports@ == top_ports(),
        r.concurrency == 128,
        r.timeout_ms == 2000,
        r.policy == (RetryPolicy { max_retries: 0, base_backoff_ms: BASE_BACKOFF_MS }),
        r.wf(),
{
    let ports: Vec<u16> = vec![
        21, 22, 23, 25, 53, 80, 110, 143, 443, 445, 3306, 3389, 5432, 5900, 8080, 8443, 9200,
    ];
    assert(ports@ =~= top_ports());
    let policy = RetryPolicy { max_retries: 0, base_backoff_ms: BASE_BACKOFF_MS };
    assert(crate::retry::pow2(0) == 1);
    ScanPlan { ports, concurrency: 128, timeout_ms: 2000, policy }
}


proof fn lemma_push_contains(s: Seq<u16>, x: u16, q: u16)
    ensures
        s.push(x).contains(q) <==> (s.contains(q) || q == x),
{
    if s.contains(q) {
        let i = choose|i: int| 0 <= i < s.len() && s[i] == q;
        assert(s.push(x)[i] == q);
    }
    if q == x {
        assert(s.push(x)[s.len() as int] == q);
    }
    if s.push(x).contains(q) {
        let i = choose|i: int| 0 <= i < s.push(x).len() && s.push(x)[i] == q;
        if i < s.len() {
            assert(s[i] == q);
        }
    }
}

proof fn lemma_push_no_duplicates(s: Seq<u16>, x: u16)
    requires
        s.no_duplicates(),
        !s.contains(x),
    ensures
        s.push(x).no_duplicates(),
{
    assert forall|i: int, j: int|
        0 <= i < s.push(x).len() && 0 <= j < s.push(x).len() && i != j implies s.push(x)[i]
        != s.push(x)[j] by {
        if i < s.len() && j < s.len() {
            assert(s[i] != s[j]);
        } else if i < s.len() {
            assert(s[i] != x);
        } else if j < s.len() {
            assert(s[j] != x);
        }
    }
}

proof fn lemma_remove_no_duplicates(s: Seq<u16>, j: int)
    requires
        s.no_duplicates(),
        0 <= j < s.len(),
    ensures
        s.remove(j).no_duplicates(),
        s.remove(j).len() == s.len() - 1,
        forall|q: u16| #[trigger] s.remove(j).contains(q) <==> (s.contains(q) && q != s[j]),
{
    s.remove_ensures(j);
    let t = s.remove(j);
    assert forall|q: u16| #[trigger] t.contains(q) <==> (s.contains(q) && q != s[j]) by {
        if t.contains(q) {
            let k = choose|k: int| 0 <= k < t.len() && t[k] == q;
            if k < j {
                assert(s[k] == q);
            } else {
                assert(s[k + 1] == q);
            }
        }
        if s.contains(q) && q != s[j] {
            let k = choose|k: int| 0 <= k < s.len() && s[k] == q;
            if k < j {
                assert(t[k] == q);
            } else {
                assert(t[k - 1] == q);
            }
        }
    }
    assert forall|a: int, b: int| 0 <= a < t.len() && 0 <= b < t.len() && a != b implies t[a]
        != t[b] by {
        let sa = if a < j { a } else { a + 1 };
        let sb = if b < j { b } else { b + 1 };
        assert(s[sa] != s[sb]);
    }
}

/// Whether `outcome` is a probe outcome for `port` that a run may deliver.
pub open spec fn deliverable(port: u16, outcome: Option<ScanResult>) -> bool {
    &&& outcome is Some
    &&& outcome->Some_0.port == port
    &&& outcome->Some_0.status != PortStatus::Done
}

/// The dispatch state of one scan run. Ports are launched in plan order,
/// at most `cap` at a time; each launched port is in flight until its probe
/// task ends, and then either delivered (its outcome goes to the stream) or
/// abandoned (the task ended without an outcome). Once every port is
/// launched and none is in flight, the run closes with one sentinel.
pub struct ScanRun {
    ports: Vec<u16>,
    next: usize,
    in_flight: Vec<u16>,
    cap: usize,
    closed: bool,
    delivered: Ghost<Set<u16>>,
    abandoned: Ghost<Set<u16>>,
}

impl ScanRun {
    /// The ports the run was asked to probe.
    pub closed spec fn requested(&self) -> Seq<u16> {
        self.ports@
    }

    /// How many ports have been launched.
    pub closed spec fn launched_count(&self) -> nat {
        self.next as nat
    }

    /// Whether `p` has been launched.
    pub open spec fn launched(&self, p: u16) -> bool {
        self.requested().take(self.launched_count() as int).contains(p)
    }

    /// The ports whose probe is in flight, in launch order.
    pub closed spec fn in_flight(&self) -> Seq<u16> {
        self.in_flight@
    }

    /// The number of probes in flight.
    pub open spec fn live(&self) -> nat {
        self.in_flight().len()
    }

    /// The most probes that may be in flight at once.
    pub closed spec fn cap(&self) -> nat {
        self.cap as nat
    }

    /// Whether the sentinel has been emitted.
    pub closed spec fn sentinel_sent(&self) -> bool {
        self.closed
    }

    /// The ports whose outcome has been delivered.
    pub closed spec fn delivered(&self) -> Set<u16> {
        self.delivered@
    }

    /// The ports whose task ended without an outcome.
    pub closed spec fn abandoned(&self) -> Set<u16> {
        self.abandoned@
    }

    /// The state is consistent: every launched port is in exactly one of
    /// in flight, delivered and abandoned, and no more than `cap` probes are
    /// in flight.
    pub closed spec fn wf(&self) -> bool {
        &&& self.next <= self.ports@.len()
        &&& self.ports@.no_duplicates()
        &&& forall|i: int| 0 <= i < self.ports@.len() ==> 1 <= #[trigger] self.ports@[i]
        &&& self.cap >= 1
        &&& self.in_flight@.len() <= self.cap
        &&& self.in_flight@.no_duplicates()
        &&& forall|p: u16|
            self.launched(p) <==> (#[trigger] self.in_flight@.contains(p) || self.delivered@.contains(p)
                || self.abandoned@.contains(p))
        &&& forall|p: u16|
            !(#[trigger] self.in_flight@.contains(p) && self.delivered@.contains(p))
        &&& forall|p: u16|
            !(#[trigger] self.in_flight@.contains(p) && self.abandoned@.contains(p))
        &&& forall|p: u16|
            !(#[trigger] self.delivered@.contains(p) && self.abandoned@.contains(p))
        &&& self.closed ==> self.next == self.ports@.len() && self.in_flight@.len() == 0
    }

    /// Starts a run of `plan`: nothing launched, nothing in flight.
    pub fn new(plan: ScanPlan) -> (r: ScanRun)
        requires
            plan.wf(),
        ensures
            r.wf(),
            r.requested() == plan.ports@,
            r.cap() == plan.concurrency,
            r.launched_count() == 0,
            r.live() == 0,
            !r.sentinel_sent(),
            r.delivered() == Set::<u16>::empty(),
            r.abandoned() == Set::<u16>::empty(),
    {
        let r = ScanRun {
            ports: plan.ports,
            next: 0,
            in_flight: Vec::new(),
            cap: plan.concurrency,
            closed: false,
            delivered: Ghost(Set::empty()),
            abandoned: Ghost(Set::empty()),
        };
        assert forall|p: u16| !r.launched(p) by {
            assert(r.ports@.take(0) =~= Seq::<u16>::empty());
        }
        r
    }

    /// Launches the next port when capacity is free: it is then in flight and
    /// its probe may start. Returns `None` when every port is launched or the
    /// cap is reached.
    pub fn launch_next(&mut self) -> (r: Option<u16>)
        requires
            old(self).wf(),
        ensures
            final(self).wf(),
            final(self).requested() == old(self).requested(),
            final(self).cap() == old(self).cap(),
            final(self).sentinel_sent() == old(self).sentinel_sent(),
            final(self).delivered() == old(self).delivered(),
            final(self).abandoned() == old(self).abandoned(),
            r == (if old(self).launched_count() < old(self).requested().len() && old(self).live()
                < old(self).cap() {
                Some(old(self).requested()[old(self).launched_count() as int])
            } else {
                None::<u16>
            }),
            r is Some ==> final(self).launched_count() == old(self).launched_count() + 1
                && final(self).in_flight() == old(self).in_flight().push(r->Some_0)
                && !old(self).launched(r->Some_0),
            r is None ==> final(self).launched_count() == old(self).launched_count()
                && final(self).in_flight() == old(self).in_flight(),
            final(self).live() <= final(self).cap(),
    {
        if self.next < self.ports.len() && self.in_flight.len() < self.cap {
            let p = self.ports[self.next];
            proof {
                let old_take = self.ports@.take(self.next as int);
                assert(self.ports@.take(self.next + 1) =~= old_take.push(p));
                if old_take.contains(p) {
                    let k = choose|k: int| 0 <= k < old_take.len() && old_take[k] == p;
                    assert(self.ports@[k] == self.ports@[self.next as int]);
                }
            }
            assert(!self.launched(p));
            assert(!self.in_flight@.contains(p));
            proof {
                lemma_push_no_duplicates(self.in_flight@, p);
            }
            let ghost before = *self;
            self.next = self.next + 1;
            self.in_flight.push(p);
            proof {
                assert(self.ports@.take(self.next as int) =~= before.ports@.take(
                    before.next as int,
                ).push(p));
                assert forall|q: u16| self.launched(q) <==> (#[trigger] self.in_flight@.contains(q)
                    || self.delivered@.contains(q) || self.abandoned@.contains(q)) by {
                    lemma_push_contains(before.ports@.take(before.next as int), p, q);
                    lemma_push_contains(before.in_flight@, p, q);
                }
                assert forall|q: u16| #[trigger] self.in_flight@.contains(q) implies (
                before.in_flight@.contains(q) || q == p) by {
                    lemma_push_contains(before.in_flight@, p, q);
                }
            }
            Some(p)
        } else {
            None
        }
    }

    /// Records that the probe task of `port` has ended with `outcome` (`None`
    /// when the task failed): its capacity is released. Returns the outcome
    /// to put on the stream when it is a probe outcome for that port, and
    /// `None` otherwise; a port that is not in flight changes nothing.
    pub fn complete(&mut self, port: u16, outcome: Option<ScanResult>) -> (r: Option<ScanResult>)
        requires
            old(self).wf(),
        ensures
            final(self).wf(),
            final(self).requested() == old(self).requested(),
            final(self).launched_count() == old(self).launched_count(),
            final(self).cap() == old(self).cap(),
            final(self).sentinel_sent() == old(self).sentinel_sent(),
            r == (if old(self).in_flight().contains(port) && deliverable(port, outcome) {
                outcome
            } else {
                None::<ScanResult>
            }),
            !old(self).in_flight().contains(port) ==> {
                &&& final(self).in_flight() == old(self).in_flight()
                &&& final(self).delivered() == old(self).delivered()
                &&& final(self).abandoned() == old(self).abandoned()
            },
            old(self).in_flight().contains(port) ==> {
                &&& final(self).live() == old(self).live() - 1
                &&& forall|q: u16| #[trigger]
                    final(self).in_flight().contains(q) <==> (old(self).in_flight().contains(q)
                        && q != port)
            },
            old(self).in_flight().contains(port) && r is Some ==> {
                &&& !old(self).delivered().contains(port)
                &&& final(self).delivered() == old(self).delivered().insert(port)
                &&& final(self).abandoned() == old(self).abandoned()
            },
            old(self).in_flight().contains(port) && r is None ==> {
                &&& final(self).abandoned() == old(self).abandoned().insert(port)
                &&& final(self).delivered() == old(self).delivered()
            },
    {
        let mut j: usize = 0;
        loop
            invariant
                j <= self.in_flight.len(),
                forall|k: int| 0 <= k < j ==> self.in_flight@[k] != port,
            ensures
                j <= self.in_flight.len(),
                forall|k: int| 0 <= k < j ==> self.in_flight@[k] != port,
                j < self.in_flight.len() ==> self.in_flight@[j as int] == port,
            decreases self.in_flight.len() - j,
        {
            if j == self.in_flight.len() {
                break;
            }
            if self.in_flight[j] == port {
                break;
            }
            j = j + 1;
        }
        if j == self.in_flight.len() {
            assert(!self.in_flight@.contains(port));
            return None;
        }
        let ghost before = *self;
        proof {
            lemma_remove_no_duplicates(self.in_flight@, j as int);
        }
        self.in_flight.remove(j);
        let ok = match &outcome {
            Some(res) => res.port == port && res.status != PortStatus::Done,
            None => false,
        };
        if ok {
            self.delivered = Ghost(self.delivered@.insert(port));
            proof {
                assert forall|q: u16| self.launched(q) <==> (#[trigger] self.in_flight@.contains(q)
                    || self.delivered@.contains(q) || self.abandoned@.contains(q)) by {
                    assert(before.in_flight@.contains(q) <==> (self.in_flight@.contains(q) || q
                        == port));
                }
                assert forall|q: u16| #[trigger] self.in_flight@.contains(q) implies !self.delivered@.contains(q)
                    && !self.abandoned@.contains(q) by {
                    assert(before.in_flight@.contains(q));
                }
                assert forall|q: u16| #[trigger] self.delivered@.contains(q) implies !self.abandoned@.contains(q) by {
                    assert(before.in_flight@.contains(port));
                    assert(before.delivered@.contains(q) ==> !before.abandoned@.contains(q));
                }
            }
            outcome
        } else {
            self.abandoned = Ghost(self.abandoned@.insert(port));
            proof {
                assert forall|q: u16| self.launched(q) <==> (#[trigger] self.in_flight@.contains(q)
                    || self.delivered@.contains(q) || self.abandoned@.contains(q)) by {
                    assert(before.in_flight@.contains(q) <==> (self.in_flight@.contains(q) || q
                        == port));
                }
                assert forall|q: u16| #[trigger] self.in_flight@.contains(q) implies !self.delivered@.contains(q)
                    && !self.abandoned@.contains(q) by {
                    assert(before.in_flight@.contains(q));
                }
                assert forall|q: u16| #[trigger] self.delivered@.contains(q) implies !self.abandoned@.contains(q) by {
                    assert(before.in_flight@.contains(port));
                    assert(before.delivered@.contains(q) ==> !before.abandoned@.contains(q));
                }
            }
            None
        }
    }

    /// Closes the run when every port is launched and none is in flight:
    /// returns the sentinel, once. Returns `None` before that, and after the
    /// sentinel has been emitted.
    pub fn finish(&mut self) -> (r: Option<ScanResult>)
        requires
            old(self).wf(),
        ensures
            final(self).wf(),
            final(self).requested() == old(self).requested(),
            final(self).launched_count() == old(self).launched_count(),
            final(self).in_flight() == old(self).in_flight(),
            final(self).cap() == old(self).cap(),
            final(self).delivered() == old(self).delivered(),
            final(self).abandoned() == old(self).abandoned(),
            r is Some <==> (!old(self).sentinel_sent() && old(self).launched_count()
                == old(self).requested().len() && old(self).live() == 0),
            r is Some ==> r->Some_0.is_sentinel(),
            final(self).sentinel_sent() == (old(self).sentinel_sent() || r is Some),
    {
        if !self.closed && self.next == self.ports.len() && self.in_flight.len() == 0 {
            self.closed = true;
            Some(ScanResult::sentinel())
        } else {
            None
        }
    }
}


/// A closed run has dealt with exactly the requested ports: each was
/// delivered or abandoned. When no probe task failed, one outcome was
/// delivered for every requested port, and for no other.
pub proof fn lemma_closed_run_covers_request(run: ScanRun)
    requires
        run.wf(),
        run.sentinel_sent(),
    ensures
        run.delivered().union(run.abandoned()) == run.requested().to_set(),
        run.abandoned().is_empty() ==> run.delivered() == run.requested().to_set()
            && run.delivered().len() == run.requested().len(),
{
    let ports = run.requested();
    assert(ports.take(run.launched_count() as int) =~= ports);
    assert forall|p: u16| #[trigger] run.delivered().union(run.abandoned()).contains(p) <==> ports.to_set().contains(p) by {
        assert(!run.in_flight@.contains(p));
    }
    assert(run.delivered().union(run.abandoned()) =~= ports.to_set());
    if run.abandoned().is_empty() {
        assert(run.delivered() =~= ports.to_set());
        ports.unique_seq_to_set();
    }
}

/// Once the sentinel is out, every port has been launched and none is in
/// flight: `launch_next` and `complete` yield nothing more, and `finish`
/// yields no second sentinel.
pub proof fn lemma_nothing_after_sentinel(run: ScanRun)
    requires
        run.wf(),
        run.sentinel_sent(),
    ensures
        run.launched_count() == run.requested().len(),
        run.live() == 0,
        forall|p: u16| !#[trigger] run.in_flight().contains(p),
{
}

/// However completions are scheduled, a run never has more probes in flight
/// than its cap.
pub proof fn lemma_live_within_cap(run: ScanRun)
    requires
        run.wf(),
    ensures
        run.live() <= run.cap(),
{
}

} // verus!
