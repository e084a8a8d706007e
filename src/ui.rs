use vstd::prelude::*;
use crate::dispatch::{range_plan, top_ports_plan, port_range, top_ports, ScanPlan};
use crate::scanner::{trim_of, trimmed, ScanResult};

verus! {

/// tokio's bounded channel receiver, carried opaquely: the view holds the
/// stream end that outcomes arrive on.
#[verifier::external_type_specification]
#[verifier::external_body]
#[verifier::reject_recursive_types(T)]
pub struct ExReceiver<T>(tokio::sync::mpsc::Receiver<T>);

/// `std::time::Instant`, carried opaquely: when the active run started.
#[verifier::external_type_specification]
#[verifier::external_body]
pub struct ExInstant(std::time::Instant);

/// Relies on `String::push`: appends one character.
#[verifier::external_body]
fn push_char(s: &mut String, c: char)
    ensures
        final(s)@ == old(s)@.push(c),
{
    s.push(c);
}

/// Relies on `String::pop`: removes and returns the last character, if any.
#[verifier::external_body]
fn pop_char(s: &mut String) -> (r: Option<char>)
    ensures
        old(s)@.len() == 0 ==> r is None && final(s)@ == old(s)@,
        old(s)@.len() > 0 ==> r == Some(old(s)@.last()) && final(s)@ == old(s)@.drop_last(),
{
    s.pop()
}

/// Why a scan could not start.
#[derive(Clone, Copy, Debug, PartialEq, Eq, Structural)]
pub enum StartError {
    /// No target host was entered.
    EmptyHost,
    /// A scan run is still active.
    AlreadyRunning,
    /// A port is 0, or the range is inverted.
    InvalidRange,
}

/// The message shown to the operator for each refusal.
pub open spec fn start_error_text(e: StartError) -> Seq<char> {
    match e {
        StartError::EmptyHost => "Host is empty. Enter IP or domain."@,
        StartError::AlreadyRunning => "Scan already running"@,
        StartError::InvalidRange => "Invalid port range"@,
    }
}

impl StartError {
    /// The message shown to the operator.
    pub fn message(&self) -> (r: &'static str)
        ensures
            r@ == start_error_text(*self),
    {
        proof {
            reveal_strlit("Host is empty. Enter IP or domain.");
            reveal_strlit("Scan already running");
            reveal_strlit("Invalid port range");
        }
        match self {
            StartError::EmptyHost => "Host is empty. Enter IP or domain.",
            StartError::AlreadyRunning => "Scan already running",
            StartError::InvalidRange => "Invalid port range",
        }
    }
}

/// A scan that was accepted: the target host and the plan of the run.
#[derive(Clone, Debug)]
pub struct ScanRequest {
    pub host: String,
    pub plan: ScanPlan,
}

/// Why a range scan of `start_port..=end_port` on the (trimmed) `host`
/// cannot start, checked in this order; `None` when it can.
pub open spec fn range_start_error(
    host: Seq<char>,
    is_scanning: bool,
    start_port: u16,
    end_port: u16,
) -> Option<StartError> {
    if host.len() == 0 {
        Some(StartError::EmptyHost)
    } else if is_scanning {
        Some(StartError::AlreadyRunning)
    } else if start_port == 0 || end_port == 0 || start_port > end_port {
        Some(StartError::InvalidRange)
    } else {
        None
    }
}

/// Why a top-ports scan on the (trimmed) `host` cannot start; `None` when
/// it can.
pub open spec fn top_start_error(host: Seq<char>, is_scanning: bool) -> Option<StartError> {
    if host.len() == 0 {
        Some(StartError::EmptyHost)
    } else if is_scanning {
        Some(StartError::AlreadyRunning)
    } else {
        None
    }
}

/// Decides whether a range scan of `start_port..=end_port` on the trimmed
/// `host` may start while a run is active (`is_scanning`) or not.
pub fn range_start_refusal(host: &str, is_scanning: bool, start_port: u16, end_port: u16) -> (r:
    Option<StartError>)
    ensures
        r == range_start_error(host@, is_scanning, start_port, end_port),
{
    if host.is_empty() {
        Some(StartError::EmptyHost)
    } else if is_scanning {
        Some(StartError::AlreadyRunning)
    } else if start_port == 0 || end_port == 0 || start_port > end_port {
        Some(StartError::InvalidRange)
    } else {
        None
    }
}

/// Decides whether a top-ports scan on the trimmed `host` may start.
pub fn top_start_refusal(host: &str, is_scanning: bool) -> (r: Option<StartError>)
    ensures
        r == top_start_error(host@, is_scanning),
{
    if host.is_empty() {
        Some(StartError::EmptyHost)
    } else if is_scanning {
        Some(StartError::AlreadyRunning)
    } else {
        None
    }
}

/// The operator's view of the scanner: the three input fields and which one
/// has focus, the outcomes received so far, the event log and whether a run
/// is active.
pub struct App {
    pub host_input: String,
    pub start_port_input: String,
    pub end_port_input: String,
    pub results: Vec<ScanResult>,
    pub log_events: Vec<String>,
    pub is_scanning: bool,
    pub input_focus: usize,
    pub rx: tokio::sync::mpsc::Receiver<ScanResult>,
    pub total_scanned: usize,
    pub started_at: Option<std::time::Instant>,
}

impl App {
    /// An idle view reading outcomes from `rx`, with an empty host field and
    /// the range `1`..`1000` pre-filled.
    pub fn new(rx: tokio::sync::mpsc::Receiver<ScanResult>) -> (r: App)
        ensures
            r.host_input@.len() == 0,
            r.start_port_input@ == seq!['1'],
            r.end_port_input@ == seq!['1', '0', '0', '0'],
            r.results@.len() == 0,
            r.log_events@.len() == 0,
            !r.is_scanning,
            r.input_focus == 0,
            r.rx == rx,
            r.total_scanned == 0,
            r.started_at is None,
    {
        proof {
            reveal_strlit("");
            reveal_strlit("1");
            reveal_strlit("1000");
        }
        App {
            host_input: "".to_string(),
            start_port_input: "1".to_string(),
            end_port_input: "1000".to_string(),
            results: Vec::new(),
            log_events: Vec::new(),
            is_scanning: false,
            input_focus: 0,
            rx,
            total_scanned: 0,
            started_at: None,
        }
    }

    /// Types `c` into the focused field: host, start port or end port.
    pub fn handle_char_input(&mut self, c: char)
        ensures
            final(self).host_input@ == (if old(self).input_focus == 0 {
                old(self).host_input@.push(c)
            } else {
                old(self).host_input@
            }),
            final(self).start_port_input@ == (if old(self).input_focus == 1 {
                old(self).start_port_input@.push(c)
            } else {
                old(self).start_port_input@
            }),
            final(self).end_port_input@ == (if old(self).input_focus == 2 {
                old(self).end_port_input@.push(c)
            } else {
                old(self).end_port_input@
            }),
            final(self).input_focus == old(self).input_focus,
            final(self).is_scanning == old(self).is_scanning,
            final(self).results == old(self).results,
            final(self).total_scanned == old(self).total_scanned,
    {
        match self.input_focus {
            0 => push_char(&mut self.host_input, c),
            1 => push_char(&mut self.start_port_input, c),
            2 => push_char(&mut self.end_port_input, c),
            _ => {},
        }
    }

    /// Erases the last character of the focused field, if it has one.
    pub fn handle_backspace(&mut self)
        ensures
            final(self).host_input@ == (if old(self).input_focus == 0 && old(self).host_input@.len() > 0 {
                old(self).host_input@.drop_last()
            } else {
                old(self).host_input@
            }),
            final(self).start_port_input@ == (if old(self).input_focus == 1
                && old(self).start_port_input@.len() > 0 {
                old(self).start_port_input@.drop_last()
            } else {
                old(self).start_port_input@
            }),
            final(self).end_port_input@ == (if old(self).input_focus == 2
                && old(self).end_port_input@.len() > 0 {
                old(self).end_port_input@.drop_last()
            } else {
                old(self).end_port_input@
            }),
            final(self).input_focus == old(self).input_focus,
            final(self).is_scanning == old(self).is_scanning,
            final(self).results == old(self).results,
            final(self).total_scanned == old(self).total_scanned,
    {
        match self.input_focus {
            0 => {
                pop_char(&mut self.host_input);
            },
            1 => {
                pop_char(&mut self.start_port_input);
            },
            2 => {
                pop_char(&mut self.end_port_input);
            },
            _ => {},
        }
    }

    /// Moves the focus to the next of the three fields, wrapping around.
    pub fn next_focus(&mut self)
        ensures
            final(self).input_focus == (old(self).input_focus + 1) % 3,
            final(self).host_input == old(self).host_input,
            final(self).is_scanning == old(self).is_scanning,
    {
        proof {
            assert((self.input_focus % 3 + 1) % 3 == (self.input_focus + 1) % 3) by (nonlinear_arith);
        }
        self.input_focus = (self.input_focus % 3 + 1) % 3;
    }

    /// Starts a range scan of `start_port..=end_port` on the host typed in
    /// the host field (surrounding whitespace removed). Refuses an empty
    /// host, a second run while one is active, and a range with port 0 or
    /// inverted, in that order, changing nothing. On success the view is
    /// cleared and marked active.
    pub fn start_range_scan(&mut self, start_port: u16, end_port: u16) -> (r: Result<
        ScanRequest,
        StartError,
    >)
        ensures
            match r {
                Ok(req) => {
                    &&& range_start_error(trim_of(old(self).host_input@), old(self).is_scanning, start_port, end_port) is None
                    &&& req.host@ == trim_of(old(self).host_input@)
                    &&& req.plan.ports@ == port_range(start_port, end_port)
                    &&& req.plan.concurrency == 256
                    &&& req.plan.timeout_ms == 3000
                    &&& req.plan.policy.max_retries == 1
                    &&& req.plan.wf()
                    &&& final(self).is_scanning
                    &&& final(self).results@.len() == 0
                    &&& final(self).total_scanned == 0
                },
                Err(e) => {
                    &&& range_start_error(trim_of(old(self).host_input@), old(self).is_scanning, start_port, end_port) == Some(e)
                    &&& final(self).is_scanning == old(self).is_scanning
                    &&& final(self).results == old(self).results
                    &&& final(self).total_scanned == old(self).total_scanned
                },
            },
            final(self).host_input == old(self).host_input,
            final(self).input_focus == old(self).input_focus,
    {
        let host = trimmed(self.host_input.as_str());
        if let Some(e) = range_start_refusal(host.as_str(), self.is_scanning, start_port, end_port) {
            return Err(e);
        }
        let plan = range_plan(start_port, end_port);
        self.results.clear();
        self.total_scanned = 0;
        self.is_scanning = true;
        Ok(ScanRequest { host, plan })
    }

    /// Starts a top-ports scan on the host typed in the host field. Refuses
    /// an empty host and a second run while one is active, in that order,
    /// changing nothing. On success the view is cleared and marked active.
    pub fn start_top_ports_scan(&mut self) -> (r: Result<ScanRequest, StartError>)
        ensures
            match r {
                Ok(req) => {
                    &&& top_start_error(trim_of(old(self).host_input@), old(self).is_scanning) is None
                    &&& req.host@ == trim_of(old(self).host_input@)
                    &&& req.plan.ports@ == top_ports()
                    &&& req.plan.concurrency == 128
                    &&& req.plan.timeout_ms == 2000
                    &&& req.plan.policy.max_retries == 0
                    &&& req.plan.wf()
                    &&& final(self).is_scanning
                    &&& final(self).results@.len() == 0
                    &&& final(self).total_scanned == 0
                },
                Err(e) => {
                    &&& top_start_error(trim_of(old(self).host_input@), old(self).is_scanning) == Some(e)
                    &&& final(self).is_scanning == old(self).is_scanning
                    &&& final(self).results == old(self).results
                    &&& final(self).total_scanned == old(self).total_scanned
                },
            },
            final(self).host_input == old(self).host_input,
            final(self).input_focus == old(self).input_focus,
    {
        let host = trimmed(self.host_input.as_str());
        if let Some(e) = top_start_refusal(host.as_str(), self.is_scanning) {
            return Err(e);
        }
        let plan = top_ports_plan();
        self.results.clear();
        self.total_scanned = 0;
        self.is_scanning = true;
        Ok(ScanRequest { host, plan })
    }

    /// Abandons the active run, if any: the view is idle afterwards. Returns
    /// whether a run was active.
    pub fn abort_scan(&mut self) -> (r: bool)
        ensures
            r == old(self).is_scanning,
            !final(self).is_scanning,
            final(self).host_input == old(self).host_input,
            final(self).results == old(self).results,
            final(self).total_scanned == old(self).total_scanned,
    {
        let was = self.is_scanning;
        self.is_scanning = false;
        was
    }

    /// Takes one outcome from the stream. The sentinel ends the active run
    /// and returns `true`; any other outcome is appended to the results and
    /// counted.
    pub fn record_outcome(&mut self, outcome: ScanResult) -> (r: bool)
        requires
            old(self).total_scanned < usize::MAX,
        ensures
            r == (outcome.port == 0 && outcome.status == crate::scanner::PortStatus::Done),
            r ==> !final(self).is_scanning && final(self).results == old(self).results
                && final(self).total_scanned == old(self).total_scanned,
            !r ==> final(self).is_scanning == old(self).is_scanning
                && final(self).results@ == old(self).results@.push(outcome)
                && final(self).total_scanned == old(self).total_scanned + 1,
            final(self).host_input == old(self).host_input,
    {
        if outcome.is_done() {
            self.is_scanning = false;
            true
        } else {
            self.results.push(outcome);
            self.total_scanned = self.total_scanned + 1;
            false
        }
    }
}

/// How many of `results` are `Open`.
pub open spec fn open_count_of(results: Seq<ScanResult>) -> nat
    decreases results.len(),
{
    if results.len() == 0 {
        0
    } else {
        open_count_of(results.drop_last()) + if results.last().status
            == crate::scanner::PortStatus::Open {
            1nat
        } else {
            0nat
        }
    }
}

/// The most log events shown at once.
pub const LOG_WINDOW: usize = 100;

impl App {
    /// The number of open ports among the results.
    pub fn open_count(&self) -> (r: usize)
        ensures
            r == open_count_of(self.results@),
    {
        let mut n: usize = 0;
        let mut i: usize = 0;
        while i < self.results.len()
            invariant
                i <= self.results@.len(),
                n == open_count_of(self.results@.take(i as int)),
                n <= i,
            decreases self.results@.len() - i,
        {
            assert(self.results@.take(i + 1).drop_last() =~= self.results@.take(i as int));
            if self.results[i].status == crate::scanner::PortStatus::Open {
                n = n + 1;
            }
            i = i + 1;
        }
        assert(self.results@.take(i as int) =~= self.results@);
        n
    }

    /// The index of the first log event shown: only the last `LOG_WINDOW`
    /// events are.
    pub fn log_start(&self) -> (r: usize)
        ensures
            r == (if self.log_events@.len() > LOG_WINDOW {
                self.log_events@.len() - LOG_WINDOW
            } else {
                0
            }),
    {
        if self.log_events.len() > LOG_WINDOW {
            self.log_events.len() - LOG_WINDOW
        } else {
            0
        }
    }
}

/// Aborting leaves the view able to start again: once a range scan has
/// started on some host and range, a second start is refused while it runs,
/// and the same start, or a top-ports scan of that host, is accepted again
/// once the run is aborted.
pub proof fn lemma_abort_allows_restart(
    host: Seq<char>,
    was_scanning: bool,
    start_port: u16,
    end_port: u16,
)
    requires
        range_start_error(host, was_scanning, start_port, end_port) is None,
    ensures
        range_start_error(host, true, start_port, end_port) == Some(StartError::AlreadyRunning),
        range_start_error(host, false, start_port, end_port) is None,
        top_start_error(host, false) is None,
{
}

} // verus!
