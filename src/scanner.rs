use vstd::prelude::*;
use crate::services::{identify_service, service_name_of};

verus! {

/// The classification of one port, plus the end-of-run marker `Done`.
#[derive(Clone, Copy, Debug, PartialEq, Eq, Structural)]
pub enum PortStatus {
    Open,
    Closed,
    Timeout,
    Done,
}

/// The label of a status as shown to the operator.
pub open spec fn status_text(s: PortStatus) -> Seq<char> {
    match s {
        PortStatus::Open => seq!['o', 'p', 'e', 'n'],
        PortStatus::Closed => seq!['c', 'l', 'o', 's', 'e', 'd'],
        PortStatus::Timeout => seq!['t', 'i', 'm', 'e', 'o', 'u', 't'],
        PortStatus::Done => seq!['D', 'O', 'N', 'E'],
    }
}

impl PortStatus {
    /// The label of this status: `open`, `closed`, `timeout` or `DONE`.
    pub fn as_str(&self) -> (r: &'static str)
        ensures
            r@ == status_text(*self),
    {
        proof {
            reveal_strlit("open");
            reveal_strlit("closed");
            reveal_strlit("timeout");
            reveal_strlit("DONE");
        }
        match self {
            PortStatus::Open => "open",
            PortStatus::Closed => "closed",
            PortStatus::Timeout => "timeout",
            PortStatus::Done => "DONE",
        }
    }
}

/// One outcome of a scan run: the classification of a probed port, or the
/// end-of-run sentinel (port 0, status `Done`).
#[derive(Clone, Debug)]
pub struct ScanResult {
    pub port: u16,
    pub status: PortStatus,
    pub service: String,
    pub response_ms: u128,
    pub banner: Option<String>,
}

/// What the network layer observed during one connection attempt.
pub enum ProbeEvent {
    /// The connection did not complete within the timeout budget.
    ConnectTimedOut,
    /// The connection failed (refused, unreachable, reset) after `elapsed_ms`.
    ConnectFailed { elapsed_ms: u128 },
    /// The connection succeeded; `received` holds the bytes the peer sent in
    /// the short read window (empty on silence, read timeout or read error),
    /// and `elapsed_ms` covers the connect and the read.
    Connected { received: Vec<u8>, elapsed_ms: u128 },
}

/// What `String::from_utf8_lossy` makes of a byte sequence.
pub uninterp spec fn lossy_text_of(b: Seq<u8>) -> Seq<char>;

/// What `str::trim` leaves of a text.
pub uninterp spec fn trim_of(s: Seq<char>) -> Seq<char>;

/// Relies on `String::from_utf8_lossy`: the text is a function of the bytes,
/// and no bytes give no text.
#[verifier::external_body]
fn lossy_text(b: &[u8]) -> (r: String)
    ensures
        r@ == lossy_text_of(b@),
        b@.len() == 0 ==> r@.len() == 0,
{
    String::from_utf8_lossy(b).into_owned()
}

/// Relies on `str::trim`: the text without leading and trailing whitespace,
/// a function of the text.
#[verifier::external_body]
pub(crate) fn trimmed(s: &str) -> (r: String)
    ensures
        r@ == trim_of(s@),
{
    s.trim().to_string()
}

/// The banner kept for a trimmed text: the text itself when anything is left.
pub open spec fn banner_of_trimmed(t: Seq<char>) -> Option<Seq<char>> {
    if t.len() > 0 {
        Some(t)
    } else {
        None
    }
}

/// The banner captured from the bytes a peer volunteered: decoded leniently,
/// trimmed, and absent when nothing is left.
pub open spec fn banner_of(received: Seq<u8>) -> Option<Seq<char>> {
    banner_of_trimmed(trim_of(lossy_text_of(received)))
}

/// The view of an optional text.
pub open spec fn opt_view(o: Option<String>) -> Option<Seq<char>> {
    match o {
        Some(s) => Some(s@),
        None => None,
    }
}

/// Keeps an already trimmed text as a banner when it is not empty.
pub fn keep_banner(t: String) -> (r: Option<String>)
    ensures
        opt_view(r) == banner_of_trimmed(t@),
{
    if !t.as_str().is_empty() {
        Some(t)
    } else {
        None
    }
}

/// Turns the bytes a peer volunteered into a banner.
pub fn decode_banner(received: &[u8]) -> (r: Option<String>)
    ensures
        opt_view(r) == banner_of(received@),
{
    let text = lossy_text(received);
    let t = trimmed(text.as_str());
    keep_banner(t)
}

impl ScanResult {
    /// Whether this is a well-formed outcome of a probe of a real port.
    pub open spec fn is_probe_outcome(&self) -> bool {
        &&& 1 <= self.port
        &&& self.status != PortStatus::Done
        &&& self.service@ == service_name_of(self.port)
        &&& (self.banner is Some ==> self.status == PortStatus::Open
            && self.banner->Some_0@.len() > 0)
    }

    /// Whether this is the end-of-run sentinel.
    pub open spec fn is_sentinel(&self) -> bool {
        &&& self.port == 0
        &&& self.status == PortStatus::Done
        &&& self.service@.len() == 0
        &&& self.response_ms == 0
        &&& self.banner is None
    }

    /// The sentinel that closes a scan run.
    pub fn sentinel() -> (r: ScanResult)
        ensures
            r.is_sentinel(),
    {
        proof {
            reveal_strlit("");
        }
        ScanResult {
            port: 0,
            status: PortStatus::Done,
            service: "".to_string(),
            response_ms: 0,
            banner: None,
        }
    }

    /// Whether this outcome marks the end of a run.
    pub fn is_done(&self) -> (r: bool)
        ensures
            r == (self.port == 0 && self.status == PortStatus::Done),
    {
        self.port == 0 && self.status == PortStatus::Done
    }
}

/// The outcome that one connection attempt to `port` yields, given what the
/// network layer observed and the timeout budget of the attempt.
pub open spec fn probe_outcome_matches(
    port: u16,
    timeout_ms: u128,
    event: ProbeEvent,
    r: ScanResult,
) -> bool {
    &&& r.port == port
    &&& r.service@ == service_name_of(port)
    &&& match event {
        ProbeEvent::ConnectTimedOut => {
            &&& r.status == PortStatus::Timeout
            &&& r.response_ms == timeout_ms
            &&& r.banner is None
        },
        ProbeEvent::ConnectFailed { elapsed_ms } => {
            &&& r.status == PortStatus::Closed
            &&& r.response_ms == elapsed_ms
            &&& r.banner is None
        },
        ProbeEvent::Connected { received, elapsed_ms } => {
            &&& r.status == PortStatus::Open
            &&& r.response_ms == elapsed_ms
            &&& opt_view(r.banner) == banner_of(received@)
        },
    }
}

/// Classifies one connection attempt to `port`: a timed-out connect is
/// `Timeout` and reports the budget, a failed connect is `Closed`, and a
/// successful one is `Open` with the banner the peer volunteered, if any.
pub fn classify_probe(port: u16, timeout_ms: u128, event: ProbeEvent) -> (r: ScanResult)
    requires
        1 <= port,
    ensures
        probe_outcome_matches(port, timeout_ms, event, r),
        r.is_probe_outcome(),
{
    let service = identify_service(port);
    match event {
        ProbeEvent::ConnectTimedOut => ScanResult {
            port,
            status: PortStatus::Timeout,
            service,
            response_ms: timeout_ms,
            banner: None,
        },
        ProbeEvent::ConnectFailed { elapsed_ms } => ScanResult {
            port,
            status: PortStatus::Closed,
            service,
            response_ms: elapsed_ms,
            banner: None,
        },
        ProbeEvent::Connected { received, elapsed_ms } => {
            let banner = decode_banner(received.as_slice());
            ScanResult { port, status: PortStatus::Open, service, response_ms: elapsed_ms, banner }
        },
    }
}

/// Every outcome of a run is either a probe outcome or the sentinel: the
/// status is `Open`, `Closed` or `Timeout` for a probed port and `Done` only
/// for the sentinel, and the port is 0 exactly when the status is `Done`.
pub proof fn lemma_outcome_status(r: ScanResult)
    requires
        r.is_probe_outcome() || r.is_sentinel(),
    ensures
        r.is_probe_outcome() ==> (r.status == PortStatus::Open || r.status == PortStatus::Closed
            || r.status == PortStatus::Timeout),
        r.is_sentinel() ==> r.status == PortStatus::Done,
        (r.port == 0) <==> (r.status == PortStatus::Done),
{
}

/// A banner is only ever present on an `Open` outcome.
pub proof fn lemma_banner_only_open(r: ScanResult)
    requires
        r.is_probe_outcome() || r.is_sentinel(),
    ensures
        r.banner is Some ==> r.status == PortStatus::Open,
{
}

} // verus!
