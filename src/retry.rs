use vstd::prelude::*;
use crate::scanner::PortStatus;

verus! {

/// The retry policy of a scan mode: how many attempts may follow the first
/// inconclusive one, and the pause before the first retry.
#[derive(Clone, Copy, Debug, PartialEq, Eq, Structural)]
pub struct RetryPolicy {
    pub max_retries: u8,
    pub base_backoff_ms: u64,
}

/// Two to the power `n`.
pub open spec fn pow2(n: nat) -> nat
    decreases n,
{
    if n == 0 {
        1
    } else {
        2 * pow2((n - 1) as nat)
    }
}

/// The pause before retry number `attempt + 1`: the base delay doubled once
/// for each earlier retry.
pub open spec fn backoff_ms(policy: RetryPolicy, attempt: nat) -> nat {
    (policy.base_backoff_ms as nat) * pow2(attempt)
}

impl RetryPolicy {
    /// Every pause the policy can ask for fits in a `u64`.
    pub open spec fn fits(&self) -> bool {
        backoff_ms(*self, self.max_retries as nat) <= u64::MAX
    }
}

/// The pause to take after the attempt numbered `attempt` (from 0) yielded
/// `status`, before the next attempt; `None` when that attempt's result is final:
/// it was conclusive, or the retry budget is spent.
pub open spec fn retry_step(policy: RetryPolicy, attempt: nat, status: PortStatus) -> Option<nat> {
    if status == PortStatus::Timeout && attempt < policy.max_retries {
        Some(backoff_ms(policy, attempt))
    } else {
        None
    }
}

/// Where the retry loop of one port stands: the number of attempts made so
/// far that asked for a retry, and the pause the next retry waits.
#[derive(Clone, Copy, Debug)]
pub struct RetryState {
    pub attempt: u8,
    pub backoff_ms: u64,
}

proof fn lemma_pow2_mono(a: nat, b: nat)
    requires
        a <= b,
    ensures
        pow2(a) <= pow2(b),
    decreases b,
{
    if a < b {
        lemma_pow2_mono(a, (b - 1) as nat);
    }
}

impl RetryState {
    /// The state is consistent with `policy`.
    pub open spec fn wf(&self, policy: RetryPolicy) -> bool {
        &&& self.attempt <= policy.max_retries
        &&& self.backoff_ms == backoff_ms(policy, self.attempt as nat)
    }

    /// The state before the first attempt.
    pub fn new(policy: &RetryPolicy) -> (r: RetryState)
        ensures
            r.attempt == 0,
            r.wf(*policy),
    {
        assert(pow2(0) == 1);
        RetryState { attempt: 0, backoff_ms: policy.base_backoff_ms }
    }

    /// Records the result of the current attempt. Returns the pause to take
    /// before the next attempt, or `None` when `status` is the final result of
    /// the port: `Open` and `Closed` are final at once, `Timeout` only once
    /// the retry budget is spent.
    pub fn on_attempt(&mut self, policy: &RetryPolicy, status: PortStatus) -> (r: Option<u64>)
        requires
            old(self).wf(*policy),
            policy.fits(),
        ensures
            match r {
                Some(d) => retry_step(*policy, old(self).attempt as nat, status) == Some(d as nat),
                None => retry_step(*policy, old(self).attempt as nat, status) is None,
            },
            r is Some ==> final(self).attempt == old(self).attempt + 1,
            r is None ==> *final(self) == *old(self),
            final(self).wf(*policy),
    {
        if status == PortStatus::Timeout && self.attempt < policy.max_retries {
            let pause = self.backoff_ms;
            proof {
                let a = self.attempt as nat;
                lemma_pow2_mono(a + 1, policy.max_retries as nat);
                assert(pow2(a + 1) == 2 * pow2(a));
                assert(policy.base_backoff_ms * pow2(a + 1) <= policy.base_backoff_ms * pow2(
                    policy.max_retries as nat,
                )) by (nonlinear_arith)
                    requires
                        pow2(a + 1) <= pow2(policy.max_retries as nat),
                ;
                assert(policy.base_backoff_ms * pow2(a + 1) == 2 * (policy.base_backoff_ms * pow2(a)))
                    by (nonlinear_arith)
                    requires
                        pow2(a + 1) == 2 * pow2(a),
                ;
            }
            self.backoff_ms = self.backoff_ms * 2;
            self.attempt = self.attempt + 1;
            Some(pause)
        } else {
            None
        }
    }
}

/// What the retry loop yields for a port whose attempts return `outcomes` in
/// turn, starting at attempt number `attempt`: the final status, if the
/// outcomes reach one, and the pauses taken on the way.
pub open spec fn retry_run(policy: RetryPolicy, attempt: nat, outcomes: Seq<PortStatus>) -> (
    Option<PortStatus>,
    Seq<nat>,
)
    decreases outcomes.len(),
{
    if outcomes.len() == 0 {
        (None, Seq::empty())
    } else {
        match retry_step(policy, attempt, outcomes[0]) {
            None => (Some(outcomes[0]), Seq::empty()),
            Some(d) => {
                let rest = retry_run(policy, attempt + 1, outcomes.drop_first());
                (rest.0, seq![d].add(rest.1))
            },
        }
    }
}

/// `k` timeouts followed by `Open`.
pub open spec fn timeouts_then_open(k: nat) -> Seq<PortStatus> {
    Seq::new(k, |i: int| PortStatus::Timeout).push(PortStatus::Open)
}

proof fn lemma_retry_run_from(policy: RetryPolicy, a: nat, k: nat)
    requires
        a + k <= policy.max_retries,
    ensures
        retry_run(policy, a, timeouts_then_open(k)) == (
            Some(PortStatus::Open),
            Seq::new(k, |i: int| backoff_ms(policy, (a + i) as nat)),
        ),
    decreases k,
{
    let outcomes = timeouts_then_open(k);
    if k == 0 {
        assert(outcomes[0] == PortStatus::Open);
        assert(Seq::new(k, |i: int| backoff_ms(policy, (a + i) as nat)) =~= Seq::<nat>::empty());
    } else {
        assert(outcomes[0] == PortStatus::Timeout);
        assert(outcomes.drop_first() =~= timeouts_then_open((k - 1) as nat));
        lemma_retry_run_from(policy, a + 1, (k - 1) as nat);
        let rest = Seq::new((k - 1) as nat, |i: int| backoff_ms(policy, (a + 1 + i) as nat));
        assert(seq![backoff_ms(policy, a)].add(rest) =~= Seq::new(
            k,
            |i: int| backoff_ms(policy, (a + i) as nat),
        ));
    }
}

/// When the attempts of a port time out `k` times and then find it open,
/// with a retry budget of at least `k`, the retry loop ends with `Open` after
/// exactly `k` pauses of base, 2·base, 4·base, ... milliseconds.
pub proof fn lemma_retry_timeouts_then_open(policy: RetryPolicy, k: nat)
    requires
        k <= policy.max_retries,
    ensures
        retry_run(policy, 0, timeouts_then_open(k)) == (
            Some(PortStatus::Open),
            Seq::new(k, |i: int| (policy.base_backoff_ms * pow2(i as nat)) as nat),
        ),
{
    lemma_retry_run_from(policy, 0, k);
    assert(Seq::new(k, |i: int| backoff_ms(policy, (0 + i) as nat)) =~= Seq::new(
        k,
        |i: int| (policy.base_backoff_ms * pow2(i as nat)) as nat,
    ));
}

/// A port is never tried more than `max_retries + 1` times: whatever the
/// attempts return, the loop has a final status once that many are made.
pub proof fn lemma_retry_bounded(policy: RetryPolicy, attempt: nat, outcomes: Seq<PortStatus>)
    requires
        attempt <= policy.max_retries,
        outcomes.len() >= policy.max_retries + 1 - attempt,
    ensures
        retry_run(policy, attempt, outcomes).0 is Some,
        retry_run(policy, attempt, outcomes).1.len() <= policy.max_retries - attempt,
    decreases outcomes.len(),
{
    match retry_step(policy, attempt, outcomes[0]) {
        None => {},
        Some(d) => {
            lemma_retry_bounded(policy, attempt + 1, outcomes.drop_first());
        },
    }
}

} // verus!
