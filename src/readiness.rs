use vstd::prelude::*;
use crate::endpoint::{health_url, health_url_spec};

verus! {

/// Probes of the readiness wait before it gives up.
pub const MAX_ATTEMPTS: u32 = 30;

/// Pause between two probes of the readiness wait, in milliseconds.
pub const RETRY_DELAY_MS: u64 = 500;

/// Timeout of the single duplicate-detection probe, in milliseconds.
pub const DUPLICATE_CHECK_TIMEOUT_MS: u64 = 1000;

/// What one request against a health endpoint came to.
#[derive(Clone, Copy, Debug, PartialEq, Eq)]
pub enum ProbeOutcome {
    /// A response arrived with this status code.
    Responded { status: u16 },
    /// The connection or the request failed.
    Failed,
    /// No response within the probe's timeout.
    TimedOut,
}

pub open spec fn is_success_status(status: u16) -> bool {
    200 <= status < 300
}

pub open spec fn probe_healthy_spec(outcome: ProbeOutcome) -> bool {
    match outcome {
        ProbeOutcome::Responded { status } => is_success_status(status),
        _ => false,
    }
}

/// Relies on reqwest's `StatusCode` (the `http` crate's type, re-exported):
/// `from_u16` accepts exactly the codes 100..=999 and `is_success` holds
/// exactly for 200..300, so a code is a success iff it lies in 200..300.
#[verifier::external_body]
fn status_is_success(status: u16) -> (r: bool)
    ensures
        r == is_success_status(status),
{
    match reqwest::StatusCode::from_u16(status) {
        Ok(code) => code.is_success(),
        Err(_) => false,
    }
}

/// A probe is healthy only when a response arrived with a 2xx status.
pub fn probe_is_healthy(outcome: ProbeOutcome) -> (r: bool)
    ensures
        r == probe_healthy_spec(outcome),
{
    match outcome {
        ProbeOutcome::Responded { status } => status_is_success(status),
        ProbeOutcome::Failed => false,
        ProbeOutcome::TimedOut => false,
    }
}

/// The readiness wait ran out of attempts.
#[derive(Clone, Debug, PartialEq, Eq)]
pub struct TimeoutError {
    pub url: String,
    pub attempts: u32,
}

/// The timeout error of a wait on `port` that made `attempts` probes.
pub fn timeout_error(port: u16, attempts: u32) -> (r: TimeoutError)
    ensures
        r.url@ == health_url_spec(port),
        r.attempts == attempts,
{
    TimeoutError { url: health_url(port), attempts }
}

/// What the host must do next for a readiness wait.
#[derive(Clone, Copy, Debug, PartialEq, Eq)]
pub enum WaitAction {
    /// Probe the health endpoint once, then call `record_probe`.
    Probe,
    /// Sleep this long without blocking other work, then call `record_sleep`.
    Sleep { ms: u64 },
    /// A probe was healthy: the server is ready.
    Ready { attempts: u32 },
    /// Every attempt failed.
    GiveUp { attempts: u32 },
}

#[derive(Clone, Copy, Debug, PartialEq, Eq, Structural)]
pub enum WaitPhase {
    Probe,
    Sleep,
    Ready,
    GaveUp,
}

/// The state of a readiness wait as a mathematical value.
pub struct WaitView {
    pub max_attempts: u32,
    pub retry_delay_ms: u64,
    pub attempts: u32,
    pub phase: WaitPhase,
}

impl WaitView {
    pub open spec fn wf(self) -> bool {
        &&& self.attempts <= self.max_attempts
        &&& (self.phase == WaitPhase::Probe ==> self.attempts < self.max_attempts)
        &&& (self.phase == WaitPhase::Sleep ==> 0 < self.attempts < self.max_attempts)
        &&& (self.phase == WaitPhase::Ready ==> self.attempts > 0)
        &&& (self.phase == WaitPhase::GaveUp ==> self.attempts == self.max_attempts)
    }

    pub open spec fn action(self) -> WaitAction {
        match self.phase {
            WaitPhase::Probe => WaitAction::Probe,
            WaitPhase::Sleep => WaitAction::Sleep { ms: self.retry_delay_ms },
            WaitPhase::Ready => WaitAction::Ready { attempts: self.attempts },
            WaitPhase::GaveUp => WaitAction::GiveUp { attempts: self.attempts },
        }
    }
}

pub open spec fn wait_new_spec(max_attempts: u32, retry_delay_ms: u64) -> WaitView {
    WaitView {
        max_attempts,
        retry_delay_ms,
        attempts: 0,
        phase: if max_attempts == 0 {
            WaitPhase::GaveUp
        } else {
            WaitPhase::Probe
        },
    }
}

/// A probe's result moves a wait that is due to probe; any other wait is
/// left as it is.
pub open spec fn probe_step(v: WaitView, healthy: bool) -> WaitView {
    if v.phase == WaitPhase::Probe && v.attempts < v.max_attempts {
        let a = (v.attempts + 1) as u32;
        WaitView {
            attempts: a,
            phase: if healthy {
                WaitPhase::Ready
            } else if a < v.max_attempts {
                WaitPhase::Sleep
            } else {
                WaitPhase::GaveUp
            },
            ..v
        }
    } else {
        v
    }
}

/// The end of a pause makes a sleeping wait due to probe again.
pub open spec fn sleep_step(v: WaitView) -> WaitView {
    if v.phase == WaitPhase::Sleep {
        WaitView { phase: WaitPhase::Probe, ..v }
    } else {
        v
    }
}

#[derive(Clone, Copy, Debug, PartialEq, Eq)]
struct Progress {
    attempts: u32,
    phase: WaitPhase,
}

/// Bounded polling of a health endpoint: up to `max_attempts` probes with a
/// pause between two of them, and none after the last.
pub struct ReadinessWait {
    max_attempts: u32,
    retry_delay_ms: u64,
    progress: Progress,
}

impl ReadinessWait {
    #[verifier::type_invariant]
    spec fn inv(self) -> bool {
        self.view().wf()
    }

    pub closed spec fn view(self) -> WaitView {
        WaitView {
            max_attempts: self.max_attempts,
            retry_delay_ms: self.retry_delay_ms,
            attempts: self.progress.attempts,
            phase: self.progress.phase,
        }
    }

    /// A wait that has made no probe yet.
    pub fn new(max_attempts: u32, retry_delay_ms: u64) -> (r: ReadinessWait)
        ensures
            r.view() == wait_new_spec(max_attempts, retry_delay_ms),
            r.view().wf(),
    {
        let phase = if max_attempts == 0 {
            WaitPhase::GaveUp
        } else {
            WaitPhase::Probe
        };
        ReadinessWait { max_attempts, retry_delay_ms, progress: Progress { attempts: 0, phase } }
    }

    /// The wait of a freshly spawned server: 30 probes, 500 ms apart.
    pub fn standard() -> (r: ReadinessWait)
        ensures
            r.view() == wait_new_spec(MAX_ATTEMPTS, RETRY_DELAY_MS),
    {
        ReadinessWait::new(MAX_ATTEMPTS, RETRY_DELAY_MS)
    }

    /// What the host must do now.
    pub fn action(&self) -> (r: WaitAction)
        ensures
            r == self.view().action(),
    {
        match self.progress.phase {
            WaitPhase::Probe => WaitAction::Probe,
            WaitPhase::Sleep => WaitAction::Sleep { ms: self.retry_delay_ms },
            WaitPhase::Ready => WaitAction::Ready { attempts: self.progress.attempts },
            WaitPhase::GaveUp => WaitAction::GiveUp { attempts: self.progress.attempts },
        }
    }

    /// Probes made so far.
    pub fn attempts(&self) -> (r: u32)
        ensures
            r == self.view().attempts,
    {
        self.progress.attempts
    }

    /// Takes the result of one probe and says what comes next.
    pub fn record_probe(&mut self, healthy: bool) -> (r: WaitAction)
        ensures
            final(self).view() == probe_step(old(self).view(), healthy),
            r == final(self).view().action(),
            final(self).view().wf(),
    {
        proof {
            use_type_invariant(&*self);
        }
        if self.progress.phase == WaitPhase::Probe {
            let a = self.progress.attempts + 1;
            let phase = if healthy {
                WaitPhase::Ready
            } else if a < self.max_attempts {
                WaitPhase::Sleep
            } else {
                WaitPhase::GaveUp
            };
            self.progress = Progress { attempts: a, phase };
        }
        proof {
            use_type_invariant(&*self);
        }
        self.action()
    }

    /// Takes the end of a pause and says what comes next.
    pub fn record_sleep(&mut self) -> (r: WaitAction)
        ensures
            final(self).view() == sleep_step(old(self).view()),
            r == final(self).view().action(),
            final(self).view().wf(),
    {
        proof {
            use_type_invariant(&*self);
        }
        if self.progress.phase == WaitPhase::Sleep {
            self.progress = Progress { attempts: self.progress.attempts, phase: WaitPhase::Probe };
        }
        proof {
            use_type_invariant(&*self);
        }
        self.action()
    }
}

pub open spec fn wait_measure(v: WaitView) -> nat {
    match v.phase {
        WaitPhase::Probe => (2 * (v.max_attempts - v.attempts)) as nat,
        WaitPhase::Sleep => (2 * (v.max_attempts - v.attempts) + 1) as nat,
        _ => 0,
    }
}

/// Follows the actions of `v` against an endpoint that never answers
/// healthy, until the wait ends: the final state, the probes made, and the
/// milliseconds slept.
pub open spec fn run_unhealthy(v: WaitView) -> (WaitView, nat, nat)
    decreases wait_measure(v),
{
    if !v.wf() {
        (v, 0, 0)
    } else {
        match v.phase {
            WaitPhase::Probe => {
                let (f, probes, slept) = run_unhealthy(probe_step(v, false));
                (f, probes + 1, slept)
            },
            WaitPhase::Sleep => {
                let (f, probes, slept) = run_unhealthy(sleep_step(v));
                (f, probes, (slept + v.retry_delay_ms) as nat)
            },
            _ => (v, 0, 0),
        }
    }
}

proof fn lemma_run_unhealthy_from_probe(v: WaitView)
    requires
        v.wf(),
        v.phase == WaitPhase::Probe,
    ensures
        run_unhealthy(v) == (
            WaitView { attempts: v.max_attempts, phase: WaitPhase::GaveUp, ..v },
            (v.max_attempts - v.attempts) as nat,
            ((v.max_attempts - v.attempts - 1) * v.retry_delay_ms) as nat,
        ),
    decreases v.max_attempts - v.attempts,
{
    let v1 = probe_step(v, false);
    let m = v.max_attempts as int;
    let a = v.attempts as int;
    let d = v.retry_delay_ms as int;
    if v1.phase == WaitPhase::Sleep {
        let v2 = sleep_step(v1);
        lemma_run_unhealthy_from_probe(v2);
        assert(v2.attempts == a + 1);
        assert((m - (a + 1) - 1) * d + d == (m - a - 1) * d) by (nonlinear_arith);
        assert(run_unhealthy(v1).2 == run_unhealthy(v2).2 + d);
    } else {
        assert(v1.attempts == m);
        assert(v1.wf());
        assert(run_unhealthy(v1) == (v1, 0nat, 0nat));
        assert(v1 == WaitView { attempts: v.max_attempts, phase: WaitPhase::GaveUp, ..v });
        assert((m - a - 1) * d == 0) by (nonlinear_arith)
            requires
                a + 1 == m,
        ;
    }
}

/// Against an endpoint that never answers healthy, a wait of
/// `max_attempts` probes gives up after exactly that many probes, having
/// slept `max_attempts - 1` pauses, and no more; with 30 probes 500 ms
/// apart that is 14.5 s of pauses, within one pause of 15 s.
pub proof fn law_bounded_wait(max_attempts: u32, retry_delay_ms: u64)
    ensures
        ({
            let v = wait_new_spec(max_attempts, retry_delay_ms);
            let (f, probes, slept) = run_unhealthy(v);
            &&& f.phase == WaitPhase::GaveUp
            &&& f.action() == WaitAction::GiveUp { attempts: max_attempts }
            &&& probes == max_attempts
            &&& slept == (if max_attempts == 0 {
                0
            } else {
                (max_attempts - 1) * retry_delay_ms
            })
        }),
        run_unhealthy(wait_new_spec(MAX_ATTEMPTS, RETRY_DELAY_MS)).2 == 14500,
{
    let v = wait_new_spec(max_attempts, retry_delay_ms);
    if max_attempts > 0 {
        lemma_run_unhealthy_from_probe(v);
    }
    let w = wait_new_spec(MAX_ATTEMPTS, RETRY_DELAY_MS);
    lemma_run_unhealthy_from_probe(w);
    assert(w.max_attempts == 30 && w.attempts == 0 && w.retry_delay_ms == 500);
    let m = w.max_attempts as int;
    let d = w.retry_delay_ms as int;
    assert((m - 0 - 1) * d == 14500) by (nonlinear_arith)
        requires
            m == 30,
            d == 500,
    ;
}

} // verus!
