use vstd::prelude::*;

verus! {

/// Behaviours of the supervisor that a host may switch on or off.
#[derive(Clone, Copy, Debug, PartialEq, Eq)]
pub struct SupervisorOptions {
    /// The host shows a dialog when startup fails.
    pub show_error_dialog: bool,
    /// The host navigates its window once the server is ready.
    pub use_navigate_api: bool,
    /// A short health probe runs before anything is spawned.
    pub check_duplicate_before_spawn: bool,
}

impl SupervisorOptions {
    pub fn standard() -> (r: SupervisorOptions)
        ensures
            r.show_error_dialog,
            r.use_navigate_api,
            r.check_duplicate_before_spawn,
    {
        SupervisorOptions {
            show_error_dialog: true,
            use_navigate_api: true,
            check_duplicate_before_spawn: true,
        }
    }
}

/// What the caller of `begin_start` must do next.
#[derive(Clone, Copy, Debug, PartialEq, Eq)]
pub enum StartStep {
    /// A process is already owned: the start succeeds with nothing done.
    AlreadyOwned,
    /// Another start is under way: the start succeeds with nothing done.
    InProgress,
    /// Probe the health endpoint once, then call `record_duplicate_check`.
    CheckDuplicate { ticket: u64 },
    /// Spawn the server, then call `record_spawn`.
    Spawn { ticket: u64 },
}

/// What follows the duplicate-detection probe.
#[derive(Clone, Copy, Debug, PartialEq, Eq)]
pub enum CheckStep {
    /// An instance already answers on the port: nothing is spawned.
    AlreadyRunningExternally,
    /// Nothing answers: spawn the server, then call `record_spawn`.
    Spawn,
    /// A stop arrived meanwhile: this start ends and spawns nothing.
    Cancelled,
}

/// Why a process could not be launched.
#[derive(Clone, Debug, PartialEq, Eq)]
pub enum SpawnError {
    /// The entry file is not on disk.
    EntryMissing,
    /// The operating system refused to launch the executable.
    LaunchFailed { reason: String },
}

/// What follows a spawn attempt.
pub enum SpawnStep<H> {
    /// The handle is now owned: wait for readiness, then call `record_ready`.
    WaitReady,
    /// A stop arrived meanwhile: terminate this handle, it is not kept.
    Discard { handle: H },
    /// The spawn failed and the start ends with this error.
    Failed { error: SpawnError },
}

/// What follows the readiness wait.
#[derive(Clone, Copy, Debug, PartialEq, Eq)]
pub enum ReadyStep {
    /// The server answered healthy: the start succeeded.
    Started,
    /// The server never answered healthy; its process is left running.
    TimedOut,
    /// A stop arrived meanwhile: the process is no longer owned by this start.
    Stopped,
}

/// Why `stop` had nothing to terminate.
#[derive(Clone, Copy, Debug, PartialEq, Eq)]
pub enum StopError {
    /// No process is owned and no start is under way.
    NotRunning,
    /// No process is owned yet; the start under way was cancelled, and
    /// whatever it spawns is handed back for termination.
    StartCancelled,
}

/// The supervisor's bookkeeping, as a mathematical value.
pub struct SupervisorView<H> {
    /// The owned handle, the port its process serves on, and when it was
    /// spawned (milliseconds on the host's clock).
    pub owned: Option<(H, u16, u64)>,
    /// The ticket of the start under way, if any.
    pub pending: Option<u64>,
    pub next_ticket: u64,
    pub check_duplicate: bool,
}

/// Owns at most one child process handle and decides every step of its
/// lifecycle. The host holds it under one lock and performs the steps.
pub struct Supervisor<H> {
    owned: Option<(H, u16, u64)>,
    pending: Option<u64>,
    next_ticket: u64,
    options: SupervisorOptions,
}

pub open spec fn begin_start_spec<H>(s: SupervisorView<H>) -> (SupervisorView<H>, StartStep) {
    if s.owned is Some {
        (s, StartStep::AlreadyOwned)
    } else if s.pending is Some {
        (s, StartStep::InProgress)
    } else {
        let t = s.next_ticket;
        let s2 = SupervisorView {
            pending: Some(t),
            next_ticket: (if t == u64::MAX { 0 } else { (t + 1) as u64 }),
            ..s
        };
        if s.check_duplicate {
            (s2, StartStep::CheckDuplicate { ticket: t })
        } else {
            (s2, StartStep::Spawn { ticket: t })
        }
    }
}

pub open spec fn duplicate_check_spec<H>(s: SupervisorView<H>, ticket: u64, healthy: bool) -> (
    SupervisorView<H>,
    CheckStep,
) {
    if s.pending != Some(ticket) || s.owned is Some {
        (s, CheckStep::Cancelled)
    } else if healthy {
        (SupervisorView { pending: None, ..s }, CheckStep::AlreadyRunningExternally)
    } else {
        (s, CheckStep::Spawn)
    }
}

pub open spec fn spawn_spec<H>(
    s: SupervisorView<H>,
    ticket: u64,
    port: u16,
    started_at: u64,
    result: Result<H, SpawnError>,
) -> (SupervisorView<H>, SpawnStep<H>) {
    match result {
        Ok(h) => {
            if s.pending == Some(ticket) && s.owned is None {
                (SupervisorView { owned: Some((h, port, started_at)), ..s }, SpawnStep::WaitReady)
            } else {
                (s, SpawnStep::Discard { handle: h })
            }
        },
        Err(e) => {
            if s.pending == Some(ticket) {
                (SupervisorView { pending: None, ..s }, SpawnStep::Failed { error: e })
            } else {
                (s, SpawnStep::Failed { error: e })
            }
        },
    }
}

pub open spec fn ready_spec<H>(s: SupervisorView<H>, ticket: u64, ready: bool) -> (
    SupervisorView<H>,
    ReadyStep,
) {
    if s.pending == Some(ticket) && s.owned is Some {
        let s2 = SupervisorView { pending: None, ..s };
        if ready {
            (s2, ReadyStep::Started)
        } else {
            (s2, ReadyStep::TimedOut)
        }
    } else {
        (s, ReadyStep::Stopped)
    }
}

pub open spec fn stop_spec<H>(s: SupervisorView<H>) -> (SupervisorView<H>, Result<H, StopError>) {
    let cleared = SupervisorView { owned: None, pending: None, ..s };
    match s.owned {
        Some((h, _, _)) => (cleared, Ok(h)),
        None => if s.pending is Some {
            (cleared, Err(StopError::StartCancelled))
        } else {
            (s, Err(StopError::NotRunning))
        },
    }
}

impl<H> Supervisor<H> {
    pub closed spec fn view(&self) -> SupervisorView<H> {
        SupervisorView {
            owned: self.owned,
            pending: self.pending,
            next_ticket: self.next_ticket,
            check_duplicate: self.options.check_duplicate_before_spawn,
        }
    }

    pub closed spec fn options_spec(&self) -> SupervisorOptions {
        self.options
    }

    /// An empty supervisor: nothing owned, no start under way.
    pub fn new(options: SupervisorOptions) -> (r: Supervisor<H>)
        ensures
            r.view().owned is None,
            r.view().pending is None,
            r.view().check_duplicate == options.check_duplicate_before_spawn,
            r.options_spec() == options,
    {
        Supervisor { owned: None, pending: None, next_ticket: 0, options }
    }

    pub fn options(&self) -> (r: SupervisorOptions)
        ensures
            r == self.options_spec(),
    {
        self.options
    }

    /// True iff a process handle is owned. Local bookkeeping only.
    pub fn status(&self) -> (r: bool)
        ensures
            r == self.view().owned is Some,
    {
        self.owned.is_some()
    }

    /// The port of the owned process, if any.
    pub fn port(&self) -> (r: Option<u16>)
        ensures
            r == (match self.view().owned {
                Some((_, p, _)) => Some(p),
                None => None,
            }),
    {
        match &self.owned {
            Some((_, p, _)) => Some(*p),
            None => None,
        }
    }

    /// When the owned process was spawned, if one is owned.
    pub fn started_at(&self) -> (r: Option<u64>)
        ensures
            r == (match self.view().owned {
                Some((_, _, t)) => Some(t),
                None => None,
            }),
    {
        match &self.owned {
            Some((_, _, t)) => Some(*t),
            None => None,
        }
    }

    /// First step of a start. Hands out a ticket unless a process is owned or
    /// another start is under way.
    pub fn begin_start(&mut self) -> (r: StartStep)
        ensures
            (final(self).view(), r) == begin_start_spec(old(self).view()),
            final(self).options_spec() == old(self).options_spec(),
    {
        if self.owned.is_some() {
            return StartStep::AlreadyOwned;
        }
        if self.pending.is_some() {
            return StartStep::InProgress;
        }
        let t = self.next_ticket;
        self.pending = Some(t);
        self.next_ticket = if t == u64::MAX { 0 } else { t + 1 };
        if self.options.check_duplicate_before_spawn {
            StartStep::CheckDuplicate { ticket: t }
        } else {
            StartStep::Spawn { ticket: t }
        }
    }

    /// Takes the result of the duplicate-detection probe for `ticket`.
    pub fn record_duplicate_check(&mut self, ticket: u64, healthy: bool) -> (r: CheckStep)
        ensures
            (final(self).view(), r) == duplicate_check_spec(old(self).view(), ticket, healthy),
            final(self).options_spec() == old(self).options_spec(),
    {
        if self.pending != Some(ticket) || self.owned.is_some() {
            CheckStep::Cancelled
        } else if healthy {
            self.pending = None;
            CheckStep::AlreadyRunningExternally
        } else {
            CheckStep::Spawn
        }
    }

    /// Takes the outcome of the spawn for `ticket`. The handle is kept only
    /// while that start is still the one under way and nothing is owned.
    pub fn record_spawn(
        &mut self,
        ticket: u64,
        port: u16,
        started_at: u64,
        result: Result<H, SpawnError>,
    ) -> (r: SpawnStep<H>)
        ensures
            (final(self).view(), r) == spawn_spec(
                old(self).view(),
                ticket,
                port,
                started_at,
                result,
            ),
            final(self).options_spec() == old(self).options_spec(),
    {
        match result {
            Ok(h) => {
                if self.pending == Some(ticket) && self.owned.is_none() {
                    self.owned = Some((h, port, started_at));
                    SpawnStep::WaitReady
                } else {
                    SpawnStep::Discard { handle: h }
                }
            },
            Err(e) => {
                if self.pending == Some(ticket) {
                    self.pending = None;
                }
                SpawnStep::Failed { error: e }
            },
        }
    }

    /// Takes the outcome of the readiness wait for `ticket`. On a timeout the
    /// process stays owned.
    pub fn record_ready(&mut self, ticket: u64, ready: bool) -> (r: ReadyStep)
        ensures
            (final(self).view(), r) == ready_spec(old(self).view(), ticket, ready),
            final(self).options_spec() == old(self).options_spec(),
    {
        if self.pending == Some(ticket) && self.owned.is_some() {
            self.pending = None;
            if ready {
                ReadyStep::Started
            } else {
                ReadyStep::TimedOut
            }
        } else {
            ReadyStep::Stopped
        }
    }

    /// Gives up the owned handle, for the host to terminate and reap, and
    /// cancels any start under way.
    pub fn stop(&mut self) -> (r: Result<H, StopError>)
        ensures
            (final(self).view(), r) == stop_spec(old(self).view()),
            final(self).options_spec() == old(self).options_spec(),
    {
        match self.owned.take() {
            Some((h, _, _)) => {
                self.pending = None;
                Ok(h)
            },
            None => {
                if self.pending.is_some() {
                    self.pending = None;
                    Err(StopError::StartCancelled)
                } else {
                    Err(StopError::NotRunning)
                }
            },
        }
    }
}

/// The ticket that a start step hands out, if it hands one out.
pub open spec fn step_ticket(st: StartStep) -> u64 {
    match st {
        StartStep::CheckDuplicate { ticket } => ticket,
        StartStep::Spawn { ticket } => ticket,
        _ => 0,
    }
}

/// The state after a start from `s` that found nothing answering on the
/// port and spawned `h` at time `at`.
pub open spec fn spawned_start<H>(s: SupervisorView<H>, port: u16, at: u64, h: H) -> SupervisorView<H> {
    let (s1, st) = begin_start_spec(s);
    let t = step_ticket(st);
    let s2 = if st is CheckDuplicate {
        duplicate_check_spec(s1, t, false).0
    } else {
        s1
    };
    spawn_spec(s2, t, port, at, Ok(h)).0
}

/// Once a start has spawned and stored a process, a
/// second start, during the readiness wait or after it, succeeds at once,
/// spawns nothing and leaves the state as it is.
pub proof fn law_start_idempotent<H>(
    s: SupervisorView<H>,
    port: u16,
    at: u64,
    h: H,
    ready: bool,
)
    requires
        s.owned is None,
        s.pending is None,
    ensures
        ({
            let s3 = spawned_start(s, port, at, h);
            let t = step_ticket(begin_start_spec(s).1);
            let s4 = ready_spec(s3, t, ready).0;
            &&& s3.owned == Some((h, port, at))
            &&& begin_start_spec(s3) == (s3, StartStep::AlreadyOwned)
            &&& s4.owned == Some((h, port, at))
            &&& begin_start_spec(s4) == (s4, StartStep::AlreadyOwned)
        }),
{
}

/// When the probe before spawning finds a healthy instance, the start
/// reports it as running externally, nothing is owned, and a spawn reported
/// for that start afterwards is not kept.
pub proof fn law_duplicate_detection<H>(s: SupervisorView<H>, port: u16, at: u64, h: H)
    requires
        s.owned is None,
        s.pending is None,
        s.check_duplicate,
    ensures
        ({
            let (s1, st) = begin_start_spec(s);
            let t = step_ticket(st);
            let (s2, c) = duplicate_check_spec(s1, t, true);
            &&& st == StartStep::CheckDuplicate { ticket: t }
            &&& c == CheckStep::AlreadyRunningExternally
            &&& s2.owned is None
            &&& s2.pending is None
            &&& spawn_spec(s2, t, port, at, Ok(h)) == (s2, SpawnStep::Discard { handle: h })
        }),
{
}

/// A successful stop hands back the owned handle, leaves nothing owned and
/// no start under way, and a following start may spawn again.
pub proof fn law_stop_clears<H>(s: SupervisorView<H>)
    requires
        s.owned is Some,
    ensures
        ({
            let (s1, r) = stop_spec(s);
            &&& r == Ok::<H, StopError>((s.owned->0).0)
            &&& s1.owned is None
            &&& s1.pending is None
            &&& (begin_start_spec(s1).1 is CheckDuplicate || begin_start_spec(s1).1 is Spawn)
        }),
{
}

/// A stop with nothing owned is an error; it leaves nothing owned, and when
/// no start is under way it changes nothing at all.
pub proof fn law_stop_without_start<H>(s: SupervisorView<H>)
    requires
        s.owned is None,
    ensures
        ({
            let (s1, r) = stop_spec(s);
            &&& r is Err
            &&& s1.owned is None
            &&& (s.pending is None ==> s1 == s && r == Err::<H, StopError>(StopError::NotRunning))
        }),
{
}

/// A stop during a start, at whatever step the start stands, leaves
/// nothing owned; the handle that was owned is handed back for termination,
/// and whatever the start reports afterwards is not kept: a later spawn is
/// handed back to be terminated, and a later probe or readiness result
/// changes nothing.
pub proof fn law_stop_during_start<H>(
    s: SupervisorView<H>,
    t: u64,
    port: u16,
    at: u64,
    h: H,
    healthy: bool,
    ready: bool,
)
    requires
        s.pending == Some(t),
    ensures
        ({
            let (s1, r) = stop_spec(s);
            &&& s1.owned is None
            &&& s1.pending is None
            &&& (s.owned is Some ==> r == Ok::<H, StopError>((s.owned->0).0))
            &&& (s.owned is None ==> r == Err::<H, StopError>(StopError::StartCancelled))
            &&& duplicate_check_spec(s1, t, healthy) == (s1, CheckStep::Cancelled)
            &&& spawn_spec(s1, t, port, at, Ok(h)) == (s1, SpawnStep::Discard { handle: h })
            &&& ready_spec(s1, t, ready) == (s1, ReadyStep::Stopped)
        }),
{
}

} // verus!
