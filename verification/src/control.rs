use vstd::prelude::*;

verus! {

/// A request to the simulation worker. Those that carry floating-point
/// payloads (a playback rate, a heat position) are acted on by the caller;
/// the worker's decisions depend only on which request it was.
#[derive(Debug)]
pub enum Request {
    /// Rebuild the experiment from its configuration.
    Reset,
    /// Pause (`true`) or resume (`false`).
    Pause(bool),
    /// Advance exactly one numerical step, then stay paused.
    Step,
    /// Change the requested simulated time per wall second.
    Rate,
    /// Heat was deposited into the grid.
    Heat,
    /// An export finished: the path written, or the error's text.
    Exported(Result<String, String>),
    /// Stop the worker.
    Quit,
}

/// What the worker loop does after a request.
#[derive(Clone, Copy, Debug, PartialEq, Eq, Structural)]
pub enum Flow {
    /// Keep running; restart the step clock when `true`.
    Continue(bool),
    /// Leave the loop.
    Stop,
}

/// The mathematical state of the worker's control.
pub struct ControlView {
    pub paused: bool,
    pub single: bool,
    pub error: Option<Seq<char>>,
    pub notice: Option<Seq<char>>,
    pub publish: bool,
    pub revision: nat,
}

/// Control state of the simulation worker: whether it runs, whether one
/// single step was requested, the error that stopped it, the notice shown to
/// the user, whether a new snapshot must be published, and how many were.
pub struct WorkerControl {
    pub paused: bool,
    pub single: bool,
    pub error: Option<String>,
    pub notice: Option<String>,
    pub publish: bool,
    pub revision: u64,
}

pub open spec fn opt_view(o: Option<String>) -> Option<Seq<char>> {
    match o {
        Some(s) => Some(s@),
        None => None,
    }
}

impl View for WorkerControl {
    type V = ControlView;

    open spec fn view(&self) -> ControlView {
        ControlView {
            paused: self.paused,
            single: self.single,
            error: opt_view(self.error),
            notice: opt_view(self.notice),
            publish: self.publish,
            revision: self.revision as nat,
        }
    }
}

/// Notice shown after heat was deposited.
pub open spec fn heat_notice() -> Seq<char> {
    "Energy deposited · source included in conservation budget"@
}

/// Notice shown after an export.
pub open spec fn export_notice(outcome: Result<Seq<char>, Seq<char>>) -> Seq<char> {
    match outcome {
        Ok(path) => "Saved "@ + path,
        Err(e) => "Export failed: "@ + e,
    }
}

pub open spec fn result_view(r: Result<String, String>) -> Result<Seq<char>, Seq<char>> {
    match r {
        Ok(p) => Ok(p@),
        Err(e) => Err(e@),
    }
}

/// The control state after one request.
pub open spec fn after_request(s: ControlView, r: Request) -> ControlView {
    match r {
        Request::Reset => ControlView { error: None, notice: None, publish: true, ..s },
        Request::Pause(p) => ControlView { paused: p, ..s },
        Request::Step => ControlView { single: true, paused: true, ..s },
        Request::Rate => s,
        Request::Heat => ControlView { publish: true, notice: Some(heat_notice()), ..s },
        Request::Exported(o) => ControlView {
            notice: Some(export_notice(result_view(o))),
            publish: true,
            ..s
        },
        Request::Quit => s,
    }
}

/// The loop's reaction to one request.
pub open spec fn request_flow(r: Request) -> Flow {
    match r {
        Request::Quit => Flow::Stop,
        Request::Reset | Request::Pause(_) | Request::Rate => Flow::Continue(true),
        _ => Flow::Continue(false),
    }
}

/// Whether the worker advances the grid now; `due` says that the step clock
/// has reached the next step time.
pub open spec fn steps_now(s: ControlView, due: bool) -> bool {
    (!s.paused || s.single) && (s.single || due) && s.error is None
}

/// Interval between two polls of the request queue, in nanoseconds.
pub const POLL_NANOS: u64 = 8_000_000;

/// Wait before the next poll: a full poll interval while paused, otherwise
/// the time left before the next step, but never more than a poll interval.
pub open spec fn wait_nanos(s: ControlView, until_next_step: u64) -> u64 {
    if s.paused || until_next_step > POLL_NANOS {
        POLL_NANOS
    } else {
        until_next_step
    }
}

impl WorkerControl {
    /// The state of a freshly started worker.
    pub fn new(paused: bool) -> (r: Self)
        ensures
            r@ == (ControlView {
                paused,
                single: false,
                error: None,
                notice: None,
                publish: true,
                revision: 0,
            }),
    {
        WorkerControl { paused, single: false, error: None, notice: None, publish: true, revision: 0 }
    }

    /// Starts a loop iteration: a single step applies to one iteration only.
    pub fn begin_iteration(&mut self)
        ensures
            final(self)@ == (ControlView { single: false, ..old(self)@ }),
    {
        self.single = false;
    }

    /// Applies one request and says how the loop goes on.
    pub fn apply(&mut self, r: Request) -> (flow: Flow)
        ensures
            final(self)@ == after_request(old(self)@, r),
            flow == request_flow(r),
    {
        match r {
            Request::Quit => Flow::Stop,
            Request::Reset => {
                self.error = None;
                self.notice = None;
                self.publish = true;
                Flow::Continue(true)
            },
            Request::Pause(p) => {
                self.paused = p;
                Flow::Continue(true)
            },
            Request::Step => {
                self.single = true;
                self.paused = true;
                Flow::Continue(false)
            },
            Request::Rate => Flow::Continue(true),
            Request::Heat => {
                self.publish = true;
                self.notice = Some(
                    String::from_str("Energy deposited · source included in conservation budget"),
                );
                Flow::Continue(false)
            },
            Request::Exported(outcome) => {
                let text = match outcome {
                    Ok(path) => String::from_str("Saved ").concat(path.as_str()),
                    Err(e) => String::from_str("Export failed: ").concat(e.as_str()),
                };
                self.notice = Some(text);
                self.publish = true;
                Flow::Continue(false)
            },
        }
    }

    /// Whether the grid is advanced in this iteration.
    pub fn should_step(&self, due: bool) -> (r: bool)
        ensures
            r == steps_now(self@, due),
    {
        (!self.paused || self.single) && (self.single || due) && self.error.is_none()
    }

    /// Records the outcome of a step: a failure stops the worker with its
    /// message; either way a snapshot is due.
    pub fn record_step(&mut self, outcome: Result<(), String>)
        ensures
            final(self)@ == (match outcome {
                Ok(()) => ControlView { publish: true, ..old(self)@ },
                Err(e) => ControlView { publish: true, error: Some(e@), paused: true, ..old(self)@ },
            }),
    {
        match outcome {
            Ok(()) => {},
            Err(e) => {
                self.error = Some(e);
                self.paused = true;
            },
        }
        self.publish = true;
    }

    /// Numbers a published snapshot and clears the publication request.
    pub fn mark_published(&mut self) -> (rev: u64)
        requires
            old(self).revision < u64::MAX,
        ensures
            final(self)@ == (ControlView { publish: false, revision: old(self)@.revision + 1, ..old(self)@ }),
            rev == final(self).revision,
    {
        self.revision = self.revision + 1;
        self.publish = false;
        self.revision
    }

    /// Nanoseconds to sleep before the next poll.
    pub fn poll_wait(&self, until_next_step: u64) -> (r: u64)
        ensures
            r == wait_nanos(self@, until_next_step),
    {
        if self.paused || until_next_step > POLL_NANOS {
            POLL_NANOS
        } else {
            until_next_step
        }
    }
}

/// A paused worker does not evolve unless one single step was requested.
pub proof fn law_paused_worker_does_not_evolve(s: ControlView, due: bool)
    requires
        s.paused,
        !s.single,
    ensures
        !steps_now(s, due),
{
}

/// A single-step request advances the grid once, at once, and leaves the
/// worker paused: in the following iteration it does not step again.
pub proof fn law_single_step_stays_paused(s: ControlView, due: bool)
    requires
        s.error is None,
    ensures
        after_request(s, Request::Step).paused,
        steps_now(after_request(s, Request::Step), false),
        !steps_now(ControlView { single: false, ..after_request(s, Request::Step) }, due),
{
}

/// A failed step stops the worker on its last valid state until a reset;
/// the reset clears the error and the notice and asks for a new snapshot.
pub proof fn law_error_halts_until_reset(s: ControlView, e: Seq<char>, due: bool)
    ensures
        ({
            let failed = ControlView { publish: true, error: Some(e), paused: true, ..s };
            &&& !steps_now(failed, due)
            &&& !steps_now(after_request(failed, Request::Pause(false)), due)
            &&& after_request(failed, Request::Reset).error is None
            &&& after_request(failed, Request::Reset).notice is None
            &&& after_request(failed, Request::Reset).publish
        }),
{
}

/// Resuming a worker without an error lets it step whenever its clock is due.
pub proof fn law_resume_steps_when_due(s: ControlView)
    requires
        s.error is None,
    ensures
        steps_now(after_request(s, Request::Pause(false)), true),
        !after_request(s, Request::Pause(false)).single ==> !steps_now(
            after_request(s, Request::Pause(false)), false),
{
}

/// Heat and exports change only the notice and the publication request:
/// they neither start nor stop the stepping.
pub proof fn law_side_requests_keep_stepping_state(s: ControlView, o: Result<String, String>, due: bool)
    ensures
        steps_now(after_request(s, Request::Heat), due) == steps_now(s, due),
        steps_now(after_request(s, Request::Exported(o)), due) == steps_now(s, due),
        after_request(s, Request::Heat).publish,
        after_request(s, Request::Exported(o)).publish,
        steps_now(after_request(s, Request::Rate), due) == steps_now(s, due),
{
}

/// Polling never hurries the simulation clock: without a single-step
/// request the worker steps only when its clock is due, and it sleeps at
/// most one poll interval, never past the next step time while running.
pub proof fn law_polling_keeps_the_clock(s: ControlView, due: bool, until_next_step: u64)
    ensures
        !s.single && steps_now(s, due) ==> due,
        wait_nanos(s, until_next_step) <= POLL_NANOS,
        !s.paused ==> wait_nanos(s, until_next_step) <= until_next_step,
{
}

/// Only a quit request leaves the worker loop. Resets, pauses and rate
/// changes keep it running and restart the step clock; single steps, heat
/// and finished exports keep it running on the same clock.
pub proof fn law_only_quit_stops_the_worker(r: Request)
    ensures
        (request_flow(r) == Flow::Stop) <==> (r is Quit),
        (request_flow(r) == Flow::Continue(true)) <==> (r is Reset || r is Pause || r is Rate),
        (request_flow(r) == Flow::Continue(false)) <==> (r is Step || r is Heat || r is Exported),
{
}

/// A finished export keeps the worker running and tells the user what
/// happened: the path that was saved, or why the export failed.
pub proof fn law_export_reports_and_continues(s: ControlView, outcome: Result<String, String>)
    ensures
        request_flow(Request::Exported(outcome)) == Flow::Continue(false),
        after_request(s, Request::Exported(outcome)).publish,
        after_request(s, Request::Exported(outcome)).paused == s.paused,
        after_request(s, Request::Exported(outcome)).error == s.error,
        outcome matches Ok(p) ==> after_request(s, Request::Exported(outcome)).notice == Some(
            "Saved "@ + p@),
        outcome matches Err(e) ==> after_request(s, Request::Exported(outcome)).notice == Some(
            "Export failed: "@ + e@),
{
}

} // verus!
