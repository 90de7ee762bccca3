//! The capture workflow: a linear run of six steps (launch a browser, open a
//! tab, navigate to the target address, wait for the readiness marker, capture
//! a JPEG of the full page, write the bytes to disk), where any failure aborts
//! the run with the error of the step that failed.
//!
//! The outside work itself (the browser protocol, the file write) cannot be
//! done here; the binary performs it. What is verified is the sequencing: a
//! [`Session`] owes one [`Action`] per phase, advances on success, and on the
//! first failure settles into a terminal [`Phase::Failed`] with the right
//! [`CaptureError`]. The lemmas at the bottom state the workflow's laws: a run
//! of successes ends written, and a failure before the capture step means the
//! file write is never even attempted.

use vstd::prelude::*;

verus! {

/// The failure taxonomy of the capture workflow: one variant per fallible
/// step, surfaced unchanged to the caller. No retries anywhere: the first
/// failure aborts the run.
#[derive(Clone, Copy, Debug, PartialEq, Eq, Structural)]
pub enum CaptureError {
    /// No usable browser process could be acquired.
    Launch,
    /// The page/tab context could not be created.
    Session,
    /// Directing the page to the target address failed.
    Navigation,
    /// The readiness marker never appeared within the timeout.
    Timeout,
    /// The render/encode call failed.
    Capture,
    /// Writing the image bytes to the output path failed.
    Io,
}

/// Where a capture run stands. Each non-terminal phase owes exactly one
/// [`Action`]; `Written` (success) and `Failed` are terminal.
#[derive(Clone, Copy, Debug, PartialEq, Eq, Structural)]
pub enum Phase {
    /// Nothing has happened yet.
    Start,
    /// A browser process is up.
    Launched,
    /// A page/tab context exists.
    TabOpen,
    /// The page was directed to the target address.
    Navigated,
    /// The readiness marker appeared.
    Ready,
    /// The encoded image bytes are in hand.
    Captured,
    /// The bytes were written to the output path: the run succeeded.
    Written,
    /// A step failed; the run is over.
    Failed(CaptureError),
}

/// The piece of outside work a non-terminal phase asks for.
#[derive(Clone, Copy, Debug, PartialEq, Eq, Structural)]
pub enum Action {
    /// Acquire a headless browser process.
    LaunchBrowser,
    /// Open a new page/tab context in that process.
    OpenTab,
    /// Direct the page to the session's target address.
    Navigate,
    /// Block until the element [`marker_id`] names appears, or time out.
    WaitForMarker,
    /// Request a JPEG encode of the full page at [`JPEG_QUALITY`].
    CaptureImage,
    /// Write the image bytes to [`output_file_name`], truncating or creating.
    WriteOutput,
}

/// JPEG quality of the capture request.
pub const JPEG_QUALITY: u32 = 75;

/// The identifier of the DOM element whose appearance signals readiness.
pub open spec fn spec_marker_id() -> Seq<char> {
    "#done"@
}

/// The CSS selector the wait step watches for.
pub fn marker_id() -> (m: &'static str)
    ensures
        m@ == spec_marker_id(),
{
    "#done"
}

/// The fixed name of the output file, relative to the working directory.
pub open spec fn spec_output_file_name() -> Seq<char> {
    "screenshot.jpg"@
}

/// The fixed file name the image bytes are written to. It is overwritten
/// unconditionally on each successful run.
pub fn output_file_name() -> (m: &'static str)
    ensures
        m@ == spec_output_file_name(),
{
    "screenshot.jpg"
}

/// The confirmation line printed once the output file is written.
pub open spec fn spec_success_message() -> Seq<char> {
    "Screenshots successfully created."@
}

/// The confirmation line a successful run ends with.
pub fn success_message() -> (m: &'static str)
    ensures
        m@ == spec_success_message(),
{
    "Screenshots successfully created."
}

/// A phase is terminal when it owes no further action.
pub open spec fn is_terminal(p: Phase) -> bool {
    p == Phase::Written || p is Failed
}

/// The transition relation of the run: on success each phase advances to the
/// next, on failure it settles into `Failed` with the error of the step that
/// was under way. Terminal phases stay put whatever the event.
pub open spec fn step_phase(p: Phase, ok: bool) -> Phase {
    match p {
        Phase::Start => if ok {
            Phase::Launched
        } else {
            Phase::Failed(CaptureError::Launch)
        },
        Phase::Launched => if ok {
            Phase::TabOpen
        } else {
            Phase::Failed(CaptureError::Session)
        },
        Phase::TabOpen => if ok {
            Phase::Navigated
        } else {
            Phase::Failed(CaptureError::Navigation)
        },
        Phase::Navigated => if ok {
            Phase::Ready
        } else {
            Phase::Failed(CaptureError::Timeout)
        },
        Phase::Ready => if ok {
            Phase::Captured
        } else {
            Phase::Failed(CaptureError::Capture)
        },
        Phase::Captured => if ok {
            Phase::Written
        } else {
            Phase::Failed(CaptureError::Io)
        },
        Phase::Written => Phase::Written,
        Phase::Failed(e) => Phase::Failed(e),
    }
}

/// The action a phase owes; `None` once the run is over.
pub open spec fn action_of(p: Phase) -> Option<Action> {
    match p {
        Phase::Start => Some(Action::LaunchBrowser),
        Phase::Launched => Some(Action::OpenTab),
        Phase::TabOpen => Some(Action::Navigate),
        Phase::Navigated => Some(Action::WaitForMarker),
        Phase::Ready => Some(Action::CaptureImage),
        Phase::Captured => Some(Action::WriteOutput),
        Phase::Written => None,
        Phase::Failed(_) => None,
    }
}

/// The final outcome a phase stands for: `None` while the run is under way.
pub open spec fn spec_outcome(p: Phase) -> Option<Result<(), CaptureError>> {
    match p {
        Phase::Written => Some(Ok(())),
        Phase::Failed(e) => Some(Err(e)),
        _ => None,
    }
}

/// One capture run: the target address it was asked to render, and where the
/// run stands. The caller performs the owed [`Action`], reports back whether
/// it succeeded, and repeats until no action is owed.
pub struct Session {
    /// The address the page is directed to.
    pub url: String,
    /// Where the run stands.
    pub phase: Phase,
}

impl Session {
    /// A fresh run against `url`: nothing has happened yet.
    pub fn new(url: String) -> (s: Session)
        ensures
            s.phase == Phase::Start,
            s.url == url,
    {
        Session { url, phase: Phase::Start }
    }

    /// The outside work owed right now; `None` once the run is over.
    pub fn next_action(&self) -> (a: Option<Action>)
        ensures
            a == action_of(self.phase),
    {
        match self.phase {
            Phase::Start => Some(Action::LaunchBrowser),
            Phase::Launched => Some(Action::OpenTab),
            Phase::TabOpen => Some(Action::Navigate),
            Phase::Navigated => Some(Action::WaitForMarker),
            Phase::Ready => Some(Action::CaptureImage),
            Phase::Captured => Some(Action::WriteOutput),
            Phase::Written => None,
            Phase::Failed(_) => None,
        }
    }

    /// Record whether the owed action succeeded. The phase advances exactly as
    /// [`step_phase`] says; the target address never changes. On a terminal
    /// phase this is a no-op.
    pub fn step(&mut self, ok: bool)
        ensures
            final(self).phase == step_phase(old(self).phase, ok),
            final(self).url == old(self).url,
    {
        let next = match self.phase {
            Phase::Start => if ok {
                Phase::Launched
            } else {
                Phase::Failed(CaptureError::Launch)
            },
            Phase::Launched => if ok {
                Phase::TabOpen
            } else {
                Phase::Failed(CaptureError::Session)
            },
            Phase::TabOpen => if ok {
                Phase::Navigated
            } else {
                Phase::Failed(CaptureError::Navigation)
            },
            Phase::Navigated => if ok {
                Phase::Ready
            } else {
                Phase::Failed(CaptureError::Timeout)
            },
            Phase::Ready => if ok {
                Phase::Captured
            } else {
                Phase::Failed(CaptureError::Capture)
            },
            Phase::Captured => if ok {
                Phase::Written
            } else {
                Phase::Failed(CaptureError::Io)
            },
            Phase::Written => Phase::Written,
            Phase::Failed(e) => Phase::Failed(e),
        };
        self.phase = next;
    }

    /// The run's result: `None` while work is still owed, `Ok` once the file
    /// is written, and the error of the step that failed otherwise.
    pub fn outcome(&self) -> (r: Option<Result<(), CaptureError>>)
        ensures
            r == spec_outcome(self.phase),
    {
        match self.phase {
            Phase::Written => Some(Ok(())),
            Phase::Failed(e) => Some(Err(e)),
            _ => None,
        }
    }
}

/// The phase a run is in after consuming `events` from phase `p`, one event
/// per step, success or failure.
pub open spec fn run_from(p: Phase, events: Seq<bool>) -> Phase
    decreases events.len(),
{
    if events.len() == 0 {
        p
    } else {
        run_from(step_phase(p, events[0]), events.skip(1))
    }
}

/// The phase a run from scratch is in after consuming `events`.
pub open spec fn run(events: Seq<bool>) -> Phase {
    run_from(Phase::Start, events)
}

/// Whether a run from `p` consuming `events` ever stands in phase `q`.
pub open spec fn visits_from(p: Phase, events: Seq<bool>, q: Phase) -> bool
    decreases events.len(),
{
    p == q || (events.len() > 0 && visits_from(step_phase(p, events[0]), events.skip(1), q))
}

/// Whether a run from scratch ever reaches `Captured` — the one phase that
/// owes the `WriteOutput` action. While this is false, no byte is ever asked
/// to be written, so the output file is neither created nor touched.
pub open spec fn attempts_write(events: Seq<bool>) -> bool {
    visits_from(Phase::Start, events, Phase::Captured)
}

/// The phase after `k` successful steps from scratch.
pub open spec fn phase_at(k: int) -> Phase {
    if k <= 0 {
        Phase::Start
    } else if k == 1 {
        Phase::Launched
    } else if k == 2 {
        Phase::TabOpen
    } else if k == 3 {
        Phase::Navigated
    } else if k == 4 {
        Phase::Ready
    } else if k == 5 {
        Phase::Captured
    } else {
        Phase::Written
    }
}

/// The error a failure of step `k` (counting from zero) surfaces.
pub open spec fn error_at(k: int) -> CaptureError {
    if k <= 0 {
        CaptureError::Launch
    } else if k == 1 {
        CaptureError::Session
    } else if k == 2 {
        CaptureError::Navigation
    } else if k == 3 {
        CaptureError::Timeout
    } else if k == 4 {
        CaptureError::Capture
    } else {
        CaptureError::Io
    }
}

proof fn lemma_run_from_terminal(p: Phase, events: Seq<bool>)
    requires
        is_terminal(p),
    ensures
        run_from(p, events) == p,
    decreases events.len(),
{
    if events.len() > 0 {
        lemma_run_from_terminal(step_phase(p, events[0]), events.skip(1));
    }
}

proof fn lemma_visits_from_failed(e: CaptureError, events: Seq<bool>, q: Phase)
    requires
        q != Phase::Failed(e),
    ensures
        !visits_from(Phase::Failed(e), events, q),
    decreases events.len(),
{
    if events.len() > 0 {
        lemma_visits_from_failed(e, events.skip(1), q);
    }
}

proof fn lemma_success_from(k: int, events: Seq<bool>)
    requires
        0 <= k <= 6,
        events.len() >= 6 - k,
        forall|i: int| 0 <= i < 6 - k ==> events[i],
    ensures
        run_from(phase_at(k), events) == Phase::Written,
        k <= 5 ==> visits_from(phase_at(k), events, Phase::Captured),
    decreases 6 - k,
{
    if k == 6 {
        lemma_run_from_terminal(Phase::Written, events);
    } else {
        assert(events[0]);
        assert(step_phase(phase_at(k), true) == phase_at(k + 1));
        assert(forall|i: int| 0 <= i < 6 - (k + 1) ==> events.skip(1)[i] == events[i + 1]);
        lemma_success_from(k + 1, events.skip(1));
    }
}

/// Law of the successful run: when every one of the six steps succeeds, the
/// run ends with the file written — whatever the target address, since the
/// address plays no part in the sequencing — and the write was reached.
pub proof fn lemma_success_run(events: Seq<bool>)
    requires
        events.len() >= 6,
        forall|i: int| 0 <= i < 6 ==> events[i],
    ensures
        run(events) == Phase::Written,
        attempts_write(events),
{
    lemma_success_from(0, events);
}

proof fn lemma_failure_from(m: int, events: Seq<bool>, k: int)
    requires
        0 <= m,
        0 <= k,
        m + k <= 5,
        k < events.len(),
        !events[k],
        forall|j: int| 0 <= j < k ==> events[j],
    ensures
        run_from(phase_at(m), events) == Phase::Failed(error_at(m + k)),
        m + k < 5 ==> !visits_from(phase_at(m), events, Phase::Captured),
    decreases k,
{
    if k == 0 {
        assert(step_phase(phase_at(m), false) == Phase::Failed(error_at(m)));
        lemma_run_from_terminal(Phase::Failed(error_at(m)), events.skip(1));
        lemma_visits_from_failed(error_at(m), events.skip(1), Phase::Captured);
    } else {
        assert(events[0]);
        assert(step_phase(phase_at(m), true) == phase_at(m + 1));
        assert(forall|j: int| 0 <= j < k - 1 ==> events.skip(1)[j] == events[j + 1]);
        assert(!events.skip(1)[k - 1]);
        lemma_failure_from(m + 1, events.skip(1), k - 1);
    }
}

/// Law of the aborted run: when step `k` is the first to fail, the run ends in
/// `Failed` with exactly that step's error — launch, session, navigation,
/// timeout, capture or io — and, as long as the failure came before the write
/// step, the write is never attempted, so no output file is created or
/// touched.
pub proof fn lemma_failure_run(events: Seq<bool>, k: int)
    requires
        0 <= k < events.len(),
        k <= 5,
        !events[k],
        forall|j: int| 0 <= j < k ==> events[j],
    ensures
        run(events) == Phase::Failed(error_at(k)),
        k < 5 ==> !attempts_write(events),
{
    lemma_failure_from(0, events, k);
}

proof fn lemma_run_from_snoc(p: Phase, events: Seq<bool>, b: bool)
    ensures
        run_from(p, events.push(b)) == step_phase(run_from(p, events), b),
    decreases events.len(),
{
    if events.len() == 0 {
        assert(events.push(b)[0] == b);
        assert(events.push(b).skip(1) =~= Seq::<bool>::empty());
        assert(run_from(p, events.push(b)) == run_from(step_phase(p, b), Seq::<bool>::empty()));
        assert(run_from(p, events) == p);
    } else {
        assert(events.push(b)[0] == events[0]);
        assert(events.push(b).skip(1) =~= events.skip(1).push(b));
        assert(run_from(p, events.push(b)) == run_from(
            step_phase(p, events[0]),
            events.skip(1).push(b),
        ));
        lemma_run_from_snoc(step_phase(p, events[0]), events.skip(1), b);
        assert(run_from(p, events) == run_from(step_phase(p, events[0]), events.skip(1)));
    }
}

/// Feed a whole list of step outcomes to a fresh run against `url`: the
/// session ends in exactly the phase the trace semantics [`run`] assigns to
/// that list.
pub fn replay(url: String, events: &Vec<bool>) -> (s: Session)
    ensures
        s.phase == run(events@),
        s.url == url,
{
    let mut s = Session::new(url);
    let n = events.len();
    for i in 0..n
        invariant
            n == events.len(),
            s.phase == run_from(Phase::Start, events@.take(i as int)),
            s.url == url,
    {
        proof {
            lemma_run_from_snoc(Phase::Start, events@.take(i as int), events@[i as int]);
            assert(events@.take(i as int).push(events@[i as int]) =~= events@.take(i as int + 1));
        }
        let ok = events[i];
        s.step(ok);
    }
    proof {
        assert(events@.take(n as int) =~= events@);
    }
    s
}

} // verus!
