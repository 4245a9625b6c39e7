//! The sequence that builds a shader program: compile the vertex stage,
//! compile the fragment stage, link, and fetch a diagnostic log after each
//! step that reports failure. A failure is reported and the build goes on:
//! the program handle is used whatever the statuses were.
use vstd::prelude::*;

verus! {

/// The status value that the graphics API reports for a successful compile
/// or link.
pub const STATUS_TRUE: i32 = 1;

/// The most log bytes that a diagnostic holds.
pub const LOG_CAPACITY: usize = 511;

/// A step of the build that reports a status.
#[derive(Clone, Copy, Debug, PartialEq, Eq, Structural)]
pub enum BuildTarget {
    VertexShader,
    FragmentShader,
    Link,
}

/// Where the build stands.
#[derive(Clone, Copy, Debug, PartialEq, Eq, Structural)]
pub enum BuildPhase {
    /// The step was started; its status is awaited.
    AwaitStatus(BuildTarget),
    /// The step failed; its log is awaited.
    AwaitLog(BuildTarget),
    /// Every step has run.
    Finished,
}

/// What the caller does next with the graphics API.
#[derive(Clone, Copy, Debug, PartialEq, Eq, Structural)]
pub enum BuildAction {
    /// Run the step (compile a stage, or link) and report its status.
    Start(BuildTarget),
    /// Fetch the step's log and report it.
    FetchLog(BuildTarget),
    /// Delete the two shader objects and use the linked program.
    Finish,
    /// The event did not fit the phase: do nothing.
    Nothing,
}

/// What the caller reports back to the build.
#[derive(Clone, Debug)]
pub enum BuildEvent {
    /// The status of the step last started.
    Status(i32),
    /// The raw log buffer of the step that failed.
    Log(Vec<u8>),
}

/// A failure report: which step failed, and its log text.
#[derive(Clone, Debug)]
pub struct Diagnostic {
    pub target: BuildTarget,
    pub log: Vec<u8>,
}

/// The state of one program build.
#[derive(Clone, Copy, Debug, PartialEq, Eq, Structural)]
pub struct ProgramBuild {
    pub phase: BuildPhase,
    pub vertex_ok: bool,
    pub fragment_ok: bool,
    pub link_ok: bool,
}

/// The phase and action that follow a finished step.
pub open spec fn advance(t: BuildTarget) -> (BuildPhase, BuildAction) {
    match t {
        BuildTarget::VertexShader => (
            BuildPhase::AwaitStatus(BuildTarget::FragmentShader),
            BuildAction::Start(BuildTarget::FragmentShader),
        ),
        BuildTarget::FragmentShader => (
            BuildPhase::AwaitStatus(BuildTarget::Link),
            BuildAction::Start(BuildTarget::Link),
        ),
        BuildTarget::Link => (BuildPhase::Finished, BuildAction::Finish),
    }
}

/// The build with the outcome of one step recorded and a new phase.
pub open spec fn record(b: ProgramBuild, t: BuildTarget, ok: bool, phase: BuildPhase) -> ProgramBuild {
    match t {
        BuildTarget::VertexShader => ProgramBuild { phase, vertex_ok: ok, ..b },
        BuildTarget::FragmentShader => ProgramBuild { phase, fragment_ok: ok, ..b },
        BuildTarget::Link => ProgramBuild { phase, link_ok: ok, ..b },
    }
}

/// The build and action after a status report in the phase `AwaitStatus(t)`.
pub open spec fn after_status(b: ProgramBuild, t: BuildTarget, status: i32) -> (ProgramBuild, BuildAction) {
    if status == STATUS_TRUE {
        (record(b, t, true, advance(t).0), advance(t).1)
    } else {
        (record(b, t, false, BuildPhase::AwaitLog(t)), BuildAction::FetchLog(t))
    }
}

/// The build and action after the log of a failed step `t`.
pub open spec fn after_log(b: ProgramBuild, t: BuildTarget) -> (ProgramBuild, BuildAction) {
    (ProgramBuild { phase: advance(t).0, ..b }, advance(t).1)
}

/// `n` bytes of `buf` are its log text: they hold no NUL, and they end at the
/// first NUL or at the log capacity, whichever comes first.
pub open spec fn is_log_end(buf: Seq<u8>, n: int) -> bool {
    let cap = if buf.len() < LOG_CAPACITY { buf.len() as int } else { LOG_CAPACITY as int };
    &&& 0 <= n <= cap
    &&& forall|j: int| 0 <= j < n ==> buf[j] != 0
    &&& (n == cap || buf[n] == 0)
}

/// The text of a raw log buffer: its bytes up to the first NUL, at most
/// the log capacity of them.
pub fn log_text(buf: &Vec<u8>) -> (r: Vec<u8>)
    ensures
        is_log_end(buf@, r@.len() as int),
        r@ == buf@.subrange(0, r@.len() as int),
{
    let cap: usize = if buf.len() < LOG_CAPACITY { buf.len() } else { LOG_CAPACITY };
    let mut out: Vec<u8> = Vec::new();
    let mut i: usize = 0;
    while i < cap && buf[i] != 0
        invariant
            cap <= buf@.len(),
            cap == (if buf@.len() < LOG_CAPACITY { buf@.len() as int } else { LOG_CAPACITY as int }),
            i <= cap,
            out@ == buf@.subrange(0, i as int),
            forall|j: int| 0 <= j < i ==> buf@[j] != 0,
        decreases cap - i,
    {
        out.push(buf[i]);
        i = i + 1;
        assert(out@ =~= buf@.subrange(0, i as int));
    }
    out
}

/// A build that has not yet run any step.
pub open spec fn initial_build() -> ProgramBuild {
    ProgramBuild {
        phase: BuildPhase::AwaitStatus(BuildTarget::VertexShader),
        vertex_ok: false,
        fragment_ok: false,
        link_ok: false,
    }
}

/// The build after the caller reports one status and, where that status
/// asks for it, the log of the failed step.
pub open spec fn report(b: ProgramBuild, status: i32) -> ProgramBuild {
    match b.phase {
        BuildPhase::AwaitStatus(t) => {
            let b1 = after_status(b, t, status).0;
            match b1.phase {
                BuildPhase::AwaitLog(t1) => after_log(b1, t1).0,
                _ => b1,
            }
        },
        _ => b,
    }
}

/// The build after a sequence of status reports, each with its log where
/// one is asked for.
pub open spec fn report_all(b: ProgramBuild, statuses: Seq<i32>) -> ProgramBuild
    decreases statuses.len(),
{
    if statuses.len() == 0 {
        b
    } else {
        report_all(report(b, statuses[0]), statuses.drop_first())
    }
}

/// A failed step never stops the build: once its log has been taken, the
/// build moves to the same phase and action as after a success, and the
/// failure stays recorded.
pub proof fn lemma_failure_continues(b: ProgramBuild, t: BuildTarget, status: i32)
    requires
        status != STATUS_TRUE,
    ensures
        after_status(b, t, status).1 == BuildAction::FetchLog(t),
        after_log(after_status(b, t, status).0, t).0.phase == after_status(b, t, STATUS_TRUE).0.phase,
        after_log(after_status(b, t, status).0, t).1 == after_status(b, t, STATUS_TRUE).1,
        after_log(after_status(b, t, status).0, t).0 == record(b, t, false, advance(t).0),
{
}

/// Whatever the three statuses, a build that is fed them (with the logs
/// that it asks for) finishes, and it records a step as successful exactly
/// when its status was the success value.
pub proof fn lemma_build_finishes(statuses: Seq<i32>)
    requires
        statuses.len() == 3,
    ensures
        report_all(initial_build(), statuses).phase == BuildPhase::Finished,
        report_all(initial_build(), statuses).vertex_ok == (statuses[0] == STATUS_TRUE),
        report_all(initial_build(), statuses).fragment_ok == (statuses[1] == STATUS_TRUE),
        report_all(initial_build(), statuses).link_ok == (statuses[2] == STATUS_TRUE),
{
    let b1 = report(initial_build(), statuses[0]);
    let b2 = report(b1, statuses[1]);
    let b3 = report(b2, statuses[2]);
    let s1 = statuses.drop_first();
    let s2 = s1.drop_first();
    assert(s2.drop_first().len() == 0);
    assert(report_all(b3, s2.drop_first()) == b3);
    assert(report_all(b2, s2) == b3);
    assert(report_all(b1, s1) == b3);
}

impl ProgramBuild {
    /// A new build and its first action: compile the vertex stage.
    pub fn start() -> (r: (ProgramBuild, BuildAction))
        ensures
            r.0 == initial_build(),
            r.1 == BuildAction::Start(BuildTarget::VertexShader),
    {
        (
            ProgramBuild {
                phase: BuildPhase::AwaitStatus(BuildTarget::VertexShader),
                vertex_ok: false,
                fragment_ok: false,
                link_ok: false,
            },
            BuildAction::Start(BuildTarget::VertexShader),
        )
    }

    /// Whether every step has run.
    pub fn is_finished(&self) -> (r: bool)
        ensures
            r == (self.phase == BuildPhase::Finished),
    {
        match self.phase {
            BuildPhase::Finished => true,
            _ => false,
        }
    }

    /// Whether both stages compiled and the program linked.
    pub fn succeeded(&self) -> (r: bool)
        ensures
            r == (self.vertex_ok && self.fragment_ok && self.link_ok),
    {
        self.vertex_ok && self.fragment_ok && self.link_ok
    }

    /// Takes one report from the caller. A status in the phase that awaits it
    /// records the step's outcome and either moves on or asks for the log; a
    /// log in the phase that awaits it yields a diagnostic and moves on as a
    /// success would. A report that does not fit the phase changes nothing.
    pub fn step(&self, event: &BuildEvent) -> (r: (ProgramBuild, BuildAction, Option<Diagnostic>))
        ensures
            match (self.phase, event) {
                (BuildPhase::AwaitStatus(t), BuildEvent::Status(s)) => {
                    &&& (r.0, r.1) == after_status(*self, t, *s)
                    &&& r.2.is_none()
                },
                (BuildPhase::AwaitLog(t), BuildEvent::Log(buf)) => {
                    &&& (r.0, r.1) == after_log(*self, t)
                    &&& r.2 is Some
                    &&& r.2.unwrap().target == t
                    &&& is_log_end(buf@, r.2.unwrap().log@.len() as int)
                    &&& r.2.unwrap().log@ == buf@.subrange(0, r.2.unwrap().log@.len() as int)
                },
                _ => {
                    &&& r.0 == *self
                    &&& r.1 == BuildAction::Nothing
                    &&& r.2.is_none()
                },
            },
    {
        match (self.phase, event) {
            (BuildPhase::AwaitStatus(t), BuildEvent::Status(s)) => {
                if *s == STATUS_TRUE {
                    let (phase, action) = advance_exec(t);
                    (self.with_outcome(t, true, phase), action, None)
                } else {
                    (self.with_outcome(t, false, BuildPhase::AwaitLog(t)), BuildAction::FetchLog(t), None)
                }
            },
            (BuildPhase::AwaitLog(t), BuildEvent::Log(buf)) => {
                let (phase, action) = advance_exec(t);
                let log = log_text(buf);
                (
                    ProgramBuild { phase, ..*self },
                    action,
                    Some(Diagnostic { target: t, log }),
                )
            },
            _ => (*self, BuildAction::Nothing, None),
        }
    }

    fn with_outcome(&self, t: BuildTarget, ok: bool, phase: BuildPhase) -> (r: ProgramBuild)
        ensures
            r == record(*self, t, ok, phase),
    {
        match t {
            BuildTarget::VertexShader => ProgramBuild { phase, vertex_ok: ok, ..*self },
            BuildTarget::FragmentShader => ProgramBuild { phase, fragment_ok: ok, ..*self },
            BuildTarget::Link => ProgramBuild { phase, link_ok: ok, ..*self },
        }
    }
}

fn advance_exec(t: BuildTarget) -> (r: (BuildPhase, BuildAction))
    ensures
        r == advance(t),
{
    match t {
        BuildTarget::VertexShader => (
            BuildPhase::AwaitStatus(BuildTarget::FragmentShader),
            BuildAction::Start(BuildTarget::FragmentShader),
        ),
        BuildTarget::FragmentShader => (
            BuildPhase::AwaitStatus(BuildTarget::Link),
            BuildAction::Start(BuildTarget::Link),
        ),
        BuildTarget::Link => (BuildPhase::Finished, BuildAction::Finish),
    }
}

} // verus!
