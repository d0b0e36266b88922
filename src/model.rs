use vstd::prelude::*;

verus! {

/// A capability plugin that the application attaches at construction time.
#[derive(Clone, Copy, Debug, PartialEq, Eq, Structural)]
pub enum Plugin {
    Shell,
    WindowState,
    Store,
    Process,
}

/// Why startup or the run loop ended the process.
#[derive(Clone, Copy, Debug, PartialEq, Eq, Structural)]
pub enum Failure {
    /// Building the application failed: the setup hook could not acquire the
    /// store, or a step before the run loop reported an error.
    Construction,
    /// The run loop returned an error.
    RunLoop,
}

/// How the process ends.
#[derive(Clone, Copy, Debug, PartialEq, Eq, Structural)]
pub enum Outcome {
    /// The run loop returned normally.
    Normal,
    Fatal(Failure),
}

/// What the host is asked to do next.
#[derive(Clone, Copy, Debug, PartialEq, Eq, Structural)]
pub enum Action {
    Attach(Plugin),
    /// Run the setup hook: acquire the named store and release it at once,
    /// reading and writing no key.
    RunSetup,
    /// Enter the blocking run loop.
    EnterRunLoop,
    /// End the process with this outcome.
    Exit(Outcome),
}

/// What the host reports after performing an action.
#[derive(Clone, Copy, Debug, PartialEq, Eq, Structural)]
pub enum Event {
    Done,
    Failed,
}

/// Where the sequencer stands: the step whose action is pending, or the end.
#[derive(Clone, Copy, Debug, PartialEq, Eq, Structural)]
pub enum Stage {
    AttachShell,
    AttachWindowState,
    AttachStore,
    Setup,
    AttachProcess,
    Launch,
    Exited(Outcome),
}

/// The coarse lifecycle of the application.
#[derive(Clone, Copy, Debug, PartialEq, Eq, Structural)]
pub enum Phase {
    /// Building the application, attaching plugins and running the setup hook.
    Initializing,
    /// Inside the run loop.
    Running,
    /// The process is to end.
    Exited,
}

/// The startup steps in order, when every one of them succeeds.
pub open spec fn plan() -> Seq<Action> {
    seq![
        Action::Attach(Plugin::Shell),
        Action::Attach(Plugin::WindowState),
        Action::Attach(Plugin::Store),
        Action::RunSetup,
        Action::Attach(Plugin::Process),
        Action::EnterRunLoop,
    ]
}

/// The position in `plan()` of a stage that has not exited.
pub open spec fn step_index(s: Stage) -> nat {
    match s {
        Stage::AttachShell => 0,
        Stage::AttachWindowState => 1,
        Stage::AttachStore => 2,
        Stage::Setup => 3,
        Stage::AttachProcess => 4,
        Stage::Launch => 5,
        Stage::Exited(_) => 6,
    }
}

pub open spec fn action_of(s: Stage) -> Action {
    match s {
        Stage::Exited(o) => Action::Exit(o),
        _ => plan()[step_index(s) as int],
    }
}

pub open spec fn phase_of(s: Stage) -> Phase {
    match s {
        Stage::Launch => Phase::Running,
        Stage::Exited(_) => Phase::Exited,
        _ => Phase::Initializing,
    }
}

/// The stage after the pending action of `s` reported `e`. A failure before
/// the run loop is a construction failure; one from the run loop is a run
/// loop failure; both are fatal, and nothing follows an exit.
pub open spec fn next_stage(s: Stage, e: Event) -> Stage {
    match (s, e) {
        (Stage::Exited(o), _) => Stage::Exited(o),
        (Stage::Launch, Event::Done) => Stage::Exited(Outcome::Normal),
        (Stage::Launch, Event::Failed) => Stage::Exited(Outcome::Fatal(Failure::RunLoop)),
        (_, Event::Failed) => Stage::Exited(Outcome::Fatal(Failure::Construction)),
        (Stage::AttachShell, Event::Done) => Stage::AttachWindowState,
        (Stage::AttachWindowState, Event::Done) => Stage::AttachStore,
        (Stage::AttachStore, Event::Done) => Stage::Setup,
        (Stage::Setup, Event::Done) => Stage::AttachProcess,
        (_, Event::Done) => Stage::Launch,
    }
}

/// The stage reached from `s` after the events `ev`, in order.
pub open spec fn after(s: Stage, ev: Seq<Event>) -> Stage
    decreases ev.len(),
{
    if ev.len() == 0 {
        s
    } else {
        next_stage(after(s, ev.drop_last()), ev.last())
    }
}

/// The actions handed out from `s` while the events `ev` come back: the
/// pending action first, then the one after each event.
pub open spec fn trace(s: Stage, ev: Seq<Event>) -> Seq<Action>
    decreases ev.len(),
{
    if ev.len() == 0 {
        seq![action_of(s)]
    } else {
        trace(s, ev.drop_last()).push(action_of(after(s, ev)))
    }
}

pub open spec fn exit_code_of(o: Outcome) -> i32 {
    match o {
        Outcome::Normal => 0,
        Outcome::Fatal(_) => 101,
    }
}

/// The diagnostic printed when the process ends on a failure.
pub open spec fn fatal_message() -> Seq<char> {
    "error while running tauri application"@
}

impl Outcome {
    /// The process exit status: zero on a normal end, the status of a fatal
    /// error otherwise.
    pub fn exit_code(&self) -> (r: i32)
        ensures
            r == exit_code_of(*self),
            r == 0 <==> *self == Outcome::Normal,
    {
        match self {
            Outcome::Normal => 0,
            Outcome::Fatal(_) => 101,
        }
    }

    pub fn is_fatal(&self) -> (r: bool)
        ensures
            r <==> *self is Fatal,
    {
        match self {
            Outcome::Normal => false,
            Outcome::Fatal(_) => true,
        }
    }
}

impl Failure {
    /// The diagnostic printed before the process ends on this failure.
    pub fn message(&self) -> (r: &'static str)
        ensures
            r@ == fatal_message(),
    {
        "error while running tauri application"
    }
}

} // verus!
