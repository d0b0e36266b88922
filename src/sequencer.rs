use vstd::prelude::*;
use crate::model::{action_of, after, next_stage, phase_of, trace, Action, Event, Failure, Outcome, Phase, Plugin, Stage};

verus! {

/// The name of the persistent store that the setup hook acquires.
pub fn store_file() -> (r: &'static str)
    ensures
        r@ == "store.json"@,
{
    "store.json"
}

/// Drives application startup: hands out one action at a time and moves on
/// by what the host reports of it.
pub struct Sequencer {
    pub stage: Stage,
}

impl Sequencer {
    /// A sequencer before any step, its first action pending.
    pub fn new() -> (r: Sequencer)
        ensures
            r.stage == Stage::AttachShell,
    {
        Sequencer { stage: Stage::AttachShell }
    }

    pub fn stage(&self) -> (r: Stage)
        ensures
            r == self.stage,
    {
        self.stage
    }

    /// The action the host is to perform now.
    pub fn action(&self) -> (r: Action)
        ensures
            r == action_of(self.stage),
    {
        match self.stage {
            Stage::AttachShell => Action::Attach(Plugin::Shell),
            Stage::AttachWindowState => Action::Attach(Plugin::WindowState),
            Stage::AttachStore => Action::Attach(Plugin::Store),
            Stage::Setup => Action::RunSetup,
            Stage::AttachProcess => Action::Attach(Plugin::Process),
            Stage::Launch => Action::EnterRunLoop,
            Stage::Exited(o) => Action::Exit(o),
        }
    }

    pub fn phase(&self) -> (r: Phase)
        ensures
            r == phase_of(self.stage),
    {
        match self.stage {
            Stage::Launch => Phase::Running,
            Stage::Exited(_) => Phase::Exited,
            _ => Phase::Initializing,
        }
    }

    /// Records what became of the pending action.
    pub fn advance(&mut self, e: Event)
        ensures
            final(self).stage == next_stage(old(self).stage, e),
    {
        let s = match (self.stage, e) {
            (Stage::Exited(o), _) => Stage::Exited(o),
            (Stage::Launch, Event::Done) => Stage::Exited(Outcome::Normal),
            (Stage::Launch, Event::Failed) => Stage::Exited(
                Outcome::Fatal(Failure::RunLoop),
            ),
            (_, Event::Failed) => Stage::Exited(Outcome::Fatal(Failure::Construction)),
            (Stage::AttachShell, Event::Done) => Stage::AttachWindowState,
            (Stage::AttachWindowState, Event::Done) => Stage::AttachStore,
            (Stage::AttachStore, Event::Done) => Stage::Setup,
            (Stage::Setup, Event::Done) => Stage::AttachProcess,
            (_, Event::Done) => Stage::Launch,
        };
        self.stage = s;
    }
}

/// Runs a fresh sequencer against a host that reports `events` in turn, and
/// returns every action it hands out: the first one, then one after each event.
pub fn replay(events: &Vec<Event>) -> (r: Vec<Action>)
    ensures
        r@ == trace(Stage::AttachShell, events@),
{
    let mut seq = Sequencer::new();
    let mut actions: Vec<Action> = Vec::new();
    actions.push(seq.action());
    assert(events@.take(0) =~= Seq::<Event>::empty());
    let mut i: usize = 0;
    while i < events.len()
        invariant
            i <= events@.len(),
            seq.stage == after(Stage::AttachShell, events@.take(i as int)),
            actions@ == trace(Stage::AttachShell, events@.take(i as int)),
        decreases events@.len() - i,
    {
        seq.advance(events[i]);
        actions.push(seq.action());
        assert(events@.take(i + 1).drop_last() =~= events@.take(i as int));
        i = i + 1;
    }
    assert(events@.take(i as int) =~= events@);
    actions
}

} // verus!
