use vstd::prelude::*;
use crate::model::{
    action_of, after, exit_code_of, phase_of, plan, step_index, trace, Action, Event,
    Failure, Outcome, Phase, Plugin, Stage,
};

verus! {

/// Every event in `ev` reports success.
pub open spec fn all_done(ev: Seq<Event>) -> bool {
    forall|i: int| 0 <= i < ev.len() ==> ev[i] == Event::Done
}

/// The `j`-th action handed out is the pending action of the stage reached
/// after the first `j` events.
pub proof fn lemma_trace_at(s: Stage, ev: Seq<Event>, j: int)
    requires
        0 <= j <= ev.len(),
    ensures
        trace(s, ev).len() == ev.len() + 1,
        trace(s, ev)[j] == action_of(after(s, ev.take(j))),
    decreases ev.len(),
{
    if ev.len() == 0 {
        assert(ev.take(0) =~= ev);
    } else {
        lemma_trace_at(s, ev.drop_last(), 0);
        if j == ev.len() {
            assert(ev.take(j) =~= ev);
        } else {
            lemma_trace_at(s, ev.drop_last(), j);
            assert(ev.drop_last().take(j) =~= ev.take(j));
        }
    }
}

/// From the start, each event either ends the run or moves one step along
/// the plan.
pub proof fn lemma_progress(ev: Seq<Event>)
    ensures
        after(Stage::AttachShell, ev) is Exited || step_index(after(Stage::AttachShell, ev))
            == ev.len(),
    decreases ev.len(),
{
    if ev.len() > 0 {
        lemma_progress(ev.drop_last());
    }
}

/// When every event so far reports success, the sequencer stands at the step
/// of the plan with that number, or has exited normally after the run loop.
pub proof fn lemma_all_done(ev: Seq<Event>)
    requires
        all_done(ev),
        ev.len() <= 6,
    ensures
        ev.len() < 6 ==> after(Stage::AttachShell, ev) !is Exited && step_index(
            after(Stage::AttachShell, ev),
        ) == ev.len(),
        ev.len() == 6 ==> after(Stage::AttachShell, ev) == Stage::Exited(Outcome::Normal),
    decreases ev.len(),
{
    if ev.len() > 0 {
        let p = ev.drop_last();
        assert(all_done(p)) by {
            assert forall|i: int| 0 <= i < p.len() implies p[i] == Event::Done by {
                assert(p[i] == ev[i]);
            }
        }
        lemma_all_done(p);
        assert(ev.last() == Event::Done);
    }
}

/// Once exited, the sequencer stays exited with the same outcome, whatever
/// comes back afterwards.
pub proof fn lemma_exit_is_final(s: Stage, ev: Seq<Event>, k: int, o: Outcome)
    requires
        0 <= k <= ev.len(),
        after(s, ev.take(k)) == Stage::Exited(o),
    ensures
        after(s, ev) == Stage::Exited(o),
    decreases ev.len(),
{
    if k == ev.len() {
        assert(ev.take(k) =~= ev);
    } else {
        assert(ev.drop_last().take(k) =~= ev.take(k));
        lemma_exit_is_final(s, ev.drop_last(), k, o);
    }
}

/// Startup follows the plan: shell, window state and store are attached, then
/// the setup hook runs, then the process plugin is attached, then the run
/// loop is entered. Whatever the host reports, every action handed out is
/// the step of the plan at its position or an exit; and when every step
/// succeeds, the actions are exactly the plan followed by a normal exit.
pub proof fn law_startup_follows_plan(ev: Seq<Event>)
    ensures
        plan() == seq![
            Action::Attach(Plugin::Shell),
            Action::Attach(Plugin::WindowState),
            Action::Attach(Plugin::Store),
            Action::RunSetup,
            Action::Attach(Plugin::Process),
            Action::EnterRunLoop,
        ],
        forall|i: int|
            0 <= i < trace(Stage::AttachShell, ev).len() ==> (trace(Stage::AttachShell, ev)[i] is Exit
                || trace(Stage::AttachShell, ev)[i] == plan()[i]),
        all_done(ev) && ev.len() == 6 ==> trace(Stage::AttachShell, ev) == plan().push(
            Action::Exit(Outcome::Normal),
        ),
{
    let t = trace(Stage::AttachShell, ev);
    lemma_trace_at(Stage::AttachShell, ev, 0);
    assert forall|i: int| 0 <= i < t.len() implies (t[i] is Exit || t[i] == plan()[i]) by {
        lemma_trace_at(Stage::AttachShell, ev, i);
        lemma_progress(ev.take(i));
    }
    if all_done(ev) && ev.len() == 6 {
        let want = plan().push(Action::Exit(Outcome::Normal));
        assert forall|i: int| 0 <= i < t.len() implies t[i] == want[i] by {
            let p = ev.take(i);
            lemma_trace_at(Stage::AttachShell, ev, i);
            assert(all_done(p)) by {
                assert forall|j: int| 0 <= j < p.len() implies p[j] == Event::Done by {
                    assert(p[j] == ev[j]);
                }
            }
            lemma_all_done(p);
        }
        assert(t =~= want);
    }
}

/// The setup hook, with the store reachable, returns successfully and
/// startup goes on: after the three attachments and the hook succeed, the
/// next action is attaching the process plugin. The hook's action is the
/// only one that touches the store, and it reads and writes no key.
pub proof fn law_setup_succeeds(ev: Seq<Event>)
    requires
        all_done(ev),
        ev.len() == 4,
    ensures
        after(Stage::AttachShell, ev) == Stage::AttachProcess,
        phase_of(after(Stage::AttachShell, ev)) == Phase::Initializing,
        trace(Stage::AttachShell, ev) == plan().take(5),
        trace(Stage::AttachShell, ev)[3] == Action::RunSetup,
{
    lemma_all_done(ev);
    let t = trace(Stage::AttachShell, ev);
    lemma_trace_at(Stage::AttachShell, ev, 0);
    assert forall|i: int| 0 <= i < t.len() implies t[i] == plan().take(5)[i] by {
        let p = ev.take(i);
        lemma_trace_at(Stage::AttachShell, ev, i);
        assert(all_done(p)) by {
            assert forall|j: int| 0 <= j < p.len() implies p[j] == Event::Done by {
                assert(p[j] == ev[j]);
            }
        }
        lemma_all_done(p);
    }
    assert(t =~= plan().take(5));
}

/// If the setup hook cannot acquire the store, construction fails: the
/// process exits fatally with a non-zero status, and the run loop is never
/// entered, whatever is reported afterwards.
pub proof fn law_setup_failure_stops_startup(ev: Seq<Event>)
    requires
        ev.len() >= 4,
        all_done(ev.take(3)),
        ev[3] == Event::Failed,
    ensures
        after(Stage::AttachShell, ev) == Stage::Exited(Outcome::Fatal(Failure::Construction)),
        trace(Stage::AttachShell, ev).last() == Action::Exit(
            Outcome::Fatal(Failure::Construction),
        ),
        forall|i: int|
            0 <= i < trace(Stage::AttachShell, ev).len() ==> trace(Stage::AttachShell, ev)[i]
                != Action::EnterRunLoop,
        exit_code_of(Outcome::Fatal(Failure::Construction)) != 0,
{
    let o = Outcome::Fatal(Failure::Construction);
    let t = trace(Stage::AttachShell, ev);
    lemma_all_done(ev.take(3));
    assert(ev.take(4).drop_last() =~= ev.take(3));
    assert(after(Stage::AttachShell, ev.take(4)) == Stage::Exited(o));
    lemma_exit_is_final(Stage::AttachShell, ev, 4, o);
    lemma_trace_at(Stage::AttachShell, ev, ev.len() as int);
    assert(ev.take(ev.len() as int) =~= ev);
    assert forall|i: int| 0 <= i < t.len() implies t[i] != Action::EnterRunLoop by {
        lemma_trace_at(Stage::AttachShell, ev, i);
        let p = ev.take(i);
        if i <= 3 {
            assert(all_done(p)) by {
                assert forall|j: int| 0 <= j < p.len() implies p[j] == Event::Done by {
                    assert(p[j] == ev.take(3)[j]);
                }
            }
            lemma_all_done(p);
        } else {
            assert(p.take(4) =~= ev.take(4));
            lemma_exit_is_final(Stage::AttachShell, p, 4, o);
        }
    }
}

/// The run loop is entered only after every earlier step succeeded; if it
/// then returns an error, the process exits fatally with a non-zero status.
pub proof fn law_run_loop_failure_is_fatal(ev: Seq<Event>)
    requires
        ev.len() >= 1,
        after(Stage::AttachShell, ev.drop_last()) == Stage::Launch,
        ev.last() == Event::Failed,
    ensures
        ev.len() == 6,
        all_done(ev.drop_last()),
        after(Stage::AttachShell, ev) == Stage::Exited(Outcome::Fatal(Failure::RunLoop)),
        trace(Stage::AttachShell, ev).last() == Action::Exit(Outcome::Fatal(Failure::RunLoop)),
        exit_code_of(Outcome::Fatal(Failure::RunLoop)) != 0,
{
    let p = ev.drop_last();
    lemma_progress(p);
    assert forall|j: int| 0 <= j < p.len() implies p[j] == Event::Done by {
        if p[j] == Event::Failed {
            let q = p.take(j + 1);
            lemma_progress(p.take(j));
            assert(q.drop_last() =~= p.take(j));
            assert(after(Stage::AttachShell, q) is Exited);
            let o = after(Stage::AttachShell, q)->Exited_0;
            lemma_exit_is_final(Stage::AttachShell, p, j + 1, o);
        }
    }
    lemma_trace_at(Stage::AttachShell, ev, ev.len() as int);
    assert(ev.take(ev.len() as int) =~= ev);
}

} // verus!
