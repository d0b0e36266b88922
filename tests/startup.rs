use bootstrap::{replay, store_file, Action, Event, Failure, Outcome, Phase, Plugin, Sequencer, Stage};

fn done(n: usize) -> Vec<Event> {
    vec![Event::Done; n]
}

#[test]
fn plugins_attach_in_order_with_setup_before_process() {
    let actions = replay(&done(6));
    assert_eq!(
        actions,
        vec![
            Action::Attach(Plugin::Shell),
            Action::Attach(Plugin::WindowState),
            Action::Attach(Plugin::Store),
            Action::RunSetup,
            Action::Attach(Plugin::Process),
            Action::EnterRunLoop,
            Action::Exit(Outcome::Normal),
        ]
    );
}

#[test]
fn no_events_gives_only_the_first_step() {
    assert_eq!(replay(&Vec::new()), vec![Action::Attach(Plugin::Shell)]);
}

#[test]
fn setup_with_reachable_store_continues_startup() {
    let actions = replay(&done(4));
    assert_eq!(actions[3], Action::RunSetup);
    assert_eq!(actions[4], Action::Attach(Plugin::Process));
    let mut s = Sequencer::new();
    for _ in 0..4 {
        s.advance(Event::Done);
    }
    assert_eq!(s.stage(), Stage::AttachProcess);
    assert_eq!(s.phase(), Phase::Initializing);
}

#[test]
fn setup_with_unreachable_store_never_reaches_run_loop() {
    let mut events = done(3);
    events.push(Event::Failed);
    events.push(Event::Done);
    events.push(Event::Done);
    let actions = replay(&events);
    assert_eq!(actions.len(), 7);
    assert!(!actions.contains(&Action::EnterRunLoop));
    let fatal = Outcome::Fatal(Failure::Construction);
    assert_eq!(actions[4], Action::Exit(fatal));
    assert_eq!(*actions.last().unwrap(), Action::Exit(fatal));
    assert_ne!(fatal.exit_code(), 0);
}

#[test]
fn run_loop_error_exits_with_diagnostic() {
    let mut events = done(5);
    events.push(Event::Failed);
    let actions = replay(&events);
    assert_eq!(actions[5], Action::EnterRunLoop);
    assert_eq!(actions[6], Action::Exit(Outcome::Fatal(Failure::RunLoop)));
    let fatal = Outcome::Fatal(Failure::RunLoop);
    assert!(fatal.is_fatal());
    assert_eq!(fatal.exit_code(), 101);
    assert_eq!(Failure::RunLoop.message(), "error while running tauri application");
}

#[test]
fn startup_without_input_reaches_run_loop() {
    let mut s = Sequencer::new();
    assert_eq!(s.phase(), Phase::Initializing);
    assert_eq!(s.action(), Action::Attach(Plugin::Shell));
    for _ in 0..5 {
        assert_eq!(s.phase(), Phase::Initializing);
        s.advance(Event::Done);
    }
    assert_eq!(s.action(), Action::EnterRunLoop);
    assert_eq!(s.phase(), Phase::Running);
}

#[test]
fn normal_shutdown_exits_with_zero() {
    let mut s = Sequencer::new();
    for _ in 0..6 {
        s.advance(Event::Done);
    }
    assert_eq!(s.phase(), Phase::Exited);
    assert_eq!(s.action(), Action::Exit(Outcome::Normal));
    assert_eq!(Outcome::Normal.exit_code(), 0);
    assert!(!Outcome::Normal.is_fatal());
}

#[test]
fn failed_attachment_is_a_construction_failure() {
    let actions = replay(&vec![Event::Done, Event::Failed]);
    assert_eq!(
        actions,
        vec![
            Action::Attach(Plugin::Shell),
            Action::Attach(Plugin::WindowState),
            Action::Exit(Outcome::Fatal(Failure::Construction)),
        ]
    );
    assert_eq!(Failure::Construction.message(), "error while running tauri application");
}

#[test]
fn exit_is_final() {
    let mut s = Sequencer::new();
    s.advance(Event::Failed);
    let exited = s.stage();
    s.advance(Event::Done);
    s.advance(Event::Failed);
    assert_eq!(s.stage(), exited);
    assert_eq!(exited, Stage::Exited(Outcome::Fatal(Failure::Construction)));
}

#[test]
fn setup_hook_opens_the_named_store() {
    assert_eq!(store_file(), "store.json");
}
