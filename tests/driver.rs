use state_machine::sample::{AppShared, AppState, Hook, Journal, Switch};
use state_machine::{NextState, State, StateMachine};

fn journal() -> Journal {
    Journal { hooks: Vec::new(), events: 0 }
}

#[test]
fn counting_machine_after_four_events() {
    let mut m = StateMachine::new(AppState::Run, AppShared { count: 0 });
    for _ in 0..4 {
        m.send_event();
    }
    assert_eq!(m.shared().count, 4);
    assert_eq!(*m.state(), AppState::Run);
}

#[test]
fn counting_machine_walks_the_edge_list() {
    let mut m = StateMachine::new(AppState::Run, AppShared { count: 0 });
    assert_eq!(*m.state(), AppState::Run);
    let expected = [
        AppState::Exit,
        AppState::Run,
        AppState::Resize,
        AppState::Run,
        AppState::Exit,
        AppState::Run,
    ];
    for (i, want) in expected.iter().enumerate() {
        m.send_event();
        assert_eq!(m.state(), want);
        assert_eq!(m.shared().count, i as u64 + 1);
    }
}

#[test]
fn counting_machine_wraps_the_count() {
    let mut m = StateMachine::new(AppState::Run, AppShared { count: u64::MAX });
    m.send_event();
    assert_eq!(m.shared().count, 0);
    assert_eq!(*m.state(), AppState::Resize);
}

#[test]
fn construction_runs_one_enter_hook() {
    let m = StateMachine::new(Switch::Off, journal());
    assert_eq!(m.shared().hooks, vec![Hook::Enter(Switch::Off)]);
    assert_eq!(m.shared().events, 0);
    assert_eq!(*m.state(), Switch::Off);
}

#[test]
fn exit_hook_runs_before_enter_hook() {
    let mut m = StateMachine::new(Switch::Off, journal());
    m.send_event();
    assert_eq!(
        m.shared().hooks,
        vec![Hook::Enter(Switch::Off), Hook::Exit(Switch::Off), Hook::Enter(Switch::On)]
    );
    assert_eq!(m.shared().events, 1);
    assert_eq!(*m.state(), Switch::On);
}

#[test]
fn staying_runs_no_hook() {
    let mut m = StateMachine::new(Switch::Jammed, journal());
    m.send_event();
    m.send_event();
    assert_eq!(m.shared().hooks, vec![Hook::Enter(Switch::Jammed)]);
    assert_eq!(m.shared().events, 2);
    assert_eq!(*m.state(), Switch::Jammed);
}

#[test]
fn two_events_cycle_back() {
    let mut m = StateMachine::new(Switch::On, journal());
    m.send_event();
    m.send_event();
    assert_eq!(*m.state(), Switch::On);
    assert_eq!(
        m.shared().hooks,
        vec![
            Hook::Enter(Switch::On),
            Hook::Exit(Switch::On),
            Hook::Enter(Switch::Off),
            Hook::Exit(Switch::Off),
            Hook::Enter(Switch::On),
        ]
    );
}

#[test]
fn transition_along_declared_edge() {
    let mut shared = journal();
    let next = Switch::On.transition(Switch::Off, &mut shared);
    assert_eq!(next.process(), Switch::Off);
    assert_eq!(shared.hooks, vec![Hook::Exit(Switch::On), Hook::Enter(Switch::Off)]);
    assert_eq!(shared.events, 0);

    let mut count = AppShared { count: 7 };
    let next = AppState::Run.transition(AppState::Resize, &mut count);
    assert_eq!(next.process(), AppState::Resize);
    assert_eq!(count.count, 7);
}

#[test]
fn handler_returns_the_successor() {
    let mut shared = AppShared { count: 0 };
    let next = AppState::Run.on_event(&mut shared);
    assert_eq!(next.map(|n| n.process()), Some(AppState::Exit));
    assert_eq!(shared.count, 1);

    let mut shared = journal();
    assert!(Switch::Jammed.on_event(&mut shared).is_none());
    assert_eq!(shared.events, 1);
    assert!(shared.hooks.is_empty());
}

#[test]
fn next_state_carries_its_state() {
    let next: NextState<AppShared, AppState> = NextState::new(AppState::Resize);
    assert_eq!(next.process(), AppState::Resize);
}
