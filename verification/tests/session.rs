use recbox::error::RecordError;
use recbox::ports::Channel;
use recbox::session::{is_capturing, step, Action, Event, Stage, FLUSH_INTERVAL_SECS};

fn run(events: &[Event]) -> (Stage, Vec<Action>) {
    let mut stage = Stage::Idle;
    let mut actions = Vec::new();
    for event in events {
        match step(stage, *event) {
            Some((next, action)) => {
                stage = next;
                actions.push(action);
            }
            None => break,
        }
    }
    (stage, actions)
}

fn up_to_discovery() -> Vec<Event> {
    vec![
        Event::Start,
        Event::SessionOpened { status: 0 },
        Event::InputRegistered,
        Event::InputRegistered,
    ]
}

#[test]
fn set_up_runs_in_order() {
    let mut events = up_to_discovery();
    events.extend([
        Event::OutputsListed { count: 2 },
        Event::FileCreated,
        Event::Activated,
        Event::PortConnected,
        Event::PortConnected,
    ]);
    let (stage, actions) = run(&events);
    assert_eq!(stage, Stage::Running);
    assert_eq!(
        actions,
        vec![
            Action::OpenSession,
            Action::RegisterInput(Channel::Left),
            Action::RegisterInput(Channel::Right),
            Action::ListOutputs,
            Action::CreateFile,
            Action::Activate,
            Action::ConnectPort(Channel::Left),
            Action::ConnectPort(Channel::Right),
            Action::SleepThenFlush,
        ]
    );
}

#[test]
fn flusher_goes_on_after_each_flush() {
    assert_eq!(FLUSH_INTERVAL_SECS, 1);
    let mut stage = Stage::Running;
    for _ in 0..10 {
        let (next, action) = step(stage, Event::Flushed).unwrap();
        assert_eq!(action, Action::SleepThenFlush);
        stage = next;
    }
    assert_eq!(stage, Stage::Running);
}

#[test]
fn wrong_output_count_ends_the_run_before_the_file() {
    for count in [0usize, 1, 3, 4, 17, usize::MAX] {
        let mut events = up_to_discovery();
        events.push(Event::OutputsListed { count });
        events.extend([Event::FileCreated, Event::Activated, Event::PortConnected]);
        let (stage, actions) = run(&events);
        assert_eq!(stage, Stage::Failed(RecordError::NoOutputPorts));
        assert_eq!(actions.last(), Some(&Action::Abort(RecordError::NoOutputPorts)));
        assert_eq!(actions.len(), 5);
        assert!(!actions.contains(&Action::CreateFile));
        assert!(!actions.contains(&Action::Activate));
    }
}

#[test]
fn session_with_status_flags_is_refused() {
    let (stage, actions) = run(&[Event::Start, Event::SessionOpened { status: 0x10 }]);
    assert_eq!(stage, Stage::Failed(RecordError::Connection));
    assert_eq!(actions, vec![Action::OpenSession, Action::Abort(RecordError::Connection)]);
}

#[test]
fn unreachable_graph_is_a_connection_error() {
    let (stage, _) = run(&[Event::Start, Event::SessionRefused]);
    assert_eq!(stage, Stage::Failed(RecordError::Connection));
}

#[test]
fn rejected_input_is_a_registration_error() {
    let (stage, _) =
        run(&[Event::Start, Event::SessionOpened { status: 0 }, Event::InputRejected]);
    assert_eq!(stage, Stage::Failed(RecordError::PortRegistration));
    let (stage, actions) = run(&[
        Event::Start,
        Event::SessionOpened { status: 0 },
        Event::InputRegistered,
        Event::InputRejected,
    ]);
    assert_eq!(stage, Stage::Failed(RecordError::PortRegistration));
    assert_eq!(actions.last(), Some(&Action::Abort(RecordError::PortRegistration)));
}

#[test]
fn refused_file_is_a_creation_error() {
    let mut events = up_to_discovery();
    events.extend([Event::OutputsListed { count: 2 }, Event::FileRefused]);
    let (stage, actions) = run(&events);
    assert_eq!(stage, Stage::Failed(RecordError::FileCreation));
    assert!(!actions.contains(&Action::Activate));
}

#[test]
fn refused_activation_is_a_connection_error() {
    let mut events = up_to_discovery();
    events.extend([
        Event::OutputsListed { count: 2 },
        Event::FileCreated,
        Event::ActivationRefused,
    ]);
    let (stage, _) = run(&events);
    assert_eq!(stage, Stage::Failed(RecordError::Connection));
}

#[test]
fn refused_connection_is_fatal_for_either_channel() {
    let mut events = up_to_discovery();
    events.extend([Event::OutputsListed { count: 2 }, Event::FileCreated, Event::Activated]);
    let mut left = events.clone();
    left.push(Event::PortRefused);
    assert_eq!(run(&left).0, Stage::Failed(RecordError::PortConnection));
    let mut right = events.clone();
    right.extend([Event::PortConnected, Event::PortRefused]);
    let (stage, actions) = run(&right);
    assert_eq!(stage, Stage::Failed(RecordError::PortConnection));
    assert!(!actions.contains(&Action::SleepThenFlush));
}

#[test]
fn failures_while_running() {
    assert_eq!(
        step(Stage::Running, Event::FlushFailed),
        Some((Stage::Failed(RecordError::Flush), Action::Abort(RecordError::Flush)))
    );
    assert_eq!(
        step(Stage::Running, Event::LockPoisoned),
        Some((Stage::Failed(RecordError::Lock), Action::Abort(RecordError::Lock)))
    );
}

#[test]
fn failure_is_final() {
    let failed = Stage::Failed(RecordError::Write);
    let events =
        [Event::Start, Event::Flushed, Event::FileCreated, Event::OutputsListed { count: 2 }];
    for event in events {
        assert_eq!(step(failed, event), None);
    }
}

#[test]
fn unexpected_events_are_no_answer() {
    assert_eq!(step(Stage::Idle, Event::FileCreated), None);
    assert_eq!(step(Stage::Idle, Event::OutputsListed { count: 2 }), None);
    assert_eq!(step(Stage::Opening, Event::Start), None);
    assert_eq!(step(Stage::Discovering, Event::FileCreated), None);
    assert_eq!(step(Stage::Running, Event::Start), None);
    assert_eq!(step(Stage::CreatingFile, Event::Activated), None);
}

#[test]
fn callback_is_active_from_activation_on() {
    assert!(!is_capturing(Stage::Idle));
    assert!(!is_capturing(Stage::Discovering));
    assert!(!is_capturing(Stage::CreatingFile));
    assert!(!is_capturing(Stage::Activating));
    assert!(is_capturing(Stage::Connecting(Channel::Left)));
    assert!(is_capturing(Stage::Connecting(Channel::Right)));
    assert!(is_capturing(Stage::Running));
    assert!(!is_capturing(Stage::Failed(RecordError::Flush)));
}
