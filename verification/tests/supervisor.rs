use acfunonline::fatal::Fatal;
use acfunonline::supervisor::{Exit, Supervisor, Unit};

#[test]
fn supervisor_starts_running() {
    let supervisor = Supervisor::new();
    assert!(supervisor.is_running());
    assert!(supervisor.ended().is_none());
}

#[test]
fn first_failure_ends_the_operation() {
    let mut supervisor = Supervisor::new();
    let stop = supervisor.exited(Exit {
        unit: Unit::Medals,
        outcome: Err(Fatal::MedalList("down".to_string())),
    });
    assert!(stop);
    assert!(!supervisor.is_running());
    match supervisor.ended() {
        Some(Exit { unit: Unit::Medals, outcome: Err(fatal) }) => {
            assert_eq!(fatal.message(), "medal list error: down")
        },
        _ => panic!("the operation ended as the medal poller did"),
    }
}

#[test]
fn first_success_ends_the_operation_too() {
    let mut supervisor = Supervisor::new();
    assert!(supervisor.exited(Exit { unit: Unit::LiveRooms, outcome: Ok(()) }));
    assert!(!supervisor.is_running());
    assert!(matches!(
        supervisor.ended(),
        Some(Exit { unit: Unit::LiveRooms, outcome: Ok(()) })
    ));
}

#[test]
fn later_exits_change_nothing() {
    let mut supervisor = Supervisor::new();
    assert!(supervisor.exited(Exit { unit: Unit::Coordinator, outcome: Err(Fatal::Stopped) }));
    assert!(!supervisor.exited(Exit {
        unit: Unit::LiveRooms,
        outcome: Err(Fatal::LiveList("late".to_string())),
    }));
    assert!(!supervisor.exited(Exit { unit: Unit::Medals, outcome: Ok(()) }));
    match supervisor.ended() {
        Some(Exit { unit: Unit::Coordinator, outcome: Err(fatal) }) => {
            assert!(matches!(fatal, Fatal::Stopped));
            assert_eq!(fatal.message(), "stop keeping online");
        },
        _ => panic!("the operation ended as the coordinator did"),
    }
}
