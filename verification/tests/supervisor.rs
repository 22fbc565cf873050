use server_supervisor::supervisor::{Phase, Supervisor};

#[test]
fn new_supervisor_has_not_started() {
    let supervisor: Supervisor<u32> = Supervisor::new();
    assert_eq!(supervisor.phase(), Phase::NotStarted);
}

#[test]
fn recorded_child_is_given_out_at_shutdown() {
    let mut supervisor: Supervisor<u32> = Supervisor::new();
    assert_eq!(supervisor.record_child(41), Ok(()));
    assert_eq!(supervisor.phase(), Phase::Running);
    assert_eq!(supervisor.shutdown(), Some(41));
    assert_eq!(supervisor.phase(), Phase::Terminated);
}

#[test]
fn child_is_given_out_only_once() {
    let mut supervisor: Supervisor<String> = Supervisor::new();
    assert_eq!(supervisor.record_child(String::from("server")), Ok(()));
    assert_eq!(supervisor.shutdown(), Some(String::from("server")));
    assert_eq!(supervisor.shutdown(), None);
    assert_eq!(supervisor.phase(), Phase::Terminated);
}

#[test]
fn shutdown_without_a_server_gives_out_nothing() {
    let mut supervisor: Supervisor<u32> = Supervisor::new();
    assert_eq!(supervisor.shutdown(), None);
    assert_eq!(supervisor.phase(), Phase::Terminated);
}

#[test]
fn second_child_is_handed_back() {
    let mut supervisor: Supervisor<u32> = Supervisor::new();
    assert_eq!(supervisor.record_child(1), Ok(()));
    assert_eq!(supervisor.record_child(2), Err(2));
    assert_eq!(supervisor.phase(), Phase::Running);
    assert_eq!(supervisor.shutdown(), Some(1));
}

#[test]
fn child_after_shutdown_is_handed_back() {
    let mut supervisor: Supervisor<u32> = Supervisor::new();
    assert_eq!(supervisor.shutdown(), None);
    assert_eq!(supervisor.record_child(5), Err(5));
    assert_eq!(supervisor.phase(), Phase::Terminated);
    assert_eq!(supervisor.shutdown(), None);
}
