use lightningd::disposal_plan;
use lightningd::stop_step;
use lightningd::DataDir;
use lightningd::Error;
use lightningd::ProcessState;

#[test]
fn stop_twice_first_ok_then_error() {
    // First stop on a running process: the graceful request is delivered
    // and the wait returns the exit status.
    let (st1, r1) = stop_step(ProcessState::Running, 0);
    assert_eq!(st1, ProcessState::Exited);
    assert_eq!(r1.unwrap(), 0);
    // Second stop on the same handle: the process is already gone, so the
    // call is a well-defined error and the state is unchanged.
    let (st2, r2) = stop_step(st1, 0);
    assert_eq!(st2, ProcessState::Exited);
    assert!(matches!(r2, Err(Error::Rpc())));
}

#[test]
fn stop_surfaces_raw_status() {
    let (_, r) = stop_step(ProcessState::Running, 137);
    assert_eq!(r.unwrap(), 137);
}

#[test]
fn disposal_of_persistent_directory_stops_then_kills() {
    let plan = disposal_plan(&DataDir::Persistent("/tmp/mynode".to_string()));
    assert!(plan.graceful_first);
    assert!(plan.force_kill);
}

#[test]
fn disposal_of_temporary_directory_kills_only() {
    let plan = disposal_plan(&DataDir::Temporary("/tmp/xyz".to_string()));
    assert!(!plan.graceful_first);
    // The forceful termination safety net runs in every disposal mode, so
    // the process is never left running.
    assert!(plan.force_kill);
}
