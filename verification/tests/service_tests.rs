use machine_manager_server::machine::{ConcurrencyConfig, MachineRuntimeConfig, RunSummary};
use machine_manager_server::service::{
    begin_run_request, begin_session_request, begin_step_request, check_and_set_new_request,
    check_and_set_run_request, clear_request, deduce_tonic_error_type, end_session_failure, find_session,
    finish_run_start, finish_session_request, new_session_failure, operation_failure, plan_new_session,
    shutdown_gate, NewSessionSource, NewSessionStage, Operation, ServiceKind, SessionRunResponse, StatusCode,
};
use machine_manager_server::session::{MachineSource, Session, SessionRequest};
use machine_manager_server::session_manager::RamSessionManager;
use machine_manager_server::wire;

fn runtime() -> MachineRuntimeConfig {
    MachineRuntimeConfig { concurrency: ConcurrencyConfig { update_merkle_tree: 0 } }
}

fn free_session(id: &str) -> Session {
    let request = SessionRequest::new("create", "NewSessionRequest", "");
    let mut s = Session::init_from_directory(id, "/d", runtime(), &request);
    s.clear_request();
    s
}

fn manager_with(ids: &[&str]) -> RamSessionManager {
    let mut m = RamSessionManager::new("");
    for id in ids {
        m.insert(free_session(id));
    }
    m
}

fn summary(mcycle: u64, halted: bool) -> RunSummary {
    RunSummary { mcycle, tohost: 0, iflags_h: halted, iflags_y: false }
}

fn read_request() -> SessionRequest {
    SessionRequest::new("r1", "SessionReadMemoryRequest", "")
}

fn run_request() -> SessionRequest {
    SessionRequest::new("run1", "SessionRunRequest", "")
}

#[test]
fn error_type_follows_the_pattern() {
    let s = deduce_tonic_error_type("x unexpected session cycle, current cycle is 5", "unexpected session cycle, current cycle is", "m");
    assert_eq!(s.code, StatusCode::InvalidArgument);
    assert_eq!(s.message, "m");
    let s = deduce_tonic_error_type("connection refused", "unexpected session cycle, current cycle is", "m2");
    assert_eq!(s.code, StatusCode::Internal);
    assert_eq!(s.message, "m2");
}

#[test]
fn same_request_twice_is_refused() {
    let mut s = free_session("a");
    let r = read_request();
    assert!(check_and_set_new_request(&mut s, &r).is_ok());
    assert!(s.get_current_request().as_ref().unwrap().same_as(&r));
    let refused = check_and_set_new_request(&mut s, &r).unwrap_err();
    assert_eq!(refused.code, StatusCode::AlreadyExists);
    assert_eq!(refused.message, "operation already in progress");
    let other = SessionRequest::new("r2", "SessionReadMemoryRequest", "");
    assert!(check_and_set_new_request(&mut s, &other).is_ok());
    assert!(s.get_current_request().as_ref().unwrap().same_as(&other));
    assert_eq!(check_and_set_new_request(&mut s, &other).unwrap_err().code, StatusCode::AlreadyExists);
    assert!(check_and_set_new_request(&mut s, &r).is_ok());
    assert!(s.get_current_request().as_ref().unwrap().same_as(&r));
    clear_request(&mut s);
    assert!(s.get_current_request().is_none());
    assert!(check_and_set_new_request(&mut s, &r).is_ok());
}

#[test]
fn unknown_session_and_shutdown() {
    let m = manager_with(&["a"]);
    assert_eq!(find_session(&m, "a").unwrap(), 0);
    let e = find_session(&m, "zz").unwrap_err();
    assert_eq!(e.code, StatusCode::InvalidArgument);
    assert_eq!(e.message, "unknown session id zz");
    assert!(shutdown_gate(false).is_ok());
    let e = shutdown_gate(true).unwrap_err();
    assert_eq!(e.code, StatusCode::Unavailable);
    assert_eq!(e.message, "Server is shutting down, not accepting new requests");
}

#[test]
fn operation_request_lifecycle() {
    let mut m = manager_with(&["a", "b"]);
    let r = read_request();
    let e = begin_session_request(&mut m, "c", &r, Operation::ReadMemory, true).unwrap_err();
    assert_eq!(e.message, "unknown session id c");
    let e = begin_session_request(&mut m, "b", &r, Operation::ReadMemory, false).unwrap_err();
    assert_eq!(e.code, StatusCode::InvalidArgument);
    assert_eq!(e.message, "error executing session read memory request - missing position argument");
    assert!(m.session_at(1).get_current_request().is_none());
    assert_eq!(begin_session_request(&mut m, "b", &r, Operation::ReadMemory, true).unwrap(), 1);
    let e = begin_session_request(&mut m, "b", &r, Operation::ReadMemory, true).unwrap_err();
    assert_eq!(e.code, StatusCode::AlreadyExists);
    assert!(finish_session_request(&mut m, 1, Operation::ReadMemory, ServiceKind::Standard, None).is_ok());
    assert!(m.session_at(1).get_current_request().is_none());
    assert_eq!(begin_session_request(&mut m, "b", &r, Operation::ReadMemory, true).unwrap(), 1);
}

#[test]
fn missing_arguments_per_operation() {
    let mut m = manager_with(&["a"]);
    let r = read_request();
    let cases = [
        (Operation::Store, "error execution session store request - missing store directory argument"),
        (Operation::WriteMemory, "Error executing session write memory request - missing position argument"),
        (Operation::GetProof, "error executing session get proof request - missing target argument"),
        (Operation::ReplaceMemoryRange, "Error executing session replac memory range request - missing range argument"),
        (Operation::Step, "step request invalid argument, missing step params argument"),
    ];
    for (op, text) in cases {
        let e = begin_session_request(&mut m, "a", &r, op, false).unwrap_err();
        assert_eq!(e.code, StatusCode::InvalidArgument);
        assert_eq!(e.message, text);
    }
}

#[test]
fn step_without_log_type_keeps_the_request() {
    let mut m = manager_with(&["a"]);
    let r = SessionRequest::new("s1", "SessionStepRequest", "");
    let e = begin_step_request(&mut m, "a", &r, false, true).unwrap_err();
    assert_eq!(e.message, "step request invalid argument, missing step params argument");
    let e = begin_step_request(&mut m, "a", &r, true, false).unwrap_err();
    assert_eq!(e.code, StatusCode::InvalidArgument);
    assert_eq!(e.message, "step request invalid argument, missing log type");
    assert!(m.session_at(0).get_current_request().as_ref().unwrap().same_as(&r));
    let e = begin_step_request(&mut m, "a", &r, true, true).unwrap_err();
    assert_eq!(e.code, StatusCode::AlreadyExists);
    let other = SessionRequest::new("s2", "SessionStepRequest", "");
    assert_eq!(begin_step_request(&mut m, "a", &other, true, true).unwrap(), 0);
}

#[test]
fn failed_operations_are_reported() {
    let mut m = manager_with(&["a"]);
    let r = read_request();
    begin_session_request(&mut m, "a", &r, Operation::ReadMemory, true).unwrap();
    let details = "machine manager session error: unexpected session cycle, current cycle is 3";
    let e = finish_session_request(&mut m, 0, Operation::ReadMemory, ServiceKind::Standard, Some(details)).unwrap_err();
    assert_eq!(e.code, StatusCode::InvalidArgument);
    assert_eq!(
        e.message,
        "error executing session read memory for session id=a. Details:'machine manager session error: unexpected session cycle, current cycle is 3'"
    );
    assert!(m.session_at(0).get_current_request().is_none());
    let e = operation_failure(Operation::ReadMemory, ServiceKind::Defective, "a", details);
    assert_eq!(e.code, StatusCode::Internal);
    let e = operation_failure(Operation::WriteMemory, ServiceKind::Defective, "a", "unexpected requested cycle");
    assert_eq!(e.code, StatusCode::InvalidArgument);
    assert_eq!(e.message, "Error executing session write memory for session id=a. Details:'unexpected requested cycle'");
    let e = operation_failure(Operation::Step, ServiceKind::Standard, "x", "lost");
    assert_eq!(e.message, "error executing session step for session id=x. Details:'lost'");
    let e = operation_failure(Operation::GetProof, ServiceKind::Standard, "x", "lost");
    assert_eq!(e.message, "error executing session get proof for session id=x. Details:'lost'");
    let e = operation_failure(Operation::ReplaceMemoryRange, ServiceKind::Standard, "x", "lost");
    assert_eq!(e.message, "Error executing session replace memory range for session id=x. Details:'lost'");
    let e = operation_failure(Operation::Store, ServiceKind::Standard, "x", "disk full");
    assert_eq!(e.code, StatusCode::Internal);
    assert_eq!(e.message, "disk full");
}

#[test]
fn run_request_progress_then_result() {
    let mut s = free_session("a");
    let r = run_request();
    assert!(check_and_set_run_request(&mut s, &r).unwrap().is_none());
    s.start_job("run1", &[10, 20], &[0, 0]);
    s.record_job_step(summary(10, false), machine_manager_server::machine::Hash([1; 32]));
    match check_and_set_run_request(&mut s, &r).unwrap() {
        Some(SessionRunResponse::Progress(p)) => {
            assert_eq!((p.cycle, p.progress, p.halted), (10, 50, false));
        },
        other => panic!("unexpected answer {:?}", other),
    }
    assert!(s.get_current_request().is_some());
    s.record_job_step(summary(20, false), machine_manager_server::machine::Hash([2; 32]));
    match check_and_set_run_request(&mut s, &r).unwrap() {
        Some(SessionRunResponse::Result(res)) => {
            assert_eq!(res.hashes.len(), 2);
            assert_eq!(res.summaries[1].mcycle, 20);
        },
        other => panic!("unexpected answer {:?}", other),
    }
    assert!(s.get_current_request().is_none());
    assert!(s.current_job_id().is_none());
    assert!(check_and_set_run_request(&mut s, &r).unwrap().is_none());
}

#[test]
fn halted_run_answers_with_result() {
    let mut s = free_session("a");
    let r = run_request();
    check_and_set_run_request(&mut s, &r).unwrap();
    s.start_job("run1", &[10, 20, 30], &[0, 0, 0]);
    s.record_job_step(summary(12, true), machine_manager_server::machine::Hash([4; 32]));
    match check_and_set_run_request(&mut s, &r).unwrap() {
        Some(SessionRunResponse::Result(res)) => assert_eq!(res.hashes.len(), 2),
        other => panic!("unexpected answer {:?}", other),
    }
}

#[test]
fn run_request_without_job_fails() {
    let mut s = free_session("a");
    let r = run_request();
    check_and_set_run_request(&mut s, &r).unwrap();
    let e = check_and_set_run_request(&mut s, &r).unwrap_err();
    assert_eq!(e.code, StatusCode::InvalidArgument);
    assert_eq!(e.message, "unable to get execution progress: machine manager session error: no current task is running");
    s.start_job("elsewhere", &[10], &[0]);
    let e = check_and_set_run_request(&mut s, &r).unwrap_err();
    assert_eq!(
        e.message,
        "unable to get execution progress: machine manager session error: requesting progress for task id='run1', current task id='elsewhere'"
    );
}

#[test]
fn other_run_request_replaces_the_job() {
    let mut s = free_session("a");
    let r = run_request();
    check_and_set_run_request(&mut s, &r).unwrap();
    s.start_job("run1", &[10], &[0]);
    let other = SessionRequest::new("run2", "SessionRunRequest", "");
    assert!(check_and_set_run_request(&mut s, &other).unwrap().is_none());
    assert!(s.current_job_id().is_none());
    assert!(s.get_current_request().as_ref().unwrap().same_as(&other));
}

#[test]
fn run_request_through_the_manager() {
    let mut m = manager_with(&["a"]);
    let r = run_request();
    assert_eq!(begin_run_request(&mut m, "x", &r, &[1]).unwrap_err().message, "unknown session id x");
    let e = begin_run_request(&mut m, "a", &r, &[]).unwrap_err();
    assert_eq!(e.code, StatusCode::InvalidArgument);
    assert_eq!(e.message, "session id=a error running session - empty list of final cycles");
    let (index, answer) = begin_run_request(&mut m, "a", &r, &[5]).unwrap();
    assert_eq!(index, 0);
    assert!(answer.is_none());
    m.session_at_mut(0).finish_single_job("run1", &[5], &[0], machine_manager_server::machine::Hash([3; 32]), summary(5, false));
    match finish_run_start(&mut m, 0, "run1", None).unwrap() {
        SessionRunResponse::Progress(p) => assert_eq!((p.cycle, p.progress), (5, 100)),
        other => panic!("unexpected answer {:?}", other),
    }
    match begin_run_request(&mut m, "a", &r, &[5]).unwrap() {
        (0, Some(SessionRunResponse::Result(res))) => assert_eq!(res.hashes[0].0, [3; 32]),
        other => panic!("unexpected answer {:?}", other),
    }
    assert!(m.session_at(0).get_current_request().is_none());
}

#[test]
fn failed_run_start_frees_the_session() {
    let mut m = manager_with(&["a"]);
    let r = run_request();
    begin_run_request(&mut m, "a", &r, &[5]).unwrap();
    let e = finish_run_start(&mut m, 0, "run1", Some("machine manager session error: no snapshot")).unwrap_err();
    assert_eq!(e.code, StatusCode::Internal);
    assert_eq!(e.message, "machine manager session error: no snapshot");
    assert!(m.session_at(0).get_current_request().is_none());
    match finish_run_start(&mut m, 0, "run1", None).unwrap() {
        SessionRunResponse::Progress(p) => assert_eq!((p.cycle, p.progress, p.halted), (0, 0, false)),
        other => panic!("unexpected answer {:?}", other),
    }
}

#[test]
fn new_session_requests_are_planned() {
    let missing = wire::NewSessionRequest { session_id: "n".to_string(), machine: None, force: false };
    let e = plan_new_session(&missing).unwrap_err();
    assert_eq!(e.code, StatusCode::InvalidArgument);
    assert_eq!(e.message, "error creating new session id=n - missing argument");
    let no_oneof = wire::NewSessionRequest {
        session_id: "n".to_string(),
        machine: Some(wire::MachineRequest { runtime: None, machine_oneof: None }),
        force: true,
    };
    assert_eq!(plan_new_session(&no_oneof).unwrap_err().message, "error creating new session id=n - missing argument");
    let dir = wire::NewSessionRequest {
        session_id: "n".to_string(),
        machine: Some(wire::MachineRequest {
            runtime: Some(wire::MachineRuntimeConfig { concurrency: Some(wire::ConcurrencyConfig { update_merkle_tree: 3 }) }),
            machine_oneof: Some(wire::MachineOneof::Directory("/images/m".to_string())),
        }),
        force: false,
    };
    let plan = plan_new_session(&dir).unwrap();
    assert_eq!(plan.runtime.concurrency.update_merkle_tree, 3);
    match plan.source {
        NewSessionSource::Directory(d) => assert_eq!(d, "/images/m"),
        other => panic!("unexpected source {:?}", other),
    }
    let cfg = wire::NewSessionRequest {
        session_id: "n".to_string(),
        machine: Some(wire::MachineRequest {
            runtime: None,
            machine_oneof: Some(wire::MachineOneof::Config(wire::MachineConfig {
                processor: None,
                ram: Some(wire::RamConfig { length: 4096, image_filename: "ram.bin".to_string() }),
                rom: None,
                flash_drive: vec![],
                clint: None,
                htif: None,
                rollup: None,
                tlb: None,
                uarch: None,
            })),
        }),
        force: false,
    };
    let plan = plan_new_session(&cfg).unwrap();
    assert_eq!(plan.runtime.concurrency.update_merkle_tree, 0);
    match plan.source {
        NewSessionSource::Config(c) => {
            assert_eq!(c.ram.length, 4096);
            assert_eq!(c.ram.image_filename, "ram.bin");
        },
        other => panic!("unexpected source {:?}", other),
    }
}

#[test]
fn new_session_failures() {
    let e = new_session_failure("n", MachineSource::Config, NewSessionStage::Create, "Session manager error: session with id='n' already exists");
    assert_eq!(e.code, StatusCode::InvalidArgument);
    assert_eq!(e.message, "error creating new session id=n. Session already exists");
    let e = new_session_failure("n", MachineSource::Directory, NewSessionStage::Create, "already exists");
    assert_eq!(e.code, StatusCode::InvalidArgument);
    let e = new_session_failure("n", MachineSource::Config, NewSessionStage::Create, "boom");
    assert_eq!(e.code, StatusCode::Internal);
    assert_eq!(e.message, "Error creating new session id=n. Details: 'boom'");
    let e = new_session_failure("n", MachineSource::Directory, NewSessionStage::Create, "boom");
    assert_eq!(e.message, "error creating new session id=n. Details: 'boom'");
    let e = new_session_failure("n", MachineSource::Config, NewSessionStage::Lookup, "already exists");
    assert_eq!(e.code, StatusCode::Internal);
    assert_eq!(e.message, "Error creating new session id=n - unable to get machine hash. Details: 'already exists'");
    let e = new_session_failure("n", MachineSource::Directory, NewSessionStage::Lookup, "x");
    assert_eq!(e.message, "error creating new session id=n - unable to get machine hash. Details: 'x'");
    let e = new_session_failure("n", MachineSource::Config, NewSessionStage::RootHash, "x");
    assert_eq!(e.message, "session id=n error creating new session. Details: 'x'");
    let e = new_session_failure("n", MachineSource::Directory, NewSessionStage::RootHash, "x");
    assert_eq!(e.message, "Error creating new session id=n. Details: 'x'");
    let e = end_session_failure("n", "Session manager error: unknown session id");
    assert_eq!(e.code, StatusCode::Internal);
    assert_eq!(e.message, "Error ending session id=n. Details: 'Session manager error: unknown session id'");
}

#[test]
fn existing_session_without_force_is_a_wrong_argument() {
    let m = manager_with(&["a"]);
    let refused = m.begin_create_from_config("a", false).unwrap_err();
    let e = new_session_failure("a", MachineSource::Config, NewSessionStage::Create, &refused.describe());
    assert_eq!(e.code, StatusCode::InvalidArgument);
    assert_eq!(e.message, "error creating new session id=a. Session already exists");
}
