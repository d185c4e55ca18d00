use machine_manager_server::machine::{
    ClintConfig, HtifConfig, MachineConfig, MachineRuntimeConfig, ConcurrencyConfig, ProcessorConfig, RamConfig,
    RollupConfig, RomConfig, RunSummary, TlbConfig, UarchBreakReason, UarchConfig, UarchRunResult,
};
use machine_manager_server::session::{
    calculate_request_id, check_in_wait, run_start_next, RunPlan, RunStartAction, clamp_cycle, clamp_cycles, CartesiSessionError, CheckInWait, JobStep, MachineSource,
    RunToAction, RunToStage, Session, SessionRequest, SessionState, MAX_CYCLE, WAIT_RETRIES_NUMBER,
};
use sha3::Digest;

fn config() -> MachineConfig {
    MachineConfig {
        processor: ProcessorConfig::new(),
        ram: RamConfig::new(),
        rom: RomConfig::new(),
        flash_drives: vec![],
        clint: ClintConfig { mtimecmp: 0 },
        htif: HtifConfig { console_getchar: false, yield_manual: false, yield_automatic: false, fromhost: 0, tohost: 0 },
        rollup: RollupConfig::new(),
        tlb: TlbConfig::new(),
        uarch: UarchConfig::new(),
    }
}

fn runtime() -> MachineRuntimeConfig {
    MachineRuntimeConfig { concurrency: ConcurrencyConfig { update_merkle_tree: 2 } }
}

fn summary(mcycle: u64, halted: bool) -> RunSummary {
    RunSummary { mcycle, tohost: 0, iflags_h: halted, iflags_y: false }
}

fn ready_session() -> Session {
    let request = SessionRequest::new("create", "NewSessionRequest", "");
    let mut s = Session::init_from_config("s1", config(), runtime(), &request);
    s.clear_request();
    s.connection_established();
    s
}

#[test]
fn session_error_display() {
    let e = CartesiSessionError::new("boom");
    assert_eq!(e.message(), "boom");
    assert_eq!(e.describe(), "machine manager session error: boom");
}

#[test]
fn request_id_is_the_debug_text_of_the_digest() {
    let text = "Request { message: NewSessionRequest { session_id: \"a\" } }";
    let digest = sha3::Sha3_256::digest(text.as_bytes());
    assert_eq!(calculate_request_id(text), digest.to_vec());
    let r = SessionRequest::from_request(text, "NewSessionRequest", "msg");
    assert_eq!(r.id, format!("{:?}", digest.as_slice()));
    assert_eq!(r.request_type, "NewSessionRequest");
    assert_eq!(r.message, "msg");
    let again = SessionRequest::from_request(text, "NewSessionRequest", "other");
    assert!(r.same_as(&again));
    let other = SessionRequest::from_request("another text", "NewSessionRequest", "msg");
    assert_ne!(other.id, r.id);
    assert!(!r.same_as(&other));
    let other_type = SessionRequest::from_request(text, "SessionRunRequest", "msg");
    assert!(!r.same_as(&other_type));
    assert_eq!(calculate_request_id("").len(), 32);
}

#[test]
fn new_session_starts_at_cycle_zero() {
    let request = SessionRequest::new("id1", "NewSessionRequest", "m");
    let s = Session::init_from_config("s1", config(), runtime(), &request);
    assert_eq!(s.get_id(), "s1");
    assert_eq!(s.state(), SessionState::New);
    assert_eq!(s.cycle(), 0);
    assert_eq!(s.ucycle(), 0);
    assert_eq!(s.snapshot_cycle(), None);
    assert!(!s.is_connected());
    assert!(s.get_current_request().as_ref().unwrap().same_as(&request));
    assert_eq!(s.machine_source().unwrap(), MachineSource::Config);
    assert_eq!(s.runtime_config().concurrency.update_merkle_tree, 2);
    let d = Session::init_from_directory("s2", "/tmp/m", runtime(), &request);
    assert_eq!(d.directory(), Some("/tmp/m"));
    assert_eq!(d.machine_source().unwrap(), MachineSource::Directory);
    assert!(d.machine_config().is_none());
}

#[test]
fn client_and_check_in_errors() {
    let request = SessionRequest::new("id1", "NewSessionRequest", "m");
    let mut s = Session::init_from_config("s1", config(), runtime(), &request);
    assert_eq!(s.check_client().unwrap_err().message(), "cartesi machine client not connected or available");
    assert_eq!(
        s.check_connected().unwrap_err().message(),
        "Can not perform snapshot for session id s1, no connection"
    );
    s.connection_established();
    assert!(s.check_client().is_ok());
    assert!(s.check_connected().is_ok());
    assert!(Session::check_checked_in(true).is_ok());
    assert_eq!(
        Session::check_checked_in(false).unwrap_err().message(),
        "unable to setup session client, server is not checked in"
    );
    assert_eq!(Session::instantiate_error("no binary").message(), "unable to instantiate server - no binary");
    assert_eq!(s.snapshot_timeout_error().message(), "Timeout while waiting for session id=s1 snapshot to check in");
}

#[test]
fn snapshot_then_rollback_returns_to_snapshot_cycle() {
    let mut s = ready_session();
    s.apply_run(&summary(10, false));
    s.apply_snapshot();
    assert_eq!(s.snapshot_cycle(), Some(10));
    assert!(!s.is_connected());
    s.connection_established();
    s.apply_run(&summary(25, false));
    assert_eq!(s.cycle(), 25);
    s.apply_rollback();
    assert_eq!(s.cycle(), 10);
    assert_eq!(s.snapshot_cycle(), None);
    s.apply_rollback();
    assert_eq!(s.cycle(), 0);
}

#[test]
fn run_plan_checks() {
    let mut s = ready_session();
    assert_eq!(
        s.plan_run(&[], &[]).unwrap_err().message(),
        "run operation invalid final cycles list for session id s1"
    );
    assert_eq!(
        s.plan_run(&[1], &[]).unwrap_err().message(),
        "run operation invalid final ucycles list for session id s1"
    );
    assert_eq!(
        s.plan_run(&[1, 2], &[0]).unwrap_err().message(),
        "number of final cycles does not equal to number of final ucycles for session id s1"
    );
    assert_eq!(
        s.plan_run(&[1], &[0]).unwrap_err().message(),
        "error executing run operation - no existing snapshot for session id s1"
    );
    s.apply_run(&summary(5, false));
    s.apply_snapshot();
    assert_eq!(
        s.plan_run(&[4], &[0]).unwrap_err().message(),
        "requested run cycle in history before snapshot, please recreate session with id s1"
    );
    let plan = s.plan_run(&[5, 9], &[0, 3]).unwrap();
    assert!(!plan.perform_snapshot);
    assert_eq!(plan.first_cycle, 5);
    assert_eq!(plan.first_ucycle, 0);
    assert!(!plan.single);
    let plan = s.plan_run(&[8], &[0]).unwrap();
    assert!(plan.perform_snapshot);
    assert!(plan.single);
}

#[test]
fn running_to_a_cycle_takes_at_most_three_calls() {
    let mut s = ready_session();
    let (stage, action) = s.run_to_next(RunToStage::Start, 10, 4).unwrap();
    assert_eq!((stage, action), (RunToStage::CycleReached, RunToAction::Run(10)));
    s.apply_run(&summary(10, false));
    let (stage, action) = s.run_to_next(stage, 10, 4).unwrap();
    assert_eq!((stage, action), (RunToStage::Finished, RunToAction::RunUarch(4)));
    assert!(!s.apply_uarch_run(UarchRunResult { reason: UarchBreakReason::ReachedTargetCycle, cycle: 4 }));
    assert_eq!(s.ucycle(), 4);
    assert_eq!(s.run_to_next(stage, 10, 4).unwrap(), (RunToStage::Finished, RunToAction::Done));
    let (stage, action) = s.run_to_next(RunToStage::Start, 12, 0).unwrap();
    assert_eq!((stage, action), (RunToStage::UarchFinished, RunToAction::RunUarch(u64::MAX)));
    assert!(s.apply_uarch_run(UarchRunResult { reason: UarchBreakReason::Halted, cycle: 9 }));
    assert_eq!((s.cycle(), s.ucycle()), (11, 0));
    assert_eq!(s.run_to_next(stage, 12, 0).unwrap(), (RunToStage::CycleReached, RunToAction::Run(12)));
    assert_eq!(s.run_to_next(RunToStage::Start, 11, 0).unwrap(), (RunToStage::Finished, RunToAction::Done));
}

#[test]
fn running_to_a_past_cycle_is_an_error() {
    let mut s = ready_session();
    s.apply_run(&summary(10, false));
    let e = s.run_to_next(RunToStage::Start, 7, 0).unwrap_err();
    assert_eq!(e.message(), "machine is already at cycle 10, requested cycle 7");
    assert_eq!(s.cycle(), 10);
    assert!(s.run_to_next(RunToStage::Start, 7, 3).is_err());
}

#[test]
fn cancelled_job_runs_and_records_nothing() {
    let mut s = ready_session();
    s.start_job("r", &[10, 20], &[0, 0]);
    let task = s.current_job_id().unwrap();
    assert_eq!(
        s.job_step(&task, RunToStage::Start, 10, 0).unwrap(),
        JobStep::Next(RunToStage::CycleReached, RunToAction::Run(10))
    );
    assert_eq!(s.record_job_result(&task, summary(10, false), machine_manager_server::machine::Hash([1; 32])), Some(false));
    s.apply_run(&summary(10, false));
    assert_eq!(s.job_step(&task, RunToStage::Start, 5, 0).unwrap_err().message(), "machine is already at cycle 10, requested cycle 5");
    s.clear_job();
    assert_eq!(s.job_step(&task, RunToStage::Start, 20, 0).unwrap(), JobStep::Abort);
    assert_eq!(s.record_job_result(&task, summary(20, false), machine_manager_server::machine::Hash([2; 32])), None);
    assert!(s.current_job_id().is_none());
    s.start_job("r2", &[30], &[0]);
    assert_eq!(s.job_step(&task, RunToStage::Start, 20, 0).unwrap(), JobStep::Abort);
    assert_eq!(s.record_job_result(&task, summary(20, false), machine_manager_server::machine::Hash([2; 32])), None);
    let (p, r) = s.get_job_progress("r2").unwrap();
    assert_eq!((p.progress, r.hashes.len()), (0, 0));
}

#[test]
fn cycle_checks() {
    let mut s = ready_session();
    s.apply_run(&summary(10, false));
    assert_eq!(
        s.check_run_to_cycle(3).unwrap_err().message(),
        "machine is already at cycle 10, requested cycle 3"
    );
    assert!(s.check_run_to_cycle(10).is_ok());
    assert!(s.check_run_to_ucycle(0).is_ok());
    assert!(s.check_exact_cycle(10, 0).is_ok());
    assert_eq!(
        s.check_exact_cycle(9, 0).unwrap_err().describe(),
        "machine manager session error: unexpected session cycle, current cycle is 10"
    );
    assert_eq!(
        s.check_exact_cycle(10, 2).unwrap_err().message(),
        "unexpected session ucycle, current ucycle is 0"
    );
    assert!(s.check_read_cycle(11, 0).is_err());
    s.apply_run(&summary(12, true));
    assert_eq!(s.state(), SessionState::Halted(12));
    assert!(s.check_read_cycle(20, 5).is_ok());
    assert!(s.check_read_cycle(11, 0).is_err());
    assert_eq!(
        s.root_hash_error(12, "gone").message(),
        "error running machine session_id=\"s1\", unable to get root hash on target cycle 12, details:'gone'"
    );
}

#[test]
fn steps_move_the_micro_architecture() {
    let mut s = ready_session();
    assert!(!s.apply_step(false));
    assert_eq!((s.cycle(), s.ucycle(), s.state()), (0, 1, SessionState::Active));
    assert!(s.apply_step(true));
    assert_eq!((s.cycle(), s.ucycle(), s.state()), (1, 0, SessionState::Halted(1)));
}

#[test]
fn run_job_progress_and_results() {
    let mut s = ready_session();
    assert_eq!(s.get_job_progress("r").unwrap_err().message(), "no current task is running");
    s.start_job("r", &[10, 20, 30, 40], &[0, 0, 0, 0]);
    assert_eq!(s.current_job_id().unwrap(), "[10, 20, 30, 40]");
    assert!(s.is_current_job("[10, 20, 30, 40]"));
    assert!(!s.is_current_job("[10]"));
    let (p, r) = s.get_job_progress("r").unwrap();
    assert_eq!((p.cycle, p.progress, p.halted), (0, 0, false));
    assert!(r.hashes.is_empty());
    assert!(!s.record_job_step(summary(10, false), machine_manager_server::machine::Hash([1; 32])));
    let (p, _) = s.get_job_progress("r").unwrap();
    assert_eq!((p.cycle, p.progress, p.halted), (10, 25, false));
    assert_eq!(
        s.get_job_progress("q").unwrap_err().message(),
        "requesting progress for task id='q', current task id='r'"
    );
    // The machine halts at the second final cycle: its hash stands for the
    // third, and the job is over.
    assert!(s.record_job_step(summary(17, true), machine_manager_server::machine::Hash([2; 32])));
    let (p, r) = s.get_job_progress("r").unwrap();
    assert_eq!((p.cycle, p.progress, p.halted), (17, 75, true));
    assert_eq!(r.hashes.len(), 3);
    assert_eq!(r.hashes[2].0, [2; 32]);
    assert_eq!(r.summaries.len(), 2);
    let res = s.get_current_job_result("r").unwrap();
    assert_eq!(res.hashes.len(), 3);
    s.clear_job();
    assert!(s.current_job_id().is_none());
}

#[test]
fn single_job_is_done_at_once() {
    let mut s = ready_session();
    s.finish_single_job("r", &[7], &[0], machine_manager_server::machine::Hash([9; 32]), summary(7, false));
    let (p, r) = s.get_job_progress("r").unwrap();
    assert_eq!((p.cycle, p.progress, p.halted), (7, 100, false));
    assert_eq!(r.hashes[0].0, [9; 32]);
}

#[test]
fn closing_and_recreating() {
    let mut s = ready_session();
    assert!(s.needs_close());
    s.mark_closed();
    assert_eq!(s.state(), SessionState::Closed);
    assert!(!s.needs_close());
    s.apply_run(&summary(5, false));
    s.machine_created();
    assert_eq!((s.cycle(), s.state(), s.snapshot_cycle()), (0, SessionState::New, None));
}

#[test]
fn check_in_waiting() {
    assert_eq!(check_in_wait(1, true), CheckInWait::CheckedIn);
    assert_eq!(check_in_wait(1, false), CheckInWait::Retry);
    assert_eq!(check_in_wait(WAIT_RETRIES_NUMBER, false), CheckInWait::TimedOut);
    assert_eq!(check_in_wait(WAIT_RETRIES_NUMBER, true), CheckInWait::CheckedIn);
}

#[test]
fn defective_cycles_are_clamped() {
    assert_eq!(clamp_cycle(3), 3);
    assert_eq!(clamp_cycle(MAX_CYCLE), MAX_CYCLE);
    assert_eq!(clamp_cycle(1000), 15);
    assert_eq!(clamp_cycles(&[0, 14, 15, 16, u64::MAX]), vec![0, 14, 15, 15, 15]);
}

#[test]
fn run_start_order() {
    let plan = RunPlan { perform_snapshot: true, first_cycle: 5, first_ucycle: 0, single: false };
    let mut last = None;
    let mut seen = Vec::new();
    loop {
        let a = run_start_next(plan, last);
        seen.push(a);
        if a == RunStartAction::Done {
            break;
        }
        last = Some(a);
    }
    assert_eq!(
        seen,
        vec![
            RunStartAction::Rollback,
            RunStartAction::RunToFirst,
            RunStartAction::Snapshot,
            RunStartAction::StartJob,
            RunStartAction::Done
        ]
    );
    let single = RunPlan { perform_snapshot: false, first_cycle: 5, first_ucycle: 0, single: true };
    assert_eq!(run_start_next(single, None), RunStartAction::RunToFirst);
    assert_eq!(run_start_next(single, Some(RunStartAction::RunToFirst)), RunStartAction::FinishSingle);
    assert_eq!(run_start_next(single, Some(RunStartAction::FinishSingle)), RunStartAction::Done);
}
