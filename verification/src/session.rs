//! A session: one Cartesi machine on its own machine server, with the cycle it
//! has reached, its snapshot, the client request it serves and its run job.
//!
//! The calls to the machine server happen outside this module. The session holds
//! the state that those calls change and makes every decision that the calls
//! depend on: which step comes next, whether a request fits the current cycle,
//! and how a reply changes the session.

use crate::machine::{MachineConfig, MachineRuntimeConfig, RunSummary, UarchBreakReason, UarchRunResult};
use crate::text::{append_decimal, byte_list_text, decimal, list_text, list_text_of, numbers_to_vec, widen};
use sha3::Digest;
use vstd::prelude::*;

verus! {

/// Pause between two looks at the check-in status, in milliseconds.
pub const WAIT_SLEEP_STEP: u64 = 100;

/// Number of looks at the check-in status before giving up (20 s in total).
pub const WAIT_RETRIES_NUMBER: u64 = 200;

/// Highest cycle that the defective service runs or steps to.
pub const MAX_CYCLE: u64 = 15;

/// Error returned from session functions.
#[derive(Debug)]
pub struct CartesiSessionError {
    message: String,
}

impl View for CartesiSessionError {
    type V = Seq<char>;

    closed spec fn view(&self) -> Seq<char> {
        self.message@
    }
}

impl CartesiSessionError {
    /// An error with the given message.
    pub fn new(message: &str) -> (res: Self)
        ensures
            res@ == message@,
    {
        CartesiSessionError { message: String::from_str(message) }
    }

    /// The message of the error.
    pub fn message(&self) -> (res: &str)
        ensures
            res@ == self@,
    {
        self.message.as_str()
    }

    /// The error as it is displayed.
    pub fn describe(&self) -> (res: String)
        ensures
            res@ == "machine manager session error: "@ + self@,
    {
        let mut res = String::from_str("machine manager session error: ");
        res.append(self.message.as_str());
        res
    }

    fn with_id(prefix: &str, id: &String) -> (res: Self)
        ensures
            res@ == prefix@ + id@,
    {
        let mut message = String::from_str(prefix);
        message.append(id.as_str());
        CartesiSessionError { message }
    }

    fn with_number(prefix: &str, n: u64) -> (res: Self)
        ensures
            res@ == prefix@ + decimal(n as nat),
    {
        let mut message = String::from_str(prefix);
        append_decimal(&mut message, n);
        CartesiSessionError { message }
    }
}

/// Session state: it starts `New`, is `Active` once the machine moves from its
/// first cycle, `Halted` when the machine halts, and `Closed` at the end.
#[derive(Clone, Copy, Debug, PartialEq, Eq, Structural)]
pub enum SessionState {
    New,
    Active,
    Halted(u64),
    Closed,
}

/// Summary of a request of a machine manager client.
#[derive(Debug, Clone)]
pub struct SessionRequest {
    pub id: String,
    pub request_type: String,
    pub message: String,
}

impl PartialEq for SessionRequest {
    fn eq(&self, other: &Self) -> (res: bool) {
        self.id == other.id && self.request_type == other.request_type
    }
}

impl vstd::std_specs::cmp::PartialEqSpecImpl for SessionRequest {
    open spec fn obeys_eq_spec() -> bool {
        true
    }

    open spec fn eq_spec(&self, other: &Self) -> bool {
        self.id@ == other.id@ && self.request_type@ == other.request_type@
    }
}

/// A request sent twice, with the same text and type, is the same request.
pub proof fn lemma_same_text_same_request(a: SessionRequest, b: SessionRequest, text: Seq<char>)
    requires
        a.id@ == request_id_text(sha3_256_of(text)),
        b.id@ == request_id_text(sha3_256_of(text)),
        a.request_type@ == b.request_type@,
    ensures
        same_request(a, b),
{
}

/// Two requests are the same request when their ids and types agree.
pub open spec fn same_request(a: SessionRequest, b: SessionRequest) -> bool {
    a.id@ == b.id@ && a.request_type@ == b.request_type@
}

/// The SHA3-256 digest of the UTF-8 bytes of a text.
pub uninterp spec fn sha3_256_of(text: Seq<char>) -> Seq<u8>;

/// `sha3::Sha3_256`: a new hasher, `update` with the text's UTF-8 bytes, then
/// `finalize`.
///
/// Claimed: the digest is a function of the text alone and is 32 bytes long
/// (the output size of SHA3-256). Not claimed: which bytes it is.
#[verifier::external_body]
fn sha3_256_digest(text: &str) -> (res: Vec<u8>)
    ensures
        res@ == sha3_256_of(text@),
        res@.len() == 32,
{
    let mut hasher = sha3::Sha3_256::new();
    hasher.update(text);
    hasher.finalize().to_vec()
}

/// The digest that identifies a request: the SHA3-256 digest of the request's
/// text, so that the same request sent twice gets the same id.
pub fn calculate_request_id(request_text: &str) -> (res: Vec<u8>)
    ensures
        res@ == sha3_256_of(request_text@),
        res@.len() == 32,
{
    sha3_256_digest(request_text)
}

/// The id of a request whose text has the digest `digest`: the digest as
/// `Debug` prints a byte array.
pub open spec fn request_id_text(digest: Seq<u8>) -> Seq<char> {
    list_text(widen(digest))
}

impl SessionRequest {
    /// A request whose text has the digest `digest`: its id is the digest as
    /// `Debug` prints a byte array.
    pub fn from_digest(digest: &[u8], request_type: &str, message: &str) -> (res: Self)
        ensures
            res.id@ == request_id_text(digest@),
            res.request_type@ == request_type@,
            res.message@ == message@,
    {
        SessionRequest {
            id: byte_list_text(digest),
            request_type: String::from_str(request_type),
            message: String::from_str(message),
        }
    }

    /// The summary of a client request: `request_text` is the text it is
    /// identified by, `request_type` the name of its type, and `message` the
    /// text kept for the logs.
    pub fn from_request(request_text: &str, request_type: &str, message: &str) -> (res: Self)
        ensures
            res.id@ == request_id_text(sha3_256_of(request_text@)),
            res.request_type@ == request_type@,
            res.message@ == message@,
    {
        let digest = calculate_request_id(request_text);
        SessionRequest::from_digest(digest.as_slice(), request_type, message)
    }

    /// A request with the given parts.
    pub fn new(id: &str, request_type: &str, message: &str) -> (res: Self)
        ensures
            res.id@ == id@,
            res.request_type@ == request_type@,
            res.message@ == message@,
    {
        SessionRequest {
            id: String::from_str(id),
            request_type: String::from_str(request_type),
            message: String::from_str(message),
        }
    }

    /// A copy of the request.
    pub fn duplicate(&self) -> (res: Self)
        ensures
            res == *self,
    {
        SessionRequest { id: self.id.clone(), request_type: self.request_type.clone(), message: self.message.clone() }
    }

    /// Whether two requests are the same request (same id and type).
    pub fn same_as(&self, other: &SessionRequest) -> (res: bool)
        ensures
            res == same_request(*self, *other),
    {
        *self == *other
    }
}

/// What a run job has produced so far.
#[verifier::ext_equal]
pub struct RunTaskView {
    pub id: Seq<char>,
    pub request_id: Seq<char>,
    pub final_cycles: Seq<u64>,
    pub final_ucycles: Seq<u64>,
    pub hashes: Seq<crate::machine::Hash>,
    pub summaries: Seq<RunSummary>,
}

/// Details of a run job (task) that runs in a session.
struct RunTask {
    id: String,
    request_id: String,
    final_cycles: Vec<u64>,
    final_ucycles: Vec<u64>,
    hashes: Vec<crate::machine::Hash>,
    summaries: Vec<RunSummary>,
}

impl RunTask {
    closed spec fn view(&self) -> RunTaskView {
        RunTaskView {
            id: self.id@,
            request_id: self.request_id@,
            final_cycles: self.final_cycles@,
            final_ucycles: self.final_ucycles@,
            hashes: self.hashes@,
            summaries: self.summaries@,
        }
    }

    fn new(request_id: &str, final_cycles: &[u64], final_ucycles: &[u64]) -> (res: Self)
        ensures
            res.view() == new_task_view(request_id@, final_cycles@, final_ucycles@),
    {
        RunTask {
            id: list_text_of(final_cycles),
            request_id: String::from_str(request_id),
            final_cycles: numbers_to_vec(final_cycles),
            final_ucycles: numbers_to_vec(final_ucycles),
            hashes: Vec::new(),
            summaries: Vec::new(),
        }
    }
}

/// A new run job: its id is the text of its final cycles, and it has no result yet.
pub open spec fn new_task_view(request_id: Seq<char>, final_cycles: Seq<u64>, final_ucycles: Seq<u64>) -> RunTaskView {
    RunTaskView {
        id: list_text(final_cycles),
        request_id,
        final_cycles,
        final_ucycles,
        hashes: Seq::empty(),
        summaries: Seq::empty(),
    }
}

/// Everything a session holds.
#[verifier::ext_equal]
pub struct SessionView {
    pub id: Seq<char>,
    pub state: SessionState,
    pub cycle: u64,
    pub ucycle: u64,
    pub snapshot_cycle: Option<u64>,
    pub machine_config: Option<MachineConfig>,
    pub directory: Option<Seq<char>>,
    pub runtime_config: MachineRuntimeConfig,
    pub current_request: Option<SessionRequest>,
    pub job: Option<RunTaskView>,
    pub connected: bool,
}

/// Session: all relevant details about one session.
pub struct Session {
    id: String,
    state: SessionState,
    cycle: u64,
    ucycle: u64,
    snapshot_cycle: Option<u64>,
    machine_config: Option<MachineConfig>,
    directory: Option<String>,
    machine_runtime_config: MachineRuntimeConfig,
    current_request: Option<SessionRequest>,
    current_job: Option<RunTask>,
    connected: bool,
}

impl View for Session {
    type V = SessionView;

    closed spec fn view(&self) -> SessionView {
        SessionView {
            id: self.id@,
            state: self.state,
            cycle: self.cycle,
            ucycle: self.ucycle,
            snapshot_cycle: self.snapshot_cycle,
            machine_config: self.machine_config,
            directory: match self.directory {
                Some(d) => Some(d@),
                None => None,
            },
            runtime_config: self.machine_runtime_config,
            current_request: self.current_request,
            job: match self.current_job {
                Some(t) => Some(t.view()),
                None => None,
            },
            connected: self.connected,
        }
    }
}


/// Where a session's machine comes from when it is (re)created.
#[derive(Debug, Clone, Copy, PartialEq, Eq, Structural)]
pub enum MachineSource {
    /// From the machine configuration the session holds.
    Config,
    /// From the directory the session holds.
    Directory,
}

/// Where a session stands in running its machine to a requested cycle and ucycle.
#[derive(Debug, Clone, Copy, PartialEq, Eq, Structural)]
pub enum RunToStage {
    /// Nothing done yet.
    Start,
    /// A micro-architecture run left unfinished is done.
    UarchFinished,
    /// The machine has reached the requested cycle.
    CycleReached,
    /// Nothing is left to do.
    Finished,
}

/// The next call to make on the machine server while running to a cycle.
#[derive(Debug, Clone, Copy, PartialEq, Eq, Structural)]
pub enum RunToAction {
    /// Run the micro-architecture up to this ucycle.
    RunUarch(u64),
    /// Run the machine up to this cycle.
    Run(u64),
    /// The machine is where it was asked to be.
    Done,
}

/// The step of running to a cycle that follows `stage`.
pub open spec fn run_to_step(v: SessionView, stage: RunToStage, cycle: u64, ucycle: u64) -> (RunToStage, RunToAction) {
    let finish_uarch = stage == RunToStage::Start && cycle > 0 && v.ucycle > 0;
    let run_cycle = (stage == RunToStage::Start || stage == RunToStage::UarchFinished) && v.cycle < cycle;
    let run_uarch = stage != RunToStage::Finished && ucycle > 0;
    if finish_uarch {
        (RunToStage::UarchFinished, RunToAction::RunUarch(u64::MAX))
    } else if run_cycle {
        (RunToStage::CycleReached, RunToAction::Run(cycle))
    } else if run_uarch {
        (RunToStage::Finished, RunToAction::RunUarch(ucycle))
    } else {
        (RunToStage::Finished, RunToAction::Done)
    }
}

/// What a run request asks of the session before its job starts.
#[derive(Debug, Clone, Copy, PartialEq, Eq, Structural)]
pub struct RunPlan {
    /// Roll back to the snapshot first, and take a new snapshot once at the first cycle.
    pub perform_snapshot: bool,
    pub first_cycle: u64,
    pub first_ucycle: u64,
    /// Only one final cycle: the job is done once the first cycle is reached.
    pub single: bool,
}

/// A step of starting a run job, once its plan is made.
#[derive(Debug, Clone, Copy, PartialEq, Eq, Structural)]
pub enum RunStartAction {
    /// Roll the machine back to its snapshot.
    Rollback,
    /// Run the machine to the job's first final cycle and ucycle.
    RunToFirst,
    /// Take a new snapshot there.
    Snapshot,
    /// Read the root hash there and record the job as done at once.
    FinishSingle,
    /// Start the job, which runs on to its other final cycles.
    StartJob,
    /// Nothing is left to do.
    Done,
}

/// The step of starting a run job with plan `plan` that follows `last`, the
/// step done last (none at first). A step that fails ends the start.
pub open spec fn run_start_step(plan: RunPlan, last: Option<RunStartAction>) -> RunStartAction {
    let finish = if plan.single { RunStartAction::FinishSingle } else { RunStartAction::StartJob };
    match last {
        None => if plan.perform_snapshot { RunStartAction::Rollback } else { RunStartAction::RunToFirst },
        Some(RunStartAction::Rollback) => RunStartAction::RunToFirst,
        Some(RunStartAction::RunToFirst) => if plan.perform_snapshot { RunStartAction::Snapshot } else { finish },
        Some(RunStartAction::Snapshot) => finish,
        Some(_) => RunStartAction::Done,
    }
}

/// The step of starting a run job with plan `plan` that follows `last`: a
/// rollback first when the plan asks for a new snapshot, then the run to the
/// first final cycle, then the new snapshot, and last either the job done at
/// once (one final cycle) or the job started.
pub fn run_start_next(plan: RunPlan, last: Option<RunStartAction>) -> (res: RunStartAction)
    ensures
        res == run_start_step(plan, last),
{
    let finish = if plan.single { RunStartAction::FinishSingle } else { RunStartAction::StartJob };
    match last {
        None => if plan.perform_snapshot { RunStartAction::Rollback } else { RunStartAction::RunToFirst },
        Some(RunStartAction::Rollback) => RunStartAction::RunToFirst,
        Some(RunStartAction::RunToFirst) => if plan.perform_snapshot { RunStartAction::Snapshot } else { finish },
        Some(RunStartAction::Snapshot) => finish,
        Some(_) => RunStartAction::Done,
    }
}

/// Starting a run job makes, in this order, a rollback and a snapshot around
/// the run to the first final cycle exactly when the plan asks for a new
/// snapshot, then finishes the job at once or starts it, and is then done.
pub proof fn lemma_run_start_order(plan: RunPlan)
    ensures
        ({
            let a1 = run_start_step(plan, None);
            let a2 = run_start_step(plan, Some(a1));
            let a3 = run_start_step(plan, Some(a2));
            let a4 = run_start_step(plan, Some(a3));
            let a5 = run_start_step(plan, Some(a4));
            let finish = if plan.single { RunStartAction::FinishSingle } else { RunStartAction::StartJob };
            &&& plan.perform_snapshot ==> a1 == RunStartAction::Rollback && a2 == RunStartAction::RunToFirst && a3
                == RunStartAction::Snapshot && a4 == finish && a5 == RunStartAction::Done
            &&& !plan.perform_snapshot ==> a1 == RunStartAction::RunToFirst && a2 == finish && a3
                == RunStartAction::Done
        }),
{
}

/// Outcome of one look at the check-in status of a machine server.
#[derive(Debug, Clone, Copy, PartialEq, Eq, Structural)]
pub enum CheckInWait {
    /// The server has checked in.
    CheckedIn,
    /// Look again after a pause.
    Retry,
    /// The server did not check in in time.
    TimedOut,
}

/// Decides what follows the `attempt`-th look (counting from 1) at the check-in
/// status, given whether the server had checked in.
pub fn check_in_wait(attempt: u64, checked_in: bool) -> (res: CheckInWait)
    requires
        1 <= attempt <= WAIT_RETRIES_NUMBER,
    ensures
        checked_in ==> res == CheckInWait::CheckedIn,
        !checked_in && attempt == WAIT_RETRIES_NUMBER ==> res == CheckInWait::TimedOut,
        !checked_in && attempt < WAIT_RETRIES_NUMBER ==> res == CheckInWait::Retry,
{
    if checked_in {
        CheckInWait::CheckedIn
    } else if attempt == WAIT_RETRIES_NUMBER {
        CheckInWait::TimedOut
    } else {
        CheckInWait::Retry
    }
}

/// The cycle that the defective service uses in place of `cycle`.
pub open spec fn clamped(cycle: u64) -> u64 {
    if cycle >= MAX_CYCLE { MAX_CYCLE } else { cycle }
}

/// The defective service never asks for a cycle above `MAX_CYCLE`, and asks
/// for any cycle below it unchanged.
pub proof fn lemma_clamped_bounded(cycle: u64)
    ensures
        clamped(cycle) <= MAX_CYCLE,
        cycle < MAX_CYCLE ==> clamped(cycle) == cycle,
        clamped(clamped(cycle)) == clamped(cycle),
{
}

/// The cycle that the defective service uses in place of `cycle`: never above
/// `MAX_CYCLE`.
pub fn clamp_cycle(cycle: u64) -> (res: u64)
    ensures
        res == clamped(cycle),
{
    if cycle >= MAX_CYCLE {
        MAX_CYCLE
    } else {
        cycle
    }
}

/// The cycles that the defective service uses in place of `cycles`.
pub fn clamp_cycles(cycles: &[u64]) -> (res: Vec<u64>)
    ensures
        res@ == cycles@.map_values(|c: u64| clamped(c)),
{
    let mut res: Vec<u64> = Vec::new();
    let mut i: usize = 0;
    while i < cycles.len()
        invariant
            i <= cycles.len(),
            res@ == cycles@.subrange(0, i as int).map_values(|c: u64| clamped(c)),
        decreases cycles.len() - i,
    {
        res.push(clamp_cycle(cycles[i]));
        i = i + 1;
        assert(res@ =~= cycles@.subrange(0, i as int).map_values(|c: u64| clamped(c)));
    }
    assert(cycles@.subrange(0, cycles@.len() as int) =~= cycles@);
    res
}

/// The hashes of a job once the machine halted after `recorded` hashes: the last
/// hash is repeated until there is one fewer than there are final cycles.
pub open spec fn filled_hashes(hashes: Seq<crate::machine::Hash>, final_len: nat) -> Seq<crate::machine::Hash> {
    if final_len > hashes.len() {
        hashes + Seq::new((final_len - hashes.len() - 1) as nat, |i: int| hashes.last())
    } else {
        hashes
    }
}

/// How far a run job has come.
#[derive(Debug, Clone, Copy, PartialEq, Eq, Structural)]
pub struct JobProgress {
    /// The cycle of the last final cycle reached (0 before the first).
    pub cycle: u64,
    /// Percentage of the final cycles with a result.
    pub progress: u32,
    /// Whether the machine halted at the last final cycle reached.
    pub halted: bool,
}

/// How far a run job has come: the share of its final cycles that have a
/// hash, in percent rounded down, and the cycle and halt flag of its last
/// summary.
pub open spec fn progress_of(t: RunTaskView) -> JobProgress {
    JobProgress {
        cycle: if t.summaries.len() > 0 { t.summaries.last().mcycle } else { 0 },
        progress: if t.final_cycles.len() == 0 || t.hashes.len() >= t.final_cycles.len() {
            100
        } else {
            (t.hashes.len() * 100 / t.final_cycles.len()) as u32
        },
        halted: t.summaries.len() > 0 && t.summaries.last().iflags_h,
    }
}

/// The session once its machine server took a snapshot: the snapshot stands
/// at the current cycle, and the server's new process has yet to check in.
pub open spec fn snapshot_taken(v: SessionView) -> SessionView {
    SessionView { snapshot_cycle: Some(v.cycle), connected: false, ..v }
}

/// The session once its machine server rolled back: the machine is at the
/// snapshot's cycle (0 when none stood), the snapshot is used up, and the
/// server's process has yet to check in.
pub open spec fn rolled_back(v: SessionView) -> SessionView {
    SessionView {
        cycle: match v.snapshot_cycle {
            Some(c) => c,
            None => 0,
        },
        snapshot_cycle: None,
        connected: false,
        ..v
    }
}

/// A rollback after a snapshot brings the machine back to the cycle of the
/// snapshot, whatever was done in between that left the snapshot alone.
pub proof fn lemma_rollback_returns_to_snapshot(before: SessionView, between: SessionView)
    requires
        between.snapshot_cycle == snapshot_taken(before).snapshot_cycle,
    ensures
        rolled_back(between).cycle == before.cycle,
        rolled_back(between).snapshot_cycle is None,
{
}

/// How many steps running to a cycle has left at most, from `stage`.
pub open spec fn stage_rank(stage: RunToStage) -> nat {
    match stage {
        RunToStage::Start => 3,
        RunToStage::UarchFinished => 2,
        RunToStage::CycleReached => 1,
        RunToStage::Finished => 0,
    }
}

/// The calls that running to `cycle` and `ucycle` makes, stage by stage. From
/// the start, a micro-architecture cycle left half done is finished first
/// (when a cycle above 0 is asked for), whatever ucycle is asked for; then the
/// machine runs to the cycle if it is below it; then the micro-architecture
/// runs to the ucycle if one above 0 is asked for, also when the machine was
/// at the cycle already. Nothing is left only once these are done.
pub proof fn lemma_run_to_calls(v: SessionView, cycle: u64, ucycle: u64)
    ensures
        cycle > 0 && v.ucycle > 0 ==> run_to_step(v, RunToStage::Start, cycle, ucycle) == (
            RunToStage::UarchFinished,
            RunToAction::RunUarch(u64::MAX),
        ),
        !(cycle > 0 && v.ucycle > 0) && v.cycle < cycle ==> run_to_step(v, RunToStage::Start, cycle, ucycle) == (
            RunToStage::CycleReached,
            RunToAction::Run(cycle),
        ),
        !(cycle > 0 && v.ucycle > 0) && v.cycle >= cycle && ucycle > 0 ==> run_to_step(
            v,
            RunToStage::Start,
            cycle,
            ucycle,
        ) == (RunToStage::Finished, RunToAction::RunUarch(ucycle)),
        !(cycle > 0 && v.ucycle > 0) && v.cycle >= cycle && ucycle == 0 ==> run_to_step(
            v,
            RunToStage::Start,
            cycle,
            ucycle,
        ) == (RunToStage::Finished, RunToAction::Done),
        v.cycle < cycle ==> run_to_step(v, RunToStage::UarchFinished, cycle, ucycle) == (
            RunToStage::CycleReached,
            RunToAction::Run(cycle),
        ),
        v.cycle >= cycle && ucycle > 0 ==> run_to_step(v, RunToStage::UarchFinished, cycle, ucycle) == (
            RunToStage::Finished,
            RunToAction::RunUarch(ucycle),
        ),
        ucycle > 0 ==> run_to_step(v, RunToStage::CycleReached, cycle, ucycle) == (
            RunToStage::Finished,
            RunToAction::RunUarch(ucycle),
        ),
        ucycle == 0 ==> run_to_step(v, RunToStage::CycleReached, cycle, ucycle) == (
            RunToStage::Finished,
            RunToAction::Done,
        ),
        run_to_step(v, RunToStage::Finished, cycle, ucycle) == (RunToStage::Finished, RunToAction::Done),
{
}

/// The session once a call made while running to a cycle did what it was
/// asked: a micro-architecture run to the end of its cycle moves the machine
/// to the next cycle at ucycle 0, a run to a cycle reaches that cycle, and a
/// micro-architecture run to a ucycle reaches that ucycle.
pub open spec fn moved(v: SessionView, action: RunToAction) -> SessionView {
    match action {
        RunToAction::RunUarch(limit) => if limit == u64::MAX {
            SessionView { cycle: (v.cycle + 1) as u64, ucycle: 0, ..v }
        } else {
            SessionView { ucycle: limit, ..v }
        },
        RunToAction::Run(target) => SessionView { cycle: target, ..v },
        RunToAction::Done => v,
    }
}

/// Running to `cycle` and `ucycle` from a session at or below the cycle, with
/// no micro-architecture cycle half done unless the machine is below the
/// cycle, brings the session to exactly `cycle` and `ucycle` when every call
/// does what it was asked, and is done after at most three calls.
pub proof fn lemma_run_to_reaches(v: SessionView, cycle: u64, ucycle: u64)
    requires
        v.cycle <= cycle,
        v.ucycle == 0 || v.cycle < cycle,
        ucycle < u64::MAX,
    ensures
        ({
            let (s1, a1) = run_to_step(v, RunToStage::Start, cycle, ucycle);
            let v1 = moved(v, a1);
            let (s2, a2) = run_to_step(v1, s1, cycle, ucycle);
            let v2 = moved(v1, a2);
            let (s3, a3) = run_to_step(v2, s2, cycle, ucycle);
            let v3 = moved(v2, a3);
            let (s4, a4) = run_to_step(v3, s3, cycle, ucycle);
            &&& a4 == RunToAction::Done
            &&& v3.cycle == cycle
            &&& v3.ucycle == ucycle
        }),
{
}

/// Running to a cycle ends: each step moves to a later stage until the last,
/// so that at most three calls are made on the machine server, whatever they
/// do to the session; at the last stage nothing is left to do.
pub proof fn lemma_run_to_ends(v: SessionView, stage: RunToStage, cycle: u64, ucycle: u64)
    ensures
        stage != RunToStage::Finished ==> stage_rank(run_to_step(v, stage, cycle, ucycle).0) < stage_rank(stage),
        stage == RunToStage::Finished ==> run_to_step(v, stage, cycle, ucycle) == (
            RunToStage::Finished,
            RunToAction::Done,
        ),
        run_to_step(v, stage, cycle, ucycle).1 == RunToAction::Done ==> run_to_step(v, stage, cycle, ucycle).0
            == RunToStage::Finished,
{
}

/// The progress of a job is a percentage: at most 100, and 100 exactly when
/// every final cycle has its hash.
pub proof fn lemma_progress_bounded(t: RunTaskView)
    ensures
        progress_of(t).progress <= 100,
        progress_of(t).progress == 100 <==> (t.final_cycles.len() == 0 || t.hashes.len() >= t.final_cycles.len()),
{
    if t.final_cycles.len() > 0 && t.hashes.len() < t.final_cycles.len() {
        assert((t.hashes.len() * 100) / t.final_cycles.len() < 100) by (nonlinear_arith)
            requires
                t.hashes.len() < t.final_cycles.len(),
                t.final_cycles.len() > 0,
        ;
    }
}

/// A job whose machine halted at the final cycle just reached reports that it
/// halted, at that cycle: the job is over, and the hashes it has stand for
/// every final cycle but the last.
pub proof fn lemma_halted_job_reports(t: RunTaskView, summary: RunSummary, hash: crate::machine::Hash)
    requires
        summary.iflags_h,
    ensures
        ({
            let after = RunTaskView {
                summaries: t.summaries.push(summary),
                hashes: filled_hashes(t.hashes.push(hash), t.final_cycles.len()),
                ..t
            };
            &&& progress_of(after).halted
            &&& progress_of(after).cycle == summary.mcycle
            &&& after.hashes.len() == (if t.hashes.len() + 1 < t.final_cycles.len() {
                t.final_cycles.len() - 1
            } else {
                t.hashes.len() + 1int
            })
        }),
{
}

/// Whether running to `cycle` is refused at `stage`: before anything is run,
/// the machine is already past the cycle.
pub open spec fn run_to_refused(v: SessionView, stage: RunToStage, cycle: u64) -> bool {
    stage == RunToStage::Start && v.cycle > cycle
}

/// What a run job does next.
#[derive(Debug, Clone, Copy, PartialEq, Eq, Structural)]
pub enum JobStep {
    /// The job is no longer the session's: it stops, and runs nothing more.
    Abort,
    /// The next stage and call of running to the job's current final cycle.
    Next(RunToStage, RunToAction),
}

/// Whether the session's run job is the job with id `task_id`.
pub open spec fn job_is_current(v: SessionView, task_id: Seq<char>) -> bool {
    v.job matches Some(job) && job.id == task_id
}

/// The session once its run job has recorded a final cycle reached with
/// `summary` and root hash `hash`: when the machine halted, the last hash
/// stands for the final cycles it will not reach, up to one fewer than their
/// number.
pub open spec fn step_recorded(v: SessionView, summary: RunSummary, hash: crate::machine::Hash) -> SessionView {
    match v.job {
        Some(job) => SessionView {
            job: Some(
                RunTaskView {
                    summaries: job.summaries.push(summary),
                    hashes: if summary.iflags_h {
                        filled_hashes(job.hashes.push(hash), job.final_cycles.len())
                    } else {
                        job.hashes.push(hash)
                    },
                    ..job
                },
            ),
            ..v
        },
        None => v,
    }
}

/// Recording a final cycle reached keeps what the job had and adds the new
/// summary and root hash after it: the job's hashes start with its old hashes
/// followed by `hash`, and without a halt they are exactly those. After a halt
/// before the last final cycle, copies of `hash` follow, up to one fewer hash
/// than there are final cycles.
pub proof fn lemma_step_recorded_appends(v: SessionView, summary: RunSummary, hash: crate::machine::Hash)
    requires
        v.job is Some,
    ensures
        ({
            let before = v.job->0;
            let after = step_recorded(v, summary, hash).job->0;
            let n = before.hashes.len();
            &&& after.summaries == before.summaries.push(summary)
            &&& after.final_cycles == before.final_cycles
            &&& after.id == before.id && after.request_id == before.request_id
            &&& after.hashes.len() >= n + 1
            &&& after.hashes.subrange(0, n as int) == before.hashes
            &&& after.hashes[n as int] == hash
            &&& forall|i: int| n < i < after.hashes.len() ==> after.hashes[i] == hash
            &&& !summary.iflags_h ==> after.hashes == before.hashes.push(hash)
            &&& summary.iflags_h && n + 1 < before.final_cycles.len() ==> after.hashes.len()
                == before.final_cycles.len() - 1
            &&& step_recorded(v, summary, hash) == (SessionView { job: Some(after), ..v })
        }),
{
    let before = v.job->0;
    let after = step_recorded(v, summary, hash).job->0;
    let n = before.hashes.len();
    assert(after.hashes.subrange(0, n as int) =~= before.hashes);
}

/// How far a job has come, from what it has recorded: the cycle of the last
/// final cycle reached (0 before the first), whether the machine halted there,
/// and the share of its final cycles with a hash, in percent rounded down (100
/// with every final cycle done, or none to do).
pub proof fn lemma_progress_reports(t: RunTaskView)
    ensures
        t.summaries.len() > 0 ==> progress_of(t).cycle == t.summaries[t.summaries.len() - 1].mcycle,
        t.summaries.len() > 0 ==> progress_of(t).halted == t.summaries[t.summaries.len() - 1].iflags_h,
        t.summaries.len() == 0 ==> progress_of(t).cycle == 0 && !progress_of(t).halted,
        t.final_cycles.len() > 0 && t.hashes.len() < t.final_cycles.len() ==> progress_of(t).progress as int
            == t.hashes.len() * 100 / t.final_cycles.len(),
        t.final_cycles.len() == 0 || t.hashes.len() >= t.final_cycles.len() ==> progress_of(t).progress == 100,
{
    lemma_progress_bounded(t);
    if t.final_cycles.len() > 0 && t.hashes.len() < t.final_cycles.len() {
        let q = t.hashes.len() * 100 / t.final_cycles.len();
        assert(0 <= q < 100) by (nonlinear_arith)
            requires
                t.hashes.len() < t.final_cycles.len(),
                t.final_cycles.len() > 0,
                q == t.hashes.len() * 100 / t.final_cycles.len(),
        ;
        assert((q as u32) as int == q);
    }
}

/// A run job that is cancelled, because its session's job is dropped or
/// replaced by a job with another id, is no longer the session's: from then
/// on `job_step` stops it and `record_job_result` records nothing for it.
pub proof fn lemma_cancelled_job_stops(v: SessionView, task_id: Seq<char>, replacement: Option<RunTaskView>)
    requires
        replacement matches Some(job) ==> job.id != task_id,
    ensures
        !job_is_current(SessionView { job: replacement, ..v }, task_id),
{
}

/// Results of a run job.
#[derive(Debug)]
pub struct SessionRunResult {
    pub hashes: Vec<crate::machine::Hash>,
    pub summaries: Vec<RunSummary>,
}

fn copy_hashes(v: &Vec<crate::machine::Hash>) -> (res: Vec<crate::machine::Hash>)
    ensures
        res@ == v@,
{
    let mut res: Vec<crate::machine::Hash> = Vec::new();
    let mut i: usize = 0;
    while i < v.len()
        invariant
            i <= v.len(),
            res@ == v@.subrange(0, i as int),
        decreases v.len() - i,
    {
        res.push(v[i]);
        i = i + 1;
        assert(res@ =~= v@.subrange(0, i as int));
    }
    assert(v@.subrange(0, v@.len() as int) =~= v@);
    res
}

fn copy_summaries(v: &Vec<RunSummary>) -> (res: Vec<RunSummary>)
    ensures
        res@ == v@,
{
    let mut res: Vec<RunSummary> = Vec::new();
    let mut i: usize = 0;
    while i < v.len()
        invariant
            i <= v.len(),
            res@ == v@.subrange(0, i as int),
        decreases v.len() - i,
    {
        res.push(v[i]);
        i = i + 1;
        assert(res@ =~= v@.subrange(0, i as int));
    }
    assert(v@.subrange(0, v@.len() as int) =~= v@);
    res
}

impl Session {
    /// A new session, in its initial state, whose machine is created from `config`.
    pub fn init_from_config(
        session_id: &str,
        config: MachineConfig,
        runtime_config: MachineRuntimeConfig,
        request: &SessionRequest,
    ) -> (res: Session)
        ensures
            res@ == (SessionView {
                id: session_id@,
                state: SessionState::New,
                cycle: 0,
                ucycle: 0,
                snapshot_cycle: None,
                machine_config: Some(config),
                directory: None,
                runtime_config,
                current_request: Some(*request),
                job: None,
                connected: false,
            }),
    {
        Session {
            id: String::from_str(session_id),
            state: SessionState::New,
            cycle: 0,
            ucycle: 0,
            snapshot_cycle: None,
            machine_config: Some(config),
            directory: None,
            machine_runtime_config: runtime_config,
            current_request: Some(request.duplicate()),
            current_job: None,
            connected: false,
        }
    }

    /// A new session, in its initial state, whose machine is loaded from `directory`.
    pub fn init_from_directory(
        session_id: &str,
        directory: &str,
        runtime_config: MachineRuntimeConfig,
        request: &SessionRequest,
    ) -> (res: Session)
        ensures
            res@ == (SessionView {
                id: session_id@,
                state: SessionState::New,
                cycle: 0,
                ucycle: 0,
                snapshot_cycle: None,
                machine_config: None,
                directory: Some(directory@),
                runtime_config,
                current_request: Some(*request),
                job: None,
                connected: false,
            }),
    {
        Session {
            id: String::from_str(session_id),
            state: SessionState::New,
            cycle: 0,
            ucycle: 0,
            snapshot_cycle: None,
            machine_config: None,
            directory: Some(String::from_str(directory)),
            machine_runtime_config: runtime_config,
            current_request: Some(request.duplicate()),
            current_job: None,
            connected: false,
        }
    }

    /// The session id.
    pub fn get_id(&self) -> (res: &str)
        ensures
            res@ == self@.id,
    {
        self.id.as_str()
    }

    /// Whether the session's id is `id`.
    pub fn has_id(&self, id: &String) -> (res: bool)
        ensures
            res == (self@.id == id@),
    {
        self.id == *id
    }

    /// The state of the session.
    pub fn state(&self) -> (res: SessionState)
        ensures
            res == self@.state,
    {
        self.state
    }

    /// The cycle the machine is at.
    pub fn cycle(&self) -> (res: u64)
        ensures
            res == self@.cycle,
    {
        self.cycle
    }

    /// The micro-architecture cycle the machine is at.
    pub fn ucycle(&self) -> (res: u64)
        ensures
            res == self@.ucycle,
    {
        self.ucycle
    }

    /// The cycle of the last snapshot, if one stands.
    pub fn snapshot_cycle(&self) -> (res: Option<u64>)
        ensures
            res == self@.snapshot_cycle,
    {
        self.snapshot_cycle
    }

    /// The machine configuration the session was created from.
    pub fn machine_config(&self) -> (res: &Option<MachineConfig>)
        ensures
            *res == self@.machine_config,
    {
        &self.machine_config
    }

    /// The directory the session's machine is loaded from.
    pub fn directory(&self) -> (res: Option<&str>)
        ensures
            match res {
                Some(d) => self@.directory == Some(d@),
                None => self@.directory is None,
            },
    {
        match &self.directory {
            Some(d) => Some(d.as_str()),
            None => None,
        }
    }

    /// The runtime configuration of the session's machine.
    pub fn runtime_config(&self) -> (res: MachineRuntimeConfig)
        ensures
            res == self@.runtime_config,
    {
        self.machine_runtime_config
    }

    /// Whether the session has a connection to its machine server.
    pub fn is_connected(&self) -> (res: bool)
        ensures
            res == self@.connected,
    {
        self.connected
    }

    /// The client request the session is serving.
    pub fn get_current_request(&self) -> (res: &Option<SessionRequest>)
        ensures
            *res == self@.current_request,
    {
        &self.current_request
    }

    /// Makes `new_request` the request the session is serving.
    pub fn set_current_request(&mut self, new_request: &SessionRequest)
        ensures
            final(self)@ == (SessionView { current_request: Some(*new_request), ..old(self)@ }),
    {
        self.current_request = Some(new_request.duplicate());
    }

    /// The session serves no request any more.
    pub fn clear_request(&mut self)
        ensures
            final(self)@ == (SessionView { current_request: None, ..old(self)@ }),
    {
        self.current_request = None;
    }

    /// The session has no run job any more.
    pub fn clear_job(&mut self)
        ensures
            final(self)@ == (SessionView { job: None, ..old(self)@ }),
    {
        self.current_job = None;
    }

    /// Where the machine comes from when it is created on the machine server.
    pub fn machine_source(&self) -> (res: Result<MachineSource, CartesiSessionError>)
        ensures
            self@.machine_config is Some ==> res == Ok::<MachineSource, CartesiSessionError>(MachineSource::Config),
            self@.machine_config is None && self@.directory is Some
                ==> res == Ok::<MachineSource, CartesiSessionError>(MachineSource::Directory),
            self@.machine_config is None && self@.directory is None ==> (res matches Err(e)
                && e@ == "could not recreate machine, missing machine configuration or directory"@),
    {
        if self.machine_config.is_some() {
            Ok(MachineSource::Config)
        } else if self.directory.is_some() {
            Ok(MachineSource::Directory)
        } else {
            Err(CartesiSessionError::new("could not recreate machine, missing machine configuration or directory"))
        }
    }

    /// The machine server has created the machine: the session starts over at
    /// cycle 0 in state `New`, with no snapshot.
    pub fn machine_created(&mut self)
        ensures
            final(self)@ == (SessionView {
                cycle: 0,
                snapshot_cycle: None,
                state: SessionState::New,
                ..old(self)@
            }),
    {
        self.cycle = 0;
        self.snapshot_cycle = None;
        self.state = SessionState::New;
    }

    /// Checks that the micro-architecture can run to `final_ucycle`: it must not
    /// be past it already.
    pub fn check_run_to_ucycle(&self, final_ucycle: u64) -> (res: Result<(), CartesiSessionError>)
        ensures
            final_ucycle >= self@.ucycle <==> res is Ok,
            res matches Err(e) ==> e@ == "uarch machine is already at ucycle "@ + decimal(self@.ucycle as nat)
                + ", requested ucycle "@ + decimal(final_ucycle as nat),
    {
        if final_ucycle < self.ucycle {
            let mut message = String::from_str("uarch machine is already at ucycle ");
            append_decimal(&mut message, self.ucycle);
            message.append(", requested ucycle ");
            append_decimal(&mut message, final_ucycle);
            Err(CartesiSessionError { message })
        } else {
            Ok(())
        }
    }

    /// Takes in the result of a run of the micro-architecture. When it halted,
    /// the machine moves to the next cycle at ucycle 0 and the result is `true`:
    /// the micro-architecture state is then to be reset on the machine server.
    pub fn apply_uarch_run(&mut self, result: UarchRunResult) -> (reset: bool)
        requires
            result.reason == UarchBreakReason::Halted ==> old(self)@.cycle < u64::MAX,
        ensures
            reset == (result.reason == UarchBreakReason::Halted),
            reset ==> final(self)@ == (SessionView { cycle: (old(self)@.cycle + 1) as u64, ucycle: 0, ..old(self)@ }),
            !reset ==> final(self)@ == (SessionView { ucycle: result.cycle, ..old(self)@ }),
    {
        match result.reason {
            UarchBreakReason::Halted => {
                self.reset_uarch_state();
                true
            },
            UarchBreakReason::ReachedTargetCycle => {
                self.ucycle = result.cycle;
                false
            },
        }
    }

    fn reset_uarch_state(&mut self)
        requires
            old(self)@.cycle < u64::MAX,
        ensures
            final(self)@ == (SessionView { cycle: (old(self)@.cycle + 1) as u64, ucycle: 0, ..old(self)@ }),
    {
        self.cycle = self.cycle + 1;
        self.ucycle = 0;
    }

    /// Checks that the machine can run to `final_cycle`: it must not be past it
    /// already.
    pub fn check_run_to_cycle(&self, final_cycle: u64) -> (res: Result<(), CartesiSessionError>)
        ensures
            final_cycle >= self@.cycle <==> res is Ok,
            res matches Err(e) ==> e@ == "machine is already at cycle "@ + decimal(self@.cycle as nat)
                + ", requested cycle "@ + decimal(final_cycle as nat),
    {
        if final_cycle < self.cycle {
            let mut message = String::from_str("machine is already at cycle ");
            append_decimal(&mut message, self.cycle);
            message.append(", requested cycle ");
            append_decimal(&mut message, final_cycle);
            Err(CartesiSessionError { message })
        } else {
            Ok(())
        }
    }

    /// Takes in the summary of a run of the machine: the session is at the cycle
    /// reached, `Halted` there if the machine halted and `Active` otherwise.
    pub fn apply_run(&mut self, summary: &RunSummary)
        ensures
            final(self)@ == (SessionView {
                cycle: summary.mcycle,
                state: if summary.iflags_h { SessionState::Halted(summary.mcycle) } else { SessionState::Active },
                ..old(self)@
            }),
    {
        self.cycle = summary.mcycle;
        if summary.iflags_h {
            self.state = SessionState::Halted(summary.mcycle);
        } else {
            self.state = SessionState::Active;
        }
    }

    /// The next call to make, at `stage`, to bring the machine to `cycle` and
    /// `ucycle`: first finish a micro-architecture run left unfinished (when a
    /// cycle above 0 is asked for), then run to the cycle if the machine is
    /// below it, then run the micro-architecture to the ucycle if one above 0
    /// is asked for. A machine already past the cycle is an error, and nothing
    /// is run.
    pub fn run_to_next(&self, stage: RunToStage, cycle: u64, ucycle: u64) -> (res: Result<
        (RunToStage, RunToAction),
        CartesiSessionError,
    >)
        ensures
            run_to_refused(self@, stage, cycle) ==> (res matches Err(e) && e@ == "machine is already at cycle "@
                + decimal(self@.cycle as nat) + ", requested cycle "@ + decimal(cycle as nat)),
            !run_to_refused(self@, stage, cycle) ==> res == Ok::<(RunToStage, RunToAction), CartesiSessionError>(
                run_to_step(self@, stage, cycle, ucycle),
            ),
    {
        if stage == RunToStage::Start {
            self.check_run_to_cycle(cycle)?;
        }
        let finish_uarch = stage == RunToStage::Start && cycle > 0 && self.ucycle > 0;
        let run_cycle = (stage == RunToStage::Start || stage == RunToStage::UarchFinished) && self.cycle < cycle;
        let run_uarch = stage != RunToStage::Finished && ucycle > 0;
        if finish_uarch {
            Ok((RunToStage::UarchFinished, RunToAction::RunUarch(u64::MAX)))
        } else if run_cycle {
            Ok((RunToStage::CycleReached, RunToAction::Run(cycle)))
        } else if run_uarch {
            Ok((RunToStage::Finished, RunToAction::RunUarch(ucycle)))
        } else {
            Ok((RunToStage::Finished, RunToAction::Done))
        }
    }

    /// The next call that the run job with id `task_id` makes, at `stage`, to
    /// bring the machine to `cycle` and `ucycle`: none, and the job stops, once
    /// it is no longer the session's job; otherwise as `run_to_next`.
    pub fn job_step(&self, task_id: &str, stage: RunToStage, cycle: u64, ucycle: u64) -> (res: Result<
        JobStep,
        CartesiSessionError,
    >)
        ensures
            !job_is_current(self@, task_id@) ==> res matches Ok(JobStep::Abort),
            job_is_current(self@, task_id@) && run_to_refused(self@, stage, cycle) ==> (res matches Err(e) && e@
                == "machine is already at cycle "@ + decimal(self@.cycle as nat) + ", requested cycle "@ + decimal(
                cycle as nat,
            )),
            job_is_current(self@, task_id@) && !run_to_refused(self@, stage, cycle) ==> (res matches Ok(
                JobStep::Next(next, action),
            ) && (next, action) == run_to_step(self@, stage, cycle, ucycle)),
    {
        if !self.is_current_job(task_id) {
            return Ok(JobStep::Abort);
        }
        let (next, action) = self.run_to_next(stage, cycle, ucycle)?;
        Ok(JobStep::Next(next, action))
    }

    /// Checks that the session is connected to its machine server, as a snapshot
    /// or a rollback needs.
    pub fn check_connected(&self) -> (res: Result<(), CartesiSessionError>)
        ensures
            self@.connected <==> res is Ok,
            res matches Err(e) ==> e@ == "Can not perform snapshot for session id "@ + self@.id + ", no connection"@,
    {
        if self.connected {
            Ok(())
        } else {
            let mut message = String::from_str("Can not perform snapshot for session id ");
            message.append(self.id.as_str());
            message.append(", no connection");
            Err(CartesiSessionError { message })
        }
    }

    /// The machine server took a snapshot: it stands at the current cycle, and
    /// the session waits for the server's new process to check in.
    pub fn apply_snapshot(&mut self)
        ensures
            final(self)@ == snapshot_taken(old(self)@),
    {
        self.snapshot_cycle = Some(self.cycle);
        self.connected = false;
    }

    /// The machine server rolled back: the machine is at the snapshot's cycle
    /// (0 when none stood), the snapshot is used up, and the session waits for
    /// the server's process to check in.
    pub fn apply_rollback(&mut self)
        ensures
            final(self)@ == rolled_back(old(self)@),
    {
        self.cycle = match self.snapshot_cycle {
            Some(c) => c,
            None => 0,
        };
        self.snapshot_cycle = None;
        self.connected = false;
    }

    /// Checks that the session has a client of its machine server, as every
    /// call on the machine needs.
    pub fn check_client(&self) -> (res: Result<(), CartesiSessionError>)
        ensures
            self@.connected <==> res is Ok,
            res matches Err(e) ==> e@ == "cartesi machine client not connected or available"@,
    {
        if self.connected {
            Ok(())
        } else {
            Err(CartesiSessionError::new("cartesi machine client not connected or available"))
        }
    }

    /// Checks that the session's machine server has checked in, as connecting
    /// to it needs.
    pub fn check_checked_in(checked_in: bool) -> (res: Result<(), CartesiSessionError>)
        ensures
            checked_in <==> res is Ok,
            res matches Err(e) ==> e@ == "unable to setup session client, server is not checked in"@,
    {
        if checked_in {
            Ok(())
        } else {
            Err(CartesiSessionError::new("unable to setup session client, server is not checked in"))
        }
    }

    /// The error of a machine server that could not be started, whose failure
    /// has the text `details`.
    pub fn instantiate_error(details: &str) -> (res: CartesiSessionError)
        ensures
            res@ == "unable to instantiate server - "@ + details@,
    {
        let mut message = String::from_str("unable to instantiate server - ");
        message.append(details);
        CartesiSessionError { message }
    }

    /// The session is connected to its machine server.
    pub fn connection_established(&mut self)
        ensures
            final(self)@ == (SessionView { connected: true, ..old(self)@ }),
    {
        self.connected = true;
    }

    /// The error of a machine server that did not check in after a snapshot or
    /// a rollback.
    pub fn snapshot_timeout_error(&self) -> (res: CartesiSessionError)
        ensures
            res@ == "Timeout while waiting for session id="@ + self@.id + " snapshot to check in"@,
    {
        let mut message = String::from_str("Timeout while waiting for session id=");
        message.append(self.id.as_str());
        message.append(" snapshot to check in");
        CartesiSessionError { message }
    }

    /// Checks a run request against the session and tells what it takes before
    /// the run job starts. The first final cycle must not lie before the
    /// snapshot; a new snapshot is needed when the machine has moved past the
    /// snapshot or is below the first final cycle.
    pub fn plan_run(&self, final_cycles: &[u64], final_ucycles: &[u64]) -> (res: Result<RunPlan, CartesiSessionError>)
        ensures
            final_cycles@.len() == 0 ==> (res matches Err(e)
                && e@ == "run operation invalid final cycles list for session id "@ + self@.id),
            final_cycles@.len() > 0 && final_ucycles@.len() == 0 ==> (res matches Err(e)
                && e@ == "run operation invalid final ucycles list for session id "@ + self@.id),
            final_cycles@.len() > 0 && final_ucycles@.len() > 0 && final_cycles@.len() != final_ucycles@.len()
                ==> (res matches Err(e)
                && e@ == "number of final cycles does not equal to number of final ucycles for session id "@ + self@.id),
            final_cycles@.len() > 0 && final_cycles@.len() == final_ucycles@.len() && self@.snapshot_cycle is None
                ==> (res matches Err(e)
                && e@ == "error executing run operation - no existing snapshot for session id "@ + self@.id),
            final_cycles@.len() > 0 && final_cycles@.len() == final_ucycles@.len() && self@.snapshot_cycle is Some
                && self@.snapshot_cycle->0 > final_cycles@[0] ==> (res matches Err(e)
                && e@ == "requested run cycle in history before snapshot, please recreate session with id "@ + self@.id),
            final_cycles@.len() > 0 && final_cycles@.len() == final_ucycles@.len() && self@.snapshot_cycle is Some
                && self@.snapshot_cycle->0 <= final_cycles@[0] ==> res == Ok::<RunPlan, CartesiSessionError>(
                RunPlan {
                    perform_snapshot: self@.snapshot_cycle->0 < self@.cycle || self@.cycle < final_cycles@[0],
                    first_cycle: final_cycles@[0],
                    first_ucycle: final_ucycles@[0],
                    single: final_cycles@.len() == 1,
                }),
    {
        if final_cycles.len() == 0 {
            return Err(CartesiSessionError::with_id("run operation invalid final cycles list for session id ", &self.id));
        }
        if final_ucycles.len() == 0 {
            return Err(CartesiSessionError::with_id("run operation invalid final ucycles list for session id ", &self.id));
        }
        if final_cycles.len() != final_ucycles.len() {
            return Err(
                CartesiSessionError::with_id(
                    "number of final cycles does not equal to number of final ucycles for session id ",
                    &self.id,
                ),
            );
        }
        let first_job_cycle = final_cycles[0];
        let first_job_ucycle = final_ucycles[0];
        match self.snapshot_cycle {
            Some(snapshot_cycle) => {
                if snapshot_cycle <= first_job_cycle {
                    Ok(
                        RunPlan {
                            perform_snapshot: snapshot_cycle < self.cycle || self.cycle < first_job_cycle,
                            first_cycle: first_job_cycle,
                            first_ucycle: first_job_ucycle,
                            single: final_cycles.len() == 1,
                        },
                    )
                } else {
                    Err(
                        CartesiSessionError::with_id(
                            "requested run cycle in history before snapshot, please recreate session with id ",
                            &self.id,
                        ),
                    )
                }
            },
            None => Err(
                CartesiSessionError::with_id(
                    "error executing run operation - no existing snapshot for session id ",
                    &self.id,
                ),
            ),
        }
    }

    /// The error of a run whose root hash could not be read at its target cycle.
    pub fn root_hash_error(&self, cycle: u64, details: &str) -> (res: CartesiSessionError)
        ensures
            res@ == "error running machine session_id=\""@ + self@.id + "\", unable to get root hash on target cycle "@
                + decimal(cycle as nat) + ", details:'"@ + details@ + "'"@,
    {
        let mut message = String::from_str("error running machine session_id=\"");
        message.append(self.id.as_str());
        message.append("\", unable to get root hash on target cycle ");
        append_decimal(&mut message, cycle);
        message.append(", details:'");
        message.append(details);
        message.append("'");
        CartesiSessionError { message }
    }

    /// Starts a run job to the given final cycles, with no result yet.
    pub fn start_job(&mut self, request_id: &str, final_cycles: &[u64], final_ucycles: &[u64])
        ensures
            final(self)@ == (SessionView {
                job: Some(new_task_view(request_id@, final_cycles@, final_ucycles@)),
                ..old(self)@
            }),
    {
        self.current_job = Some(RunTask::new(request_id, final_cycles, final_ucycles));
    }

    /// Records a run job that is done at once: its only final cycle was reached
    /// with `summary`, and the machine's root hash there is `hash`.
    pub fn finish_single_job(
        &mut self,
        request_id: &str,
        final_cycles: &[u64],
        final_ucycles: &[u64],
        hash: crate::machine::Hash,
        summary: RunSummary,
    )
        ensures
            final(self)@ == (SessionView {
                job: Some(
                    RunTaskView {
                        hashes: seq![hash],
                        summaries: seq![summary],
                        ..new_task_view(request_id@, final_cycles@, final_ucycles@)
                    },
                ),
                ..old(self)@
            }),
    {
        let mut task = RunTask::new(request_id, final_cycles, final_ucycles);
        task.hashes.push(hash);
        task.summaries.push(summary);
        assert(task.hashes@ =~= seq![hash]);
        assert(task.summaries@ =~= seq![summary]);
        self.current_job = Some(task);
    }

    /// Whether the session's run job is the job with id `task_id`; a job that
    /// finds it is not stops.
    pub fn is_current_job(&self, task_id: &str) -> (res: bool)
        ensures
            res == (self@.job is Some && self@.job->0.id == task_id@),
    {
        match &self.current_job {
            Some(task) => task.id == String::from_str(task_id),
            None => false,
        }
    }

    /// The id of the session's run job, if it has one.
    pub fn current_job_id(&self) -> (res: Option<String>)
        ensures
            match res {
                Some(id) => self@.job is Some && id@ == self@.job->0.id,
                None => self@.job is None,
            },
    {
        match &self.current_job {
            Some(task) => Some(task.id.clone()),
            None => None,
        }
    }

    /// Records one final cycle reached by the run job: the machine's summary
    /// there and its root hash. Returns whether the machine halted; then the
    /// job stops, and its last hash stands for the final cycles it will not
    /// reach, up to one fewer than their number.
    pub fn record_job_step(&mut self, summary: RunSummary, hash: crate::machine::Hash) -> (halted: bool)
        requires
            old(self)@.job is Some,
        ensures
            halted == summary.iflags_h,
            final(self)@ == step_recorded(old(self)@, summary, hash),
    {
        let task = self.current_job.take().unwrap();
        let ghost before = task.view();
        let RunTask { id, request_id, final_cycles, final_ucycles, mut hashes, mut summaries } = task;
        summaries.push(summary);
        hashes.push(hash);
        let halted = summary.iflags_h;
        if halted {
            let total = final_cycles.len();
            if total > hashes.len() {
                let last_hash = hashes[hashes.len() - 1];
                let copies = total - hashes.len() - 1;
                let ghost pushed = hashes@;
                let mut k: usize = 0;
                while k < copies
                    invariant
                        k <= copies,
                        last_hash == pushed.last(),
                        pushed.len() > 0,
                        hashes@ == pushed + Seq::new(k as nat, |i: int| pushed.last()),
                    decreases copies - k,
                {
                    hashes.push(last_hash);
                    k = k + 1;
                    assert(hashes@ =~= pushed + Seq::new(k as nat, |i: int| pushed.last()));
                }
                assert(hashes@ =~= filled_hashes(pushed, total as nat));
            }
        }
        self.current_job = Some(RunTask { id, request_id, final_cycles, final_ucycles, hashes, summaries });
        halted
    }

    /// Records one final cycle reached by the run job with id `task_id`, as
    /// `record_job_step` does, when it is still the session's job; a job that is
    /// not records nothing. The result is whether the machine halted, or `None`
    /// when nothing was recorded.
    pub fn record_job_result(&mut self, task_id: &str, summary: RunSummary, hash: crate::machine::Hash) -> (res:
        Option<bool>)
        ensures
            !job_is_current(old(self)@, task_id@) ==> res is None && final(self)@ == old(self)@,
            job_is_current(old(self)@, task_id@) ==> res == Some(summary.iflags_h) && final(self)@ == step_recorded(
                old(self)@,
                summary,
                hash,
            ),
    {
        if self.is_current_job(task_id) {
            Some(self.record_job_step(summary, hash))
        } else {
            None
        }
    }

    /// The results of the session's run job, if it serves request `request_id`.
    pub fn get_current_job_result(&self, request_id: &str) -> (res: Result<SessionRunResult, CartesiSessionError>)
        ensures
            self@.job is None ==> (res matches Err(e) && e@ == "no current task is running"@),
            self@.job is Some && self@.job->0.request_id != request_id@ ==> (res matches Err(e)
                && e@ == "requesting progress for task id='"@ + request_id@ + "', current task id='"@
                + self@.job->0.request_id + "'"@),
            self@.job is Some && self@.job->0.request_id == request_id@ ==> (res matches Ok(r)
                && r.hashes@ == self@.job->0.hashes && r.summaries@ == self@.job->0.summaries),
    {
        match &self.current_job {
            Some(task) => {
                if task.request_id != String::from_str(request_id) {
                    let mut message = String::from_str("requesting progress for task id='");
                    message.append(request_id);
                    message.append("', current task id='");
                    message.append(task.request_id.as_str());
                    message.append("'");
                    Err(CartesiSessionError { message })
                } else {
                    Ok(SessionRunResult { hashes: copy_hashes(&task.hashes), summaries: copy_summaries(&task.summaries) })
                }
            },
            None => Err(CartesiSessionError::new("no current task is running")),
        }
    }

    /// Checks that a request for `cycle` and `ucycle` finds the machine exactly
    /// there, as a step, a memory write and a memory range replacement need.
    pub fn check_exact_cycle(&self, cycle: u64, ucycle: u64) -> (res: Result<(), CartesiSessionError>)
        ensures
            (cycle == self@.cycle && ucycle == self@.ucycle) <==> res is Ok,
            cycle != self@.cycle ==> (res matches Err(e)
                && e@ == "unexpected session cycle, current cycle is "@ + decimal(self@.cycle as nat)),
            cycle == self@.cycle && ucycle != self@.ucycle ==> (res matches Err(e)
                && e@ == "unexpected session ucycle, current ucycle is "@ + decimal(self@.ucycle as nat)),
    {
        if self.cycle != cycle {
            return Err(CartesiSessionError::with_number("unexpected session cycle, current cycle is ", self.cycle));
        }
        if self.ucycle != ucycle {
            return Err(CartesiSessionError::with_number("unexpected session ucycle, current ucycle is ", self.ucycle));
        }
        Ok(())
    }

    /// Checks that a read (of memory or of a proof) for `cycle` and `ucycle`
    /// can be served: the machine is exactly there, or it halted at its current
    /// cycle and the read asks for that point or a later one, which all read the
    /// same.
    pub fn check_read_cycle(&self, cycle: u64, ucycle: u64) -> (res: Result<(), CartesiSessionError>)
        ensures
            (self@.state == SessionState::Halted(self@.cycle) && cycle >= self@.cycle && ucycle >= self@.ucycle)
                || (cycle == self@.cycle && ucycle == self@.ucycle) <==> res is Ok,
            res is Err && cycle != self@.cycle ==> (res matches Err(e)
                && e@ == "unexpected session cycle, current cycle is "@ + decimal(self@.cycle as nat)),
            res is Err && cycle == self@.cycle ==> (res matches Err(e)
                && e@ == "unexpected session ucycle, current ucycle is "@ + decimal(self@.ucycle as nat)),
    {
        if self.state == SessionState::Halted(self.cycle) && cycle >= self.cycle && ucycle >= self.ucycle {
            Ok(())
        } else {
            self.check_exact_cycle(cycle, ucycle)
        }
    }

    /// Takes in the outcome of a micro-architecture step. When the machine
    /// halted, it moves to the next cycle at ucycle 0, is `Halted` there, and
    /// the result is `true`: the micro-architecture state is then to be reset on
    /// the machine server. Otherwise it is one ucycle further and `Active`.
    pub fn apply_step(&mut self, halted: bool) -> (reset: bool)
        requires
            halted ==> old(self)@.cycle < u64::MAX,
            !halted ==> old(self)@.ucycle < u64::MAX,
        ensures
            reset == halted,
            halted ==> final(self)@ == (SessionView {
                cycle: (old(self)@.cycle + 1) as u64,
                ucycle: 0,
                state: SessionState::Halted((old(self)@.cycle + 1) as u64),
                ..old(self)@
            }),
            !halted ==> final(self)@ == (SessionView {
                ucycle: (old(self)@.ucycle + 1) as u64,
                state: SessionState::Active,
                ..old(self)@
            }),
    {
        if halted {
            self.reset_uarch_state();
            self.state = SessionState::Halted(self.cycle);
            true
        } else {
            self.ucycle = self.ucycle + 1;
            self.state = SessionState::Active;
            false
        }
    }

    /// Whether closing the session still has to close its machine server: not
    /// once it is `Closed`.
    pub fn needs_close(&self) -> (res: bool)
        ensures
            res == (self@.state != SessionState::Closed),
    {
        self.state != SessionState::Closed
    }

    /// The session's machine server is closed.
    pub fn mark_closed(&mut self)
        ensures
            final(self)@ == (SessionView { state: SessionState::Closed, ..old(self)@ }),
    {
        self.state = SessionState::Closed;
    }

    /// How far the session's run job has come, with its results so far, if it
    /// serves request `request_id`.
    pub fn get_job_progress(&self, request_id: &str) -> (res: Result<
        (JobProgress, SessionRunResult),
        CartesiSessionError,
    >)
        ensures
            self@.job is None ==> (res matches Err(e) && e@ == "no current task is running"@),
            self@.job is Some && self@.job->0.request_id != request_id@ ==> (res matches Err(e)
                && e@ == "requesting progress for task id='"@ + request_id@ + "', current task id='"@
                + self@.job->0.request_id + "'"@),
            self@.job is Some && self@.job->0.request_id == request_id@ ==> (res matches Ok((p, r))
                && p == progress_of(self@.job->0) && r.hashes@ == self@.job->0.hashes
                && r.summaries@ == self@.job->0.summaries),
    {
        let result = self.get_current_job_result(request_id);
        match result {
            Ok(r) => {
                let task = self.current_job.as_ref().unwrap();
                let n_summaries = task.summaries.len();
                let cycle = if n_summaries > 0 { task.summaries[n_summaries - 1].mcycle } else { 0 };
                let halted = n_summaries > 0 && task.summaries[n_summaries - 1].iflags_h;
                let total = task.final_cycles.len();
                let done = task.hashes.len();
                let progress: u32 = if total == 0 || done >= total {
                    100
                } else {
                    assert((done as int) * 100 / (total as int) < 100) by (nonlinear_arith)
                        requires
                            done < total,
                            total > 0,
                    ;
                    ((done as u128 * 100) / total as u128) as u32
                };
                Ok((JobProgress { cycle, progress, halted }, r))
            },
            Err(e) => Err(e),
        }
    }
}

} // verus!
