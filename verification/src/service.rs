//! The decisions of the machine manager service: how a client request is
//! checked against the session it names, which status a refused or failed
//! request is answered with, and what a repeated run request is told.
//!
//! The calls to the machine servers and the transport of the replies happen
//! outside this module; they hand these functions plain values.

use crate::machine::{MachineConfig, MachineRuntimeConfig};
use crate::session::{
    progress_of, same_request, JobProgress, MachineSource, Session, SessionRequest, SessionRunResult, SessionView,
};
use crate::session_manager::{position, RamSessionManager, SessionManagerView};
use crate::text::{contains_text, occurs_at, text_contains};
use crate::wire;
use vstd::prelude::*;

verus! {

/// Kind of a status that a refused or failed request is answered with.
#[derive(Debug, Clone, Copy, PartialEq, Eq, Structural)]
pub enum StatusCode {
    InvalidArgument,
    Internal,
    AlreadyExists,
    Unavailable,
}

/// Status that a refused or failed request is answered with.
#[derive(Debug, Clone)]
pub struct ServiceStatus {
    pub code: StatusCode,
    pub message: String,
}

impl ServiceStatus {
    /// A status of kind `code` with the given message.
    pub fn new(code: StatusCode, message: &str) -> (res: Self)
        ensures
            res.code == code,
            res.message@ == message@,
    {
        ServiceStatus { code, message: String::from_str(message) }
    }
}

/// The status of an error whose text is `error_str`: a wrong argument when
/// the text holds `pattern`, an internal error otherwise.
pub fn deduce_tonic_error_type(error_str: &str, pattern: &str, message: &str) -> (res: ServiceStatus)
    ensures
        res.code == (if contains_text(error_str@, pattern@) {
            StatusCode::InvalidArgument
        } else {
            StatusCode::Internal
        }),
        res.message@ == message@,
{
    if text_contains(error_str, pattern) {
        ServiceStatus::new(StatusCode::InvalidArgument, message)
    } else {
        ServiceStatus::new(StatusCode::Internal, message)
    }
}

/// Refuses `request_info` when the session already serves that same request:
/// it is in progress. Otherwise `request_info` becomes the request the
/// session serves.
pub fn check_and_set_new_request(session: &mut Session, request_info: &SessionRequest) -> (res: Result<
    (),
    ServiceStatus,
>)
    ensures
        final(session)@ == request_taken(old(session)@, *request_info),
        request_refused(old(session)@, *request_info) ==> (res matches Err(s) && s.code
            == StatusCode::AlreadyExists && s.message@ == in_progress_text()),
        !request_refused(old(session)@, *request_info) ==> res is Ok,
{
    let refused = match session.get_current_request() {
        Some(current) => current.same_as(request_info),
        None => false,
    };
    if refused {
        Err(ServiceStatus::new(StatusCode::AlreadyExists, "operation already in progress"))
    } else {
        session.set_current_request(request_info);
        Ok(())
    }
}

/// The session no longer serves a request and has no run job.
pub fn clear_request(session: &mut Session)
    ensures
        final(session)@ == (SessionView { job: None, current_request: None, ..old(session)@ }),
{
    session.clear_job();
    session.clear_request();
}

/// What a run request is answered with.
#[derive(Debug)]
pub enum SessionRunResponse {
    /// The job runs; this is how far it has come.
    Progress(JobProgress),
    /// The job is over; these are its results.
    Result(SessionRunResult),
}

/// The text of the error that asking the session for the progress of the job
/// of request `request_id` gives.
pub open spec fn job_progress_error(v: SessionView, request_id: Seq<char>) -> Seq<char> {
    match v.job {
        None => "no current task is running"@,
        Some(job) => "requesting progress for task id='"@ + request_id + "', current task id='"@ + job.request_id
            + "'"@,
    }
}

/// Whether a job that has come this far is over: it reached all its final
/// cycles, or the machine halted before.
pub open spec fn job_over(p: JobProgress) -> bool {
    p.progress >= 100 || p.halted
}

/// The job of a session in state `v` that run request `request_info` asks
/// about, when it is the request the session serves and the job is its.
pub open spec fn asked_job(v: SessionView, request_info: SessionRequest) -> Option<crate::session::RunTaskView> {
    match v.job {
        Some(job) => if v.current_request matches Some(current) && same_request(current, request_info)
            && job.request_id == request_info.id@ {
            Some(job)
        } else {
            None
        },
        None => None,
    }
}

/// The session once run request `request_info` has been handled against a
/// session in state `before`.
pub open spec fn run_request_state(before: SessionView, request_info: SessionRequest) -> SessionView {
    match before.current_request {
        None => SessionView { current_request: Some(request_info), ..before },
        Some(current) => if !same_request(current, request_info) {
            SessionView { job: None, current_request: Some(request_info), ..before }
        } else {
            match asked_job(before, request_info) {
                Some(job) => if job_over(progress_of(job)) {
                    SessionView { job: None, current_request: None, ..before }
                } else {
                    before
                },
                None => before,
            }
        },
    }
}

/// Whether `res` is what run request `request_info` is answered with by a
/// session in state `before`.
pub open spec fn run_request_answered(
    before: SessionView,
    request_info: SessionRequest,
    res: Result<Option<SessionRunResponse>, ServiceStatus>,
) -> bool {
    if !request_refused(before, request_info) {
        res matches Ok(None)
    } else {
        match asked_job(before, request_info) {
            Some(job) => if job_over(progress_of(job)) {
                res matches Ok(Some(SessionRunResponse::Result(r))) && r.hashes@ == job.hashes
                    && r.summaries@ == job.summaries
            } else {
                res matches Ok(Some(SessionRunResponse::Progress(p))) && p == progress_of(job)
            },
            None => res matches Err(s) && s.code == StatusCode::InvalidArgument && s.message@
                == "unable to get execution progress: "@ + "machine manager session error: "@ + job_progress_error(
                before,
                request_info.id@,
            ),
        }
    }
}

/// Handles a run request against the run job of the session.
///
/// The same request as the one being served is told the job's progress, or,
/// once the job is over, its results, and the session is then free again.
/// A different request takes the place of the one being served, whose job is
/// dropped. With no request being served, the run request is set as current.
/// In the last two cases the result is `None`: a new job is to be started.
pub fn check_and_set_run_request(session: &mut Session, request_info: &SessionRequest) -> (res: Result<
    Option<SessionRunResponse>,
    ServiceStatus,
>)
    ensures
        final(session)@ == run_request_state(old(session)@, *request_info),
        run_request_answered(old(session)@, *request_info, res),
{
    let same = match session.get_current_request() {
        Some(current) => Some(current.same_as(request_info)),
        None => None,
    };
    match same {
        Some(true) => {
            match session.get_job_progress(request_info.id.as_str()) {
                Ok((progress, result)) => {
                    if progress.halted || progress.progress >= 100 {
                        clear_request(session);
                        Ok(Some(SessionRunResponse::Result(result)))
                    } else {
                        Ok(Some(SessionRunResponse::Progress(progress)))
                    }
                },
                Err(err) => {
                    let mut message = String::from_str("unable to get execution progress: ");
                    let details = err.describe();
                    message.append(details.as_str());
                    proof {
                        let a = "unable to get execution progress: "@;
                        let b = "machine manager session error: "@;
                        assert(a + (b + err@) =~= a + b + err@);
                    }
                    Err(ServiceStatus { code: StatusCode::InvalidArgument, message })
                },
            }
        },
        Some(false) => {
            clear_request(session);
            session.set_current_request(request_info);
            Ok(None)
        },
        None => {
            session.set_current_request(request_info);
            Ok(None)
        },
    }
}

fn text3(a: &str, b: &str, c: &str) -> (res: String)
    ensures
        res@ == a@ + b@ + c@,
{
    let mut res = String::from_str(a);
    res.append(b);
    res.append(c);
    res
}

fn text5(a: &str, b: &str, c: &str, d: &str, e: &str) -> (res: String)
    ensures
        res@ == a@ + b@ + c@ + d@ + e@,
{
    let mut res = String::from_str(a);
    res.append(b);
    res.append(c);
    res.append(d);
    res.append(e);
    res
}

/// The manager once the session at position `i` reads `v`.
pub open spec fn with_session(m: SessionManagerView, i: int, v: SessionView) -> SessionManagerView {
    SessionManagerView { sessions: m.sessions.update(i, v), ..m }
}

/// The text of the status of a request that names no session.
pub open spec fn unknown_session_text(session_id: Seq<char>) -> Seq<char> {
    "unknown session id "@ + session_id
}

/// The position of the session with id `session_id`; an unknown id is a wrong
/// argument.
pub fn find_session(manager: &RamSessionManager, session_id: &str) -> (res: Result<usize, ServiceStatus>)
    requires
        manager.wf(),
    ensures
        match position(manager@.sessions, session_id@) {
            Some(i) => res matches Ok(j) && j == i,
            None => res matches Err(s) && s.code == StatusCode::InvalidArgument
                && s.message@ == unknown_session_text(session_id@),
        },
{
    match manager.find_session(session_id) {
        Some(i) => Ok(i),
        None => {
            let mut message = String::from_str("unknown session id ");
            message.append(session_id);
            Err(ServiceStatus { code: StatusCode::InvalidArgument, message })
        },
    }
}

/// The text of the status that refuses requests while the service shuts down.
pub open spec fn shutting_down_text() -> Seq<char> {
    "Server is shutting down, not accepting new requests"@
}

/// Refuses the request while the service is shutting down.
pub fn shutdown_gate(shutting_down: bool) -> (res: Result<(), ServiceStatus>)
    ensures
        !shutting_down ==> res is Ok,
        shutting_down ==> (res matches Err(s) && s.code == StatusCode::Unavailable
            && s.message@ == shutting_down_text()),
{
    if shutting_down {
        Err(ServiceStatus::new(StatusCode::Unavailable, "Server is shutting down, not accepting new requests"))
    } else {
        Ok(())
    }
}

/// Which service answers: the standard one, or the defective one, which
/// recognises wrong cycles by another text.
#[derive(Debug, Clone, Copy, PartialEq, Eq, Structural)]
pub enum ServiceKind {
    Standard,
    Defective,
}

/// The text by which the service recognises an error caused by a request for
/// a cycle the session is not at.
pub open spec fn cycle_error_pattern(kind: ServiceKind) -> Seq<char> {
    match kind {
        ServiceKind::Standard => "unexpected session cycle, current cycle is"@,
        ServiceKind::Defective => "unexpected requested"@,
    }
}

fn cycle_error_pattern_text(kind: ServiceKind) -> (res: &'static str)
    ensures
        res@ == cycle_error_pattern(kind),
{
    match kind {
        ServiceKind::Standard => "unexpected session cycle, current cycle is",
        ServiceKind::Defective => "unexpected requested",
    }
}

/// A request on a session that runs one operation on its machine.
#[derive(Debug, Clone, Copy, PartialEq, Eq, Structural)]
pub enum Operation {
    Step,
    Store,
    ReadMemory,
    WriteMemory,
    GetProof,
    ReplaceMemoryRange,
}

/// The text of the status of an operation request that lacks its argument.
pub open spec fn missing_argument_text(op: Operation) -> Seq<char> {
    match op {
        Operation::Step => "step request invalid argument, missing step params argument"@,
        Operation::Store => "error execution session store request - missing store directory argument"@,
        Operation::ReadMemory => "error executing session read memory request - missing position argument"@,
        Operation::WriteMemory => "Error executing session write memory request - missing position argument"@,
        Operation::GetProof => "error executing session get proof request - missing target argument"@,
        Operation::ReplaceMemoryRange => "Error executing session replac memory range request - missing range argument"@,
    }
}

fn missing_argument_message(op: Operation) -> (res: &'static str)
    ensures
        res@ == missing_argument_text(op),
{
    match op {
        Operation::Step => "step request invalid argument, missing step params argument",
        Operation::Store => "error execution session store request - missing store directory argument",
        Operation::ReadMemory => "error executing session read memory request - missing position argument",
        Operation::WriteMemory => "Error executing session write memory request - missing position argument",
        Operation::GetProof => "error executing session get proof request - missing target argument",
        Operation::ReplaceMemoryRange => "Error executing session replac memory range request - missing range argument",
    }
}

/// The start of the text of the status of a failed operation (a failed store
/// repeats the error's text alone).
pub open spec fn failure_prefix(op: Operation) -> Seq<char> {
    match op {
        Operation::Step => "error executing session step"@,
        Operation::Store => Seq::empty(),
        Operation::ReadMemory => "error executing session read memory"@,
        Operation::WriteMemory => "Error executing session write memory"@,
        Operation::GetProof => "error executing session get proof"@,
        Operation::ReplaceMemoryRange => "Error executing session replace memory range"@,
    }
}

fn failure_prefix_text(op: Operation) -> (res: &'static str)
    ensures
        res@ == failure_prefix(op),
{
    proof {
        reveal_strlit("");
    }
    match op {
        Operation::Step => "error executing session step",
        Operation::Store => "",
        Operation::ReadMemory => "error executing session read memory",
        Operation::WriteMemory => "Error executing session write memory",
        Operation::GetProof => "error executing session get proof",
        Operation::ReplaceMemoryRange => "Error executing session replace memory range",
    }
}

/// The text of the status of an operation on session `session_id` that
/// failed with an error whose text is `details`.
pub open spec fn failure_text(op: Operation, session_id: Seq<char>, details: Seq<char>) -> Seq<char> {
    failure_prefix(op) + " for session id="@ + session_id + ". Details:'"@ + details + "'"@
}

/// The status of an operation on session `session_id` that failed with an
/// error whose text is `details`. A failed store is an internal error that
/// repeats the error's text. Any other failure names the operation and the
/// session, and is a wrong argument when the error is one of a cycle the
/// session is not at.
pub fn operation_failure(op: Operation, kind: ServiceKind, session_id: &str, details: &str) -> (res: ServiceStatus)
    ensures
        op == Operation::Store ==> res.code == StatusCode::Internal && res.message@ == details@,
        op != Operation::Store ==> res.code == (if contains_text(details@, cycle_error_pattern(kind)) {
            StatusCode::InvalidArgument
        } else {
            StatusCode::Internal
        }) && res.message@ == failure_text(op, session_id@, details@),
{
    if op == Operation::Store {
        ServiceStatus::new(StatusCode::Internal, details)
    } else {
        let head = text3(failure_prefix_text(op), " for session id=", session_id);
        let message = text3(head.as_str(), ". Details:'", details);
        let mut message = message;
        message.append("'");
        proof {
            assert(message@ =~= failure_text(op, session_id@, details@));
        }
        deduce_tonic_error_type(details, cycle_error_pattern_text(kind), message.as_str())
    }
}

/// Whether a session in state `before` refuses request `request_info`: it
/// already serves that same request.
pub open spec fn request_refused(before: SessionView, request_info: SessionRequest) -> bool {
    before.current_request matches Some(current) && same_request(current, request_info)
}

/// The session once it has been asked to serve `request_info`: unless it
/// refuses the request, the request becomes the one it serves.
pub open spec fn request_taken(before: SessionView, request_info: SessionRequest) -> SessionView {
    if request_refused(before, request_info) {
        before
    } else {
        SessionView { current_request: Some(request_info), ..before }
    }
}

/// The text of the status of a request refused because it is in progress.
pub open spec fn in_progress_text() -> Seq<char> {
    "operation already in progress"@
}

/// Starts an operation request on session `session_id`: the session must be
/// known, the request must carry its argument, and the request becomes the
/// one the session serves, unless the session already serves that same
/// request. The result is the session's position.
pub fn begin_session_request(
    manager: &mut RamSessionManager,
    session_id: &str,
    request_info: &SessionRequest,
    op: Operation,
    has_argument: bool,
) -> (res: Result<usize, ServiceStatus>)
    requires
        old(manager).wf(),
    ensures
        final(manager).wf(),
        match position(old(manager)@.sessions, session_id@) {
            None => {
                &&& res matches Err(s) && s.code == StatusCode::InvalidArgument
                    && s.message@ == unknown_session_text(session_id@)
                &&& final(manager)@ == old(manager)@
            },
            Some(i) => if !has_argument {
                &&& res matches Err(s) && s.code == StatusCode::InvalidArgument
                    && s.message@ == missing_argument_text(op)
                &&& final(manager)@ == old(manager)@
            } else {
                &&& final(manager)@ == with_session(old(manager)@, i, request_taken(old(manager)@.sessions[i], *request_info))
                &&& request_refused(old(manager)@.sessions[i], *request_info) ==> (res matches Err(s)
                    && s.code == StatusCode::AlreadyExists && s.message@ == in_progress_text())
                &&& !request_refused(old(manager)@.sessions[i], *request_info) ==> (res matches Ok(j) && j == i)
            },
        },
{
    let index = find_session(manager, session_id)?;
    if !has_argument {
        return Err(ServiceStatus::new(StatusCode::InvalidArgument, missing_argument_message(op)));
    }
    let ghost before = manager@.sessions[index as int];
    let checked;
    {
        let session = manager.session_at_mut(index);
        checked = check_and_set_new_request(session, request_info);
    }
    proof {
        let after = manager@.sessions[index as int];
        assert(manager@.sessions =~= old(manager)@.sessions.update(index as int, after));
        crate::session_manager::lemma_update_keeps_ids(old(manager)@.sessions, index as int, after);
        assert(manager@ == with_session(old(manager)@, index as int, after));
    }
    match checked {
        Ok(()) => Ok(index),
        Err(s) => Err(s),
    }
}

/// The text of the status of a step request whose parameters lack the log type.
pub open spec fn missing_log_type_text() -> Seq<char> {
    "step request invalid argument, missing log type"@
}

/// Starts a step request on session `session_id`, as an operation request
/// whose argument is the step parameters. The log type within them is looked
/// at only once the request is the session's: a request without it is
/// refused and stays the one the session serves.
pub fn begin_step_request(
    manager: &mut RamSessionManager,
    session_id: &str,
    request_info: &SessionRequest,
    has_params: bool,
    has_log_type: bool,
) -> (res: Result<usize, ServiceStatus>)
    requires
        old(manager).wf(),
    ensures
        final(manager).wf(),
        match position(old(manager)@.sessions, session_id@) {
            None => {
                &&& res matches Err(s) && s.code == StatusCode::InvalidArgument
                    && s.message@ == unknown_session_text(session_id@)
                &&& final(manager)@ == old(manager)@
            },
            Some(i) => if !has_params {
                &&& res matches Err(s) && s.code == StatusCode::InvalidArgument
                    && s.message@ == missing_argument_text(Operation::Step)
                &&& final(manager)@ == old(manager)@
            } else {
                &&& final(manager)@ == with_session(old(manager)@, i, request_taken(old(manager)@.sessions[i], *request_info))
                &&& request_refused(old(manager)@.sessions[i], *request_info) ==> (res matches Err(s)
                    && s.code == StatusCode::AlreadyExists && s.message@ == in_progress_text())
                &&& !request_refused(old(manager)@.sessions[i], *request_info) && has_log_type ==> (res matches Ok(j)
                    && j == i)
                &&& !request_refused(old(manager)@.sessions[i], *request_info) && !has_log_type ==> (res matches Err(s)
                    && s.code == StatusCode::InvalidArgument && s.message@ == missing_log_type_text())
            },
        },
{
    let index = begin_session_request(manager, session_id, request_info, Operation::Step, has_params)?;
    if !has_log_type {
        return Err(ServiceStatus::new(StatusCode::InvalidArgument, "step request invalid argument, missing log type"));
    }
    Ok(index)
}

/// Ends an operation request on the session at position `index`: the session
/// serves no request any more and has no run job. `failure` is the text of the
/// error the operation failed with, if it failed; the result is then the
/// status that the failure is answered with.
pub fn finish_session_request(
    manager: &mut RamSessionManager,
    index: usize,
    op: Operation,
    kind: ServiceKind,
    failure: Option<&str>,
) -> (res: Result<(), ServiceStatus>)
    requires
        old(manager).wf(),
        index < old(manager)@.sessions.len(),
    ensures
        final(manager).wf(),
        final(manager)@ == with_session(old(manager)@, index as int, SessionView {
            job: None,
            current_request: None,
            ..old(manager)@.sessions[index as int]
        }),
        match failure {
            None => res is Ok,
            Some(details) => res matches Err(s) && {
                let id = old(manager)@.sessions[index as int].id;
                &&& op == Operation::Store ==> s.code == StatusCode::Internal && s.message@ == details@
                &&& op != Operation::Store ==> s.code == (if contains_text(details@, cycle_error_pattern(kind)) {
                    StatusCode::InvalidArgument
                } else {
                    StatusCode::Internal
                }) && s.message@ == failure_text(op, id, details@)
            },
        },
{
    {
        let session = manager.session_at_mut(index);
        clear_request(session);
    }
    proof {
        let after = manager@.sessions[index as int];
        crate::session_manager::lemma_update_keeps_ids(old(manager)@.sessions, index as int, after);
    }
    match failure {
        None => Ok(()),
        Some(details) => {
            let session = manager.session_at(index);
            Err(operation_failure(op, kind, session.get_id(), details))
        },
    }
}

/// The text of the status of a run request with no final cycle.
pub open spec fn empty_cycles_text(session_id: Seq<char>) -> Seq<char> {
    "session id="@ + session_id + " error running session - empty list of final cycles"@
}

/// The result of handling a run request against its session, without the
/// session's position.
pub open spec fn run_outcome(res: Result<(usize, Option<SessionRunResponse>), ServiceStatus>) -> Result<
    Option<SessionRunResponse>,
    ServiceStatus,
> {
    match res {
        Ok((_, r)) => Ok(r),
        Err(s) => Err(s),
    }
}

/// Starts a run request for `final_cycles` on session `session_id`: the
/// session must be known and the list must not be empty; the request is then
/// handled against the session's run job. The result is the session's
/// position, with the answer when the request is answered at once; with none,
/// a new job is to be started for the request.
pub fn begin_run_request(
    manager: &mut RamSessionManager,
    session_id: &str,
    request_info: &SessionRequest,
    final_cycles: &[u64],
) -> (res: Result<(usize, Option<SessionRunResponse>), ServiceStatus>)
    requires
        old(manager).wf(),
    ensures
        final(manager).wf(),
        match position(old(manager)@.sessions, session_id@) {
            None => {
                &&& res matches Err(s) && s.code == StatusCode::InvalidArgument
                    && s.message@ == unknown_session_text(session_id@)
                &&& final(manager)@ == old(manager)@
            },
            Some(i) => if final_cycles@.len() == 0 {
                &&& res matches Err(s) && s.code == StatusCode::InvalidArgument
                    && s.message@ == empty_cycles_text(session_id@)
                &&& final(manager)@ == old(manager)@
            } else {
                &&& final(manager)@ == with_session(old(manager)@, i, run_request_state(old(manager)@.sessions[i], *request_info))
                &&& run_request_answered(old(manager)@.sessions[i], *request_info, run_outcome(res))
                &&& res matches Ok((j, _)) ==> j == i
            },
        },
{
    let index = find_session(manager, session_id)?;
    if final_cycles.len() == 0 {
        let message = text3("session id=", session_id, " error running session - empty list of final cycles");
        return Err(ServiceStatus { code: StatusCode::InvalidArgument, message });
    }
    let answered;
    {
        let session = manager.session_at_mut(index);
        answered = check_and_set_run_request(session, request_info);
    }
    proof {
        let after = manager@.sessions[index as int];
        crate::session_manager::lemma_update_keeps_ids(old(manager)@.sessions, index as int, after);
    }
    match answered {
        Ok(r) => Ok((index, r)),
        Err(s) => Err(s),
    }
}

/// How far a run job has come when nothing is known of it.
pub open spec fn no_progress() -> JobProgress {
    JobProgress { cycle: 0, progress: 0, halted: false }
}

/// Ends the start of the run job of request `request_id` on the session at
/// position `index`. `failure` is the text of the error the start failed
/// with, if it failed: the session then serves no request and has no job, and
/// the failure is an internal error. Otherwise the answer is how far the job
/// has come.
pub fn finish_run_start(
    manager: &mut RamSessionManager,
    index: usize,
    request_id: &str,
    failure: Option<&str>,
) -> (res: Result<SessionRunResponse, ServiceStatus>)
    requires
        old(manager).wf(),
        index < old(manager)@.sessions.len(),
    ensures
        final(manager).wf(),
        match failure {
            Some(details) => {
                &&& final(manager)@ == with_session(old(manager)@, index as int, SessionView {
                    job: None,
                    current_request: None,
                    ..old(manager)@.sessions[index as int]
                })
                &&& res matches Err(s) && s.code == StatusCode::Internal && s.message@ == details@
            },
            None => {
                &&& final(manager)@ == old(manager)@
                &&& res matches Ok(SessionRunResponse::Progress(p)) && p == match old(manager)@.sessions[index as int].job {
                    Some(job) => if job.request_id == request_id@ {
                        progress_of(job)
                    } else {
                        no_progress()
                    },
                    None => no_progress(),
                }
            },
        },
{
    match failure {
        Some(details) => {
            {
                let session = manager.session_at_mut(index);
                clear_request(session);
            }
            proof {
                let after = manager@.sessions[index as int];
                crate::session_manager::lemma_update_keeps_ids(old(manager)@.sessions, index as int, after);
            }
            Err(ServiceStatus::new(StatusCode::Internal, details))
        },
        None => {
            let session = manager.session_at(index);
            match session.get_job_progress(request_id) {
                Ok((p, _)) => Ok(SessionRunResponse::Progress(p)),
                Err(_) => Ok(SessionRunResponse::Progress(JobProgress { cycle: 0, progress: 0, halted: false })),
            }
        },
    }
}

/// Where the machine of a new session comes from.
#[derive(Debug, Clone)]
pub enum NewSessionSource {
    /// A machine built from this configuration.
    Config(MachineConfig),
    /// A machine loaded from this directory.
    Directory(String),
}

/// What a new session request asks for.
#[derive(Debug, Clone)]
pub struct NewSessionPlan {
    pub source: NewSessionSource,
    pub runtime: MachineRuntimeConfig,
}

/// The text of the status of a new session request without its machine.
pub open spec fn missing_machine_text(session_id: Seq<char>) -> Seq<char> {
    "error creating new session id="@ + session_id + " - missing argument"@
}

/// Whether `r` is the runtime configuration of a request that gives `w`: an
/// absent one, or one without its concurrency part, updates the Merkle tree
/// with 0 threads.
pub open spec fn runtime_from(r: MachineRuntimeConfig, w: Option<wire::MachineRuntimeConfig>) -> bool {
    r.concurrency.update_merkle_tree == match w {
        Some(rc) => match rc.concurrency {
            Some(c) => c.update_merkle_tree,
            None => 0,
        },
        None => 0,
    }
}

/// What a new session request asks for: the machine from its configuration
/// or directory, with the runtime configuration it gives. A request without
/// either is a wrong argument.
pub fn plan_new_session(request: &wire::NewSessionRequest) -> (res: Result<NewSessionPlan, ServiceStatus>)
    ensures
        match request.machine {
            Some(m) => match m.machine_oneof {
                Some(wire::MachineOneof::Config(c)) => res matches Ok(plan) && runtime_from(plan.runtime, m.runtime)
                    && (plan.source matches NewSessionSource::Config(mc) && crate::conversions::machine_config_from(mc, c)),
                Some(wire::MachineOneof::Directory(d)) => res matches Ok(plan) && runtime_from(plan.runtime, m.runtime)
                    && (plan.source matches NewSessionSource::Directory(dd) && dd@ == d@),
                None => res matches Err(s) && s.code == StatusCode::InvalidArgument
                    && s.message@ == missing_machine_text(request.session_id@),
            },
            None => res matches Err(s) && s.code == StatusCode::InvalidArgument
                && s.message@ == missing_machine_text(request.session_id@),
        },
{
    match &request.machine {
        Some(m) => {
            let runtime = match &m.runtime {
                Some(rc) => MachineRuntimeConfig::from_wire(rc),
                None => MachineRuntimeConfig::default_config(),
            };
            match &m.machine_oneof {
                Some(wire::MachineOneof::Config(c)) => Ok(
                    NewSessionPlan { source: NewSessionSource::Config(MachineConfig::from_wire(c)), runtime },
                ),
                Some(wire::MachineOneof::Directory(d)) => Ok(
                    NewSessionPlan { source: NewSessionSource::Directory(String::from_str(d.as_str())), runtime },
                ),
                None => {
                    let message = text3("error creating new session id=", request.session_id.as_str(), " - missing argument");
                    Err(ServiceStatus { code: StatusCode::InvalidArgument, message })
                },
            }
        },
        None => {
            let message = text3("error creating new session id=", request.session_id.as_str(), " - missing argument");
            Err(ServiceStatus { code: StatusCode::InvalidArgument, message })
        },
    }
}

/// The step of creating a new session that failed.
#[derive(Debug, Clone, Copy, PartialEq, Eq, Structural)]
pub enum NewSessionStage {
    /// Creating the session.
    Create,
    /// Finding the created session.
    Lookup,
    /// Reading the root hash of its machine.
    RootHash,
}

/// The text before the session id in the status of a failed new session.
pub open spec fn new_session_head(source: MachineSource, stage: NewSessionStage) -> Seq<char> {
    match (source, stage) {
        (MachineSource::Config, NewSessionStage::RootHash) => "session id="@,
        (MachineSource::Directory, NewSessionStage::RootHash) => "Error creating new session id="@,
        (MachineSource::Config, _) => "Error creating new session id="@,
        (MachineSource::Directory, _) => "error creating new session id="@,
    }
}

/// The text between the session id and the error's text in the status of a
/// failed new session.
pub open spec fn new_session_middle(source: MachineSource, stage: NewSessionStage) -> Seq<char> {
    match (source, stage) {
        (_, NewSessionStage::Lookup) => " - unable to get machine hash. Details: '"@,
        (MachineSource::Config, NewSessionStage::RootHash) => " error creating new session. Details: '"@,
        _ => ". Details: '"@,
    }
}

fn new_session_head_text(source: MachineSource, stage: NewSessionStage) -> (res: &'static str)
    ensures
        res@ == new_session_head(source, stage),
{
    match (source, stage) {
        (MachineSource::Config, NewSessionStage::RootHash) => "session id=",
        (MachineSource::Directory, NewSessionStage::RootHash) => "Error creating new session id=",
        (MachineSource::Config, _) => "Error creating new session id=",
        (MachineSource::Directory, _) => "error creating new session id=",
    }
}

fn new_session_middle_text(source: MachineSource, stage: NewSessionStage) -> (res: &'static str)
    ensures
        res@ == new_session_middle(source, stage),
{
    match (source, stage) {
        (_, NewSessionStage::Lookup) => " - unable to get machine hash. Details: '",
        (MachineSource::Config, NewSessionStage::RootHash) => " error creating new session. Details: '",
        _ => ". Details: '",
    }
}

/// The status of a new session `session_id`, from a configuration or a
/// directory, that failed at `stage` with an error whose text is `details`.
/// A session that could not be created because one with its id exists is a
/// wrong argument; every other failure is an internal error.
pub fn new_session_failure(session_id: &str, source: MachineSource, stage: NewSessionStage, details: &str) -> (res:
    ServiceStatus)
    ensures
        stage == NewSessionStage::Create && contains_text(details@, "already exists"@) ==> res.code
            == StatusCode::InvalidArgument && res.message@ == "error creating new session id="@ + session_id@
            + ". Session already exists"@,
        !(stage == NewSessionStage::Create && contains_text(details@, "already exists"@)) ==> res.code
            == StatusCode::Internal && res.message@ == new_session_head(source, stage) + session_id@
            + new_session_middle(source, stage) + details@ + "'"@,
{
    if stage == NewSessionStage::Create && text_contains(details, "already exists") {
        let message = text3("error creating new session id=", session_id, ". Session already exists");
        ServiceStatus { code: StatusCode::InvalidArgument, message }
    } else {
        let message = text5(
            new_session_head_text(source, stage),
            session_id,
            new_session_middle_text(source, stage),
            details,
            "'",
        );
        ServiceStatus { code: StatusCode::Internal, message }
    }
}

/// The status of ending session `session_id`, which failed with an error
/// whose text is `details`: an internal error.
pub fn end_session_failure(session_id: &str, details: &str) -> (res: ServiceStatus)
    ensures
        res.code == StatusCode::Internal,
        res.message@ == "Error ending session id="@ + session_id@ + ". Details: '"@ + details@ + "'"@,
{
    let message = text5("Error ending session id=", session_id, ". Details: '", details, "'");
    ServiceStatus { code: StatusCode::Internal, message }
}

/// A request taken on by a session is, while it is served, refused when it
/// comes again.
pub proof fn lemma_repeated_request_refused(v: SessionView, request_info: SessionRequest)
    ensures
        request_refused(request_taken(v, request_info), request_info),
{
}

/// Once an operation request is finished, whether it succeeded or failed, its
/// session takes the same request on again.
pub proof fn lemma_finished_request_accepted_again(v: SessionView, request_info: SessionRequest)
    ensures
        ({
            let finished = SessionView { job: None, current_request: None, ..request_taken(v, request_info) };
            &&& !request_refused(finished, request_info)
            &&& request_taken(finished, request_info).current_request == Some(request_info)
        }),
{
}

/// A run request repeated while its job runs is told the job's progress, which
/// is never complete; once the job is over it is told the results, and the
/// session is free: the same request after that starts a new job.
pub proof fn lemma_run_request_cycle(v: SessionView, request_info: SessionRequest, res: Result<
    Option<SessionRunResponse>,
    ServiceStatus,
>, again: Result<Option<SessionRunResponse>, ServiceStatus>)
    requires
        run_request_answered(v, request_info, res),
        run_request_answered(run_request_state(v, request_info), request_info, again),
    ensures
        res matches Ok(Some(SessionRunResponse::Progress(p))) ==> p.progress < 100 && !p.halted,
        res matches Ok(Some(SessionRunResponse::Result(_))) ==> again matches Ok(None),
{
}

/// A new session for an id that a session already has, refused by the
/// session manager because `force` is not set, is answered as a wrong
/// argument: the text of the manager's error, as it is displayed, holds
/// "already exists", which is what `new_session_failure` looks for.
pub proof fn lemma_existing_session_is_wrong_argument(session_id: Seq<char>)
    ensures
        ({
            let details = "Session manager error: "@ + ("session with id='"@ + session_id + "' already exists"@);
            contains_text(details, "already exists"@)
        }),
{
    let details = "Session manager error: "@ + ("session with id='"@ + session_id + "' already exists"@);
    let needle = "already exists"@;
    reveal_strlit("already exists");
    reveal_strlit("' already exists");
    let i = details.len() - needle.len();
    assert(details.subrange(i, i + needle.len()) =~= needle);
    assert(occurs_at(details, needle, i));
}

/// A repeated run request is told the job's results, and frees the session,
/// only when the job has a hash for every final cycle or the machine halted
/// at the last final cycle it reached; otherwise it is told how far the job
/// has come, and the session keeps serving it with its job.
pub proof fn lemma_run_result_only_when_over(
    v: SessionView,
    request_info: SessionRequest,
    res: Result<Option<SessionRunResponse>, ServiceStatus>,
)
    requires
        run_request_answered(v, request_info, res),
        request_refused(v, request_info),
        asked_job(v, request_info) is Some,
    ensures
        ({
            let job = asked_job(v, request_info)->0;
            let halted = job.summaries.len() > 0 && job.summaries[job.summaries.len() - 1].iflags_h;
            let complete = job.hashes.len() >= job.final_cycles.len();
            &&& (res matches Ok(Some(SessionRunResponse::Result(_)))) == (complete || halted)
            &&& (res matches Ok(Some(SessionRunResponse::Progress(_)))) == !(complete || halted)
            &&& (complete || halted) ==> run_request_state(v, request_info).current_request is None
                && run_request_state(v, request_info).job is None
            &&& !(complete || halted) ==> run_request_state(v, request_info) == v
        }),
{
    let job = asked_job(v, request_info)->0;
    crate::session::lemma_progress_reports(job);
    crate::session::lemma_progress_bounded(job);
    let p = progress_of(job);
    let halted = job.summaries.len() > 0 && job.summaries[job.summaries.len() - 1].iflags_h;
    let complete = job.hashes.len() >= job.final_cycles.len();
    assert(job.summaries.len() > 0 ==> job.summaries.last() == job.summaries[job.summaries.len() - 1]);
    assert(p.halted == halted);
    assert(p.progress >= 100 <==> complete);
    assert(job_over(p) == (complete || halted));
}

} // verus!
