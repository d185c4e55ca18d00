//! Session manager: the list of active sessions, kept in volatile memory and
//! keyed by session id.

use crate::session::{Session, SessionView};
use vstd::prelude::*;

verus! {

/// Error returned from session manager functions.
#[derive(Debug)]
pub struct SessionManagerError {
    message: String,
}

impl View for SessionManagerError {
    type V = Seq<char>;

    closed spec fn view(&self) -> Seq<char> {
        self.message@
    }
}

impl SessionManagerError {
    /// An error with the given message.
    pub fn new(message: &str) -> (res: Self)
        ensures
            res@ == message@,
    {
        SessionManagerError { message: String::from_str(message) }
    }

    /// The message of the error.
    pub fn message(&self) -> (res: &str)
        ensures
            res@ == self@,
    {
        self.message.as_str()
    }

    /// The error as it is displayed.
    pub fn describe(&self) -> (res: String)
        ensures
            res@ == "Session manager error: "@ + self@,
    {
        let mut res = String::from_str("Session manager error: ");
        res.append(self.message.as_str());
        res
    }

    fn framed(prefix: &str, middle: &str, suffix: &str) -> (res: Self)
        ensures
            res@ == prefix@ + middle@ + suffix@,
    {
        let mut message = String::from_str(prefix);
        message.append(middle);
        message.append(suffix);
        SessionManagerError { message }
    }

    /// The error of a session whose machine server did not check in in time.
    pub fn checkin_timeout(session_id: &str) -> (res: Self)
        ensures
            res@ == "Timeout while waiting for session id="@ + session_id@ + " server checkin"@,
    {
        Self::framed("Timeout while waiting for session id=", session_id, " server checkin")
    }

    /// The error of a machine that its new machine server could not create.
    pub fn machine_creation_failed(details: &str) -> (res: Self)
        ensures
            res@ == "unable to create machine on new remote cartesi machine: "@ + details@,
    {
        let mut message = String::from_str("unable to create machine on new remote cartesi machine: ");
        message.append(details);
        SessionManagerError { message }
    }

    /// The error of a session that could not be initialized.
    pub fn initialization_failed(details: &str) -> (res: Self)
        ensures
            res@ == "error initializing session, details: '"@ + details@ + "'"@,
    {
        Self::framed("error initializing session, details: '", details, "'")
    }

    /// The error of a session that could not be removed from the list.
    pub fn removal_failed(reason: RemovalReason, session_id: &str) -> (res: Self)
        ensures
            reason == RemovalReason::Recreate ==> res@ == "error removing session "@ + session_id@
                + " from the list"@,
            reason == RemovalReason::Cleanup ==> res@ == "error removing session id=\""@ + session_id@
                + "\" while cleaning up session list"@,
            reason == RemovalReason::Close ==> res@ == "error removing session id='"@ + session_id@
                + "' from the list"@,
    {
        match reason {
            RemovalReason::Recreate => Self::framed("error removing session ", session_id, " from the list"),
            RemovalReason::Cleanup => Self::framed(
                "error removing session id=\"",
                session_id,
                "\" while cleaning up session list",
            ),
            RemovalReason::Close => Self::framed("error removing session id='", session_id, "' from the list"),
        }
    }
}

/// Why a session is removed from the list.
#[derive(Debug, Clone, Copy, PartialEq, Eq, Structural)]
pub enum RemovalReason {
    /// An existing session is replaced by a new one.
    Recreate,
    /// A new session failed to initialize.
    Cleanup,
    /// The session is closed.
    Close,
}

/// What creating a session asks for before the new session is made.
#[derive(Debug, Clone, Copy, PartialEq, Eq, Structural)]
pub enum CreateStep {
    /// No session has the id: make the new one.
    Fresh,
    /// A session with the id is to be closed and removed first.
    CloseExisting,
}

/// A step of creating a session.
#[derive(Debug, Clone, Copy, PartialEq, Eq, Structural)]
pub enum CreateAction {
    /// Close the machine server of the session that has the id.
    CloseOld,
    /// Take that session out of the list.
    RemoveOld,
    /// Make the new session and put it in the list.
    InsertNew,
    /// Start its machine server, create its machine and take its first snapshot.
    Initialize,
    /// Take the new session out of the list again.
    RemoveNew,
    /// Nothing is left to do.
    Done,
}

/// The step of creating a session that follows `last`, the step done last
/// (none at first), which `failed` or not. `first` is what the manager asked
/// for at the start; `from_config` tells a session made from a configuration
/// from one loaded from a directory.
pub open spec fn create_step(first: CreateStep, from_config: bool, last: Option<CreateAction>, failed: bool) -> CreateAction {
    match last {
        None => if first == CreateStep::CloseExisting { CreateAction::CloseOld } else { CreateAction::InsertNew },
        Some(CreateAction::CloseOld) => if failed { CreateAction::Done } else { CreateAction::RemoveOld },
        Some(CreateAction::RemoveOld) => if failed { CreateAction::Done } else { CreateAction::InsertNew },
        Some(CreateAction::InsertNew) => CreateAction::Initialize,
        Some(CreateAction::Initialize) => if failed && from_config {
            CreateAction::RemoveNew
        } else {
            CreateAction::Done
        },
        Some(_) => CreateAction::Done,
    }
}

/// The step of creating a session that follows `last`: an existing session
/// with the id is closed and removed first when the manager asked for it, then
/// the new session is put in the list and initialized. A session from a
/// configuration that fails to initialize is taken out of the list again; one
/// from a directory stays. Any other failure ends the creation.
pub fn create_next(first: CreateStep, from_config: bool, last: Option<CreateAction>, failed: bool) -> (res: CreateAction)
    ensures
        res == create_step(first, from_config, last, failed),
{
    match last {
        None => if first == CreateStep::CloseExisting { CreateAction::CloseOld } else { CreateAction::InsertNew },
        Some(CreateAction::CloseOld) => if failed { CreateAction::Done } else { CreateAction::RemoveOld },
        Some(CreateAction::RemoveOld) => if failed { CreateAction::Done } else { CreateAction::InsertNew },
        Some(CreateAction::InsertNew) => CreateAction::Initialize,
        Some(CreateAction::Initialize) => if failed && from_config {
            CreateAction::RemoveNew
        } else {
            CreateAction::Done
        },
        Some(_) => CreateAction::Done,
    }
}

/// The text of the error that ends creating session `session_id` when step
/// `action` fails with an error whose text is `details`.
pub open spec fn create_failure_text(action: CreateAction, from_config: bool, session_id: Seq<char>, details: Seq<char>) -> Seq<char> {
    match action {
        CreateAction::RemoveOld => "Session manager error: "@ + ("error removing session "@ + session_id
            + " from the list"@),
        CreateAction::Initialize => if from_config {
            "Session manager error: "@ + ("error initializing session, details: '"@ + details + "'"@)
        } else {
            details
        },
        CreateAction::RemoveNew => "Session manager error: "@ + ("error removing session id=\""@ + session_id
            + "\" while cleaning up session list"@),
        _ => details,
    }
}

/// The text of the error that ends creating session `session_id` when step
/// `action` fails with an error whose text is `details` (for a failed
/// removal, the text of the missing session). A session from a configuration
/// that fails to initialize reports the failure as one of initializing it.
pub fn create_failure(action: CreateAction, from_config: bool, session_id: &str, details: &str) -> (res: String)
    ensures
        res@ == create_failure_text(action, from_config, session_id@, details@),
{
    match action {
        CreateAction::RemoveOld => SessionManagerError::removal_failed(RemovalReason::Recreate, session_id).describe(),
        CreateAction::Initialize => if from_config {
            SessionManagerError::initialization_failed(details).describe()
        } else {
            String::from_str(details)
        },
        CreateAction::RemoveNew => SessionManagerError::removal_failed(RemovalReason::Cleanup, session_id).describe(),
        _ => String::from_str(details),
    }
}

/// Creating a session without failures closes and removes an existing
/// session first exactly when the manager asked for it, then puts the new
/// session in the list and initializes it, and is then done. A failed
/// initialization takes the new session out of the list again exactly when
/// it comes from a configuration.
pub proof fn lemma_create_order(first: CreateStep, from_config: bool)
    ensures
        ({
            let a1 = create_step(first, from_config, None, false);
            let a2 = create_step(first, from_config, Some(a1), false);
            let a3 = create_step(first, from_config, Some(a2), false);
            let a4 = create_step(first, from_config, Some(a3), false);
            let a5 = create_step(first, from_config, Some(a4), false);
            &&& first == CreateStep::CloseExisting ==> a1 == CreateAction::CloseOld && a2 == CreateAction::RemoveOld
                && a3 == CreateAction::InsertNew && a4 == CreateAction::Initialize && a5 == CreateAction::Done
            &&& first == CreateStep::Fresh ==> a1 == CreateAction::InsertNew && a2 == CreateAction::Initialize && a3
                == CreateAction::Done
        }),
        create_step(first, from_config, Some(CreateAction::Initialize), true) == (if from_config {
            CreateAction::RemoveNew
        } else {
            CreateAction::Done
        }),
        create_step(first, from_config, Some(CreateAction::RemoveNew), false) == CreateAction::Done,
{
}

/// Whether no two sessions share an id.
pub open spec fn distinct_ids(s: Seq<SessionView>) -> bool {
    forall|i: int, j: int| 0 <= i < s.len() && 0 <= j < s.len() && i != j ==> s[i].id != s[j].id
}

/// Whether a session has the id `id`.
pub open spec fn has_id(s: Seq<SessionView>, id: Seq<char>) -> bool {
    exists|i: int| 0 <= i < s.len() && s[i].id == id
}

/// The position of the session with id `id`, if there is one.
pub open spec fn position(s: Seq<SessionView>, id: Seq<char>) -> Option<int> {
    if has_id(s, id) {
        Some(choose|i: int| 0 <= i < s.len() && s[i].id == id)
    } else {
        None
    }
}

/// The session with id `id`, if there is one.
pub open spec fn lookup(s: Seq<SessionView>, id: Seq<char>) -> Option<SessionView> {
    match position(s, id) {
        Some(i) => Some(s[i]),
        None => None,
    }
}

/// The list once `v` is in it: it takes the place of the session with its id,
/// or comes last when there is none.
pub open spec fn inserted(s: Seq<SessionView>, v: SessionView) -> Seq<SessionView> {
    match position(s, v.id) {
        Some(i) => s.update(i, v),
        None => s.push(v),
    }
}

/// The list without the session with id `id`.
pub open spec fn removed(s: Seq<SessionView>, id: Seq<char>) -> Seq<SessionView> {
    match position(s, id) {
        Some(i) => s.remove(i),
        None => s,
    }
}

proof fn lemma_position_unique(s: Seq<SessionView>, id: Seq<char>, i: int)
    requires
        distinct_ids(s),
        0 <= i < s.len(),
        s[i].id == id,
    ensures
        position(s, id) == Some(i),
{
    assert(has_id(s, id));
}

proof fn lemma_no_position(s: Seq<SessionView>, id: Seq<char>)
    requires
        forall|k: int| 0 <= k < s.len() ==> s[k].id != id,
    ensures
        position(s, id) is None,
{
}

/// Inserting keeps the ids distinct; the inserted session is found under its
/// id, and every other id finds what it found before.
pub proof fn lemma_inserted(s: Seq<SessionView>, v: SessionView, other: Seq<char>)
    requires
        distinct_ids(s),
    ensures
        distinct_ids(inserted(s, v)),
        lookup(inserted(s, v), v.id) == Some(v),
        other != v.id ==> lookup(inserted(s, v), other) == lookup(s, other),
{
    let t = inserted(s, v);
    match position(s, v.id) {
        Some(i) => {
            assert(0 <= i < s.len() && s[i].id == v.id);
            assert(t.len() == s.len());
            assert(distinct_ids(t));
            lemma_position_unique(t, v.id, i);
            if other != v.id {
                if has_id(s, other) {
                    let j = choose|j: int| 0 <= j < s.len() && s[j].id == other;
                    lemma_position_unique(s, other, j);
                    lemma_position_unique(t, other, j);
                } else {
                    assert forall|k: int| 0 <= k < t.len() implies t[k].id != other by {
                        if k != i {
                            assert(t[k] == s[k]);
                        }
                    }
                    lemma_no_position(t, other);
                }
            }
        },
        None => {
            assert(forall|k: int| 0 <= k < s.len() ==> s[k].id != v.id);
            assert(distinct_ids(t));
            lemma_position_unique(t, v.id, s.len() as int);
            if other != v.id {
                if has_id(s, other) {
                    let j = choose|j: int| 0 <= j < s.len() && s[j].id == other;
                    lemma_position_unique(s, other, j);
                    lemma_position_unique(t, other, j);
                } else {
                    assert forall|k: int| 0 <= k < t.len() implies t[k].id != other by {
                        if k < s.len() {
                            assert(t[k] == s[k]);
                        }
                    }
                    lemma_no_position(t, other);
                }
            }
        },
    }
}

/// Removing keeps the ids distinct; the removed id finds nothing, and every
/// other id finds what it found before.
pub proof fn lemma_removed(s: Seq<SessionView>, id: Seq<char>, other: Seq<char>)
    requires
        distinct_ids(s),
    ensures
        distinct_ids(removed(s, id)),
        lookup(removed(s, id), id) is None,
        other != id ==> lookup(removed(s, id), other) == lookup(s, other),
{
    let t = removed(s, id);
    match position(s, id) {
        Some(i) => {
            assert(0 <= i < s.len() && s[i].id == id);
            assert(t.len() == s.len() - 1);
            assert forall|k: int| 0 <= k < t.len() implies t[k] == (if k < i { s[k] } else { s[k + 1] }) by {}
            assert(distinct_ids(t)) by {
                assert forall|a: int, b: int| 0 <= a < t.len() && 0 <= b < t.len() && a != b implies t[a].id
                    != t[b].id by {
                    let sa = if a < i { a } else { a + 1 };
                    let sb = if b < i { b } else { b + 1 };
                    assert(t[a] == s[sa]);
                    assert(t[b] == s[sb]);
                }
            }
            assert forall|k: int| 0 <= k < t.len() implies t[k].id != id by {
                let sk = if k < i { k } else { k + 1 };
                assert(t[k] == s[sk]);
            }
            lemma_no_position(t, id);
            if other != id {
                if has_id(s, other) {
                    let j = choose|j: int| 0 <= j < s.len() && s[j].id == other;
                    lemma_position_unique(s, other, j);
                    assert(j != i);
                    let tj = if j < i { j } else { j - 1 };
                    assert(t[tj] == s[j]);
                    lemma_position_unique(t, other, tj);
                } else {
                    assert forall|k: int| 0 <= k < t.len() implies t[k].id != other by {
                        let sk = if k < i { k } else { k + 1 };
                        assert(t[k] == s[sk]);
                    }
                    lemma_no_position(t, other);
                }
            }
        },
        None => {
            assert(forall|k: int| 0 <= k < s.len() ==> s[k].id != id);
        },
    }
}

/// Changing a session in place keeps the ids distinct as long as its id stays.
pub proof fn lemma_update_keeps_ids(s: Seq<SessionView>, i: int, v: SessionView)
    requires
        distinct_ids(s),
        0 <= i < s.len(),
        v.id == s[i].id,
    ensures
        distinct_ids(s.update(i, v)),
        forall|id: Seq<char>| position(s.update(i, v), id) == position(s, id),
{
    let t = s.update(i, v);
    assert forall|id: Seq<char>| position(t, id) == position(s, id) by {
        if has_id(s, id) {
            let j = choose|j: int| 0 <= j < s.len() && s[j].id == id;
            lemma_position_unique(s, id, j);
            lemma_position_unique(t, id, j);
        } else {
            assert forall|k: int| 0 <= k < t.len() implies t[k].id != id by {
                if k != i {
                    assert(t[k] == s[k]);
                }
            }
            lemma_no_position(t, id);
        }
    }
}

/// What the session manager holds.
#[verifier::ext_equal]
pub struct SessionManagerView {
    pub sessions: Seq<SessionView>,
    pub checkin_address: Seq<char>,
    pub shutting_down: bool,
}

/// Session manager that keeps the sessions in volatile memory.
pub struct RamSessionManager {
    sessions: Vec<Session>,
    checkin_address: String,
    shutting_down: bool,
}

impl View for RamSessionManager {
    type V = SessionManagerView;

    closed spec fn view(&self) -> SessionManagerView {
        SessionManagerView {
            sessions: self.sessions@.map_values(|s: Session| s@),
            checkin_address: self.checkin_address@,
            shutting_down: self.shutting_down,
        }
    }
}

impl RamSessionManager {
    /// The manager is well formed: no two sessions share an id.
    pub open spec fn wf(&self) -> bool {
        distinct_ids(self@.sessions)
    }

    /// A manager with no session, whose machine servers check in at
    /// `checkin_address`.
    pub fn new(checkin_address: &str) -> (res: Self)
        ensures
            res.wf(),
            res@.sessions == Seq::<SessionView>::empty(),
            res@.checkin_address == checkin_address@,
            !res@.shutting_down,
    {
        let res = RamSessionManager {
            sessions: Vec::new(),
            checkin_address: String::from_str(checkin_address),
            shutting_down: false,
        };
        assert(res@.sessions =~= Seq::<SessionView>::empty());
        res
    }

    /// The address where machine servers check in.
    pub fn checkin_address(&self) -> (res: &str)
        ensures
            res@ == self@.checkin_address,
    {
        self.checkin_address.as_str()
    }

    /// Whether the manager is shutting down.
    pub fn get_shutting_down_state(&self) -> (res: bool)
        ensures
            res == self@.shutting_down,
    {
        self.shutting_down
    }

    /// From now on the manager is shutting down.
    pub fn begin_shutdown(&mut self)
        ensures
            final(self)@ == (SessionManagerView { shutting_down: true, ..old(self)@ }),
    {
        self.shutting_down = true;
    }

    /// The number of sessions.
    pub fn len(&self) -> (res: usize)
        ensures
            res == self@.sessions.len(),
    {
        self.sessions.len()
    }

    /// The position of the session with id `session_id`, if there is one.
    pub fn find_session(&self, session_id: &str) -> (res: Option<usize>)
        requires
            self.wf(),
        ensures
            match res {
                Some(i) => position(self@.sessions, session_id@) == Some(i as int),
                None => position(self@.sessions, session_id@) is None,
            },
    {
        let ghost s = self@.sessions;
        let target = String::from_str(session_id);
        let mut i: usize = 0;
        while i < self.sessions.len()
            invariant
                i <= self.sessions@.len(),
                s == self@.sessions,
                s.len() == self.sessions@.len(),
                target@ == session_id@,
                distinct_ids(s),
                forall|k: int| 0 <= k < i ==> s[k].id != session_id@,
            decreases self.sessions.len() - i,
        {
            assert(s[i as int] == self.sessions@[i as int]@);
            if self.sessions[i].has_id(&target) {
                proof {
                    lemma_position_unique(s, session_id@, i as int);
                }
                return Some(i);
            }
            i = i + 1;
        }
        proof {
            lemma_no_position(s, session_id@);
        }
        None
    }

    /// The session at position `index`.
    pub fn session_at(&self, index: usize) -> (res: &Session)
        requires
            index < self@.sessions.len(),
        ensures
            res@ == self@.sessions[index as int],
    {
        &self.sessions[index]
    }

    /// The active session with id `session_id`.
    pub fn get_session(&self, session_id: &str) -> (res: Result<&Session, SessionManagerError>)
        requires
            self.wf(),
        ensures
            match res {
                Ok(s) => lookup(self@.sessions, session_id@) == Some(s@),
                Err(e) => lookup(self@.sessions, session_id@) is None && e@ == "no session with id='"@
                    + session_id@ + "'"@,
            },
    {
        match self.find_session(session_id) {
            Some(i) => Ok(&self.sessions[i]),
            None => Err(SessionManagerError::framed("no session with id='", session_id, "'")),
        }
    }

    /// The session at position `index`, to be changed in place. The manager
    /// stays well formed as long as the session keeps its id.
    pub fn session_at_mut(&mut self, index: usize) -> (res: &mut Session)
        requires
            index < old(self)@.sessions.len(),
        ensures
            res@ == old(self)@.sessions[index as int],
            final(self)@ == (SessionManagerView {
                sessions: old(self)@.sessions.update(index as int, final(res)@),
                ..old(self)@
            }),
    {
        &mut self.sessions[index]
    }

    /// Puts `session` in the list, in place of the session with its id if
    /// there is one, last otherwise.
    pub fn insert(&mut self, session: Session)
        requires
            old(self).wf(),
        ensures
            final(self).wf(),
            final(self)@ == (SessionManagerView { sessions: inserted(old(self)@.sessions, session@), ..old(self)@ }),
    {
        let ghost v = session@;
        proof {
            lemma_inserted(self@.sessions, v, v.id);
        }
        let id = String::from_str(session.get_id());
        match self.find_session(id.as_str()) {
            Some(i) => {
                let ghost before = self.sessions@;
                self.sessions.set(i, session);
                assert(self@.sessions =~= old(self)@.sessions.update(i as int, v));
            },
            None => {
                self.sessions.push(session);
                assert(self@.sessions =~= old(self)@.sessions.push(v));
            },
        }
    }

    /// Takes the session with id `session_id` out of the list, if there is one.
    pub fn remove_session(&mut self, session_id: &str) -> (res: Option<Session>)
        requires
            old(self).wf(),
        ensures
            final(self).wf(),
            final(self)@ == (SessionManagerView { sessions: removed(old(self)@.sessions, session_id@), ..old(self)@ }),
            match res {
                Some(s) => lookup(old(self)@.sessions, session_id@) == Some(s@),
                None => lookup(old(self)@.sessions, session_id@) is None,
            },
    {
        proof {
            lemma_removed(self@.sessions, session_id@, session_id@);
        }
        match self.find_session(session_id) {
            Some(i) => {
                let s = self.sessions.remove(i);
                assert(self@.sessions =~= old(self)@.sessions.remove(i as int));
                Some(s)
            },
            None => None,
        }
    }

    /// Tells what creating a session with id `session_id` from a machine
    /// configuration asks for first: an existing session with that id is
    /// closed and removed when `force` is set, and refused otherwise.
    pub fn begin_create_from_config(&self, session_id: &str, force: bool) -> (res: Result<
        CreateStep,
        SessionManagerError,
    >)
        requires
            self.wf(),
        ensures
            !has_id(self@.sessions, session_id@) ==> res == Ok::<CreateStep, SessionManagerError>(CreateStep::Fresh),
            has_id(self@.sessions, session_id@) && force ==> res == Ok::<CreateStep, SessionManagerError>(
                CreateStep::CloseExisting,
            ),
            has_id(self@.sessions, session_id@) && !force ==> (res matches Err(e) && e@ == "session with id='"@
                + session_id@ + "' already exists"@),
    {
        match self.find_session(session_id) {
            Some(_) => {
                if force {
                    Ok(CreateStep::CloseExisting)
                } else {
                    Err(SessionManagerError::framed("session with id='", session_id, "' already exists"))
                }
            },
            None => Ok(CreateStep::Fresh),
        }
    }

    /// Tells what creating a session with id `session_id` from a directory asks
    /// for first: an existing session with that id is closed and removed when
    /// `force` is set; otherwise the new session takes its place.
    pub fn begin_create_from_directory(&self, session_id: &str, force: bool) -> (res: CreateStep)
        requires
            self.wf(),
        ensures
            res == (if has_id(self@.sessions, session_id@) && force {
                CreateStep::CloseExisting
            } else {
                CreateStep::Fresh
            }),
    {
        if force {
            match self.find_session(session_id) {
                Some(_) => CreateStep::CloseExisting,
                None => CreateStep::Fresh,
            }
        } else {
            CreateStep::Fresh
        }
    }

    /// The position of the session to close; an unknown id is refused.
    pub fn begin_close(&self, session_id: &str) -> (res: Result<usize, SessionManagerError>)
        requires
            self.wf(),
        ensures
            match res {
                Ok(i) => position(self@.sessions, session_id@) == Some(i as int),
                Err(e) => position(self@.sessions, session_id@) is None && e@ == "unknown session id"@,
            },
    {
        match self.find_session(session_id) {
            Some(i) => Ok(i),
            None => Err(SessionManagerError::new("unknown session id")),
        }
    }

    /// The ids of all sessions, in list order.
    pub fn session_ids(&self) -> (res: Vec<String>)
        ensures
            res@.len() == self@.sessions.len(),
            forall|i: int| 0 <= i < res@.len() ==> #[trigger] res@[i]@ == self@.sessions[i].id,
    {
        let mut res: Vec<String> = Vec::new();
        let mut i: usize = 0;
        while i < self.sessions.len()
            invariant
                i <= self.sessions@.len(),
                res@.len() == i,
                forall|k: int| 0 <= k < i ==> #[trigger] res@[k]@ == self@.sessions[k].id,
            decreases self.sessions.len() - i,
        {
            res.push(String::from_str(self.sessions[i].get_id()));
            i = i + 1;
        }
        res
    }
}

} // verus!
