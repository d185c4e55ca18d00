use machine_manager_server::machine::{ConcurrencyConfig, MachineRuntimeConfig};
use machine_manager_server::session::{Session, SessionRequest};
use machine_manager_server::session_manager::{
    create_failure, create_next, CreateAction, CreateStep, RamSessionManager, RemovalReason, SessionManagerError,
};

fn runtime() -> MachineRuntimeConfig {
    MachineRuntimeConfig { concurrency: ConcurrencyConfig { update_merkle_tree: 0 } }
}

fn session(id: &str, directory: &str) -> Session {
    let request = SessionRequest::new("req", "NewSessionRequest", "");
    Session::init_from_directory(id, directory, runtime(), &request)
}

fn error_of(manager: &RamSessionManager, id: &str) -> String {
    match manager.get_session(id) {
        Ok(_) => String::from("found"),
        Err(e) => e.message().to_string(),
    }
}

#[test]
fn manager_error_display() {
    let e = SessionManagerError::new("x");
    assert_eq!(e.message(), "x");
    assert_eq!(e.describe(), "Session manager error: x");
    assert_eq!(SessionManagerError::checkin_timeout("a").message(), "Timeout while waiting for session id=a server checkin");
    assert_eq!(
        SessionManagerError::machine_creation_failed("bad").message(),
        "unable to create machine on new remote cartesi machine: bad"
    );
    assert_eq!(
        SessionManagerError::initialization_failed("bad").message(),
        "error initializing session, details: 'bad'"
    );
    assert_eq!(
        SessionManagerError::removal_failed(RemovalReason::Recreate, "a").message(),
        "error removing session a from the list"
    );
    assert_eq!(
        SessionManagerError::removal_failed(RemovalReason::Cleanup, "a").message(),
        "error removing session id=\"a\" while cleaning up session list"
    );
    assert_eq!(
        SessionManagerError::removal_failed(RemovalReason::Close, "a").message(),
        "error removing session id='a' from the list"
    );
}

#[test]
fn sessions_are_found_by_id() {
    let mut m = RamSessionManager::new("127.0.0.1:50052");
    assert_eq!(m.checkin_address(), "127.0.0.1:50052");
    assert!(!m.get_shutting_down_state());
    assert_eq!(m.len(), 0);
    assert_eq!(error_of(&m, "a"), "no session with id='a'");
    m.insert(session("a", "/d/a"));
    m.insert(session("b", "/d/b"));
    assert_eq!(m.len(), 2);
    assert_eq!(m.find_session("a"), Some(0));
    assert_eq!(m.find_session("b"), Some(1));
    assert_eq!(m.find_session("c"), None);
    assert_eq!(m.get_session("b").ok().unwrap().directory(), Some("/d/b"));
    assert_eq!(m.session_at(0).get_id(), "a");
    assert_eq!(m.session_ids(), vec!["a".to_string(), "b".to_string()]);
}

#[test]
fn inserting_an_existing_id_replaces_the_session() {
    let mut m = RamSessionManager::new("");
    m.insert(session("a", "/old"));
    m.insert(session("b", "/b"));
    m.insert(session("a", "/new"));
    assert_eq!(m.len(), 2);
    assert_eq!(m.find_session("a"), Some(0));
    assert_eq!(m.get_session("a").ok().unwrap().directory(), Some("/new"));
}

#[test]
fn removed_session_is_gone() {
    let mut m = RamSessionManager::new("");
    m.insert(session("a", "/a"));
    m.insert(session("b", "/b"));
    let removed = m.remove_session("a").unwrap();
    assert_eq!(removed.get_id(), "a");
    assert!(m.remove_session("a").is_none());
    assert_eq!(m.len(), 1);
    assert_eq!(error_of(&m, "a"), "no session with id='a'");
    assert_eq!(m.find_session("b"), Some(0));
}

#[test]
fn creating_over_an_existing_session() {
    let mut m = RamSessionManager::new("");
    assert_eq!(m.begin_create_from_config("a", false).unwrap(), CreateStep::Fresh);
    m.insert(session("a", "/a"));
    assert_eq!(
        m.begin_create_from_config("a", false).unwrap_err().message(),
        "session with id='a' already exists"
    );
    assert_eq!(m.begin_create_from_config("a", true).unwrap(), CreateStep::CloseExisting);
    assert_eq!(m.begin_create_from_directory("a", false), CreateStep::Fresh);
    assert_eq!(m.begin_create_from_directory("a", true), CreateStep::CloseExisting);
    assert_eq!(m.begin_create_from_directory("z", true), CreateStep::Fresh);
}

#[test]
fn closing_needs_a_known_session() {
    let mut m = RamSessionManager::new("");
    assert_eq!(m.begin_close("a").unwrap_err().message(), "unknown session id");
    m.insert(session("a", "/a"));
    assert_eq!(m.begin_close("a").unwrap(), 0);
    m.session_at_mut(0).mark_closed();
    assert!(!m.session_at(0).needs_close());
}

#[test]
fn shutting_down() {
    let mut m = RamSessionManager::new("");
    m.begin_shutdown();
    assert!(m.get_shutting_down_state());
}

#[test]
fn create_order_and_failures() {
    assert_eq!(create_next(CreateStep::CloseExisting, true, None, false), CreateAction::CloseOld);
    assert_eq!(create_next(CreateStep::CloseExisting, true, Some(CreateAction::CloseOld), false), CreateAction::RemoveOld);
    assert_eq!(create_next(CreateStep::CloseExisting, true, Some(CreateAction::CloseOld), true), CreateAction::Done);
    assert_eq!(create_next(CreateStep::CloseExisting, true, Some(CreateAction::RemoveOld), false), CreateAction::InsertNew);
    assert_eq!(create_next(CreateStep::Fresh, true, None, false), CreateAction::InsertNew);
    assert_eq!(create_next(CreateStep::Fresh, true, Some(CreateAction::InsertNew), false), CreateAction::Initialize);
    assert_eq!(create_next(CreateStep::Fresh, true, Some(CreateAction::Initialize), false), CreateAction::Done);
    assert_eq!(create_next(CreateStep::Fresh, true, Some(CreateAction::Initialize), true), CreateAction::RemoveNew);
    assert_eq!(create_next(CreateStep::Fresh, false, Some(CreateAction::Initialize), true), CreateAction::Done);
    assert_eq!(create_next(CreateStep::Fresh, true, Some(CreateAction::RemoveNew), false), CreateAction::Done);
    assert_eq!(
        create_failure(CreateAction::Initialize, true, "a", "boom"),
        "Session manager error: error initializing session, details: 'boom'"
    );
    assert_eq!(create_failure(CreateAction::Initialize, false, "a", "boom"), "boom");
    assert_eq!(
        create_failure(CreateAction::RemoveOld, true, "a", ""),
        "Session manager error: error removing session a from the list"
    );
    assert_eq!(
        create_failure(CreateAction::RemoveNew, true, "a", ""),
        "Session manager error: error removing session id=\"a\" while cleaning up session list"
    );
    assert_eq!(create_failure(CreateAction::CloseOld, true, "a", "kill failed"), "kill failed");
}
