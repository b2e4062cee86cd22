use weaviate_embedded::address::{IpAddress, SocketAddress};
use weaviate_embedded::builder::{DatabaseBuilder, Outcome, Step};
use weaviate_embedded::directory::HomeDefaults;
use weaviate_embedded::errors::DatabaseError;
use weaviate_embedded::lifecycle::{Action, Database, Lifecycle, Signal};
use weaviate_embedded::options::DatabaseOptions;

fn options() -> DatabaseOptions {
    let home = HomeDefaults { binary: Some("/b".to_string()), data: Some("/d".to_string()) };
    let first = DatabaseBuilder::new()
        .version("v1.21.1")
        .grcp_port(50051)
        .build_with("unix", "linux", "x86_64", home);
    match first {
        Step::Await(pending) => match pending.advance(Outcome::Directory(true)) {
            Step::Await(pending) => match pending.advance(Outcome::Directory(true)) {
                Step::Done(options) => options,
                other => panic!("{:?}", other),
            },
            other => panic!("{:?}", other),
        },
        other => panic!("{:?}", other),
    }
}

fn local() -> SocketAddress {
    SocketAddress::new(IpAddress::V4(127, 0, 0, 1), 8079)
}

#[test]
fn new_handle_is_unprovisioned() {
    let db = Database::new(&options(), 3);
    let h = db.handle();
    assert_eq!(h.state, Lifecycle::Unprovisioned);
    assert_eq!(h.addr, local());
    assert_eq!(h.grcp, 50051);
    assert_eq!(h.pid, None);
    assert_eq!(h.fault, None);
    assert_eq!(h.attempts, 3);
}

#[test]
fn start_to_ready_to_stopped() {
    let db = Database::new(&options(), 3);
    let (db, action) = db.start();
    assert_eq!(action, Action::Spawn);
    assert_eq!(db.handle().state, Lifecycle::Provisioning);
    let (db, action) = db.signal(Signal::Spawned(4242));
    assert_eq!(action, Action::Probe(local()));
    assert_eq!(db.handle().pid, Some(4242));
    let (db, action) = db.signal(Signal::Refusing);
    assert_eq!(action, Action::Probe(local()));
    assert_eq!(db.handle().attempts, 2);
    let (db, action) = db.signal(Signal::Accepting);
    assert_eq!(action, Action::Idle);
    assert_eq!(db.handle().state, Lifecycle::Ready);
    let (db, action) = db.stop();
    assert_eq!(action, Action::Terminate(4242));
    assert_eq!(db.handle().state, Lifecycle::Stopped);
    assert_eq!(db.handle().pid, None);
    let (db, action) = db.stop();
    assert_eq!(action, Action::Idle);
    assert_eq!(db.handle().state, Lifecycle::Stopped);
}

#[test]
fn start_times_out_after_the_budget() {
    let db = Database::new(&options(), 1);
    let (db, _) = db.start();
    let (db, _) = db.signal(Signal::Spawned(7));
    let (db, action) = db.signal(Signal::Refusing);
    assert_eq!(action, Action::Probe(local()));
    let (db, action) = db.signal(Signal::Refusing);
    assert_eq!(action, Action::Terminate(7));
    let h = db.handle();
    assert_eq!(h.state, Lifecycle::Failed);
    assert_eq!(h.fault, Some(DatabaseError::TimeoutError));
    assert_eq!(h.pid, None);
}

#[test]
fn spawn_failure_fails_the_start() {
    let db = Database::new(&options(), 1);
    let (db, _) = db.start();
    let (db, action) = db.signal(Signal::SpawnFailed);
    assert_eq!(action, Action::Idle);
    assert_eq!(db.handle().state, Lifecycle::Failed);
    assert_eq!(db.handle().fault, Some(DatabaseError::StartError));
}

#[test]
fn crash_fails_a_ready_service() {
    let db = Database::new(&options(), 1);
    let (db, _) = db.start();
    let (db, _) = db.signal(Signal::Spawned(9));
    let (db, _) = db.signal(Signal::Accepting);
    let (db, action) = db.signal(Signal::Crashed);
    assert_eq!(action, Action::Terminate(9));
    assert_eq!(db.handle().state, Lifecycle::Failed);
    assert_eq!(db.handle().fault, Some(DatabaseError::TcpError));
    let (db, action) = db.stop();
    assert_eq!(action, Action::Idle);
    assert_eq!(db.handle().state, Lifecycle::Failed);
}

#[test]
fn signals_out_of_place_change_nothing() {
    let db = Database::new(&options(), 1);
    let (db, action) = db.signal(Signal::Accepting);
    assert_eq!(action, Action::Idle);
    assert_eq!(db.handle().state, Lifecycle::Unprovisioned);
    let (db, action) = db.signal(Signal::Spawned(1));
    assert_eq!(action, Action::Idle);
    assert_eq!(db.handle().pid, None);
    let (db, _) = db.start();
    let (db, action) = db.signal(Signal::Accepting);
    assert_eq!(action, Action::Idle);
    assert_eq!(db.handle().state, Lifecycle::Provisioning);
    let (db, action) = db.start();
    assert_eq!(action, Action::Idle);
    assert_eq!(db.handle().state, Lifecycle::Provisioning);
}

#[test]
fn stop_before_start() {
    let db = Database::new(&options(), 1);
    let (db, action) = db.stop();
    assert_eq!(action, Action::Idle);
    assert_eq!(db.handle().state, Lifecycle::Stopped);
    let (db, action) = db.start();
    assert_eq!(action, Action::Idle);
    assert_eq!(db.handle().state, Lifecycle::Stopped);
}
