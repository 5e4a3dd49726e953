//! Places that keep a state.

use std::fmt;
use std::sync::Mutex;

use forme::persistence::Checkpointer;
use forme::{FormeError, State};

#[derive(Clone, Debug, PartialEq, Eq, Hash)]
enum TestState {
    Idle,
    Active(String),
}

impl fmt::Display for TestState {
    fn fmt(&self, f: &mut fmt::Formatter<'_>) -> fmt::Result {
        match self {
            Self::Idle => f.write_str("Idle"),
            Self::Active(s) => f.write_str(&format!("Active({})", s)),
        }
    }
}

/// Keeps a state in memory, behind a lock.
struct MockCheckpointer<S: State> {
    inner: Mutex<Option<S>>,
}

impl<S: State> MockCheckpointer<S> {
    fn new() -> Self {
        let inner: Mutex<Option<S>> = Mutex::new(None);
        Self { inner }
    }
}

impl<S: State> Checkpointer<S> for MockCheckpointer<S> {
    fn save(&mut self, state: &S) -> Result<(), FormeError> {
        let cloned: S = state.clone();
        let mut guard: std::sync::MutexGuard<'_, Option<S>> =
            self.inner.lock().map_err(|e: std::sync::PoisonError<_>| {
                FormeError::PersistenceFailed(format!("poisoned lock: {}", e))
            })?;
        *guard = Some(cloned);
        Ok(())
    }

    fn load(&self) -> Result<Option<S>, FormeError> {
        let guard: std::sync::MutexGuard<'_, Option<S>> =
            self.inner.lock().map_err(|e: std::sync::PoisonError<_>| {
                FormeError::PersistenceFailed(format!("poisoned lock: {}", e))
            })?;
        let opt: Option<S> = guard.clone();
        Ok(opt)
    }
}

struct FailingCheckpointer;

impl Checkpointer<TestState> for FailingCheckpointer {
    fn save(&mut self, _state: &TestState) -> Result<(), FormeError> {
        Err(FormeError::PersistenceFailed("disk full".into()))
    }

    fn load(&self) -> Result<Option<TestState>, FormeError> {
        Err(FormeError::PersistenceFailed("read failed".into()))
    }
}

fn assert_send_sync<T: Send + Sync>() {}

fn assert_checkpointer_send_sync<S: State, C: Checkpointer<S> + Send + Sync>() {}

#[test]
fn roundtrip_mock() {
    let mut cp: MockCheckpointer<TestState> = MockCheckpointer::new();
    let s: TestState = TestState::Active("hello".into());
    cp.save(&s).expect("save ok");
    let loaded: Option<TestState> = cp.load().expect("load ok");
    assert_eq!(loaded, Some(s));
}

#[test]
fn load_empty_returns_none() {
    let cp: MockCheckpointer<TestState> = MockCheckpointer::new();
    let loaded: Option<TestState> = cp.load().expect("load empty ok");
    assert!(loaded.is_none(), "expected None, got {:?}", loaded);
}

#[test]
fn save_overwrites_previous() {
    let mut cp: MockCheckpointer<TestState> = MockCheckpointer::new();
    let first: TestState = TestState::Idle;
    let second: TestState = TestState::Active("second".into());
    cp.save(&first).expect("first save");
    let v1: Option<TestState> = cp.load().expect("load1");
    assert_eq!(v1, Some(first.clone()));
    cp.save(&second).expect("second save");
    let v2: Option<TestState> = cp.load().expect("load2");
    assert_eq!(v2, Some(second));
    assert_ne!(v1, v2);
}

#[test]
fn error_propagation_persistence_failed() {
    let mut cp: FailingCheckpointer = FailingCheckpointer;
    let state: TestState = TestState::Idle;

    let save_res: Result<(), FormeError> = cp.save(&state);
    assert!(save_res.is_err(), "save should fail");
    let err: FormeError = save_res.unwrap_err();
    assert!(
        err.to_string().contains("disk full"),
        "save err should contain payload, got: {}",
        err
    );
    match err {
        FormeError::PersistenceFailed(_) => {}
        _ => panic!("expected PersistenceFailed, got {:?}", err),
    }

    let load_res: Result<Option<TestState>, FormeError> = cp.load();
    assert!(load_res.is_err(), "load should fail");
    let err2: FormeError = load_res.unwrap_err();
    assert!(
        err2.to_string().contains("read failed"),
        "load err msg: {}",
        err2
    );
    match err2 {
        FormeError::PersistenceFailed(_) => {}
        _ => panic!("expected PersistenceFailed, got {:?}", err2),
    }
}

#[test]
fn mod_send_sync_compile_check() {
    assert_send_sync::<MockCheckpointer<TestState>>();
    assert_send_sync::<FailingCheckpointer>();
    assert_send_sync::<Box<dyn Checkpointer<TestState>>>();

    assert_checkpointer_send_sync::<TestState, MockCheckpointer<TestState>>();
    assert_checkpointer_send_sync::<TestState, FailingCheckpointer>();
}

#[test]
fn an_option_keeps_the_last_state() {
    let mut cp: Option<TestState> = None;
    assert_eq!(cp.load().unwrap(), None);
    cp.save(&TestState::Idle).unwrap();
    cp.save(&TestState::Active("again".into())).unwrap();
    assert_eq!(cp.load().unwrap(), Some(TestState::Active("again".into())));
    assert_eq!(cp.load().unwrap(), cp.load().unwrap());
}

#[test]
fn a_failed_save_keeps_the_variant() {
    let mut cp: Box<dyn Checkpointer<TestState>> = Box::new(FailingCheckpointer);
    let err = cp.save(&TestState::Idle).unwrap_err();
    assert_eq!(err.to_string(), "persistence failed: disk full");
}
