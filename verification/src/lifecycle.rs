//! The life of the service process: from a frozen configuration to a running
//! service and on to its stop. Each signal from the outside moves the handle
//! one state on and names what has to be done next; spawning, probing and
//! terminating are the caller's.

use crate::address::SocketAddress;
use crate::errors::DatabaseError;
use crate::options::DatabaseOptions;
use vstd::prelude::*;

verus! {

/// The states of the service.
#[derive(Debug, Clone, Copy, PartialEq, Eq, Structural, Hash)]
pub enum Lifecycle {
    /// Nothing was started.
    Unprovisioned,
    /// The process is being spawned, or is not accepting connections yet.
    Provisioning,
    /// The service accepts connections.
    Ready,
    /// The service was stopped.
    Stopped,
    /// The service could not be brought up, or was lost.
    Failed,
}

/// What happened outside.
#[derive(Debug, Clone, Copy, PartialEq, Eq, Structural, Hash)]
pub enum Signal {
    /// The caller asks for the service to be started.
    Start,
    /// The process was spawned, with this identifier.
    Spawned(u32),
    /// The process could not be spawned.
    SpawnFailed,
    /// The bind address accepts connections.
    Accepting,
    /// The bind address does not accept connections yet.
    Refusing,
    /// The process was lost.
    Crashed,
    /// The caller asks for the service to be stopped.
    Stop,
}

/// What the caller has to do next.
#[derive(Debug, Clone, Copy, PartialEq, Eq, Structural, Hash)]
pub enum Action {
    /// Nothing.
    Idle,
    /// Spawn the installed binary.
    Spawn,
    /// Try to connect to the address and report `Accepting` or `Refusing`.
    Probe(SocketAddress),
    /// Terminate the process: gracefully first, by force after the grace
    /// period.
    Terminate(u32),
}

/// The state of a handle.
#[derive(Debug, Clone, Copy, PartialEq, Eq, Structural, Hash)]
pub struct Handle {
    /// The address the service binds.
    pub addr: SocketAddress,
    /// The secondary port.
    pub grcp: u16,
    /// The process, while there is one.
    pub pid: Option<u32>,
    /// The state of the service.
    pub state: Lifecycle,
    /// Why the service failed, once it has.
    pub fault: Option<DatabaseError>,
    /// How many more refused probes are waited out.
    pub attempts: u32,
}

impl Handle {
    /// A handle is coherent when it has a process exactly while one can run,
    /// and a fault exactly when it failed.
    pub open spec fn coherent(self) -> bool {
        &&& self.state == Lifecycle::Ready ==> self.pid is Some
        &&& (self.state == Lifecycle::Unprovisioned || self.state == Lifecycle::Stopped
            || self.state == Lifecycle::Failed) ==> self.pid is None
        &&& self.state == Lifecycle::Failed <==> self.fault is Some
    }

    /// The handle after a failure: no process, and the fault recorded.
    pub open spec fn failed(self, fault: DatabaseError) -> Handle {
        Handle { pid: None, state: Lifecycle::Failed, fault: Some(fault), ..self }
    }

    /// What is done with the process when the handle gives it up.
    pub open spec fn release(self) -> Action {
        match self.pid {
            Some(pid) => Action::Terminate(pid),
            None => Action::Idle,
        }
    }

    /// The handle after a signal, and what the caller has to do next. A signal
    /// that does not apply to the state changes nothing.
    pub open spec fn next(self, signal: Signal) -> (Handle, Action) {
        match (self.state, signal) {
            (Lifecycle::Unprovisioned, Signal::Start) => (
                Handle { state: Lifecycle::Provisioning, ..self },
                Action::Spawn,
            ),
            (Lifecycle::Provisioning, Signal::Spawned(pid)) => if self.pid is None {
                (Handle { pid: Some(pid), ..self }, Action::Probe(self.addr))
            } else {
                (self, Action::Idle)
            },
            (Lifecycle::Provisioning, Signal::SpawnFailed) => if self.pid is None {
                (self.failed(DatabaseError::StartError), Action::Idle)
            } else {
                (self, Action::Idle)
            },
            (Lifecycle::Provisioning, Signal::Accepting) => if self.pid is Some {
                (Handle { state: Lifecycle::Ready, ..self }, Action::Idle)
            } else {
                (self, Action::Idle)
            },
            (Lifecycle::Provisioning, Signal::Refusing) => if self.pid is None {
                (self, Action::Idle)
            } else if self.attempts > 0 {
                (
                    Handle { attempts: (self.attempts - 1) as u32, ..self },
                    Action::Probe(self.addr),
                )
            } else {
                (self.failed(DatabaseError::TimeoutError), self.release())
            },
            (Lifecycle::Provisioning, Signal::Crashed) | (Lifecycle::Ready, Signal::Crashed) => (
                self.failed(DatabaseError::TcpError),
                self.release(),
            ),
            (Lifecycle::Unprovisioned, Signal::Stop)
            | (Lifecycle::Provisioning, Signal::Stop)
            | (Lifecycle::Ready, Signal::Stop) => (
                Handle { pid: None, state: Lifecycle::Stopped, ..self },
                self.release(),
            ),
            _ => (self, Action::Idle),
        }
    }
}

/// The order in which the states are passed.
pub open spec fn rank(state: Lifecycle) -> nat {
    match state {
        Lifecycle::Unprovisioned => 0,
        Lifecycle::Provisioning => 1,
        Lifecycle::Ready => 2,
        Lifecycle::Stopped => 3,
        Lifecycle::Failed => 3,
    }
}

/// The handle of a service.
#[derive(Debug, PartialEq, Eq, Hash)]
pub struct Database {
    handle: Handle,
}

impl View for Database {
    type V = Handle;

    closed spec fn view(&self) -> Handle {
        self.handle
    }
}

impl Database {
    #[verifier::type_invariant]
    spec fn coherent(&self) -> bool {
        self.handle.coherent()
    }

    /// A handle for the service of a frozen configuration, not started yet.
    /// `attempts` is the number of refused probes that a start waits out.
    pub fn new(options: &DatabaseOptions, attempts: u32) -> (db: Database)
        ensures
            db@ == (Handle {
                addr: options@.addr,
                grcp: options@.grcp,
                pid: None,
                state: Lifecycle::Unprovisioned,
                fault: None,
                attempts,
            }),
    {
        Database {
            handle: Handle {
                addr: options.addr(),
                grcp: options.grcp(),
                pid: None,
                state: Lifecycle::Unprovisioned,
                fault: None,
                attempts,
            },
        }
    }

    /// The state of the handle. It is coherent at all times.
    pub fn handle(&self) -> (handle: Handle)
        ensures
            handle == self@,
            handle.coherent(),
    {
        proof {
            use_type_invariant(self);
        }
        self.handle
    }

    /// Takes a signal: the handle moves one state on, and the action says what
    /// the caller has to do next.
    pub fn signal(self, signal: Signal) -> (r: (Database, Action))
        ensures
            (r.0@, r.1) == self@.next(signal),
    {
        proof {
            use_type_invariant(&self);
            next_keeps_coherent(self.handle, signal);
        }
        let h = self.handle;
        let idle = (Database { handle: h }, Action::Idle);
        let release = match h.pid {
            Some(pid) => Action::Terminate(pid),
            None => Action::Idle,
        };
        match (h.state, signal) {
            (Lifecycle::Unprovisioned, Signal::Start) => (
                Database { handle: Handle { state: Lifecycle::Provisioning, ..h } },
                Action::Spawn,
            ),
            (Lifecycle::Provisioning, Signal::Spawned(pid)) => {
                if h.pid.is_none() {
                    (Database { handle: Handle { pid: Some(pid), ..h } }, Action::Probe(h.addr))
                } else {
                    idle
                }
            },
            (Lifecycle::Provisioning, Signal::SpawnFailed) => {
                if h.pid.is_none() {
                    (Database { handle: fail(h, DatabaseError::StartError) }, Action::Idle)
                } else {
                    idle
                }
            },
            (Lifecycle::Provisioning, Signal::Accepting) => {
                if h.pid.is_some() {
                    (Database { handle: Handle { state: Lifecycle::Ready, ..h } }, Action::Idle)
                } else {
                    idle
                }
            },
            (Lifecycle::Provisioning, Signal::Refusing) => {
                if h.pid.is_none() {
                    idle
                } else if h.attempts > 0 {
                    (
                        Database { handle: Handle { attempts: h.attempts - 1, ..h } },
                        Action::Probe(h.addr),
                    )
                } else {
                    (Database { handle: fail(h, DatabaseError::TimeoutError) }, release)
                }
            },
            (Lifecycle::Provisioning, Signal::Crashed) | (Lifecycle::Ready, Signal::Crashed) => (
                Database { handle: fail(h, DatabaseError::TcpError) },
                release,
            ),
            (Lifecycle::Unprovisioned, Signal::Stop)
            | (Lifecycle::Provisioning, Signal::Stop)
            | (Lifecycle::Ready, Signal::Stop) => (
                Database { handle: Handle { pid: None, state: Lifecycle::Stopped, ..h } },
                release,
            ),
            _ => idle,
        }
    }

    /// Asks for the service to be started.
    pub fn start(self) -> (r: (Database, Action))
        ensures
            (r.0@, r.1) == self@.next(Signal::Start),
    {
        self.signal(Signal::Start)
    }

    /// Asks for the service to be stopped. On a stopped handle this does
    /// nothing.
    pub fn stop(self) -> (r: (Database, Action))
        ensures
            (r.0@, r.1) == self@.next(Signal::Stop),
    {
        self.signal(Signal::Stop)
    }
}

/// Records a failure in a handle.
fn fail(h: Handle, fault: DatabaseError) -> (r: Handle)
    ensures
        r == h.failed(fault),
{
    Handle { pid: None, state: Lifecycle::Failed, fault: Some(fault), ..h }
}

/// Every signal leaves a coherent handle coherent.
pub proof fn next_keeps_coherent(h: Handle, signal: Signal)
    requires
        h.coherent(),
    ensures
        h.next(signal).0.coherent(),
{
}

/// The states are passed in one direction: no signal takes a handle back, and
/// a stopped or failed handle stays as it is, with nothing left to do.
pub proof fn next_never_goes_back(h: Handle, signal: Signal)
    ensures
        rank(h.state) <= rank(h.next(signal).0.state),
        h.state == Lifecycle::Stopped || h.state == Lifecycle::Failed ==> h.next(signal) == (
            h,
            Action::Idle,
        ),
{
}

/// A service becomes ready only out of provisioning, and fails only out of
/// provisioning or readiness.
pub proof fn next_enters_in_order(h: Handle, signal: Signal)
    requires
        h.next(signal).0.state != h.state,
    ensures
        h.next(signal).0.state == Lifecycle::Provisioning ==> h.state == Lifecycle::Unprovisioned,
        h.next(signal).0.state == Lifecycle::Ready ==> h.state == Lifecycle::Provisioning,
        h.next(signal).0.state == Lifecycle::Failed ==> h.state == Lifecycle::Provisioning
            || h.state == Lifecycle::Ready,
{
}

/// Stopping twice is stopping once: the second stop changes nothing and asks
/// for nothing. The first one gives up the process, if there is one.
pub proof fn stop_is_idempotent(h: Handle)
    requires
        h.coherent(),
    ensures
        h.next(Signal::Stop).0.next(Signal::Stop) == (h.next(Signal::Stop).0, Action::Idle),
        h.next(Signal::Stop).0.pid is None,
        h.state == Lifecycle::Ready ==> h.next(Signal::Stop) == (
            Handle { pid: None, state: Lifecycle::Stopped, ..h },
            Action::Terminate(h.pid->0),
        ),
{
}

/// A start that is never accepted fails after the probes that its budget
/// allows: each refused probe uses one up, and the one after the last fails
/// the start as timed out and has the process terminated.
pub proof fn refused_start_times_out(h: Handle)
    requires
        h.state == Lifecycle::Provisioning,
        h.pid is Some,
    ensures
        h.attempts > 0 ==> h.next(Signal::Refusing) == (
            Handle { attempts: (h.attempts - 1) as u32, ..h },
            Action::Probe(h.addr),
        ),
        h.attempts == 0 ==> h.next(Signal::Refusing) == (
            h.failed(DatabaseError::TimeoutError),
            Action::Terminate(h.pid->0),
        ),
{
}

} // verus!
