use vstd::prelude::*;

use crate::error::BootstrapError;
use crate::probe::Readiness;

verus! {

/// One of the three supervised services.
#[derive(Debug, Clone, Copy, PartialEq, Eq, Structural)]
pub enum Service {
    Server,
    Batch,
    Updater,
}

/// The fixed start order: later services may call the earlier ones.
pub open spec fn service_order() -> Seq<Service> {
    seq![Service::Server, Service::Batch, Service::Updater]
}

pub open spec fn port_of(s: Service) -> u16 {
    match s {
        Service::Server => 5275,
        Service::Batch => 5276,
        Service::Updater => 5274,
    }
}

pub open spec fn name_of(s: Service) -> Seq<char> {
    match s {
        Service::Server => "server"@,
        Service::Batch => "batch"@,
        Service::Updater => "updater"@,
    }
}

impl Service {
    /// The loopback port on which the service signals readiness.
    pub fn port(&self) -> (r: u16)
        ensures
            r == port_of(*self),
    {
        match self {
            Service::Server => 5275,
            Service::Batch => 5276,
            Service::Updater => 5274,
        }
    }

    /// The service's name, also the stem of its log files.
    pub fn name(&self) -> (r: String)
        ensures
            r@ == name_of(*self),
    {
        match self {
            Service::Server => String::from_str("server"),
            Service::Batch => String::from_str("batch"),
            Service::Updater => String::from_str("updater"),
        }
    }
}

/// The ports that must be free before anything is started, in the order checked.
pub open spec fn required_port_seq() -> Seq<u16> {
    seq![5274u16, 5275u16, 5276u16]
}

pub fn required_ports() -> (r: Vec<u16>)
    ensures
        r@ == required_port_seq(),
{
    let r = vec![5274u16, 5275u16, 5276u16];
    assert(r@ =~= required_port_seq());
    r
}

/// Index of the first port at or after `i` that is not free, or the length.
pub open spec fn first_busy(free: Seq<bool>, i: int) -> int
    decreases free.len() - i,
{
    if i < 0 || i >= free.len() {
        free.len() as int
    } else if !free[i] {
        i
    } else {
        first_busy(free, i + 1)
    }
}

/// `Ok` when every port could be bound (`free[i]` for `ports[i]`), else
/// `PortUnavailable` naming the first that could not.
pub fn ensure_ports_available(ports: &Vec<u16>, free: &Vec<bool>) -> (r: Result<(), BootstrapError>)
    requires
        ports.len() == free.len(),
    ensures
        ({
            let k = first_busy(free@, 0);
            match r {
                Ok(()) => k == free.len(),
                Err(BootstrapError::PortUnavailable { port }) => k < free.len() && port
                    == ports@[k],
                Err(_) => false,
            }
        }),
{
    let mut i: usize = 0;
    while i < ports.len()
        invariant
            ports.len() == free.len(),
            i <= ports.len(),
            first_busy(free@, 0) == first_busy(free@, i as int),
        decreases ports.len() - i,
    {
        if !free[i] {
            return Err(BootstrapError::PortUnavailable { port: ports[i] });
        }
        i = i + 1;
    }
    Ok(())
}

/// What the host must do next to bring the services up.
#[derive(Debug, Clone, Copy, PartialEq, Eq, Structural)]
pub enum StartupAction {
    /// Start the service's process.
    Spawn(Service),
    /// Probe the service's readiness (after the poll interval when repeating).
    Probe(Service),
    /// All three services are ready.
    Finished,
    /// Start-up failed; nothing more is started.
    Aborted,
}

/// The ordered start-up: each service is spawned, then probed until ready,
/// before the next is spawned. A failure ends the sequence; services that
/// were already ready stay adopted.
pub struct Startup {
    adopted: Vec<Service>,
    waiting: bool,
    failed: bool,
}

impl Startup {
    /// The services that became ready, in order.
    pub closed spec fn ready_seq(&self) -> Seq<Service> {
        self.adopted@
    }

    pub closed spec fn is_waiting(&self) -> bool {
        self.waiting
    }

    pub closed spec fn has_failed(&self) -> bool {
        self.failed
    }

    /// The adopted services are always a prefix of the fixed order.
    pub closed spec fn wf(&self) -> bool {
        &&& self.adopted.len() <= 3
        &&& self.adopted@ == service_order().take(self.adopted.len() as int)
        &&& self.adopted.len() == 3 ==> !self.waiting
    }

    /// The action that the state calls for.
    pub open spec fn action_of(&self) -> StartupAction {
        if self.has_failed() {
            StartupAction::Aborted
        } else if self.ready_seq().len() >= 3 {
            StartupAction::Finished
        } else if self.is_waiting() {
            StartupAction::Probe(service_order()[self.ready_seq().len() as int])
        } else {
            StartupAction::Spawn(service_order()[self.ready_seq().len() as int])
        }
    }

    pub fn new() -> (r: Startup)
        ensures
            r.wf(),
            r.ready_seq() == Seq::<Service>::empty(),
            !r.is_waiting(),
            !r.has_failed(),
    {
        let r = Startup { adopted: Vec::new(), waiting: false, failed: false };
        assert(r.adopted@ =~= service_order().take(0));
        r
    }

    /// What to do next.
    pub fn next_action(&self) -> (r: StartupAction)
        requires
            self.wf(),
        ensures
            r == self.action_of(),
    {
        let n = self.adopted.len();
        if self.failed {
            StartupAction::Aborted
        } else if n >= 3 {
            StartupAction::Finished
        } else {
            let s = if n == 0 {
                Service::Server
            } else if n == 1 {
                Service::Batch
            } else {
                Service::Updater
            };
            if self.waiting {
                StartupAction::Probe(s)
            } else {
                StartupAction::Spawn(s)
            }
        }
    }

    /// Reports the outcome of a `Spawn`: a started process is probed next,
    /// a refused one ends the sequence.
    pub fn on_spawned(&mut self, started: bool)
        requires
            old(self).wf(),
            old(self).action_of() is Spawn,
        ensures
            final(self).wf(),
            final(self).ready_seq() == old(self).ready_seq(),
            final(self).is_waiting() == started,
            final(self).has_failed() == !started,
    {
        if started {
            self.waiting = true;
        } else {
            self.failed = true;
        }
    }

    /// Reports the outcome of a `Probe`: `Ready` adopts the service, `Polling`
    /// probes again, any other outcome ends the sequence.
    pub fn on_probed(&mut self, outcome: Readiness)
        requires
            old(self).wf(),
            old(self).action_of() is Probe,
        ensures
            final(self).wf(),
            outcome == Readiness::Ready ==> final(self).ready_seq() == old(self).ready_seq().push(
                service_order()[old(self).ready_seq().len() as int],
            ) && !final(self).is_waiting() && !final(self).has_failed(),
            outcome == Readiness::Polling ==> final(self).ready_seq() == old(self).ready_seq()
                && final(self).is_waiting() && !final(self).has_failed(),
            outcome != Readiness::Ready && outcome != Readiness::Polling ==> final(self).ready_seq()
                == old(self).ready_seq() && final(self).has_failed(),
    {
        match outcome {
            Readiness::Ready => {
                let n = self.adopted.len();
                let s = if n == 0 {
                    Service::Server
                } else if n == 1 {
                    Service::Batch
                } else {
                    Service::Updater
                };
                self.adopted.push(s);
                self.waiting = false;
                assert(self.adopted@ =~= service_order().take(self.adopted.len() as int));
            },
            Readiness::Polling => {},
            _ => {
                self.waiting = false;
                self.failed = true;
            },
        }
    }

    /// The services adopted so far, in order.
    pub fn ready(&self) -> (r: &Vec<Service>)
        ensures
            r@ == self.ready_seq(),
    {
        &self.adopted
    }
}

/// The processes under supervision, in the order they were adopted.
pub struct ProcessGroup<T> {
    members: Vec<T>,
}

impl<T> ProcessGroup<T> {
    pub closed spec fn members_seq(&self) -> Seq<T> {
        self.members@
    }

    pub fn new() -> (r: ProcessGroup<T>)
        ensures
            r.members_seq() == Seq::<T>::empty(),
    {
        ProcessGroup { members: Vec::new() }
    }

    /// Adopts a process.
    pub fn add(&mut self, p: T)
        ensures
            final(self).members_seq() == old(self).members_seq().push(p),
    {
        self.members.push(p);
    }

    pub fn len(&self) -> (r: usize)
        ensures
            r == self.members_seq().len(),
    {
        self.members.len()
    }

    /// Hands out every member for termination and leaves the group empty, so
    /// that a second call finds nothing to do.
    pub fn take_all(&mut self) -> (r: Vec<T>)
        ensures
            r@ == old(self).members_seq(),
            final(self).members_seq() == Seq::<T>::empty(),
    {
        let mut out: Vec<T> = Vec::new();
        std::mem::swap(&mut out, &mut self.members);
        out
    }

    /// Read access to the members, in order.
    pub fn members(&self) -> (r: &Vec<T>)
        ensures
            r@ == self.members_seq(),
    {
        &self.members
    }
}

} // verus!
