//! Admission: how many machines may live at once, and what a request that
//! ran out of time is answered.

use vstd::prelude::*;
use crate::run::RunError;
use crate::transport::ProtocolError;
use crate::vm::VmSpawnError;

verus! {

/// Seconds that a request may take from its arrival to its answer.
pub const REQUEST_DEADLINE_SECS: u64 = 30;

/// Why the service failed a request.
#[derive(Debug, PartialEq, Eq)]
pub enum ServiceError {
    /// No permit came free before the deadline.
    AdmissionTimeout,
    /// The deadline passed after the request was admitted.
    ExecutionTimeout,
    /// The machine could not be started.
    VmSpawn(VmSpawnError),
    /// The control channel could not be opened.
    Protocol(ProtocolError),
    /// The guest failed the request.
    Run(RunError),
}

impl From<VmSpawnError> for ServiceError {
    fn from(e: VmSpawnError) -> (r: ServiceError) {
        ServiceError::VmSpawn(e)
    }
}

impl vstd::std_specs::convert::FromSpecImpl<VmSpawnError> for ServiceError {
    open spec fn obeys_from_spec() -> bool {
        true
    }

    open spec fn from_spec(e: VmSpawnError) -> ServiceError {
        ServiceError::VmSpawn(e)
    }
}

impl From<ProtocolError> for ServiceError {
    fn from(e: ProtocolError) -> (r: ServiceError) {
        ServiceError::Protocol(e)
    }
}

impl vstd::std_specs::convert::FromSpecImpl<ProtocolError> for ServiceError {
    open spec fn obeys_from_spec() -> bool {
        true
    }

    open spec fn from_spec(e: ProtocolError) -> ServiceError {
        ServiceError::Protocol(e)
    }
}

impl From<RunError> for ServiceError {
    fn from(e: RunError) -> (r: ServiceError) {
        ServiceError::Run(e)
    }
}

impl vstd::std_specs::convert::FromSpecImpl<RunError> for ServiceError {
    open spec fn obeys_from_spec() -> bool {
        true
    }

    open spec fn from_spec(e: RunError) -> ServiceError {
        ServiceError::Run(e)
    }
}

/// The right to keep one machine alive. It is handed out by
/// [`AdmissionController::try_acquire`] and given back, once, to
/// [`AdmissionController::release`].
#[derive(Debug, PartialEq, Eq)]
pub struct Permit {
    token: (),
}

/// Something that happens at the door.
#[derive(Debug, Clone, Copy, PartialEq, Eq, Structural)]
pub enum AdmissionEvent {
    /// A request asks for a permit.
    Request,
    /// A permit comes back.
    Release,
}

/// Counts the machines that live and bounds them.
#[derive(Debug, PartialEq, Eq)]
pub struct AdmissionController {
    pub max_vms: usize,
    pub live: usize,
}

impl AdmissionController {
    /// No more permits are out than there are.
    pub open spec fn wf(self) -> bool {
        self.live <= self.max_vms
    }

    /// A controller with all its permits in.
    pub open spec fn fresh(max_vms: usize) -> AdmissionController {
        AdmissionController { max_vms, live: 0 }
    }

    /// Whether a request that arrives now is admitted.
    pub open spec fn admits(self) -> bool {
        self.live < self.max_vms
    }

    /// The controller after an event. A request takes a permit if one is in
    /// and waits otherwise, which changes nothing.
    pub open spec fn after(self, event: AdmissionEvent) -> AdmissionController {
        match event {
            AdmissionEvent::Request => if self.admits() {
                AdmissionController { live: (self.live + 1) as usize, ..self }
            } else {
                self
            },
            AdmissionEvent::Release => if self.live > 0 {
                AdmissionController { live: (self.live - 1) as usize, ..self }
            } else {
                self
            },
        }
    }

    /// The controller after a run of events, first to last.
    pub open spec fn after_all(self, events: Seq<AdmissionEvent>) -> AdmissionController
        decreases events.len(),
    {
        if events.len() == 0 {
            self
        } else {
            self.after_all(events.drop_last()).after(events.last())
        }
    }

    /// A controller that admits up to `max_vms` machines at once.
    pub fn new(max_vms: usize) -> (r: AdmissionController)
        ensures
            r == Self::fresh(max_vms),
            r.wf(),
    {
        AdmissionController { max_vms, live: 0 }
    }

    /// Asks for a permit. One is handed out exactly when fewer than
    /// `max_vms` are out; otherwise the request has to wait and nothing
    /// changes.
    pub fn try_acquire(&mut self) -> (r: Option<Permit>)
        requires
            old(self).wf(),
        ensures
            r is Some <==> old(self).admits(),
            *final(self) == old(self).after(AdmissionEvent::Request),
            final(self).wf(),
    {
        if self.live < self.max_vms {
            self.live = self.live + 1;
            Some(Permit { token: () })
        } else {
            None
        }
    }

    /// Takes a permit back, which frees room for one machine.
    pub fn release(&mut self, permit: Permit)
        requires
            old(self).wf(),
        ensures
            *final(self) == old(self).after(AdmissionEvent::Release),
            final(self).wf(),
    {
        let _ = permit;
        if self.live > 0 {
            self.live = self.live - 1;
        }
    }
}

/// The answer to a request. One that finished before the deadline keeps its
/// own result. One that did not is failed: as an admission timeout if it
/// never got a permit, as an execution timeout if it did.
pub fn submit_outcome(
    admitted: bool,
    finished: Option<Result<(String, String), ServiceError>>,
) -> (r: Result<(String, String), ServiceError>)
    ensures
        r == match finished {
            Some(result) => result,
            None => Err(
                if admitted {
                    ServiceError::ExecutionTimeout
                } else {
                    ServiceError::AdmissionTimeout
                },
            ),
        },
{
    match finished {
        Some(result) => result,
        None => if admitted {
            Err(ServiceError::ExecutionTimeout)
        } else {
            Err(ServiceError::AdmissionTimeout)
        },
    }
}

/// Whatever requests and releases arrive, in whatever order, the number of
/// live machines never exceeds the bound, and the bound never changes.
pub proof fn lemma_never_over_bound(max_vms: usize, events: Seq<AdmissionEvent>)
    ensures
        AdmissionController::fresh(max_vms).after_all(events).wf(),
        AdmissionController::fresh(max_vms).after_all(events).max_vms == max_vms,
    decreases events.len(),
{
    if events.len() > 0 {
        lemma_never_over_bound(max_vms, events.drop_last());
    }
}

/// A request that finds every permit out is not admitted, and is admitted
/// as soon as one permit has come back.
pub proof fn lemma_waits_until_release(controller: AdmissionController)
    requires
        controller.wf(),
        controller.max_vms > 0,
        controller.live == controller.max_vms,
    ensures
        !controller.admits(),
        controller.after(AdmissionEvent::Request) == controller,
        controller.after(AdmissionEvent::Release).admits(),
{
}

} // verus!
