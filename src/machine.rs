//! Instances as the compute provider reports them, and the machines
//! (instances with an id and a public address) derived from them.
use vstd::prelude::*;

verus! {

/// Where a provisioned instance stands in its life.
#[derive(Clone, Copy, Debug, PartialEq, Eq, Structural)]
pub enum InstanceState {
    /// The provisioning request was accepted; the instance is not yet observable.
    Pending,
    /// The provider reports the instance active, with its network identity.
    Running,
    /// Reachable; the application-level health probe is in progress.
    HealthChecking,
    /// Eligible to receive traffic.
    Healthy,
    /// Removed; no state follows.
    Terminated,
}

/// The transitions of the lifecycle: each state moves forward one step, and
/// every state but `Terminated` may be terminated.
pub open spec fn may_follow(from: InstanceState, to: InstanceState) -> bool {
    match (from, to) {
        (InstanceState::Pending, InstanceState::Running) => true,
        (InstanceState::Running, InstanceState::HealthChecking) => true,
        (InstanceState::HealthChecking, InstanceState::Healthy) => true,
        (InstanceState::Terminated, _) => false,
        (_, InstanceState::Terminated) => true,
        _ => false,
    }
}

impl InstanceState {
    /// Whether the lifecycle allows a move from `self` to `to`.
    pub fn can_become(&self, to: InstanceState) -> (r: bool)
        ensures
            r == may_follow(*self, to),
    {
        match (*self, to) {
            (InstanceState::Pending, InstanceState::Running) => true,
            (InstanceState::Running, InstanceState::HealthChecking) => true,
            (InstanceState::HealthChecking, InstanceState::Healthy) => true,
            (InstanceState::Terminated, _) => false,
            (_, InstanceState::Terminated) => true,
            _ => false,
        }
    }

    /// Whether an instance in this state has reached `Running` (and so has a
    /// network identity): `Running`, `HealthChecking` or `Healthy`.
    pub fn has_reached_running(&self) -> (r: bool)
        ensures
            r == reached_running(*self),
    {
        match *self {
            InstanceState::Running | InstanceState::HealthChecking | InstanceState::Healthy => true,
            _ => false,
        }
    }
}

/// The states in which an instance has reached `Running` and not been removed.
pub open spec fn reached_running(s: InstanceState) -> bool {
    s == InstanceState::Running || s == InstanceState::HealthChecking || s
        == InstanceState::Healthy
}

/// One instance record as the provider reports it: any field may be missing.
#[derive(Clone, Debug, PartialEq, Eq)]
pub struct Instance {
    pub instance_id: Option<String>,
    pub public_ip_address: Option<String>,
    pub state: Option<InstanceState>,
}

/// An instance resolved to its id and public address.
#[derive(Debug, PartialEq, Eq)]
pub struct Machine {
    pub id: String,
    pub ip_address: String,
}

impl Clone for Machine {
    fn clone(&self) -> (r: Self)
        ensures
            r == *self,
    {
        Machine { id: self.id.clone(), ip_address: self.ip_address.clone() }
    }
}

/// What can go wrong while provisioning, listing or converting machines.
#[derive(Clone, Debug, PartialEq, Eq)]
pub enum MachineError {
    /// A call to the compute provider failed; the text gives its cause.
    Provider(String),
    /// A provider record has no instance id.
    MissingInstanceId,
    /// A provider record has no public address.
    MissingIpAddress,
    /// `<address>:<port>` is not a socket address.
    InvalidAddress,
    /// The instance has not reached `Running`, or its state is unknown.
    NotRunning,
    /// The instance did not reach `Running` within the allowed polls.
    NotRunningInTime,
    /// The instance did not answer its health probe within the allowed polls.
    NotHealthyInTime,
}

/// The machine an instance record resolves to, if it has both fields.
pub open spec fn machine_of(i: Instance) -> Option<(Seq<char>, Seq<char>)> {
    match (i.instance_id, i.public_ip_address) {
        (Some(id), Some(ip)) => Some((id@, ip@)),
        _ => None,
    }
}

impl Machine {
    /// Resolves an instance record: the id is checked first, then the address.
    pub fn try_from_instance(value: &Instance) -> (r: Result<Machine, MachineError>)
        ensures
            value.instance_id.is_none() ==> r == Err::<Machine, MachineError>(
                MachineError::MissingInstanceId,
            ),
            value.instance_id.is_some() && value.public_ip_address.is_none() ==> r == Err::<
                Machine,
                MachineError,
            >(MachineError::MissingIpAddress),
            r is Ok <==> machine_of(*value) is Some,
            r is Ok ==> machine_of(*value) == Some((r->Ok_0.id@, r->Ok_0.ip_address@)),
    {
        let id = match &value.instance_id {
            Some(id) => id.clone(),
            None => return Err(MachineError::MissingInstanceId),
        };
        let ip = match &value.public_ip_address {
            Some(ip) => ip.clone(),
            None => return Err(MachineError::MissingIpAddress),
        };
        Ok(Machine { id, ip_address: ip })
    }
}

/// The machines of the well-formed records, in order; the others are skipped.
pub open spec fn resolvable(instances: Seq<Instance>) -> Seq<(Seq<char>, Seq<char>)>
    decreases instances.len(),
{
    if instances.len() == 0 {
        Seq::empty()
    } else {
        let rest = resolvable(instances.drop_last());
        match machine_of(instances.last()) {
            Some(m) => rest.push(m),
            None => rest,
        }
    }
}

/// The view of a list of machines as (id, address) pairs.
pub open spec fn machines_view(ms: Seq<Machine>) -> Seq<(Seq<char>, Seq<char>)> {
    ms.map_values(|m: Machine| (m.id@, m.ip_address@))
}

/// Resolves every record that has an id and a public address; a malformed
/// record is left out and does not fail the batch.
pub fn machines_from_instances(instances: &Vec<Instance>) -> (r: Vec<Machine>)
    ensures
        machines_view(r@) == resolvable(instances@),
{
    let mut out: Vec<Machine> = Vec::new();
    let mut i: usize = 0;
    while i < instances.len()
        invariant
            i <= instances@.len(),
            machines_view(out@) == resolvable(instances@.subrange(0, i as int)),
        decreases instances@.len() - i,
    {
        proof {
            assert(instances@.subrange(0, i as int + 1).drop_last() =~= instances@.subrange(
                0,
                i as int,
            ));
        }
        let res = Machine::try_from_instance(&instances[i]);
        match res {
            Ok(m) => {
                let ghost before = out@;
                out.push(m);
                proof {
                    assert(machines_view(out@) =~= machines_view(before).push(
                        (m.id@, m.ip_address@),
                    ));
                }
            },
            Err(_) => {},
        }
        i = i + 1;
    }
    proof {
        assert(instances@.subrange(0, instances@.len() as int) =~= instances@);
    }
    out
}

/// The machine that provisioning created.
#[derive(Clone, Debug, PartialEq, Eq)]
pub struct CreateMachineResponse(pub Machine);

/// The machines that can serve traffic now.
#[derive(Clone, Debug, PartialEq, Eq)]
pub struct ListMachinesResponse {
    pub machines: Vec<Machine>,
}

impl ListMachinesResponse {
    /// The listing made of the well-formed records among `instances`.
    pub fn from_instances(instances: &Vec<Instance>) -> (r: ListMachinesResponse)
        ensures
            machines_view(r.machines@) == resolvable(instances@),
    {
        ListMachinesResponse { machines: machines_from_instances(instances) }
    }
}

impl CreateMachineResponse {
    /// The response for an instance that has reached `Running`: its record
    /// must carry an id and a public address.
    pub fn from_running_instance(value: &Instance) -> (r: Result<CreateMachineResponse, MachineError>)
        ensures
            r is Ok <==> machine_of(*value) is Some,
            r is Ok ==> machine_of(*value) == Some((r->Ok_0.0.id@, r->Ok_0.0.ip_address@)),
            value.instance_id.is_none() ==> r == Err::<CreateMachineResponse, MachineError>(
                MachineError::MissingInstanceId,
            ),
            value.instance_id.is_some() && value.public_ip_address.is_none() ==> r == Err::<
                CreateMachineResponse,
                MachineError,
            >(MachineError::MissingIpAddress),
    {
        match Machine::try_from_instance(value) {
            Ok(m) => Ok(CreateMachineResponse(m)),
            Err(e) => Err(e),
        }
    }
}

/// The id of the instance that a launch request started: that of the first
/// record returned. No record, or a first record without an id, is a
/// malformed answer.
pub fn launched_instance_id(instances: &Vec<Instance>) -> (r: Result<String, MachineError>)
    ensures
        instances@.len() == 0 ==> r == Err::<String, MachineError>(MachineError::MissingInstanceId),
        instances@.len() > 0 && instances@[0].instance_id.is_none() ==> r == Err::<
            String,
            MachineError,
        >(MachineError::MissingInstanceId),
        instances@.len() > 0 && instances@[0].instance_id.is_some() ==> r is Ok && r->Ok_0@
            == instances@[0].instance_id->Some_0@,
{
    if instances.len() == 0 {
        return Err(MachineError::MissingInstanceId);
    }
    match &instances[0].instance_id {
        Some(id) => Ok(id.clone()),
        None => Err(MachineError::MissingInstanceId),
    }
}

} // verus!
