//! Backends: the proxy-facing form of a machine, an address with the fixed
//! application port and a selection weight.
use vstd::prelude::*;
use crate::machine::{Instance, Machine, MachineError, machine_of, reached_running};

verus! {

/// The text appended to a machine's address: `:80`, the port on which every
/// machine serves the application.
pub open spec fn port_suffix() -> Seq<char> {
    seq![':', '8', '0']
}

/// The backend address of a machine at `ip`: `<ip>:80`.
pub open spec fn address_of(ip: Seq<char>) -> Seq<char> {
    ip + port_suffix()
}

/// One upstream that traffic may be sent to.
#[derive(Debug, PartialEq, Eq)]
pub struct Backend {
    /// `host:port`.
    pub addr: String,
    /// The selection weight. A backend built from a machine has weight 1;
    /// the registry's round-robin gives every backend one turn per round.
    pub weight: usize,
}

/// A backend as a value: its address and its weight.
pub type BackendView = (Seq<char>, usize);

impl View for Backend {
    type V = BackendView;

    open spec fn view(&self) -> BackendView {
        (self.addr@, self.weight)
    }
}

/// The views of a sequence of backends.
pub open spec fn views(s: Seq<Backend>) -> Seq<BackendView> {
    s.map_values(|b: Backend| b@)
}

impl Clone for Backend {
    fn clone(&self) -> (r: Self)
        ensures
            r == *self,
    {
        Backend { addr: self.addr.clone(), weight: self.weight }
    }
}

/// Builds `<ip>:80`.
pub fn backend_address(ip: &String) -> (r: String)
    ensures
        r@ == address_of(ip@),
{
    let r = ip.clone().concat(":80");
    proof {
        reveal_strlit(":80");
        assert(":80"@ =~= port_suffix());
    }
    r
}

/// Whether the record reports a state at or past `Running`.
pub open spec fn instance_running(i: Instance) -> bool {
    i.state is Some && reached_running(i.state->Some_0)
}

/// The backend that a machine at `ip` becomes when its address parses.
pub open spec fn backend_of(ip: Seq<char>) -> BackendView {
    (address_of(ip), 1)
}

impl Backend {
    /// Converts a machine into a backend at `<ip>:80` with weight 1.
    /// `address_parses` says whether `<ip>:80` is a socket address; where it
    /// is not, the conversion fails with `InvalidAddress`.
    pub fn try_from_machine(value: Machine, address_parses: bool) -> (r: Result<
        Backend,
        MachineError,
    >)
        ensures
            address_parses ==> r is Ok && r->Ok_0@ == backend_of(value.ip_address@),
            !address_parses ==> r == Err::<Backend, MachineError>(MachineError::InvalidAddress),
    {
        if address_parses {
            let addr = backend_address(&value.ip_address);
            Ok(Backend { addr, weight: 1 })
        } else {
            Err(MachineError::InvalidAddress)
        }
    }

    /// Converts an instance record straight into a backend: the record must
    /// resolve to a machine, the instance must have reached `Running`, and
    /// its address must parse.
    pub fn try_from_instance(value: &Instance, address_parses: bool) -> (r: Result<
        Backend,
        MachineError,
    >)
        ensures
            value.instance_id.is_none() ==> r == Err::<Backend, MachineError>(
                MachineError::MissingInstanceId,
            ),
            value.instance_id.is_some() && value.public_ip_address.is_none() ==> r == Err::<
                Backend,
                MachineError,
            >(MachineError::MissingIpAddress),
            machine_of(*value) is Some && !instance_running(*value) ==> r == Err::<
                Backend,
                MachineError,
            >(MachineError::NotRunning),
            machine_of(*value) is Some && instance_running(*value) && !address_parses ==> r
                == Err::<Backend, MachineError>(MachineError::InvalidAddress),
            machine_of(*value) is Some && instance_running(*value) && address_parses ==> r is Ok
                && r->Ok_0@ == backend_of(machine_of(*value)->Some_0.1),
    {
        match Machine::try_from_instance(value) {
            Ok(m) => {
                let running = match value.state {
                    Some(s) => s.has_reached_running(),
                    None => false,
                };
                if running {
                    Backend::try_from_machine(m, address_parses)
                } else {
                    Err(MachineError::NotRunning)
                }
            },
            Err(e) => Err(e),
        }
    }
}

/// A machine at a valid address, turned into a backend, reads back as
/// `<ip>:80`; and the address of a backend is never empty.
pub proof fn backend_address_round_trip(ip: Seq<char>)
    ensures
        backend_of(ip).0 == ip + seq![':', '8', '0'],
        backend_of(ip).0.len() > 0,
        backend_of(ip).0.subrange(0, ip.len() as int) == ip,
{
    assert(backend_of(ip).0.subrange(0, ip.len() as int) =~= ip);
}

} // verus!
