use autoscale_lb::backend::{backend_address, Backend};
use autoscale_lb::machine::{
    launched_instance_id, machines_from_instances, CreateMachineResponse, Instance,
    InstanceState, ListMachinesResponse, Machine, MachineError,
};

fn instance(id: Option<&str>, ip: Option<&str>) -> Instance {
    Instance {
        instance_id: id.map(|s| s.to_string()),
        public_ip_address: ip.map(|s| s.to_string()),
        state: Some(InstanceState::Running),
    }
}

fn machine(id: &str, ip: &str) -> Machine {
    Machine { id: id.to_string(), ip_address: ip.to_string() }
}

#[test]
fn machine_from_complete_instance() {
    let m = Machine::try_from_instance(&instance(Some("i-1"), Some("1.2.3.4"))).unwrap();
    assert_eq!(m, machine("i-1", "1.2.3.4"));
}

#[test]
fn machine_from_instance_without_id() {
    assert_eq!(
        Machine::try_from_instance(&instance(None, Some("1.2.3.4"))),
        Err(MachineError::MissingInstanceId)
    );
    assert_eq!(
        Machine::try_from_instance(&instance(None, None)),
        Err(MachineError::MissingInstanceId)
    );
}

#[test]
fn machine_from_instance_without_address() {
    assert_eq!(
        Machine::try_from_instance(&instance(Some("i-1"), None)),
        Err(MachineError::MissingIpAddress)
    );
}

#[test]
fn backend_from_instance_without_address_fails() {
    assert_eq!(
        Backend::try_from_instance(&instance(Some("i-1"), None), true),
        Err(MachineError::MissingIpAddress)
    );
    assert_eq!(
        Backend::try_from_instance(&instance(Some("i-1"), None), false),
        Err(MachineError::MissingIpAddress)
    );
}

#[test]
fn backend_from_instance_with_address() {
    let b = Backend::try_from_instance(&instance(Some("i-1"), Some("1.2.3.4")), true).unwrap();
    assert_eq!(b, Backend { addr: "1.2.3.4:80".to_string(), weight: 1 });
}

#[test]
fn backend_from_instance_not_running_fails() {
    let mut pending = instance(Some("i-1"), Some("1.2.3.4"));
    pending.state = Some(InstanceState::Pending);
    assert_eq!(Backend::try_from_instance(&pending, true), Err(MachineError::NotRunning));
    let mut unknown = instance(Some("i-1"), Some("1.2.3.4"));
    unknown.state = None;
    assert_eq!(Backend::try_from_instance(&unknown, true), Err(MachineError::NotRunning));
    let mut healthy = instance(Some("i-1"), Some("1.2.3.4"));
    healthy.state = Some(InstanceState::Healthy);
    assert_eq!(
        Backend::try_from_instance(&healthy, true),
        Ok(Backend { addr: "1.2.3.4:80".to_string(), weight: 1 })
    );
    assert_eq!(
        Backend::try_from_instance(&instance(Some("i-1"), Some("x")), false),
        Err(MachineError::InvalidAddress)
    );
}

#[test]
fn backend_from_machine_round_trips_to_ip_port_80() {
    for ip in ["1.2.3.4", "10.0.0.7", "255.255.255.255"] {
        let b = Backend::try_from_machine(machine("i-1", ip), true).unwrap();
        assert_eq!(b.addr, format!("{}:80", ip));
        assert_eq!(b.weight, 1);
    }
    assert_eq!(backend_address(&"1.2.3.4".to_string()), "1.2.3.4:80");
}

#[test]
fn backend_from_machine_with_invalid_address_fails() {
    assert_eq!(
        Backend::try_from_machine(machine("i-1", "not an ip"), false),
        Err(MachineError::InvalidAddress)
    );
}

#[test]
fn malformed_records_are_skipped() {
    let instances = vec![
        instance(Some("i-1"), Some("1.2.3.4")),
        instance(Some("i-2"), None),
        instance(None, Some("5.6.7.8")),
        instance(Some("i-4"), Some("9.9.9.9")),
    ];
    assert_eq!(
        machines_from_instances(&instances),
        vec![machine("i-1", "1.2.3.4"), machine("i-4", "9.9.9.9")]
    );
    assert_eq!(
        ListMachinesResponse::from_instances(&instances).machines,
        vec![machine("i-1", "1.2.3.4"), machine("i-4", "9.9.9.9")]
    );
    assert!(machines_from_instances(&Vec::new()).is_empty());
}

#[test]
fn create_response_from_running_instance() {
    assert_eq!(
        CreateMachineResponse::from_running_instance(&instance(Some("i-1"), Some("1.2.3.4"))),
        Ok(CreateMachineResponse(machine("i-1", "1.2.3.4")))
    );
    assert_eq!(
        CreateMachineResponse::from_running_instance(&instance(Some("i-1"), None)),
        Err(MachineError::MissingIpAddress)
    );
}

#[test]
fn launched_id_is_first_record() {
    assert_eq!(
        launched_instance_id(&vec![instance(Some("i-1"), None), instance(Some("i-2"), None)]),
        Ok("i-1".to_string())
    );
    assert_eq!(launched_instance_id(&Vec::new()), Err(MachineError::MissingInstanceId));
    assert_eq!(
        launched_instance_id(&vec![instance(None, Some("1.2.3.4"))]),
        Err(MachineError::MissingInstanceId)
    );
}

#[test]
fn lifecycle_transitions() {
    assert!(InstanceState::Pending.can_become(InstanceState::Running));
    assert!(InstanceState::Running.can_become(InstanceState::HealthChecking));
    assert!(InstanceState::HealthChecking.can_become(InstanceState::Healthy));
    assert!(InstanceState::Healthy.can_become(InstanceState::Terminated));
    assert!(InstanceState::Pending.can_become(InstanceState::Terminated));
    assert!(!InstanceState::Terminated.can_become(InstanceState::Running));
    assert!(!InstanceState::Terminated.can_become(InstanceState::Terminated));
    assert!(!InstanceState::Pending.can_become(InstanceState::Healthy));
    assert!(!InstanceState::Healthy.can_become(InstanceState::Pending));
    assert!(InstanceState::Running.has_reached_running());
    assert!(InstanceState::Healthy.has_reached_running());
    assert!(!InstanceState::Pending.has_reached_running());
    assert!(!InstanceState::Terminated.has_reached_running());
}

#[test]
fn provider_error_keeps_its_cause() {
    let e = MachineError::Provider("throttled".to_string());
    assert_eq!(e.clone(), MachineError::Provider("throttled".to_string()));
    assert_ne!(e, MachineError::InvalidAddress);
}
