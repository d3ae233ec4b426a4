use remote_exec_broker::port_forward::side::{SideHandle, SideOwner};

#[test]
fn target_side_is_named_and_owned_by_its_daemon_instance() {
    let side: SideHandle<u8, ()> = SideHandle::target("builder-a".to_string(), 7, "inst-1".to_string());
    assert_eq!(side.name(), "builder-a");
    assert_eq!(
        side.owner(),
        SideOwner::Target { name: "builder-a".to_string(), daemon_instance_id: "inst-1".to_string() }
    );
}

#[test]
fn broker_host_side_is_local() {
    let side: SideHandle<u8, ()> = SideHandle::Local(());
    assert_eq!(side.name(), "local");
    assert_eq!(side.owner(), SideOwner::BrokerHost);
}
