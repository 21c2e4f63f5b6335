use rustify::config::BindAddress;
use rustify::listener::{
    create_reusable_listener, listener_build_step, port_octets, BuildPhase, BuildStep,
    ListenerError, ListenerPlan, AF_INET_FAMILY,
};

fn local_v4() -> BindAddress {
    BindAddress::V4 { a: 127, b: 0, c: 0, d: 1, port: 7878 }
}

#[test]
fn an_ipv4_address_yields_the_full_reusable_plan() {
    let plan = create_reusable_listener(&local_v4(), 15000).unwrap();
    assert_eq!(
        plan,
        ListenerPlan {
            family: AF_INET_FAMILY,
            addr0: 127,
            addr1: 0,
            addr2: 0,
            addr3: 1,
            port: 7878,
            reuse_addr: true,
            reuse_port: true,
            backlog: 15000,
            nonblocking: true,
        }
    );
}

#[test]
fn two_independent_listeners_for_one_address_ask_for_the_same_reusable_socket() {
    let first = create_reusable_listener(&local_v4(), 15000).unwrap();
    let second = create_reusable_listener(&local_v4(), 15000).unwrap();
    assert_eq!(first, second);
    assert!(first.reuse_port);
    assert!(second.reuse_port);
    assert!(first.reuse_addr);
}

#[test]
fn an_ipv6_address_is_rejected() {
    let r = create_reusable_listener(&BindAddress::V6 { port: 7878 }, 15000);
    assert_eq!(r, Err(ListenerError::Ipv6Unsupported));
}

#[test]
fn bring_up_proceeds_step_by_step_to_a_listening_socket() {
    assert_eq!(
        listener_build_step(BuildPhase::CreatingSocket, true),
        BuildStep::Proceed { next: BuildPhase::EnablingReuseAddr }
    );
    assert_eq!(
        listener_build_step(BuildPhase::EnablingReuseAddr, true),
        BuildStep::Proceed { next: BuildPhase::EnablingReusePort }
    );
    assert_eq!(
        listener_build_step(BuildPhase::EnablingReusePort, true),
        BuildStep::Proceed { next: BuildPhase::Binding }
    );
    assert_eq!(
        listener_build_step(BuildPhase::Binding, true),
        BuildStep::Proceed { next: BuildPhase::StartingListen }
    );
    assert_eq!(listener_build_step(BuildPhase::StartingListen, true), BuildStep::Finish);
}

#[test]
fn a_failed_socket_call_fails_with_nothing_to_close() {
    assert_eq!(
        listener_build_step(BuildPhase::CreatingSocket, false),
        BuildStep::Fail { close_descriptor: false }
    );
}

#[test]
fn option_failures_are_swallowed_and_bring_up_continues() {
    assert_eq!(
        listener_build_step(BuildPhase::EnablingReuseAddr, false),
        BuildStep::Proceed { next: BuildPhase::EnablingReusePort }
    );
    assert_eq!(
        listener_build_step(BuildPhase::EnablingReusePort, false),
        BuildStep::Proceed { next: BuildPhase::Binding }
    );
}

#[test]
fn failed_bind_or_listen_closes_the_descriptor_before_reporting() {
    assert_eq!(
        listener_build_step(BuildPhase::Binding, false),
        BuildStep::Fail { close_descriptor: true }
    );
    assert_eq!(
        listener_build_step(BuildPhase::StartingListen, false),
        BuildStep::Fail { close_descriptor: true }
    );
}

#[test]
fn the_port_splits_into_its_network_order_bytes() {
    assert_eq!(port_octets(7878), (30, 198));
    assert_eq!(port_octets(0), (0, 0));
    assert_eq!(port_octets(65535), (255, 255));
    assert_eq!(port_octets(256), (1, 0));
}
