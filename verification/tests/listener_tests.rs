use mpv_web_client::listener::{
    after_bind, choose_port, decide_ip, decide_port, idle_shutdown_interval, interface_ip, BindDecision, BindOutcome,
    InterfaceAddress, ListenerError, PORT_RANGE_END, PORT_RANGE_START,
};

fn interface(name: &str, ipv4: Option<[u8; 4]>) -> InterfaceAddress {
    InterfaceAddress { interface_name: name.to_string(), ipv4 }
}

#[test]
fn a_requested_port_is_taken_as_it_is() {
    assert_eq!(decide_port(Some(8080)), 8080);
    assert_eq!(decide_port(Some(0)), 0);
    assert_eq!(choose_port(Some(1), 7500), 1);
    assert_eq!(choose_port(None, 7500), 7500);
}

#[test]
fn a_drawn_port_lies_in_the_range() {
    let mut seen = Vec::new();
    for _ in 0..300 {
        let port = decide_port(None);
        assert!((PORT_RANGE_START..=PORT_RANGE_END).contains(&port));
        if !seen.contains(&port) {
            seen.push(port);
        }
    }
    assert!(seen.len() > 1);
}

#[test]
fn the_address_is_the_given_one_unless_an_interface_is_named() {
    let interfaces = vec![interface("lo", Some([127, 0, 0, 1])), interface("eth0", Some([10, 0, 0, 5]))];
    assert_eq!(decide_ip(None, [192, 168, 1, 2], &interfaces).unwrap(), [192, 168, 1, 2]);
    assert_eq!(decide_ip(Some(&"eth0".to_string()), [192, 168, 1, 2], &interfaces).unwrap(), [10, 0, 0, 5]);
}

#[test]
fn the_first_entry_of_the_interface_with_an_address_counts() {
    let interfaces = vec![
        interface("eth0", None),
        interface("lo", Some([127, 0, 0, 1])),
        interface("eth0", Some([10, 0, 0, 5])),
        interface("eth0", Some([10, 0, 0, 6])),
    ];
    assert_eq!(interface_ip(&"eth0".to_string(), &interfaces).unwrap(), [10, 0, 0, 5]);
    match interface_ip(&"wlan0".to_string(), &interfaces) {
        Err(ListenerError::InterfaceAddressResolveFail(name)) => assert_eq!(name, "wlan0"),
        _ => panic!("an address for an unknown interface"),
    }
    let only_v6 = vec![interface("eth1", None)];
    assert!(matches!(
        decide_ip(Some(&"eth1".to_string()), [127, 0, 0, 1], &only_v6),
        Err(ListenerError::InterfaceAddressResolveFail(_))
    ));
}

#[test]
fn a_taken_port_is_tried_again_until_the_attempts_are_used_up() {
    let ip = [127, 0, 0, 1];
    assert!(matches!(after_bind(BindOutcome::Bound, false, 1, 8, ip, 7000), BindDecision::Listen));
    assert!(matches!(
        after_bind(BindOutcome::AddressInUse, false, 1, 8, ip, 7000),
        BindDecision::Retry { attempt: 2 }
    ));
    assert!(matches!(
        after_bind(BindOutcome::AddressInUse, false, 7, 8, ip, 7000),
        BindDecision::Retry { attempt: 8 }
    ));
    assert!(matches!(
        after_bind(BindOutcome::AddressInUse, false, 8, 8, ip, 7000),
        BindDecision::GiveUp(ListenerError::AddressInUse([127, 0, 0, 1], 7000))
    ));
    assert!(matches!(
        after_bind(BindOutcome::AddressInUse, false, 255, 255, ip, 7000),
        BindDecision::GiveUp(ListenerError::AddressInUse(_, _))
    ));
    assert!(matches!(
        after_bind(BindOutcome::AddressInUse, false, 1, 0, ip, 7000),
        BindDecision::GiveUp(ListenerError::AddressInUse(_, _))
    ));
}

#[test]
fn a_fixed_port_is_not_tried_again() {
    assert!(matches!(
        after_bind(BindOutcome::AddressInUse, true, 1, 8, [0, 0, 0, 0], 80),
        BindDecision::GiveUp(ListenerError::AddressInUse([0, 0, 0, 0], 80))
    ));
}

#[test]
fn other_bind_failures_are_final() {
    match after_bind(BindOutcome::Failed("permission denied".to_string()), false, 1, 8, [0, 0, 0, 0], 80) {
        BindDecision::GiveUp(ListenerError::BindFailure(ip, port, kind)) => {
            assert_eq!(ip, [0, 0, 0, 0]);
            assert_eq!(port, 80);
            assert_eq!(kind, "permission denied");
        }
        _ => panic!("went on after a failure"),
    }
}

#[test]
fn idle_shutdown_must_be_enabled() {
    assert_eq!(idle_shutdown_interval(true, 60), Some(60));
    assert_eq!(idle_shutdown_interval(false, 60), None);
}

#[test]
fn listener_errors_in_words() {
    assert_eq!(
        ListenerError::AddressInUse([127, 0, 0, 1], 7000).message(),
        "address 127.0.0.1:7000 is already in use"
    );
    assert_eq!(ListenerError::AddressInUse([0, 10, 200, 255], 0).message(), "address 0.10.200.255:0 is already in use");
    assert_eq!(
        ListenerError::BindFailure([192, 168, 1, 20], 65535, "permission denied".to_string()).message(),
        "could not bind to address 192.168.1.20:65535 - error kind: permission denied"
    );
    assert_eq!(
        ListenerError::InterfaceProbeFail("EACCES: Permission denied".to_string()).message(),
        "could not probe for available interfaces - error number: EACCES: Permission denied"
    );
    assert_eq!(
        ListenerError::InterfaceAddressResolveFail("eth7".to_string()).message(),
        "could not resolve ip address for provided interface eth7"
    );
}
