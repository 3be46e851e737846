use wallet_strategy::errors::{ErrorKind, WalletError};
use wallet_strategy::service::WalletService;
use wallet_strategy::strategy::{capabilities_of, WalletStrategyType};

#[test]
fn a_fresh_service_has_a_default_session() {
    let svc = WalletService::new();
    let s = svc.get_extended_state();
    assert!(!s.base_state.connected);
    assert!(s.base_state.address.is_none());
    assert!(s.base_state.permissions.is_empty());
    assert!(s.base_state.error.is_none());
    assert!(!s.base_state.connecting);
    assert!(!s.base_state.available);
    assert_eq!(s.strategy, None);
    assert_eq!(s.capabilities.can_sign_transactions, false);
    assert!(s.available_strategies.is_empty());
    assert_eq!(
        svc.registered_kinds(),
        vec![WalletStrategyType::Wander, WalletStrategyType::Beacon]
    );
}

#[test]
fn set_strategy_round_trips_the_declared_capabilities() {
    let mut svc = WalletService::new();
    svc.set_strategy(WalletStrategyType::Beacon).unwrap();
    assert_eq!(
        svc.get_extended_state().capabilities,
        capabilities_of(WalletStrategyType::Beacon)
    );
    svc.set_strategy(WalletStrategyType::Wander).unwrap();
    assert_eq!(
        svc.get_extended_state().capabilities,
        capabilities_of(WalletStrategyType::Wander)
    );
}

#[test]
fn set_strategy_rejects_unregistered_kinds() {
    let mut svc = WalletService::new();
    let e = svc.set_strategy(WalletStrategyType::WebWallet).unwrap_err();
    assert_eq!(e.kind(), ErrorKind::ConnectionFailed);
    assert_eq!(svc.active_strategy(), None);
}

#[test]
fn successful_connect_settles_the_session() {
    let mut svc = WalletService::new();
    svc.set_strategy(WalletStrategyType::Wander).unwrap();

    let (kind, permissions) = svc.begin_connect().unwrap();
    assert_eq!(kind, WalletStrategyType::Wander);
    assert_eq!(
        permissions,
        vec![
            String::from("ACCESS_ADDRESS"),
            String::from("SIGN_TRANSACTION"),
            String::from("ACCESS_PUBLIC_KEY"),
        ]
    );
    assert!(svc.get_extended_state().base_state.connecting);
    assert!(svc.get_extended_state().base_state.error.is_none());

    let addr = svc.finish_connect(Ok(String::from("addr-xyz"))).unwrap();
    assert_eq!(addr, "addr-xyz");
    let s = svc.get_extended_state();
    assert!(s.base_state.connected);
    assert_eq!(s.base_state.address.as_deref(), Some("addr-xyz"));
    assert!(!s.base_state.address.as_deref().unwrap().is_empty());
    assert!(s.base_state.error.is_none());
    assert!(!s.base_state.connecting);
    assert_eq!(s.base_state.permissions.len(), 3);
}

#[test]
fn failed_connect_settles_disconnected_with_the_error() {
    let mut svc = WalletService::new();
    svc.set_strategy(WalletStrategyType::Wander).unwrap();
    svc.begin_connect().unwrap();

    let e = svc.finish_connect(Err(WalletError::UserDenied)).unwrap_err();
    assert_eq!(e.kind(), ErrorKind::UserDenied);
    let s = svc.get_extended_state();
    assert!(!s.base_state.connected);
    assert!(!s.base_state.connecting);
    assert!(s.base_state.address.is_none());
    assert_eq!(s.base_state.error.as_ref().unwrap().kind(), ErrorKind::UserDenied);
}

#[test]
fn an_empty_address_is_a_failed_connect() {
    let mut svc = WalletService::new();
    svc.set_strategy(WalletStrategyType::Wander).unwrap();
    svc.begin_connect().unwrap();

    let e = svc.finish_connect(Ok(String::new())).unwrap_err();
    assert_eq!(e.kind(), ErrorKind::ConnectionFailed);
    let s = svc.get_extended_state();
    assert!(!s.base_state.connected);
    assert!(!s.base_state.connecting);
}

#[test]
fn connect_without_a_strategy_fails_as_not_installed() {
    let mut svc = WalletService::new();
    let e = svc.begin_connect().unwrap_err();
    assert_eq!(e.kind(), ErrorKind::NotInstalled);
    let s = svc.get_extended_state();
    assert!(!s.base_state.connecting);
    assert_eq!(s.base_state.error.as_ref().unwrap().kind(), ErrorKind::NotInstalled);
}

#[test]
fn disconnect_resets_what_the_connection_established() {
    let mut svc = WalletService::new();
    svc.set_strategy(WalletStrategyType::Wander).unwrap();
    svc.begin_connect().unwrap();
    svc.finish_connect(Ok(String::from("addr-xyz"))).unwrap();

    let kind = svc.begin_disconnect().unwrap();
    assert_eq!(kind, WalletStrategyType::Wander);
    svc.finish_disconnect(Ok(())).unwrap();
    let s = svc.get_extended_state();
    assert!(!s.base_state.connected);
    assert!(s.base_state.address.is_none());
    assert!(s.base_state.permissions.is_empty());
    assert!(s.base_state.error.is_none());
}

#[test]
fn disconnect_on_a_disconnected_session_only_clears_stale_errors() {
    let mut svc = WalletService::new();
    svc.set_strategy(WalletStrategyType::Wander).unwrap();
    // Leave a stale error behind from a failed connect.
    svc.begin_connect().unwrap();
    let _ = svc.finish_connect(Err(WalletError::UserDenied));
    assert!(svc.get_extended_state().base_state.error.is_some());
    let connecting_before = svc.get_extended_state().base_state.connecting;
    let available_before = svc.get_extended_state().base_state.available;

    svc.begin_disconnect().unwrap();
    // The stale error is cleared at the start of the attempt.
    assert!(svc.get_extended_state().base_state.error.is_none());
    svc.finish_disconnect(Ok(())).unwrap();
    let s = svc.get_extended_state();
    assert!(!s.base_state.connected);
    assert!(s.base_state.address.is_none());
    assert!(s.base_state.permissions.is_empty());
    assert!(s.base_state.error.is_none());
    assert_eq!(s.base_state.connecting, connecting_before);
    assert_eq!(s.base_state.available, available_before);
}

#[test]
fn failed_disconnect_records_the_error_and_keeps_the_session() {
    let mut svc = WalletService::new();
    svc.set_strategy(WalletStrategyType::Wander).unwrap();
    svc.begin_connect().unwrap();
    svc.finish_connect(Ok(String::from("addr-xyz"))).unwrap();

    svc.begin_disconnect().unwrap();
    let e = svc
        .finish_disconnect(Err(WalletError::ConnectionFailed(String::from("bridge closed"))))
        .unwrap_err();
    assert_eq!(e.kind(), ErrorKind::ConnectionFailed);
    let s = svc.get_extended_state();
    assert!(s.base_state.connected);
    assert_eq!(s.base_state.address.as_deref(), Some("addr-xyz"));
    assert_eq!(s.base_state.error.as_ref().unwrap().kind(), ErrorKind::ConnectionFailed);
}

#[test]
fn overlapping_connects_settle_to_the_last_outcome() {
    let mut svc = WalletService::new();
    svc.set_strategy(WalletStrategyType::Wander).unwrap();

    // Two attempts are started before either resolves.
    svc.begin_connect().unwrap();
    svc.begin_connect().unwrap();
    // The second attempt resolves first with one address, then the first
    // attempt resolves late with another: the late one wins.
    svc.finish_connect(Ok(String::from("addr-Y"))).unwrap();
    svc.finish_connect(Ok(String::from("addr-X"))).unwrap();

    let s = svc.get_extended_state();
    assert_eq!(s.base_state.address.as_deref(), Some("addr-X"));
    assert!(!s.base_state.connecting);
    assert!(s.base_state.connected);
}

#[test]
fn a_connect_timeout_settles_the_attempt() {
    let mut svc = WalletService::new();
    svc.set_strategy(WalletStrategyType::Wander).unwrap();
    svc.begin_connect().unwrap();
    assert!(svc.get_extended_state().base_state.connecting);

    svc.apply_connect_timeout();
    let s = svc.get_extended_state();
    assert!(!s.base_state.connecting);
    match s.base_state.error.as_ref().unwrap() {
        WalletError::ConnectionFailed(d) => assert_eq!(d, "timeout"),
        _ => panic!("expected a connection failure"),
    }
}

#[test]
fn sign_dispatch_requires_an_active_strategy() {
    let mut svc = WalletService::new();
    let e = svc.begin_sign().unwrap_err();
    assert_eq!(e.kind(), ErrorKind::NotInstalled);
    svc.set_strategy(WalletStrategyType::Beacon).unwrap();
    assert_eq!(svc.begin_sign().unwrap(), WalletStrategyType::Beacon);
}

#[test]
fn discovery_selects_the_available_kind_over_the_preferred_one() {
    // Wander outranks Beacon in the fixed priority order, but only Beacon is
    // available: discovery reports exactly Beacon and auto-selection falls
    // back to it.
    let mut svc = WalletService::new();
    let probes = vec![
        (
            WalletStrategyType::Wander,
            Err(WalletError::ConnectionFailed(String::from("probe exploded"))),
        ),
        (WalletStrategyType::Beacon, Ok(true)),
    ];
    let selected = svc.apply_discovery(&probes);
    assert_eq!(selected, Some(WalletStrategyType::Beacon));
    let s = svc.get_extended_state();
    assert_eq!(s.available_strategies, vec![WalletStrategyType::Beacon]);
    assert_eq!(s.strategy, Some(WalletStrategyType::Beacon));
    assert_eq!(s.capabilities, capabilities_of(WalletStrategyType::Beacon));
    assert!(s.base_state.available);
    assert_eq!(svc.active_strategy(), Some(WalletStrategyType::Beacon));
}

#[test]
fn discovery_with_nothing_available_is_a_displayable_state() {
    let mut svc = WalletService::new();
    let probes = vec![
        (WalletStrategyType::Wander, Ok(false)),
        (
            WalletStrategyType::Beacon,
            Err(WalletError::NetworkError(String::from("bridge down"))),
        ),
    ];
    let selected = svc.apply_discovery(&probes);
    assert_eq!(selected, None);
    let s = svc.get_extended_state();
    assert!(s.available_strategies.is_empty());
    assert!(!s.base_state.available);
    assert_eq!(s.base_state.error.as_ref().unwrap().kind(), ErrorKind::NotInstalled);
    assert_eq!(s.strategy, None);
}

#[test]
fn discovery_prefers_the_highest_priority_available_kind() {
    let mut svc = WalletService::new();
    let probes = vec![
        (WalletStrategyType::Wander, Ok(true)),
        (WalletStrategyType::Beacon, Ok(true)),
    ];
    assert_eq!(svc.apply_discovery(&probes), Some(WalletStrategyType::Wander));
    assert_eq!(svc.active_strategy(), Some(WalletStrategyType::Wander));
}

#[test]
fn format_address_shortens_long_addresses() {
    assert_eq!(WalletService::format_address("abcdefghijk"), "abcdef...hijk");
    assert_eq!(
        WalletService::format_address("AKu0y8nu7qEtWb21R8fBGvbfVNG7vYLPQk7VZqVQDNdg"),
        "AKu0y8...DNdg"
    );
    assert_eq!(WalletService::format_address("short"), "short");
    assert_eq!(WalletService::format_address("exactly10!"), "exactly10!");
}
