use wallet_strategy::errors::{ErrorKind, WalletError};
use wallet_strategy::manager::{filter_available, WalletStrategyManager};
use wallet_strategy::strategy::WalletStrategyType;

#[test]
fn registering_counts_each_kind_once() {
    let mut m = WalletStrategyManager::new();
    assert_eq!(m.strategy_count(), 0);
    m.register_strategy(WalletStrategyType::Wander);
    m.register_strategy(WalletStrategyType::Beacon);
    assert_eq!(m.strategy_count(), 2);
    m.register_strategy(WalletStrategyType::Wander);
    assert_eq!(m.strategy_count(), 2);
    assert!(m.is_registered(WalletStrategyType::Wander));
    assert!(m.is_registered(WalletStrategyType::Beacon));
    assert!(!m.is_registered(WalletStrategyType::WebWallet));
}

#[test]
fn set_strategy_requires_registration() {
    let mut m = WalletStrategyManager::new();
    m.register_strategy(WalletStrategyType::Wander);
    assert!(m.set_strategy(WalletStrategyType::Wander).is_ok());
    assert_eq!(m.get_current_strategy(), Some(WalletStrategyType::Wander));

    let e = m.set_strategy(WalletStrategyType::Beacon).unwrap_err();
    assert_eq!(e.kind(), ErrorKind::ConnectionFailed);
    match e {
        WalletError::ConnectionFailed(d) => assert_eq!(d, "Strategy Beacon not registered"),
        _ => panic!("expected a connection failure"),
    }
    // A failed selection leaves the previous selection in place.
    assert_eq!(m.get_current_strategy(), Some(WalletStrategyType::Wander));
}

#[test]
fn require_current_strategy_fails_without_selection() {
    let m = WalletStrategyManager::new();
    let e = m.require_current_strategy().unwrap_err();
    assert_eq!(e.kind(), ErrorKind::NotInstalled);
}

#[test]
fn require_strategy_names_the_missing_kind() {
    let m = WalletStrategyManager::new();
    let e = m.require_strategy(WalletStrategyType::WebWallet).unwrap_err();
    match e {
        WalletError::ConnectionFailed(d) => assert_eq!(d, "Strategy WebWallet not found"),
        _ => panic!("expected a connection failure"),
    }
}

#[test]
fn discovery_keeps_only_positive_probes() {
    let probes = vec![
        (WalletStrategyType::Wander, Ok(true)),
        (WalletStrategyType::Beacon, Ok(false)),
        (
            WalletStrategyType::WalletKit,
            Err(WalletError::ConnectionFailed(String::from("probe exploded"))),
        ),
        (WalletStrategyType::WebWallet, Ok(true)),
    ];
    let available = filter_available(&probes);
    assert_eq!(available, vec![WalletStrategyType::Wander, WalletStrategyType::WebWallet]);
}

#[test]
fn discovery_survives_every_probe_failing() {
    let probes = vec![
        (
            WalletStrategyType::Wander,
            Err(WalletError::NetworkError(String::from("down"))),
        ),
        (
            WalletStrategyType::Beacon,
            Err(WalletError::ConnectionFailed(String::from("broken"))),
        ),
    ];
    let available = filter_available(&probes);
    assert!(available.is_empty());
}

#[test]
fn auto_select_picks_the_highest_priority_kind() {
    let mut m = WalletStrategyManager::new();
    m.register_strategy(WalletStrategyType::Wander);
    m.register_strategy(WalletStrategyType::Beacon);
    m.register_strategy(WalletStrategyType::WebWallet);

    // Wander outranks Beacon and WebWallet, whatever the list order.
    let available = vec![
        WalletStrategyType::WebWallet,
        WalletStrategyType::Beacon,
        WalletStrategyType::Wander,
    ];
    assert_eq!(m.auto_select_strategy(&available).unwrap(), WalletStrategyType::Wander);
    assert_eq!(m.get_current_strategy(), Some(WalletStrategyType::Wander));

    // Without Wander, Beacon wins.
    let available = vec![WalletStrategyType::WebWallet, WalletStrategyType::Beacon];
    assert_eq!(m.auto_select_strategy(&available).unwrap(), WalletStrategyType::Beacon);
}

#[test]
fn auto_select_falls_back_to_any_available_kind() {
    let mut m = WalletStrategyManager::new();
    m.register_strategy(WalletStrategyType::WebWallet);
    let available = vec![WalletStrategyType::WebWallet];
    assert_eq!(m.auto_select_strategy(&available).unwrap(), WalletStrategyType::WebWallet);
}

#[test]
fn auto_select_fails_on_an_empty_available_set() {
    let mut m = WalletStrategyManager::new();
    m.register_strategy(WalletStrategyType::Wander);
    let e = m.auto_select_strategy(&vec![]).unwrap_err();
    assert_eq!(e.kind(), ErrorKind::NotInstalled);
    assert_eq!(m.get_current_strategy(), None);
}
