use wallet_strategy::strategy::{
    capabilities_of, default_all_addresses, default_decrypt, default_encrypt, WalletCapabilities,
    WalletStrategyType,
};
use wallet_strategy::errors::{ErrorKind, WalletError};

#[test]
fn display_names_are_exact() {
    assert_eq!(WalletStrategyType::Wander.display_name(), "Wander");
    assert_eq!(WalletStrategyType::Beacon.display_name(), "Beacon");
    assert_eq!(WalletStrategyType::WalletKit.display_name(), "Arweave Wallet Kit");
    assert_eq!(WalletStrategyType::WebWallet.display_name(), "Web Wallet");
}

#[test]
fn descriptions_are_exact() {
    assert_eq!(
        WalletStrategyType::Wander.description(),
        "Non-custodial Arweave & AO wallet for your favorite browser"
    );
    assert_eq!(WalletStrategyType::Beacon.description(), "iOS based agent first wallet for AO");
    assert_eq!(
        WalletStrategyType::WalletKit.description(),
        "Universal wallet connection library"
    );
    assert_eq!(WalletStrategyType::WebWallet.description(), "Web-based wallet connection");
}

#[test]
fn only_the_extension_family_requires_an_extension() {
    assert!(WalletStrategyType::Wander.requires_extension());
    assert!(!WalletStrategyType::Beacon.requires_extension());
    assert!(!WalletStrategyType::WalletKit.requires_extension());
    assert!(!WalletStrategyType::WebWallet.requires_extension());
}

#[test]
fn names_round_trip_through_parsing() {
    for kind in [
        WalletStrategyType::Wander,
        WalletStrategyType::Beacon,
        WalletStrategyType::WalletKit,
        WalletStrategyType::WebWallet,
    ] {
        assert_eq!(WalletStrategyType::from_name(kind.name()), Some(kind));
    }
    assert_eq!(WalletStrategyType::from_name("NoSuchWallet"), None);
    assert_eq!(WalletStrategyType::from_name(""), None);
    // Parsing is exact, not case-insensitive.
    assert_eq!(WalletStrategyType::from_name("wander"), None);
}

#[test]
fn declared_capabilities_are_exact() {
    let wander = capabilities_of(WalletStrategyType::Wander);
    assert!(wander.can_sign_transactions);
    assert!(wander.can_encrypt_data);
    assert!(wander.can_decrypt_data);
    assert!(!wander.supports_batch_signing);
    assert!(wander.supports_permissions);
    assert!(wander.supports_multiple_addresses);

    let beacon = capabilities_of(WalletStrategyType::Beacon);
    assert!(beacon.can_sign_transactions);
    assert!(!beacon.can_encrypt_data);
    assert!(!beacon.can_decrypt_data);
    assert!(beacon.supports_batch_signing);
    assert!(beacon.supports_permissions);
    assert!(!beacon.supports_multiple_addresses);

    let kit = capabilities_of(WalletStrategyType::WalletKit);
    assert!(kit.can_sign_transactions);
    assert!(kit.supports_batch_signing);
    assert!(kit.supports_permissions);
    assert!(!kit.can_encrypt_data);

    let web = capabilities_of(WalletStrategyType::WebWallet);
    assert!(web.can_sign_transactions);
    assert!(!web.supports_permissions);
    assert!(!web.supports_batch_signing);
}

#[test]
fn default_capabilities_are_the_baseline() {
    let caps = WalletCapabilities::default();
    assert!(caps.can_sign_transactions);
    assert!(!caps.can_encrypt_data);
    assert!(!caps.can_decrypt_data);
    assert!(!caps.supports_batch_signing);
    assert!(caps.supports_permissions);
    assert!(!caps.supports_multiple_addresses);
}

#[test]
fn none_capabilities_are_all_off() {
    let caps = WalletCapabilities::none();
    assert!(!caps.can_sign_transactions);
    assert!(!caps.can_encrypt_data);
    assert!(!caps.can_decrypt_data);
    assert!(!caps.supports_batch_signing);
    assert!(!caps.supports_permissions);
    assert!(!caps.supports_multiple_addresses);
}

#[test]
fn default_all_addresses_wraps_the_single_address() {
    let r = default_all_addresses(Ok(String::from("addr-1"))).unwrap();
    assert_eq!(r, vec![String::from("addr-1")]);
    let e = default_all_addresses(Err(WalletError::NotInstalled)).unwrap_err();
    assert_eq!(e.kind(), ErrorKind::NotInstalled);
}

#[test]
fn default_encrypt_and_decrypt_are_unsupported() {
    assert_eq!(default_encrypt().unwrap_err().kind(), ErrorKind::InvalidPermissions);
    assert_eq!(default_decrypt().unwrap_err().kind(), ErrorKind::InvalidPermissions);
}
