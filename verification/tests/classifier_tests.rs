use wallet_strategy::errors::{classify_message, ErrorKind, WalletError};

#[test]
fn classifies_not_installed_messages() {
    assert_eq!(classify_message("Extension not installed").kind(), ErrorKind::NotInstalled);
    assert_eq!(
        classify_message("window.arweaveWallet is undefined").kind(),
        ErrorKind::NotInstalled
    );
}

#[test]
fn classifies_user_denied_messages() {
    assert_eq!(classify_message("User denied request").kind(), ErrorKind::UserDenied);
    assert_eq!(classify_message("request was rejected").kind(), ErrorKind::UserDenied);
}

#[test]
fn classifies_network_messages_and_preserves_detail() {
    let e = classify_message("Network request failed");
    assert_eq!(e.kind(), ErrorKind::NetworkError);
    match e {
        WalletError::NetworkError(d) => assert_eq!(d, "Network request failed"),
        _ => panic!("expected a network error"),
    }
}

#[test]
fn classifies_permission_messages() {
    assert_eq!(
        classify_message("Invalid permission scope").kind(),
        ErrorKind::InvalidPermissions
    );
}

#[test]
fn classifies_signing_messages_and_preserves_detail() {
    let e = classify_message("signing error");
    assert_eq!(e.kind(), ErrorKind::SigningFailed);
    match e {
        WalletError::SigningFailed(d) => assert_eq!(d, "signing error"),
        _ => panic!("expected a signing failure"),
    }
}

#[test]
fn falls_back_to_connection_failed_and_preserves_detail() {
    let e = classify_message("something odd happened");
    assert_eq!(e.kind(), ErrorKind::ConnectionFailed);
    match e {
        WalletError::ConnectionFailed(d) => assert_eq!(d, "something odd happened"),
        _ => panic!("expected a connection failure"),
    }
}

#[test]
fn classification_is_case_insensitive() {
    assert_eq!(classify_message("USER DENIED THE REQUEST").kind(), ErrorKind::UserDenied);
    assert_eq!(classify_message("NETWORK DOWN").kind(), ErrorKind::NetworkError);
    assert_eq!(classify_message("NOT INSTALLED").kind(), ErrorKind::NotInstalled);
}

#[test]
fn priority_order_resolves_multi_pattern_messages() {
    // "denied" outranks "permission" and "sign".
    assert_eq!(classify_message("permission denied").kind(), ErrorKind::UserDenied);
    assert_eq!(classify_message("signature rejected").kind(), ErrorKind::UserDenied);
    // "not installed" outranks everything.
    assert_eq!(
        classify_message("signing failed: wallet not installed").kind(),
        ErrorKind::NotInstalled
    );
    // "network" outranks "permission".
    assert_eq!(
        classify_message("network permission missing").kind(),
        ErrorKind::NetworkError
    );
}

#[test]
fn canonical_messages_reclassify_to_the_same_kind() {
    let roundtrip = |e: WalletError| classify_message(&e.message()).kind();
    assert_eq!(roundtrip(WalletError::NotInstalled), ErrorKind::NotInstalled);
    assert_eq!(roundtrip(WalletError::UserDenied), ErrorKind::UserDenied);
    assert_eq!(roundtrip(WalletError::InvalidPermissions), ErrorKind::InvalidPermissions);
    assert_eq!(
        roundtrip(WalletError::NetworkError(String::from("host unreachable"))),
        ErrorKind::NetworkError
    );
    assert_eq!(
        roundtrip(WalletError::SigningFailed(String::from("bad payload"))),
        ErrorKind::SigningFailed
    );
    assert_eq!(
        roundtrip(WalletError::ConnectionFailed(String::from("bridge closed"))),
        ErrorKind::ConnectionFailed
    );
}

#[test]
fn transaction_failed_is_outside_the_classifier_range() {
    // The classifier never yields TransactionFailed: its canonical message
    // falls through to the ConnectionFailed fallback.
    let e = WalletError::TransactionFailed(String::from("balance too low"));
    assert_eq!(classify_message(&e.message()).kind(), ErrorKind::ConnectionFailed);
}

#[test]
fn canonical_messages_are_exact() {
    assert_eq!(WalletError::NotInstalled.message(), "Wallet not installed");
    assert_eq!(WalletError::UserDenied.message(), "User denied request");
    assert_eq!(WalletError::InvalidPermissions.message(), "Permission set invalid");
    assert_eq!(
        WalletError::NetworkError(String::from("x")).message(),
        "Network error: x"
    );
    assert_eq!(
        WalletError::TransactionFailed(String::from("x")).message(),
        "Transaction failed: x"
    );
    assert_eq!(
        WalletError::ConnectionFailed(String::from("x")).message(),
        "Connection failed: x"
    );
    assert_eq!(
        WalletError::SigningFailed(String::from("x")).message(),
        "Transaction signing failed: x"
    );
}
