//! The adapter for the extension-injected provider family.
//!
//! The provider is an object the browser extension injects into the global
//! scope; every call to it is asynchronous and host-performed. The adapter
//! holds the decisions around those calls: the availability gate before a
//! connection, the validation of the address the provider hands back, and
//! the interpretation of the permission and status responses.

use vstd::prelude::*;
use vstd::string::*;
use crate::errors::WalletError;
use crate::strategy::{spec_capabilities_of, WalletCapabilities, WalletStrategyType};

verus! {

/// The extension-injected provider family. The provider object itself is
/// owned by the host environment; this adapter is stateless.
pub struct WanderStrategy;

impl WanderStrategy {
    /// A fresh adapter.
    pub fn new() -> (r: Self)
        ensures
            true,
    {
        WanderStrategy
    }

    /// The kind this adapter serves.
    pub fn strategy_type(&self) -> (r: WalletStrategyType)
        ensures
            r == WalletStrategyType::Wander,
    {
        WalletStrategyType::Wander
    }

    /// The capabilities this provider family declares.
    pub fn get_capabilities(&self) -> (r: WalletCapabilities)
        ensures
            r == spec_capabilities_of(WalletStrategyType::Wander),
    {
        WalletCapabilities {
            can_sign_transactions: true,
            can_encrypt_data: true,
            can_decrypt_data: true,
            supports_batch_signing: false,
            supports_permissions: true,
            supports_multiple_addresses: true,
        }
    }

    /// The guard before a connection attempt: connecting is refused with
    /// `NotInstalled` while the provider object is absent from the
    /// environment.
    pub fn connect_gate(&self, available: bool) -> (r: Result<(), WalletError>)
        ensures
            available ==> r is Ok,
            !available ==> r == Err::<(), WalletError>(WalletError::NotInstalled),
    {
        if available {
            Ok(())
        } else {
            Err(WalletError::NotInstalled)
        }
    }

    /// Validates the active-address response: an absent or empty address is
    /// a `ConnectionFailed` failure, anything else is the address.
    pub fn interpret_active_address(&self, addr: Option<String>) -> (r: Result<
        String,
        WalletError,
    >)
        ensures
            (addr matches Some(a) && a@.len() > 0) ==> r == Ok::<String, WalletError>(
                addr->Some_0,
            ),
            (addr is None || addr->Some_0@.len() == 0) ==> (r matches Err(e) && e
                matches WalletError::ConnectionFailed(d) && d@ == "No active address found"@),
    {
        match addr {
            Some(a) => {
                if a.as_str().is_empty() {
                    Err(
                        WalletError::ConnectionFailed(
                            String::from_str("No active address found"),
                        ),
                    )
                } else {
                    Ok(a)
                }
            },
            None => Err(
                WalletError::ConnectionFailed(String::from_str("No active address found")),
            ),
        }
    }

    /// Interprets the permissions response: a response that did not parse as
    /// a list of permission names counts as no permissions granted.
    pub fn interpret_permissions(&self, parsed: Option<Vec<String>>) -> (r: Vec<String>)
        ensures
            parsed matches Some(p) ==> r == p,
            parsed is None ==> r@.len() == 0,
    {
        match parsed {
            Some(p) => p,
            None => Vec::new(),
        }
    }

    /// The connection status: connected exactly when the provider object is
    /// present and the address query succeeded. Never fails: an unreachable
    /// provider reads as "not connected".
    pub fn interpret_check_connection(&self, available: bool, address_ok: bool) -> (r: bool)
        ensures
            r == (available && address_ok),
    {
        available && address_ok
    }
}

} // verus!
