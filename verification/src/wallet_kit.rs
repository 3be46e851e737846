//! The adapter for the unified-kit provider family.
//!
//! No real integration backs this family yet. The adapter still satisfies
//! the full strategy contract, answering "not available" to probes and a
//! `ConnectionFailed` or `SigningFailed` failure to every operation rather
//! than panicking, so the registry treats "registered but unimplemented"
//! uniformly with "registered but unavailable".

use vstd::prelude::*;
use vstd::string::*;
use crate::errors::WalletError;
use crate::strategy::{spec_capabilities_of, WalletCapabilities, WalletStrategyType};

verus! {

/// The unified-kit provider family, not yet backed by an integration.
pub struct WalletKitStrategy;

impl WalletKitStrategy {
    /// A fresh adapter.
    pub fn new() -> (r: Self)
        ensures
            true,
    {
        WalletKitStrategy
    }

    /// The kind this adapter serves.
    pub fn strategy_type(&self) -> (r: WalletStrategyType)
        ensures
            r == WalletStrategyType::WalletKit,
    {
        WalletStrategyType::WalletKit
    }

    /// Whether the kit is reachable: never, until an integration backs it.
    pub fn is_available(&self) -> (r: bool)
        ensures
            r == false,
    {
        false
    }

    /// The capabilities this provider family declares.
    pub fn get_capabilities(&self) -> (r: WalletCapabilities)
        ensures
            r == spec_capabilities_of(WalletStrategyType::WalletKit),
    {
        WalletCapabilities {
            can_sign_transactions: true,
            can_encrypt_data: false,
            can_decrypt_data: false,
            supports_batch_signing: true,
            supports_permissions: true,
            supports_multiple_addresses: false,
        }
    }

    /// Connecting always fails until an integration backs this family.
    pub fn connect(&mut self, _permissions: &Vec<String>) -> (r: Result<String, WalletError>)
        ensures
            r matches Err(e) && e matches WalletError::ConnectionFailed(d) && d@
                == "WalletKit integration not implemented"@,
            *final(self) == *old(self),
    {
        Err(
            WalletError::ConnectionFailed(
                String::from_str("WalletKit integration not implemented"),
            ),
        )
    }

    /// Disconnecting always fails until an integration backs this family.
    pub fn disconnect(&mut self) -> (r: Result<(), WalletError>)
        ensures
            r matches Err(e) && e matches WalletError::ConnectionFailed(d) && d@
                == "WalletKit integration not implemented"@,
            *final(self) == *old(self),
    {
        Err(
            WalletError::ConnectionFailed(
                String::from_str("WalletKit integration not implemented"),
            ),
        )
    }

    /// The address query always fails until an integration backs this
    /// family.
    pub fn get_active_address(&self) -> (r: Result<String, WalletError>)
        ensures
            r matches Err(e) && e matches WalletError::ConnectionFailed(d) && d@
                == "WalletKit integration not implemented"@,
    {
        Err(
            WalletError::ConnectionFailed(
                String::from_str("WalletKit integration not implemented"),
            ),
        )
    }

    /// The permission query always fails until an integration backs this
    /// family.
    pub fn get_permissions(&self) -> (r: Result<Vec<String>, WalletError>)
        ensures
            r matches Err(e) && e matches WalletError::ConnectionFailed(d) && d@
                == "WalletKit integration not implemented"@,
    {
        Err(
            WalletError::ConnectionFailed(
                String::from_str("WalletKit integration not implemented"),
            ),
        )
    }

    /// Signing always fails until an integration backs this family.
    pub fn sign_gate(&self) -> (r: Result<(), WalletError>)
        ensures
            r matches Err(e) && e matches WalletError::SigningFailed(d) && d@
                == "WalletKit integration not implemented"@,
    {
        Err(WalletError::SigningFailed(String::from_str("WalletKit integration not implemented")))
    }

    /// The connection status: never connected; never fails.
    pub fn check_connection(&self) -> (r: bool)
        ensures
            r == false,
    {
        false
    }
}

} // verus!
