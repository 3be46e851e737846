//! The adapter for the web-popup provider family.
//!
//! Web wallets need no browser extension, so the family always probes as
//! available, but no real integration backs it yet: every operation answers
//! a `ConnectionFailed` or `SigningFailed` failure rather than panicking.
//! The adapter carries the application identity a web wallet would display
//! in its connection popup.

use vstd::prelude::*;
use vstd::string::*;
use crate::errors::WalletError;
use crate::strategy::{spec_capabilities_of, WalletCapabilities, WalletStrategyType};

verus! {

/// The web-popup provider family, configured with the application identity
/// shown to the user during connection.
pub struct WebWalletStrategy {
    app_name: String,
    app_logo: Option<String>,
}

impl WebWalletStrategy {
    /// The application name shown during connection.
    pub closed spec fn app_name_view(&self) -> Seq<char> {
        self.app_name@
    }

    /// The application logo shown during connection, if any.
    pub closed spec fn app_logo_view(&self) -> Option<String> {
        self.app_logo
    }

    /// A fresh adapter under the default application identity.
    pub fn new() -> (r: Self)
        ensures
            r.app_name_view() == "Faithful Archive"@,
            r.app_logo_view() is None,
    {
        WebWalletStrategy { app_name: String::from_str("Faithful Archive"), app_logo: None }
    }

    /// A fresh adapter under a chosen application identity.
    pub fn with_config(app_name: String, app_logo: Option<String>) -> (r: Self)
        ensures
            r.app_name_view() == app_name@,
            r.app_logo_view() == app_logo,
    {
        WebWalletStrategy { app_name, app_logo }
    }

    /// The kind this adapter serves.
    pub fn strategy_type(&self) -> (r: WalletStrategyType)
        ensures
            r == WalletStrategyType::WebWallet,
    {
        WalletStrategyType::WebWallet
    }

    /// Whether a web wallet is reachable: always, since none of the
    /// machinery needs a browser extension.
    pub fn is_available(&self) -> (r: bool)
        ensures
            r == true,
    {
        true
    }

    /// The capabilities this provider family declares.
    pub fn get_capabilities(&self) -> (r: WalletCapabilities)
        ensures
            r == spec_capabilities_of(WalletStrategyType::WebWallet),
    {
        WalletCapabilities {
            can_sign_transactions: true,
            can_encrypt_data: false,
            can_decrypt_data: false,
            supports_batch_signing: false,
            supports_permissions: false,
            supports_multiple_addresses: false,
        }
    }

    /// Connecting always fails until an integration backs this family.
    pub fn connect(&mut self, _permissions: &Vec<String>) -> (r: Result<String, WalletError>)
        ensures
            r matches Err(e) && e matches WalletError::ConnectionFailed(d) && d@
                == "WebWallet integration not implemented"@,
            *final(self) == *old(self),
    {
        Err(
            WalletError::ConnectionFailed(
                String::from_str("WebWallet integration not implemented"),
            ),
        )
    }

    /// Disconnecting always fails until an integration backs this family.
    pub fn disconnect(&mut self) -> (r: Result<(), WalletError>)
        ensures
            r matches Err(e) && e matches WalletError::ConnectionFailed(d) && d@
                == "WebWallet integration not implemented"@,
            *final(self) == *old(self),
    {
        Err(
            WalletError::ConnectionFailed(
                String::from_str("WebWallet integration not implemented"),
            ),
        )
    }

    /// The address query always fails until an integration backs this
    /// family.
    pub fn get_active_address(&self) -> (r: Result<String, WalletError>)
        ensures
            r matches Err(e) && e matches WalletError::ConnectionFailed(d) && d@
                == "WebWallet integration not implemented"@,
    {
        Err(
            WalletError::ConnectionFailed(
                String::from_str("WebWallet integration not implemented"),
            ),
        )
    }

    /// The permissions held: web wallets have no permission system, so the
    /// list is always empty, and the query never fails.
    pub fn get_permissions(&self) -> (r: Result<Vec<String>, WalletError>)
        ensures
            r matches Ok(p) && p@.len() == 0,
    {
        Ok(Vec::new())
    }

    /// Signing always fails until an integration backs this family.
    pub fn sign_gate(&self) -> (r: Result<(), WalletError>)
        ensures
            r matches Err(e) && e matches WalletError::SigningFailed(d) && d@
                == "WebWallet integration not implemented"@,
    {
        Err(WalletError::SigningFailed(String::from_str("WebWallet integration not implemented")))
    }

    /// The connection status: never connected; never fails.
    pub fn check_connection(&self) -> (r: bool)
        ensures
            r == false,
    {
        false
    }
}

} // verus!
