//! The adapter for the remote-bridge provider family.
//!
//! This provider is reached through a bridge client object the host owns;
//! connect, disconnect and sign are asynchronous calls on it. Unlike the
//! extension-injected provider, this one needs provider-local bookkeeping:
//! the adapter remembers its own connection flag and address, and answers
//! the address, permission and status queries from that record.

use vstd::prelude::*;
use vstd::string::*;
use crate::errors::WalletError;
use crate::strategy::{spec_capabilities_of, WalletCapabilities, WalletStrategyType};

verus! {

/// The remote-bridge provider family, with its provider-local record of the
/// connection. The bridge client object itself is owned by the host.
pub struct BeaconStrategy {
    connected: bool,
    address: Option<String>,
}

impl BeaconStrategy {
    /// Whether this adapter's record says it is connected.
    pub closed spec fn connected_view(&self) -> bool {
        self.connected
    }

    /// The address this adapter's record holds, if any.
    pub closed spec fn address_view(&self) -> Option<String> {
        self.address
    }

    /// Record well-formedness: an address is held exactly while connected.
    pub open spec fn inv(&self) -> bool {
        self.connected_view() <==> self.address_view() is Some
    }

    /// A fresh, disconnected adapter.
    pub fn new() -> (r: Self)
        ensures
            r.inv(),
            !r.connected_view(),
            r.address_view() is None,
    {
        BeaconStrategy { connected: false, address: None }
    }

    /// The kind this adapter serves.
    pub fn strategy_type(&self) -> (r: WalletStrategyType)
        ensures
            r == WalletStrategyType::Beacon,
    {
        WalletStrategyType::Beacon
    }

    /// The capabilities this provider family declares.
    pub fn get_capabilities(&self) -> (r: WalletCapabilities)
        ensures
            r == spec_capabilities_of(WalletStrategyType::Beacon),
    {
        WalletCapabilities {
            can_sign_transactions: true,
            can_encrypt_data: false,
            can_decrypt_data: false,
            supports_batch_signing: true,
            supports_permissions: true,
            supports_multiple_addresses: false,
        }
    }

    /// Settles a connection attempt with the address the bridge handed
    /// back, if it handed one back: with an address the record becomes
    /// connected at it; without one the attempt fails and the record is
    /// unchanged.
    pub fn finish_connect(&mut self, addr: Option<String>) -> (r: Result<String, WalletError>)
        requires
            old(self).inv(),
        ensures
            final(self).inv(),
            addr matches Some(a) ==> {
                &&& r == Ok::<String, WalletError>(a)
                &&& final(self).connected_view()
                &&& final(self).address_view() == addr
            },
            addr is None ==> {
                &&& r matches Err(e) && e matches WalletError::ConnectionFailed(d) && d@
                    == "No address in connection response"@
                &&& *final(self) == *old(self)
            },
    {
        match addr {
            Some(a) => {
                self.connected = true;
                self.address = Some(a.clone());
                Ok(a)
            },
            None => Err(
                WalletError::ConnectionFailed(
                    String::from_str("No address in connection response"),
                ),
            ),
        }
    }

    /// Settles a disconnect with the bridge call's outcome: on success the
    /// record is reset; on failure it is unchanged and the failure surfaces
    /// as `ConnectionFailed` with the bridge's detail.
    pub fn finish_disconnect(&mut self, outcome: Result<(), String>) -> (r: Result<
        (),
        WalletError,
    >)
        requires
            old(self).inv(),
        ensures
            final(self).inv(),
            outcome is Ok ==> {
                &&& r is Ok
                &&& !final(self).connected_view()
                &&& final(self).address_view() is None
            },
            outcome matches Err(detail) ==> {
                &&& r matches Err(e) && e matches WalletError::ConnectionFailed(d) && d@
                    == "Beacon disconnect failed: "@ + detail@
                &&& *final(self) == *old(self)
            },
    {
        match outcome {
            Ok(()) => {
                self.connected = false;
                self.address = None;
                Ok(())
            },
            Err(detail) => Err(
                WalletError::ConnectionFailed(
                    String::from_str("Beacon disconnect failed: ").concat(detail.as_str()),
                ),
            ),
        }
    }

    /// The active address, answered from the adapter's own record: fails
    /// with `ConnectionFailed` while not connected.
    pub fn get_active_address(&self) -> (r: Result<String, WalletError>)
        ensures
            self.address_view() matches Some(a) ==> r == Ok::<String, WalletError>(a),
            self.address_view() is None ==> (r matches Err(e) && e
                matches WalletError::ConnectionFailed(d) && d@ == "Beacon not connected"@),
    {
        match &self.address {
            Some(a) => Ok(a.clone()),
            None => Err(WalletError::ConnectionFailed(String::from_str("Beacon not connected"))),
        }
    }

    /// The permissions held while connected: the fixed set granted at
    /// connection; fails with `ConnectionFailed` while not connected.
    pub fn get_permissions(&self) -> (r: Result<Vec<String>, WalletError>)
        ensures
            self.connected_view() ==> (r matches Ok(p) && p@.map_values(|s: String| s@)
                == seq!["ACCESS_ADDRESS"@, "ACCESS_PUBLIC_KEY"@, "SIGN_TRANSACTION"@]),
            !self.connected_view() ==> (r matches Err(e) && e
                matches WalletError::ConnectionFailed(d) && d@ == "Beacon not connected"@),
    {
        if self.connected {
            let mut v: Vec<String> = Vec::new();
            v.push("ACCESS_ADDRESS".to_owned());
            v.push("ACCESS_PUBLIC_KEY".to_owned());
            v.push("SIGN_TRANSACTION".to_owned());
            proof {
                assert(v@.map_values(|s: String| s@) =~= seq![
                    "ACCESS_ADDRESS"@,
                    "ACCESS_PUBLIC_KEY"@,
                    "SIGN_TRANSACTION"@,
                ]);
            }
            Ok(v)
        } else {
            Err(WalletError::ConnectionFailed(String::from_str("Beacon not connected")))
        }
    }

    /// The guard before a signing request: signing is refused while the
    /// bridge client is not initialized or the record is not connected.
    pub fn sign_gate(&self, initialized: bool) -> (r: Result<(), WalletError>)
        ensures
            !initialized ==> (r matches Err(e) && e matches WalletError::SigningFailed(d) && d@
                == "Beacon not initialized"@),
            initialized && !self.connected_view() ==> (r matches Err(e) && e
                matches WalletError::SigningFailed(d) && d@ == "Beacon not connected"@),
            initialized && self.connected_view() ==> r is Ok,
    {
        if !initialized {
            Err(WalletError::SigningFailed(String::from_str("Beacon not initialized")))
        } else if !self.connected {
            Err(WalletError::SigningFailed(String::from_str("Beacon not connected")))
        } else {
            Ok(())
        }
    }

    /// The connection status, answered from the adapter's own record; never
    /// fails.
    pub fn check_connection(&self) -> (r: bool)
        ensures
            r == self.connected_view(),
    {
        self.connected
    }
}

} // verus!
