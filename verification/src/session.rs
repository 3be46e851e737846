//! The shared session state: the single record of connection status, active
//! strategy, capabilities and discovered strategies that the rest of an
//! application observes.
//!
//! State changes are described by transition predicates relating the state
//! before an operation settles to the state after it; the service's
//! operations ensure them, and the session laws are proved over them.

use vstd::prelude::*;
use crate::errors::WalletError;
use crate::strategy::{WalletCapabilities, WalletStrategyType};

verus! {

/// The base connection state.
#[derive(Debug, Clone)]
pub struct WalletState {
    pub connected: bool,
    pub address: Option<String>,
    pub permissions: Vec<String>,
    pub error: Option<WalletError>,
    pub connecting: bool,
    pub available: bool,
}

/// A freshly created connection state: disconnected, idle and empty.
pub open spec fn is_default_state(s: WalletState) -> bool {
    &&& s.connected == false
    &&& s.address is None
    &&& s.permissions@.len() == 0
    &&& s.error is None
    &&& s.connecting == false
    &&& s.available == false
}

impl Default for WalletState {
    /// The initial connection state.
    fn default() -> (r: Self)
        ensures
            is_default_state(r),
    {
        WalletState {
            connected: false,
            address: None,
            permissions: Vec::new(),
            error: None,
            connecting: false,
            available: false,
        }
    }
}

/// A settled connection state: no operation is in flight, and the address is
/// present exactly while connected.
pub open spec fn settled(s: WalletState) -> bool {
    &&& !(s.connected && s.connecting)
    &&& (s.connected <==> s.address is Some)
}

/// The process-wide session aggregate: base connection state, the active
/// strategy with its capabilities, and the discovered strategies.
#[derive(Debug, Clone)]
pub struct ExtendedWalletState {
    pub base_state: WalletState,
    /// The active strategy, if one has been selected.
    pub strategy: Option<WalletStrategyType>,
    /// The capabilities of the active strategy; every flag is off while no
    /// strategy is active.
    pub capabilities: WalletCapabilities,
    /// The strategies discovery found available; discovered, not necessarily
    /// selected.
    pub available_strategies: Vec<WalletStrategyType>,
}

/// A freshly created session: default base state, nothing selected, no
/// capability, nothing discovered.
pub open spec fn is_default_session(s: ExtendedWalletState) -> bool {
    &&& is_default_state(s.base_state)
    &&& s.strategy is None
    &&& s.capabilities == WalletCapabilities::spec_none()
    &&& s.available_strategies@.len() == 0
}

impl Default for ExtendedWalletState {
    /// The initial session state.
    fn default() -> (r: Self)
        ensures
            is_default_session(r),
    {
        ExtendedWalletState {
            base_state: WalletState::default(),
            strategy: None,
            capabilities: WalletCapabilities::none(),
            available_strategies: Vec::new(),
        }
    }
}

/// The permissions every connection requests from the provider.
pub open spec fn spec_requested_permissions() -> Seq<Seq<char>> {
    seq!["ACCESS_ADDRESS"@, "SIGN_TRANSACTION"@, "ACCESS_PUBLIC_KEY"@]
}

/// The permissions every connection requests from the provider.
pub fn requested_permissions() -> (r: Vec<String>)
    ensures
        r@.map_values(|s: String| s@) =~= spec_requested_permissions(),
{
    let mut v: Vec<String> = Vec::new();
    v.push("ACCESS_ADDRESS".to_owned());
    v.push("SIGN_TRANSACTION".to_owned());
    v.push("ACCESS_PUBLIC_KEY".to_owned());
    v
}

/// How starting a connection attempt changes the base state: the attempt is
/// marked in flight and any prior error is cleared; nothing else changes.
pub open spec fn begin_connect_post(pre: WalletState, post: WalletState) -> bool {
    &&& post.connecting == true
    &&& post.error is None
    &&& post.connected == pre.connected
    &&& post.address == pre.address
    &&& post.permissions == pre.permissions
    &&& post.available == pre.available
}

/// How a successfully settled connection changes the base state: connected
/// at the returned address, holding the requested permissions, with the
/// attempt no longer in flight and no error.
pub open spec fn connect_success_post(pre: WalletState, post: WalletState, addr: String) -> bool {
    &&& post.connected == true
    &&& post.address == Some(addr)
    &&& post.permissions@.map_values(|s: String| s@) == spec_requested_permissions()
    &&& post.error is None
    &&& post.connecting == false
    &&& post.available == pre.available
}

/// How a failed connection attempt settles the base state: disconnected,
/// no address, the attempt no longer in flight, and the failure recorded.
/// Previously granted permissions are left in place.
pub open spec fn connect_failure_post(pre: WalletState, post: WalletState, e: WalletError) -> bool {
    &&& post.connected == false
    &&& post.address is None
    &&& post.permissions == pre.permissions
    &&& post.error == Some(e)
    &&& post.connecting == false
    &&& post.available == pre.available
}

/// How a successful disconnect settles the base state: everything the
/// connection established is reset and any stale error is cleared.
pub open spec fn disconnect_ok_post(pre: WalletState, post: WalletState) -> bool {
    &&& post.connected == false
    &&& post.address is None
    &&& post.permissions@.len() == 0
    &&& post.error is None
    &&& post.connecting == pre.connecting
    &&& post.available == pre.available
}

/// How a failed disconnect settles the base state: the failure is recorded
/// and the state is otherwise unchanged.
pub open spec fn disconnect_failure_post(
    pre: WalletState,
    post: WalletState,
    e: WalletError,
) -> bool {
    &&& post.error == Some(e)
    &&& post.connected == pre.connected
    &&& post.address == pre.address
    &&& post.permissions == pre.permissions
    &&& post.connecting == pre.connecting
    &&& post.available == pre.available
}

/// How an externally applied connect timeout settles the base state: the
/// attempt is forcibly taken out of flight and a timeout failure recorded;
/// nothing else changes.
pub open spec fn connect_timeout_post(pre: WalletState, post: WalletState) -> bool {
    &&& post.connecting == false
    &&& (post.error matches Some(e) && e matches WalletError::ConnectionFailed(d) && d@
        == "timeout"@)
    &&& post.connected == pre.connected
    &&& post.address == pre.address
    &&& post.permissions == pre.permissions
    &&& post.available == pre.available
}

/// After a successful connect the session is connected, the address is
/// non-empty, and no error is recorded.
pub proof fn lemma_connect_success_state(pre: WalletState, post: WalletState, addr: String)
    requires
        addr@.len() > 0,
        connect_success_post(pre, post, addr),
    ensures
        post.connected,
        post.address matches Some(a) && a@.len() > 0,
        post.error is None,
        settled(post),
{
}

/// After a failed connect the session is disconnected, no attempt is in
/// flight, and the failure is recorded.
pub proof fn lemma_connect_failure_state(pre: WalletState, post: WalletState, e: WalletError)
    requires
        connect_failure_post(pre, post, e),
    ensures
        !post.connected,
        !post.connecting,
        post.error is Some,
        settled(post),
{
}

/// Disconnecting an already-disconnected session succeeds and leaves the
/// state unchanged except that any stale error is cleared.
pub proof fn lemma_disconnect_idempotent(pre: WalletState, post: WalletState)
    requires
        pre.connected == false,
        pre.address is None,
        pre.permissions@.len() == 0,
        disconnect_ok_post(pre, post),
    ensures
        post.connected == pre.connected,
        post.address == pre.address,
        post.permissions@ =~= pre.permissions@,
        post.connecting == pre.connecting,
        post.available == pre.available,
        post.error is None,
{
}

/// When two connection attempts overlap, the state reflects whichever
/// settled last, and no attempt is left marked in flight: here the first
/// attempt resolves with one address after the second already resolved with
/// another, and the first's address wins.
pub proof fn lemma_connect_last_write_wins(
    s0: WalletState,
    s1: WalletState,
    s2: WalletState,
    first: String,
    second: String,
)
    requires
        connect_success_post(s0, s1, second),
        connect_success_post(s1, s2, first),
    ensures
        s2.address == Some(first),
        !s2.connecting,
        settled(s2),
{
}

} // verus!
