//! Session observers and the session lifecycle flows: capability-derived
//! feature flags, a composite status record, the persist-on-change and
//! reconnect-on-start decisions, preference-based selection, and small
//! display utilities.
//!
//! The preference store itself is a host-owned key-value boundary; the
//! decisions about what to read, write and delete there are made here.

use vstd::prelude::*;
use vstd::string::*;
use crate::errors::{detail_of, kind_of, WalletError};
use crate::service::{spec_format_address, WalletService};
use crate::session::ExtendedWalletState;
use crate::strategy::{spec_from_name, WalletCapabilities, WalletStrategyType};

verus! {

/// Feature flags for conditional behavior, derived from the session: each
/// capability counts only while connected.
#[derive(Debug, Clone, PartialEq)]
pub struct WalletFeatures {
    pub can_sign: bool,
    pub can_encrypt: bool,
    pub can_decrypt: bool,
    pub supports_batch: bool,
    pub supports_permissions: bool,
    pub supports_multiple_addresses: bool,
    pub is_connected: bool,
    pub has_multiple_strategies: bool,
}

/// Derives the feature flags from the session state.
pub fn wallet_features(state: &ExtendedWalletState) -> (r: WalletFeatures)
    ensures
        r.is_connected == state.base_state.connected,
        r.can_sign == (state.base_state.connected && state.capabilities.can_sign_transactions),
        r.can_encrypt == (state.base_state.connected && state.capabilities.can_encrypt_data),
        r.can_decrypt == (state.base_state.connected && state.capabilities.can_decrypt_data),
        r.supports_batch == (state.base_state.connected
            && state.capabilities.supports_batch_signing),
        r.supports_permissions == (state.base_state.connected
            && state.capabilities.supports_permissions),
        r.supports_multiple_addresses == (state.base_state.connected
            && state.capabilities.supports_multiple_addresses),
        r.has_multiple_strategies == (state.available_strategies@.len() > 1),
{
    let connected = state.base_state.connected;
    WalletFeatures {
        can_sign: connected && state.capabilities.can_sign_transactions,
        can_encrypt: connected && state.capabilities.can_encrypt_data,
        can_decrypt: connected && state.capabilities.can_decrypt_data,
        supports_batch: connected && state.capabilities.supports_batch_signing,
        supports_permissions: connected && state.capabilities.supports_permissions,
        supports_multiple_addresses: connected
            && state.capabilities.supports_multiple_addresses,
        is_connected: connected,
        has_multiple_strategies: state.available_strategies.len() > 1,
    }
}

/// A composite snapshot of the connection for status displays.
#[derive(Debug, Clone)]
pub struct WalletStatus {
    pub connected: bool,
    pub connecting: bool,
    pub available: bool,
    pub address: Option<String>,
    pub formatted_address: Option<String>,
    pub strategy: Option<WalletStrategyType>,
    pub strategy_name: Option<&'static str>,
    pub capabilities: WalletCapabilities,
    pub available_strategies: Vec<WalletStrategyType>,
    pub error: Option<WalletError>,
    pub has_error: bool,
    pub permissions: Vec<String>,
}

/// Takes a composite status snapshot of the session state.
pub fn wallet_status(state: &ExtendedWalletState) -> (r: WalletStatus)
    ensures
        r.connected == state.base_state.connected,
        r.connecting == state.base_state.connecting,
        r.available == state.base_state.available,
        r.address == state.base_state.address,
        state.base_state.address matches Some(a) ==> (r.formatted_address matches Some(f) && f@
            == spec_format_address(a@)),
        state.base_state.address is None ==> r.formatted_address is None,
        r.strategy == state.strategy,
        r.strategy is Some <==> r.strategy_name is Some,
        r.capabilities == state.capabilities,
        r.available_strategies@ == state.available_strategies@,
        r.error == state.base_state.error,
        r.has_error == (state.base_state.error is Some),
        r.permissions@.map_values(|s: String| s@) =~= state.base_state.permissions@.map_values(
            |s: String| s@,
        ),
{
    let address: Option<String> = match &state.base_state.address {
        Some(a) => Some(a.clone()),
        None => None,
    };
    let formatted_address: Option<String> = match &state.base_state.address {
        Some(a) => Some(WalletService::format_address(a.as_str())),
        None => None,
    };
    let strategy_name: Option<&'static str> = match state.strategy {
        Some(k) => Some(k.display_name()),
        None => None,
    };
    let error: Option<WalletError> = match &state.base_state.error {
        Some(e) => Some(e.clone()),
        None => None,
    };
    let has_error = state.base_state.error.is_some();
    WalletStatus {
        connected: state.base_state.connected,
        connecting: state.base_state.connecting,
        available: state.base_state.available,
        address,
        formatted_address,
        strategy: state.strategy,
        strategy_name,
        capabilities: state.capabilities,
        available_strategies: copy_kinds(&state.available_strategies),
        error,
        has_error,
        permissions: copy_strings(&state.base_state.permissions),
    }
}

/// Copies a list of strategy kinds.
fn copy_kinds(v: &Vec<WalletStrategyType>) -> (r: Vec<WalletStrategyType>)
    ensures
        r@ == v@,
{
    let mut out: Vec<WalletStrategyType> = Vec::new();
    let mut i: usize = 0;
    while i < v.len()
        invariant
            i <= v@.len(),
            out@ == v@.take(i as int),
        decreases v@.len() - i,
    {
        out.push(v[i]);
        proof {
            assert(v@.take(i + 1) =~= v@.take(i as int).push(v@[i as int]));
        }
        i += 1;
    }
    proof {
        assert(v@.take(v@.len() as int) =~= v@);
    }
    out
}

/// Copies a list of strings.
fn copy_strings(v: &Vec<String>) -> (r: Vec<String>)
    ensures
        r@.map_values(|s: String| s@) =~= v@.map_values(|s: String| s@),
{
    let mut out: Vec<String> = Vec::new();
    let mut i: usize = 0;
    while i < v.len()
        invariant
            i <= v@.len(),
            out@.len() == i,
            forall|j: int| 0 <= j < i ==> out@[j]@ == v@[j]@,
        decreases v@.len() - i,
    {
        out.push(v[i].clone());
        i += 1;
    }
    out
}

/// The preference-store key under which the connection flag is persisted.
pub fn connected_storage_key() -> (r: &'static str)
    ensures
        r@ == "faithful_archive_wallet_connected"@,
{
    "faithful_archive_wallet_connected"
}

/// The preference-store key under which the active strategy is persisted.
pub fn strategy_storage_key() -> (r: &'static str)
    ensures
        r@ == "faithful_archive_wallet_strategy"@,
{
    "faithful_archive_wallet_strategy"
}

/// The value stored under the connection flag key while connected.
pub fn connected_storage_value() -> (r: &'static str)
    ensures
        r@ == "true"@,
{
    "true"
}

/// What the persist-on-change flow does to the preference store after a
/// session change.
#[derive(Debug, Clone, PartialEq, Eq, Structural)]
pub enum PersistAction {
    /// Store the connection flag and the named strategy.
    Store(WalletStrategyType),
    /// Delete both stored entries.
    Clear,
}

/// Decides the persist-on-change action: a connected session with an active
/// strategy is stored; anything else clears the stored pair.
pub fn plan_persistence(connected: bool, strategy: Option<WalletStrategyType>) -> (r:
    PersistAction)
    ensures
        (connected && strategy matches Some(k)) ==> r == PersistAction::Store(strategy->Some_0),
        (!connected || strategy is None) ==> r == PersistAction::Clear,
{
    match strategy {
        Some(k) => {
            if connected {
                PersistAction::Store(k)
            } else {
                PersistAction::Clear
            }
        },
        None => PersistAction::Clear,
    }
}

/// What the reconnect-on-start flow does with the persisted preference.
#[derive(Debug, Clone, PartialEq, Eq, Structural)]
pub struct ReconnectPlan {
    /// The strategy to select before reconnecting, when the stored name
    /// denotes one.
    pub strategy: Option<WalletStrategyType>,
    /// Whether to attempt a reconnect; on a failed attempt the host deletes
    /// the stored pair rather than retrying.
    pub attempt_connect: bool,
}

/// Decides the reconnect-on-start plan from the two stored entries: the
/// stored strategy name, if it parses, is selected, and a reconnect is
/// attempted exactly when the connection flag was stored.
pub fn plan_reconnect(stored_strategy: Option<&str>, stored_connected: bool) -> (r: ReconnectPlan)
    ensures
        stored_strategy matches Some(s) ==> r.strategy == spec_from_name(s@),
        stored_strategy is None ==> r.strategy is None,
        r.attempt_connect == stored_connected,
{
    let strategy = match stored_strategy {
        Some(s) => WalletStrategyType::from_name(s),
        None => None,
    };
    ReconnectPlan { strategy, attempt_connect: stored_connected }
}

/// Which kind preference-based selection picks: the first preference that is
/// available, else the first available kind, else none.
pub open spec fn spec_select_preferred(
    prefs: Seq<WalletStrategyType>,
    avail: Seq<WalletStrategyType>,
) -> Option<WalletStrategyType>
    decreases prefs.len(),
{
    if prefs.len() == 0 {
        if avail.len() == 0 {
            None
        } else {
            Some(avail[0])
        }
    } else if avail.contains(prefs[0]) {
        Some(prefs[0])
    } else {
        spec_select_preferred(prefs.skip(1), avail)
    }
}

/// Picks a strategy from the available set by a caller-supplied preference
/// order: the first preference that is available, else the first available
/// kind, else none.
pub fn select_preferred(
    preferences: &Vec<WalletStrategyType>,
    available: &Vec<WalletStrategyType>,
) -> (r: Option<WalletStrategyType>)
    ensures
        r == spec_select_preferred(preferences@, available@),
{
    let mut i: usize = 0;
    proof {
        assert(preferences@.skip(0) =~= preferences@);
    }
    loop
        invariant
            i <= preferences@.len(),
            spec_select_preferred(preferences@, available@) == spec_select_preferred(
                preferences@.skip(i as int),
                available@,
            ),
        decreases preferences@.len() - i,
    {
        if i == preferences.len() {
            proof {
                assert(preferences@.skip(i as int).len() == 0);
            }
            if available.len() == 0 {
                return None;
            } else {
                return Some(available[0]);
            }
        }
        let candidate = preferences[i];
        proof {
            assert(preferences@.skip(i as int)[0] == preferences@[i as int]);
        }
        if kinds_contain(available, candidate) {
            return Some(candidate);
        }
        proof {
            assert(preferences@.skip(i as int).skip(1) =~= preferences@.skip(i as int + 1));
        }
        i += 1;
    }
}

/// Whether a kind occurs in a list of kinds.
fn kinds_contain(v: &Vec<WalletStrategyType>, kind: WalletStrategyType) -> (r: bool)
    ensures
        r == v@.contains(kind),
{
    let mut i: usize = 0;
    while i < v.len()
        invariant
            i <= v@.len(),
            forall|j: int| 0 <= j < i ==> v@[j] != kind,
        decreases v@.len() - i,
    {
        if v[i] == kind {
            return true;
        }
        i += 1;
    }
    false
}

/// Whether two wallet errors carry the same kind and the same detail.
pub open spec fn error_equivalent(a: WalletError, b: WalletError) -> bool {
    kind_of(a) == kind_of(b) && detail_of(a) == detail_of(b)
}

/// Whether two optional wallet errors carry the same kind and detail.
pub open spec fn opt_error_equivalent(a: Option<WalletError>, b: Option<WalletError>) -> bool {
    match (a, b) {
        (None, None) => true,
        (Some(x), Some(y)) => error_equivalent(x, y),
        _ => false,
    }
}

/// Compares two optional wallet errors by kind and detail.
pub fn errors_equal(a: &Option<WalletError>, b: &Option<WalletError>) -> (r: bool)
    ensures
        r == opt_error_equivalent(*a, *b),
{
    match (a, b) {
        (None, None) => true,
        (Some(x), Some(y)) => match (x, y) {
            (WalletError::NotInstalled, WalletError::NotInstalled) => true,
            (WalletError::UserDenied, WalletError::UserDenied) => true,
            (WalletError::InvalidPermissions, WalletError::InvalidPermissions) => true,
            (WalletError::NetworkError(d1), WalletError::NetworkError(d2)) => *d1 == *d2,
            (WalletError::TransactionFailed(d1), WalletError::TransactionFailed(d2)) => *d1
                == *d2,
            (WalletError::ConnectionFailed(d1), WalletError::ConnectionFailed(d2)) => *d1 == *d2,
            (WalletError::SigningFailed(d1), WalletError::SigningFailed(d2)) => *d1 == *d2,
            _ => false,
        },
        _ => false,
    }
}

/// What an observer should be told after a session change, derived by
/// comparing the session against the observer's previous picture of it.
#[derive(Debug, Clone)]
pub struct SessionEvents {
    /// The new connection flag, when it changed.
    pub connected_event: Option<bool>,
    /// The address to report, when the session newly connected and the
    /// address is known.
    pub connect_address: Option<String>,
    /// The new active strategy, when it changed.
    pub strategy_event: Option<Option<WalletStrategyType>>,
    /// The new error, when the recorded error changed and there is one.
    pub error_event: Option<WalletError>,
}

/// Diffs the session against an observer's previous picture of it and
/// derives the events to report: a connection change (with the address on a
/// new connection), a strategy change, and a newly recorded error.
pub fn detect_events(
    prev_connected: bool,
    prev_strategy: Option<WalletStrategyType>,
    prev_error: &Option<WalletError>,
    state: &ExtendedWalletState,
) -> (r: SessionEvents)
    ensures
        state.base_state.connected != prev_connected ==> r.connected_event == Some(
            state.base_state.connected,
        ),
        state.base_state.connected == prev_connected ==> r.connected_event is None,
        (state.base_state.connected && !prev_connected) ==> r.connect_address
            == state.base_state.address,
        !(state.base_state.connected && !prev_connected) ==> r.connect_address is None,
        state.strategy != prev_strategy ==> r.strategy_event == Some(state.strategy),
        state.strategy == prev_strategy ==> r.strategy_event is None,
        (!opt_error_equivalent(*prev_error, state.base_state.error)
            && state.base_state.error is Some) ==> (r.error_event matches Some(e)
            && error_equivalent(e, state.base_state.error->Some_0)),
        (opt_error_equivalent(*prev_error, state.base_state.error)
            || state.base_state.error is None) ==> r.error_event is None,
{
    let connected_event: Option<bool> = if state.base_state.connected != prev_connected {
        Some(state.base_state.connected)
    } else {
        None
    };
    let connect_address: Option<String> = if state.base_state.connected && !prev_connected {
        match &state.base_state.address {
            Some(a) => Some(a.clone()),
            None => None,
        }
    } else {
        None
    };
    let strategy_changed = match (prev_strategy, state.strategy) {
        (None, None) => false,
        (Some(a), Some(b)) => a != b,
        _ => true,
    };
    let strategy_event: Option<Option<WalletStrategyType>> = if strategy_changed {
        Some(state.strategy)
    } else {
        None
    };
    let error_event: Option<WalletError> = if !errors_equal(prev_error, &state.base_state.error) {
        match &state.base_state.error {
            Some(e) => Some(e.clone()),
            None => None,
        }
    } else {
        None
    };
    SessionEvents { connected_event, connect_address, strategy_event, error_event }
}

/// Whether a character may occur in a wallet address: ASCII alphanumeric,
/// dash or underscore.
pub open spec fn valid_address_char(c: char) -> bool {
    ||| ('a' as u32) <= c as u32 <= ('z' as u32)
    ||| ('A' as u32) <= c as u32 <= ('Z' as u32)
    ||| ('0' as u32) <= c as u32 <= ('9' as u32)
    ||| c as u32 == ('-' as u32)
    ||| c as u32 == ('_' as u32)
}

/// Whether a string has the shape of a wallet address: exactly 43
/// characters, all of them ASCII alphanumeric, dash or underscore.
pub open spec fn spec_valid_arweave_address(s: Seq<char>) -> bool {
    s.len() == 43 && forall|i: int| 0 <= i < s.len() ==> valid_address_char(s[i])
}

/// Validates the shape of a wallet address: 43 characters, each ASCII
/// alphanumeric, dash or underscore.
pub fn is_valid_arweave_address(address: &str) -> (r: bool)
    ensures
        r == spec_valid_arweave_address(address@),
{
    let len = address.unicode_len();
    if len != 43 {
        return false;
    }
    let mut i: usize = 0;
    while i < len
        invariant
            i <= len,
            len == address@.len(),
            forall|j: int| 0 <= j < i ==> valid_address_char(address@[j]),
        decreases len - i,
    {
        let c = address.get_char(i);
        let u = c as u32;
        let ok = (97 <= u && u <= 122) || (65 <= u && u <= 90) || (48 <= u && u <= 57) || u == 45
            || u == 95;
        if !ok {
            return false;
        }
        i += 1;
    }
    true
}

/// A color theme for presenting a strategy.
#[derive(Debug, Clone, PartialEq)]
pub struct StrategyColors {
    pub primary: &'static str,
    pub background: &'static str,
    pub text: &'static str,
}

/// The icon associated with a strategy kind.
pub fn get_strategy_icon(strategy: WalletStrategyType) -> (r: &'static str)
    ensures
        strategy is Beacon ==> r@ == "\u{1F4F1}"@,
        strategy is Wander ==> r@ == "\u{1F9ED}"@,
        strategy is WalletKit ==> r@ == "\u{1F527}"@,
        strategy is WebWallet ==> r@ == "\u{1F310}"@,
{
    match strategy {
        WalletStrategyType::Beacon => "\u{1F4F1}",
        WalletStrategyType::Wander => "\u{1F9ED}",
        WalletStrategyType::WalletKit => "\u{1F527}",
        WalletStrategyType::WebWallet => "\u{1F310}",
    }
}

/// The color theme associated with a strategy kind.
pub fn get_strategy_colors(strategy: WalletStrategyType) -> (r: StrategyColors)
    ensures
        strategy is Beacon ==> r.primary@ == "#4969FF"@ && r.background@ == "#F0F4FF"@ && r.text@
            == "#1E293B"@,
        strategy is Wander ==> r.primary@ == "#059669"@ && r.background@ == "#F0FDF4"@ && r.text@
            == "#065F46"@,
        strategy is WalletKit ==> r.primary@ == "#7C3AED"@ && r.background@ == "#F5F3FF"@
            && r.text@ == "#3C1A78"@,
        strategy is WebWallet ==> r.primary@ == "#DC2626"@ && r.background@ == "#FEF2F2"@
            && r.text@ == "#7F1D1D"@,
{
    match strategy {
        WalletStrategyType::Beacon => StrategyColors {
            primary: "#4969FF",
            background: "#F0F4FF",
            text: "#1E293B",
        },
        WalletStrategyType::Wander => StrategyColors {
            primary: "#059669",
            background: "#F0FDF4",
            text: "#065F46",
        },
        WalletStrategyType::WalletKit => StrategyColors {
            primary: "#7C3AED",
            background: "#F5F3FF",
            text: "#3C1A78",
        },
        WalletStrategyType::WebWallet => StrategyColors {
            primary: "#DC2626",
            background: "#FEF2F2",
            text: "#7F1D1D",
        },
    }
}

} // verus!
