//! Strategy kinds, the capability record each provider family declares, and
//! the contract's default behavior for its optional extension points.

use vstd::prelude::*;
use crate::errors::WalletError;

verus! {

/// The closed set of supported wallet provider families.
#[derive(Debug, Clone, Copy, PartialEq, Eq, Hash, Structural)]
pub enum WalletStrategyType {
    /// Wander wallet - a browser extension.
    Wander,
    /// Beacon wallet - an iOS-based, agent-first wallet.
    Beacon,
    /// A unified wallet connection kit.
    WalletKit,
    /// A web-based wallet connection.
    WebWallet,
}

impl WalletStrategyType {
    /// The human-readable name of the provider family.
    pub fn display_name(&self) -> (r: &'static str)
        ensures
            self is Wander ==> r@ == "Wander"@,
            self is Beacon ==> r@ == "Beacon"@,
            self is WalletKit ==> r@ == "Arweave Wallet Kit"@,
            self is WebWallet ==> r@ == "Web Wallet"@,
    {
        match self {
            WalletStrategyType::Wander => "Wander",
            WalletStrategyType::Beacon => "Beacon",
            WalletStrategyType::WalletKit => "Arweave Wallet Kit",
            WalletStrategyType::WebWallet => "Web Wallet",
        }
    }

    /// A one-line description of the provider family.
    pub fn description(&self) -> (r: &'static str)
        ensures
            self is Wander ==> r@ == "Non-custodial Arweave & AO wallet for your favorite browser"@,
            self is Beacon ==> r@ == "iOS based agent first wallet for AO"@,
            self is WalletKit ==> r@ == "Universal wallet connection library"@,
            self is WebWallet ==> r@ == "Web-based wallet connection"@,
    {
        match self {
            WalletStrategyType::Wander => "Non-custodial Arweave & AO wallet for your favorite browser",
            WalletStrategyType::Beacon => "iOS based agent first wallet for AO",
            WalletStrategyType::WalletKit => "Universal wallet connection library",
            WalletStrategyType::WebWallet => "Web-based wallet connection",
        }
    }

    /// Whether connecting through this family requires a browser extension.
    pub fn requires_extension(&self) -> (r: bool)
        ensures
            r == (self is Wander),
    {
        match self {
            WalletStrategyType::Wander => true,
            WalletStrategyType::Beacon => false,
            WalletStrategyType::WalletKit => false,
            WalletStrategyType::WebWallet => false,
        }
    }

    /// The stable identifier used when the preference store persists a kind.
    pub fn name(&self) -> (r: &'static str)
        ensures
            r@ == spec_name(*self),
    {
        match self {
            WalletStrategyType::Wander => "Wander",
            WalletStrategyType::Beacon => "Beacon",
            WalletStrategyType::WalletKit => "WalletKit",
            WalletStrategyType::WebWallet => "WebWallet",
        }
    }

    /// Parses a stable identifier back into a kind; `None` for anything else.
    pub fn from_name(s: &str) -> (r: Option<WalletStrategyType>)
        ensures
            r == spec_from_name(s@),
    {
        proof {
            reveal_strlit("Wander");
            reveal_strlit("Beacon");
            reveal_strlit("WalletKit");
            reveal_strlit("WebWallet");
        }
        if str_eq(s, "Wander") {
            Some(WalletStrategyType::Wander)
        } else if str_eq(s, "Beacon") {
            Some(WalletStrategyType::Beacon)
        } else if str_eq(s, "WalletKit") {
            Some(WalletStrategyType::WalletKit)
        } else if str_eq(s, "WebWallet") {
            Some(WalletStrategyType::WebWallet)
        } else {
            None
        }
    }
}

/// The persisted identifier of each kind.
pub open spec fn spec_name(k: WalletStrategyType) -> Seq<char> {
    match k {
        WalletStrategyType::Wander => "Wander"@,
        WalletStrategyType::Beacon => "Beacon"@,
        WalletStrategyType::WalletKit => "WalletKit"@,
        WalletStrategyType::WebWallet => "WebWallet"@,
    }
}

/// The kind a persisted identifier denotes, if any.
pub open spec fn spec_from_name(s: Seq<char>) -> Option<WalletStrategyType> {
    if s == spec_name(WalletStrategyType::Wander) {
        Some(WalletStrategyType::Wander)
    } else if s == spec_name(WalletStrategyType::Beacon) {
        Some(WalletStrategyType::Beacon)
    } else if s == spec_name(WalletStrategyType::WalletKit) {
        Some(WalletStrategyType::WalletKit)
    } else if s == spec_name(WalletStrategyType::WebWallet) {
        Some(WalletStrategyType::WebWallet)
    } else {
        None
    }
}

/// Compares two string slices character by character.
fn str_eq(a: &str, b: &str) -> (r: bool)
    ensures
        r == (a@ == b@),
{
    let a_len = a.unicode_len();
    let b_len = b.unicode_len();
    if a_len != b_len {
        assert(a@ != b@) by {
            assert(a@.len() != b@.len());
        }
        return false;
    }
    let mut i: usize = 0;
    while i < a_len
        invariant
            i <= a_len,
            a_len == a@.len(),
            b_len == b@.len(),
            a_len == b_len,
            forall|j: int| 0 <= j < i ==> a@[j] == b@[j],
        decreases a_len - i,
    {
        if a.get_char(i) != b.get_char(i) {
            return false;
        }
        i += 1;
    }
    proof {
        assert(a@ =~= b@);
    }
    true
}

/// What a provider family can do; fixed per strategy, not queried live.
#[derive(Debug, Clone, Copy, PartialEq, Eq, Structural)]
pub struct WalletCapabilities {
    pub can_sign_transactions: bool,
    pub can_encrypt_data: bool,
    pub can_decrypt_data: bool,
    pub supports_batch_signing: bool,
    pub supports_permissions: bool,
    pub supports_multiple_addresses: bool,
}

impl Default for WalletCapabilities {
    /// The baseline capability set: signing and permissions only.
    fn default() -> (r: Self)
        ensures
            r == WalletCapabilities::spec_default(),
    {
        WalletCapabilities {
            can_sign_transactions: true,
            can_encrypt_data: false,
            can_decrypt_data: false,
            supports_batch_signing: false,
            supports_permissions: true,
            supports_multiple_addresses: false,
        }
    }
}

impl WalletCapabilities {
    /// The baseline capability set.
    pub open spec fn spec_default() -> WalletCapabilities {
        WalletCapabilities {
            can_sign_transactions: true,
            can_encrypt_data: false,
            can_decrypt_data: false,
            supports_batch_signing: false,
            supports_permissions: true,
            supports_multiple_addresses: false,
        }
    }

    /// The capability record with every flag off; what a session reports
    /// while no strategy is active.
    pub fn none() -> (r: Self)
        ensures
            r == WalletCapabilities::spec_none(),
    {
        WalletCapabilities {
            can_sign_transactions: false,
            can_encrypt_data: false,
            can_decrypt_data: false,
            supports_batch_signing: false,
            supports_permissions: false,
            supports_multiple_addresses: false,
        }
    }

    /// The all-off capability record.
    pub open spec fn spec_none() -> WalletCapabilities {
        WalletCapabilities {
            can_sign_transactions: false,
            can_encrypt_data: false,
            can_decrypt_data: false,
            supports_batch_signing: false,
            supports_permissions: false,
            supports_multiple_addresses: false,
        }
    }
}

/// The fixed capability record each provider family declares.
pub open spec fn spec_capabilities_of(k: WalletStrategyType) -> WalletCapabilities {
    match k {
        WalletStrategyType::Wander => WalletCapabilities {
            can_sign_transactions: true,
            can_encrypt_data: true,
            can_decrypt_data: true,
            supports_batch_signing: false,
            supports_permissions: true,
            supports_multiple_addresses: true,
        },
        WalletStrategyType::Beacon => WalletCapabilities {
            can_sign_transactions: true,
            can_encrypt_data: false,
            can_decrypt_data: false,
            supports_batch_signing: true,
            supports_permissions: true,
            supports_multiple_addresses: false,
        },
        WalletStrategyType::WalletKit => WalletCapabilities {
            can_sign_transactions: true,
            can_encrypt_data: false,
            can_decrypt_data: false,
            supports_batch_signing: true,
            supports_permissions: true,
            supports_multiple_addresses: false,
        },
        WalletStrategyType::WebWallet => WalletCapabilities {
            can_sign_transactions: true,
            can_encrypt_data: false,
            can_decrypt_data: false,
            supports_batch_signing: false,
            supports_permissions: false,
            supports_multiple_addresses: false,
        },
    }
}

/// The fixed capability record of a provider family.
pub fn capabilities_of(k: WalletStrategyType) -> (r: WalletCapabilities)
    ensures
        r == spec_capabilities_of(k),
{
    match k {
        WalletStrategyType::Wander => WalletCapabilities {
            can_sign_transactions: true,
            can_encrypt_data: true,
            can_decrypt_data: true,
            supports_batch_signing: false,
            supports_permissions: true,
            supports_multiple_addresses: true,
        },
        WalletStrategyType::Beacon => WalletCapabilities {
            can_sign_transactions: true,
            can_encrypt_data: false,
            can_decrypt_data: false,
            supports_batch_signing: true,
            supports_permissions: true,
            supports_multiple_addresses: false,
        },
        WalletStrategyType::WalletKit => WalletCapabilities {
            can_sign_transactions: true,
            can_encrypt_data: false,
            can_decrypt_data: false,
            supports_batch_signing: true,
            supports_permissions: true,
            supports_multiple_addresses: false,
        },
        WalletStrategyType::WebWallet => WalletCapabilities {
            can_sign_transactions: true,
            can_encrypt_data: false,
            can_decrypt_data: false,
            supports_batch_signing: false,
            supports_permissions: false,
            supports_multiple_addresses: false,
        },
    }
}

/// The default multi-address enumeration of the strategy contract, for
/// providers without one of their own: a single-address list derived from
/// the active-address query's outcome.
pub fn default_all_addresses(active: Result<String, WalletError>) -> (r: Result<
    Vec<String>,
    WalletError,
>)
    ensures
        active matches Ok(a) ==> (r matches Ok(v) && v@ =~= seq![a]),
        active matches Err(e) ==> r == Err::<Vec<String>, _>(e),
{
    match active {
        Ok(address) => {
            let mut v: Vec<String> = Vec::new();
            v.push(address);
            Ok(v)
        },
        Err(e) => Err(e),
    }
}

/// The default encryption of the strategy contract: not supported.
pub fn default_encrypt() -> (r: Result<Vec<u8>, WalletError>)
    ensures
        r == Err::<Vec<u8>, _>(WalletError::InvalidPermissions),
{
    Err(WalletError::InvalidPermissions)
}

/// The default decryption of the strategy contract: not supported.
pub fn default_decrypt() -> (r: Result<Vec<u8>, WalletError>)
    ensures
        r == Err::<Vec<u8>, _>(WalletError::InvalidPermissions),
{
    Err(WalletError::InvalidPermissions)
}

} // verus!
