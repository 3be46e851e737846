//! The closed error taxonomy and the classifier that maps an opaque provider
//! failure message into it.
//!
//! Providers fail with unstructured strings. The classifier applies
//! case-insensitive substring rules in a fixed priority order, so a message
//! matching several patterns resolves deterministically. The matching is
//! ASCII case-insensitive: it is a best-effort heuristic over third-party
//! error text and is lossy by design.

use vstd::prelude::*;
use vstd::string::*;

verus! {

/// The seven failure kinds, without their detail strings.
#[derive(Debug, Clone, Copy, PartialEq, Eq, Structural)]
pub enum ErrorKind {
    NotInstalled,
    UserDenied,
    NetworkError,
    InvalidPermissions,
    TransactionFailed,
    ConnectionFailed,
    SigningFailed,
}

/// A normalized wallet failure: one of the seven kinds, with the raw
/// provider message preserved where the kind carries detail.
#[derive(Debug)]
pub enum WalletError {
    NotInstalled,
    UserDenied,
    NetworkError(String),
    InvalidPermissions,
    TransactionFailed(String),
    ConnectionFailed(String),
    SigningFailed(String),
}

impl Clone for WalletError {
    /// A clone is equal to the original.
    fn clone(&self) -> (r: Self)
        ensures
            r == *self,
    {
        match self {
            WalletError::NotInstalled => WalletError::NotInstalled,
            WalletError::UserDenied => WalletError::UserDenied,
            WalletError::NetworkError(m) => WalletError::NetworkError(m.clone()),
            WalletError::InvalidPermissions => WalletError::InvalidPermissions,
            WalletError::TransactionFailed(m) => WalletError::TransactionFailed(m.clone()),
            WalletError::ConnectionFailed(m) => WalletError::ConnectionFailed(m.clone()),
            WalletError::SigningFailed(m) => WalletError::SigningFailed(m.clone()),
        }
    }
}

/// The kind of a wallet error.
pub open spec fn kind_of(e: WalletError) -> ErrorKind {
    match e {
        WalletError::NotInstalled => ErrorKind::NotInstalled,
        WalletError::UserDenied => ErrorKind::UserDenied,
        WalletError::NetworkError(_) => ErrorKind::NetworkError,
        WalletError::InvalidPermissions => ErrorKind::InvalidPermissions,
        WalletError::TransactionFailed(_) => ErrorKind::TransactionFailed,
        WalletError::ConnectionFailed(_) => ErrorKind::ConnectionFailed,
        WalletError::SigningFailed(_) => ErrorKind::SigningFailed,
    }
}

/// The detail string a wallet error carries, if its kind carries one.
pub open spec fn detail_of(e: WalletError) -> Option<Seq<char>> {
    match e {
        WalletError::NotInstalled => None,
        WalletError::UserDenied => None,
        WalletError::NetworkError(m) => Some(m@),
        WalletError::InvalidPermissions => None,
        WalletError::TransactionFailed(m) => Some(m@),
        WalletError::ConnectionFailed(m) => Some(m@),
        WalletError::SigningFailed(m) => Some(m@),
    }
}

impl WalletError {
    /// The kind of this error.
    pub fn kind(&self) -> (k: ErrorKind)
        ensures
            k == kind_of(*self),
    {
        match self {
            WalletError::NotInstalled => ErrorKind::NotInstalled,
            WalletError::UserDenied => ErrorKind::UserDenied,
            WalletError::NetworkError(_) => ErrorKind::NetworkError,
            WalletError::InvalidPermissions => ErrorKind::InvalidPermissions,
            WalletError::TransactionFailed(_) => ErrorKind::TransactionFailed,
            WalletError::ConnectionFailed(_) => ErrorKind::ConnectionFailed,
            WalletError::SigningFailed(_) => ErrorKind::SigningFailed,
        }
    }

    /// The canonical human-readable message of this error.
    pub fn message(&self) -> (r: String)
        ensures
            r@ == message_view(*self),
    {
        match self {
            WalletError::NotInstalled => String::from_str("Wallet not installed"),
            WalletError::UserDenied => String::from_str("User denied request"),
            WalletError::NetworkError(m) => String::from_str("Network error: ").concat(m.as_str()),
            WalletError::InvalidPermissions => String::from_str("Permission set invalid"),
            WalletError::TransactionFailed(m) => String::from_str("Transaction failed: ").concat(
                m.as_str(),
            ),
            WalletError::ConnectionFailed(m) => String::from_str("Connection failed: ").concat(
                m.as_str(),
            ),
            WalletError::SigningFailed(m) => String::from_str(
                "Transaction signing failed: ",
            ).concat(m.as_str()),
        }
    }
}

/// The canonical message of each error.
pub open spec fn message_view(e: WalletError) -> Seq<char> {
    match e {
        WalletError::NotInstalled => "Wallet not installed"@,
        WalletError::UserDenied => "User denied request"@,
        WalletError::NetworkError(m) => "Network error: "@ + m@,
        WalletError::InvalidPermissions => "Permission set invalid"@,
        WalletError::TransactionFailed(m) => "Transaction failed: "@ + m@,
        WalletError::ConnectionFailed(m) => "Connection failed: "@ + m@,
        WalletError::SigningFailed(m) => "Transaction signing failed: "@ + m@,
    }
}

/// Whether a message character matches a pattern character, ignoring ASCII
/// case. Patterns are written in lower case, so only the message side is
/// folded.
pub open spec fn char_matches_ci(h: char, p: char) -> bool {
    h as u32 == p as u32 || (('A' as u32) <= h as u32 <= ('Z' as u32) && p as u32 == h as u32
        + 32)
}

/// Whether the pattern, from its position `i` on, matches the message
/// character by character at offset `j`.
pub open spec fn match_at(h: Seq<char>, j: int, p: Seq<char>, i: int) -> bool
    decreases p.len() - i,
{
    if i >= p.len() {
        true
    } else {
        char_matches_ci(h[j + i], p[i]) && match_at(h, j, p, i + 1)
    }
}

/// Whether the message contains the pattern at offset `j`, ignoring ASCII
/// case.
pub open spec fn starts_ci_at(h: Seq<char>, j: int, p: Seq<char>) -> bool {
    0 <= j && j + p.len() <= h.len() && match_at(h, j, p, 0)
}

/// Whether the message contains the pattern at offset `j` or later.
pub open spec fn contains_from(h: Seq<char>, j: int, p: Seq<char>) -> bool
    decreases h.len() - j,
    when 0 <= j <= h.len()
{
    if starts_ci_at(h, j, p) {
        true
    } else if j >= h.len() {
        false
    } else {
        contains_from(h, j + 1, p)
    }
}

/// Whether the message contains the pattern, ignoring ASCII case.
pub open spec fn contains_ci(h: Seq<char>, p: Seq<char>) -> bool {
    contains_from(h, 0, p)
}

/// A full pattern match is a pointwise character match.
pub proof fn lemma_match_at_index(h: Seq<char>, j: int, p: Seq<char>, i: int)
    requires
        0 <= i <= p.len(),
    ensures
        match_at(h, j, p, i) <==> (forall|k: int|
            i <= k < p.len() ==> char_matches_ci(h[j + k], p[k])),
    decreases p.len() - i,
{
    if i == p.len() {
    } else {
        lemma_match_at_index(h, j, p, i + 1);
    }
}

/// A pattern that matches at some offset within the message is contained in
/// the message.
pub proof fn lemma_starts_at_implies_contains(h: Seq<char>, j0: int, j: int, p: Seq<char>)
    requires
        0 <= j0 <= j <= h.len(),
        starts_ci_at(h, j, p),
    ensures
        contains_from(h, j0, p),
    decreases j - j0,
{
    if j0 < j {
        lemma_starts_at_implies_contains(h, j0 + 1, j, p);
    }
}

/// Whether a message character matches a pattern character, ignoring ASCII
/// case.
fn char_matches_ci_exec(h: char, p: char) -> (r: bool)
    ensures
        r == char_matches_ci(h, p),
{
    let hu = h as u32;
    let pu = p as u32;
    hu == pu || (65 <= hu && hu <= 90 && pu == hu + 32)
}

/// Whether the message contains the pattern at character offset `j`,
/// ignoring ASCII case.
fn str_starts_ci(h: &str, j: usize, p: &str) -> (r: bool)
    requires
        j <= h@.len(),
    ensures
        r == starts_ci_at(h@, j as int, p@),
{
    let hlen = h.unicode_len();
    let plen = p.unicode_len();
    if hlen - j < plen {
        return false;
    }
    proof {
        lemma_match_at_index(h@, j as int, p@, 0);
    }
    let mut i: usize = 0;
    while i < plen
        invariant
            i <= plen,
            plen == p@.len(),
            hlen == h@.len(),
            j <= hlen,
            plen <= hlen - j,
            forall|k: int| 0 <= k < i ==> char_matches_ci(h@[j + k], p@[k]),
        decreases plen - i,
    {
        let hc = h.get_char(j + i);
        let pc = p.get_char(i);
        if !char_matches_ci_exec(hc, pc) {
            proof {
                lemma_match_at_index(h@, j as int, p@, 0);
            }
            return false;
        }
        i += 1;
    }
    proof {
        lemma_match_at_index(h@, j as int, p@, 0);
    }
    true
}

/// Whether the message contains the pattern, ignoring ASCII case.
fn str_contains_ci(h: &str, p: &str) -> (r: bool)
    ensures
        r == contains_ci(h@, p@),
{
    let hlen = h.unicode_len();
    let mut j: usize = 0;
    loop
        invariant
            j <= hlen,
            hlen == h@.len(),
            contains_ci(h@, p@) == contains_from(h@, j as int, p@),
        decreases hlen - j,
    {
        if str_starts_ci(h, j, p) {
            assert(contains_from(h@, j as int, p@));
            return true;
        }
        if j == hlen {
            assert(!contains_from(h@, j as int, p@));
            return false;
        }
        j += 1;
    }
}

/// The kind the classifier assigns to a raw provider failure message,
/// applying the substring rules in fixed priority order.
pub open spec fn classify_kind(msg: Seq<char>) -> ErrorKind {
    if contains_ci(msg, "not installed"@) || contains_ci(msg, "undefined"@) {
        ErrorKind::NotInstalled
    } else if contains_ci(msg, "denied"@) || contains_ci(msg, "rejected"@) {
        ErrorKind::UserDenied
    } else if contains_ci(msg, "network"@) {
        ErrorKind::NetworkError
    } else if contains_ci(msg, "permission"@) {
        ErrorKind::InvalidPermissions
    } else if contains_ci(msg, "sign"@) {
        ErrorKind::SigningFailed
    } else {
        ErrorKind::ConnectionFailed
    }
}

/// The detail the classified error carries: the raw message, exactly when
/// the assigned kind carries detail.
pub open spec fn classify_detail(msg: Seq<char>) -> Option<Seq<char>> {
    match classify_kind(msg) {
        ErrorKind::NetworkError => Some(msg),
        ErrorKind::SigningFailed => Some(msg),
        ErrorKind::ConnectionFailed => Some(msg),
        _ => None,
    }
}

/// Maps a raw provider failure message into the closed taxonomy. The raw
/// message is preserved in the kinds that carry detail.
pub fn classify_message(msg: &str) -> (e: WalletError)
    ensures
        kind_of(e) == classify_kind(msg@),
        detail_of(e) == classify_detail(msg@),
{
    if str_contains_ci(msg, "not installed") || str_contains_ci(msg, "undefined") {
        WalletError::NotInstalled
    } else if str_contains_ci(msg, "denied") || str_contains_ci(msg, "rejected") {
        WalletError::UserDenied
    } else if str_contains_ci(msg, "network") {
        WalletError::NetworkError(msg.to_owned())
    } else if str_contains_ci(msg, "permission") {
        WalletError::InvalidPermissions
    } else if str_contains_ci(msg, "sign") {
        WalletError::SigningFailed(msg.to_owned())
    } else {
        WalletError::ConnectionFailed(msg.to_owned())
    }
}

/// Classifier idempotence for `NotInstalled`: classifying its canonical
/// message yields the same kind.
pub proof fn lemma_classify_not_installed_roundtrip()
    ensures
        classify_kind(message_view(WalletError::NotInstalled)) == ErrorKind::NotInstalled,
{
    reveal_strlit("Wallet not installed");
    reveal_strlit("not installed");
    reveal_with_fuel(contains_from, 25);
    reveal_with_fuel(match_at, 16);
    assert(contains_ci("Wallet not installed"@, "not installed"@));
}

/// Classifier idempotence for `InvalidPermissions`: classifying its
/// canonical message yields the same kind.
pub proof fn lemma_classify_invalid_permissions_roundtrip()
    ensures
        classify_kind(message_view(WalletError::InvalidPermissions))
            == ErrorKind::InvalidPermissions,
{
    reveal_strlit("Permission set invalid");
    reveal_strlit("not installed");
    reveal_strlit("undefined");
    reveal_strlit("denied");
    reveal_strlit("rejected");
    reveal_strlit("network");
    reveal_strlit("permission");
    reveal_with_fuel(contains_from, 25);
    reveal_with_fuel(match_at, 16);
    assert(!contains_ci("Permission set invalid"@, "not installed"@));
    assert(!contains_ci("Permission set invalid"@, "undefined"@));
    assert(!contains_ci("Permission set invalid"@, "denied"@));
    assert(!contains_ci("Permission set invalid"@, "rejected"@));
    assert(!contains_ci("Permission set invalid"@, "network"@));
    assert(contains_ci("Permission set invalid"@, "permission"@));
}

/// Classifier idempotence for `NetworkError`: classifying its canonical
/// message yields the same kind, provided the detail does not smuggle in a
/// pattern of higher priority (for example a detail containing "denied"
/// reclassifies as `UserDenied`).
pub proof fn lemma_classify_network_error_roundtrip(m: String)
    requires
        !contains_ci(message_view(WalletError::NetworkError(m)), "not installed"@),
        !contains_ci(message_view(WalletError::NetworkError(m)), "undefined"@),
        !contains_ci(message_view(WalletError::NetworkError(m)), "denied"@),
        !contains_ci(message_view(WalletError::NetworkError(m)), "rejected"@),
    ensures
        classify_kind(message_view(WalletError::NetworkError(m))) == ErrorKind::NetworkError,
{
    let full = "Network error: "@ + m@;
    reveal_strlit("Network error: ");
    reveal_strlit("network");
    lemma_match_at_index(full, 0, "network"@, 0);
    assert forall|k: int| 0 <= k < "network"@.len() implies char_matches_ci(
        full[k],
        "network"@[k],
    ) by {
        assert(full[k] == "Network error: "@[k]);
    }
    assert(starts_ci_at(full, 0, "network"@));
    lemma_starts_at_implies_contains(full, 0, 0, "network"@);
}

/// Classifier idempotence for `SigningFailed`: classifying its canonical
/// message yields the same kind, provided the detail does not smuggle in a
/// pattern of higher priority.
pub proof fn lemma_classify_signing_failed_roundtrip(m: String)
    requires
        !contains_ci(message_view(WalletError::SigningFailed(m)), "not installed"@),
        !contains_ci(message_view(WalletError::SigningFailed(m)), "undefined"@),
        !contains_ci(message_view(WalletError::SigningFailed(m)), "denied"@),
        !contains_ci(message_view(WalletError::SigningFailed(m)), "rejected"@),
        !contains_ci(message_view(WalletError::SigningFailed(m)), "network"@),
        !contains_ci(message_view(WalletError::SigningFailed(m)), "permission"@),
    ensures
        classify_kind(message_view(WalletError::SigningFailed(m))) == ErrorKind::SigningFailed,
{
    let full = "Transaction signing failed: "@ + m@;
    reveal_strlit("Transaction signing failed: ");
    reveal_strlit("sign");
    lemma_match_at_index(full, 12, "sign"@, 0);
    assert forall|k: int| 0 <= k < "sign"@.len() implies char_matches_ci(
        full[12 + k],
        "sign"@[k],
    ) by {
        assert(full[12 + k] == "Transaction signing failed: "@[12 + k]);
    }
    assert(starts_ci_at(full, 12, "sign"@));
    lemma_starts_at_implies_contains(full, 0, 12, "sign"@);
}

/// Classifier idempotence for `ConnectionFailed`: classifying its canonical
/// message yields the same kind, provided the detail does not smuggle in any
/// of the classifier's patterns.
pub proof fn lemma_classify_connection_failed_roundtrip(m: String)
    requires
        !contains_ci(message_view(WalletError::ConnectionFailed(m)), "not installed"@),
        !contains_ci(message_view(WalletError::ConnectionFailed(m)), "undefined"@),
        !contains_ci(message_view(WalletError::ConnectionFailed(m)), "denied"@),
        !contains_ci(message_view(WalletError::ConnectionFailed(m)), "rejected"@),
        !contains_ci(message_view(WalletError::ConnectionFailed(m)), "network"@),
        !contains_ci(message_view(WalletError::ConnectionFailed(m)), "permission"@),
        !contains_ci(message_view(WalletError::ConnectionFailed(m)), "sign"@),
    ensures
        classify_kind(message_view(WalletError::ConnectionFailed(m)))
            == ErrorKind::ConnectionFailed,
{
}

/// Classifier idempotence for `UserDenied`: classifying its canonical
/// message yields the same kind.
pub proof fn lemma_classify_user_denied_roundtrip()
    ensures
        classify_kind(message_view(WalletError::UserDenied)) == ErrorKind::UserDenied,
{
    reveal_strlit("User denied request");
    reveal_strlit("not installed");
    reveal_strlit("undefined");
    reveal_strlit("denied");
    reveal_with_fuel(contains_from, 25);
    reveal_with_fuel(match_at, 16);
    assert(!contains_ci("User denied request"@, "not installed"@));
    assert(!contains_ci("User denied request"@, "undefined"@));
    assert(contains_ci("User denied request"@, "denied"@));
}

/// The classifier's range excludes `TransactionFailed`: no unstructured
/// provider message is ever mapped to that kind, which is only constructed
/// deliberately.
pub proof fn lemma_classifier_never_transaction_failed(msg: Seq<char>)
    ensures
        classify_kind(msg) != ErrorKind::TransactionFailed,
{
}

} // verus!
