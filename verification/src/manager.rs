//! The strategy registry: registration, availability filtering over probe
//! outcomes, explicit selection, and priority-ordered auto-selection.
//!
//! Probing a provider is an asynchronous call the host performs; the host
//! hands each probe's outcome back, and every decision over those outcomes is
//! made here.

use vstd::prelude::*;
use vstd::string::*;
use crate::errors::{kind_of, ErrorKind, WalletError};
use crate::strategy::{spec_name, WalletStrategyType};

verus! {

/// The registry of wallet strategies and the currently selected one.
///
/// The registry is keyed by strategy kind: registering a kind twice leaves a
/// single entry. The selected strategy is always a registered one.
pub struct WalletStrategyManager {
    registered: Vec<WalletStrategyType>,
    current: Option<WalletStrategyType>,
}

impl WalletStrategyManager {
    /// The registered kinds, in registration order.
    pub closed spec fn registered_view(&self) -> Seq<WalletStrategyType> {
        self.registered@
    }

    /// The currently selected kind, if any.
    pub closed spec fn current_view(&self) -> Option<WalletStrategyType> {
        self.current
    }

    /// Registry well-formedness: kinds are unique, and the selected kind, if
    /// any, is registered.
    pub open spec fn inv(&self) -> bool {
        &&& (forall|i: int, j: int|
            0 <= i < j < self.registered_view().len() ==> self.registered_view()[i]
                != self.registered_view()[j])
        &&& (self.current_view() matches Some(k) ==> self.registered_view().contains(k))
    }

    /// An empty registry with no selection.
    pub fn new() -> (r: Self)
        ensures
            r.registered_view() == Seq::<WalletStrategyType>::empty(),
            r.current_view() is None,
            r.inv(),
    {
        WalletStrategyManager { registered: Vec::new(), current: None }
    }

    /// The number of registered strategies.
    pub fn strategy_count(&self) -> (r: usize)
        ensures
            r == self.registered_view().len(),
    {
        self.registered.len()
    }

    /// Whether a kind is registered.
    pub fn is_registered(&self, kind: WalletStrategyType) -> (r: bool)
        ensures
            r == self.registered_view().contains(kind),
    {
        let mut i: usize = 0;
        while i < self.registered.len()
            invariant
                i <= self.registered_view().len(),
                forall|j: int| 0 <= j < i ==> self.registered_view()[j] != kind,
            decreases self.registered_view().len() - i,
        {
            if self.registered[i] == kind {
                return true;
            }
            i += 1;
        }
        false
    }

    /// Adds a strategy kind to the registry. Registering a kind that is
    /// already present leaves the registry unchanged.
    pub fn register_strategy(&mut self, kind: WalletStrategyType)
        requires
            old(self).inv(),
        ensures
            final(self).inv(),
            old(self).registered_view().contains(kind) ==> final(self).registered_view() == old(
                self,
            ).registered_view(),
            !old(self).registered_view().contains(kind) ==> final(self).registered_view() == old(
                self,
            ).registered_view().push(kind),
            final(self).registered_view().contains(kind),
            final(self).current_view() == old(self).current_view(),
    {
        if !self.is_registered(kind) {
            proof {
                assert(forall|i: int|
                    0 <= i < self.registered@.len() ==> self.registered@[i] != kind);
            }
            self.registered.push(kind);
            proof {
                let s = self.registered@;
                assert(s[s.len() - 1] == kind);
                assert(s.contains(kind));
                match old(self).current_view() {
                    Some(c) => {
                        let i = choose|i: int|
                            0 <= i < old(self).registered_view().len() && old(
                                self,
                            ).registered_view()[i] == c;
                        assert(s[i] == c);
                        assert(s.contains(c));
                    },
                    None => {},
                }
            }
        }
    }

    /// Selects a strategy explicitly. Fails with `ConnectionFailed` when the
    /// kind is not registered; the selection is then unchanged. Selecting
    /// does not disconnect an existing session.
    pub fn set_strategy(&mut self, kind: WalletStrategyType) -> (r: Result<(), WalletError>)
        requires
            old(self).inv(),
        ensures
            final(self).inv(),
            final(self).registered_view() == old(self).registered_view(),
            old(self).registered_view().contains(kind) ==> r is Ok && final(self).current_view()
                == Some(kind),
            !old(self).registered_view().contains(kind) ==> {
                &&& final(self).current_view() == old(self).current_view()
                &&& r matches Err(e) && e matches WalletError::ConnectionFailed(d) && d@
                    == "Strategy "@ + spec_name(kind) + " not registered"@
            },
    {
        if self.is_registered(kind) {
            self.current = Some(kind);
            Ok(())
        } else {
            Err(
                WalletError::ConnectionFailed(
                    String::from_str("Strategy ").concat(kind.name()).concat(" not registered"),
                ),
            )
        }
    }

    /// The currently selected kind, if any.
    pub fn get_current_strategy(&self) -> (r: Option<WalletStrategyType>)
        ensures
            r == self.current_view(),
    {
        self.current
    }

    /// A snapshot of the registered kinds, in registration order; the host
    /// probes each of these for availability.
    pub fn registered_kinds(&self) -> (r: Vec<WalletStrategyType>)
        ensures
            r@ == self.registered_view(),
    {
        let mut out: Vec<WalletStrategyType> = Vec::new();
        let mut i: usize = 0;
        while i < self.registered.len()
            invariant
                i <= self.registered_view().len(),
                out@ == self.registered_view().take(i as int),
            decreases self.registered_view().len() - i,
        {
            out.push(self.registered[i]);
            proof {
                assert(self.registered_view().take(i + 1) =~= self.registered_view().take(
                    i as int,
                ).push(self.registered_view()[i as int]));
            }
            i += 1;
        }
        proof {
            assert(self.registered_view().take(self.registered_view().len() as int)
                =~= self.registered_view());
        }
        out
    }

    /// The strategy a dispatched operation targets: the selected kind, or
    /// `NotInstalled` when none is selected.
    pub fn require_current_strategy(&self) -> (r: Result<WalletStrategyType, WalletError>)
        ensures
            self.current_view() matches Some(k) ==> r == Ok::<_, WalletError>(k),
            self.current_view() is None ==> r == Err::<WalletStrategyType, _>(
                WalletError::NotInstalled,
            ),
    {
        match self.current {
            Some(k) => Ok(k),
            None => Err(WalletError::NotInstalled),
        }
    }

    /// The target of an operation on a specific strategy: the kind itself,
    /// or `ConnectionFailed` when it is not registered.
    pub fn require_strategy(&self, kind: WalletStrategyType) -> (r: Result<
        WalletStrategyType,
        WalletError,
    >)
        ensures
            self.registered_view().contains(kind) ==> r == Ok::<_, WalletError>(kind),
            !self.registered_view().contains(kind) ==> (r matches Err(e) && e
                matches WalletError::ConnectionFailed(d) && d@ == "Strategy "@ + spec_name(kind)
                + " not found"@),
    {
        if self.is_registered(kind) {
            Ok(kind)
        } else {
            Err(
                WalletError::ConnectionFailed(
                    String::from_str("Strategy ").concat(kind.name()).concat(" not found"),
                ),
            )
        }
    }
}

/// The kinds whose availability probe succeeded with `true`, in probe order.
/// A probe error counts as "not available" and is never propagated.
pub open spec fn spec_available(
    probes: Seq<(WalletStrategyType, Result<bool, WalletError>)>,
) -> Seq<WalletStrategyType>
    decreases probes.len(),
{
    if probes.len() == 0 {
        Seq::empty()
    } else {
        let rest = spec_available(probes.drop_last());
        if probes.last().1 == Ok::<bool, WalletError>(true) {
            rest.push(probes.last().0)
        } else {
            rest
        }
    }
}

/// Filters availability probe outcomes down to the available kinds.
///
/// Discovery never fails: a strategy whose probe returned an error is
/// treated exactly like one that answered "not available", so one broken
/// provider cannot block discovery of the others.
pub fn filter_available(probes: &Vec<(WalletStrategyType, Result<bool, WalletError>)>) -> (r: Vec<
    WalletStrategyType,
>)
    ensures
        r@ == spec_available(probes@),
{
    let mut out: Vec<WalletStrategyType> = Vec::new();
    let mut i: usize = 0;
    while i < probes.len()
        invariant
            i <= probes@.len(),
            out@ == spec_available(probes@.take(i as int)),
        decreases probes@.len() - i,
    {
        proof {
            assert(probes@.take(i + 1).drop_last() =~= probes@.take(i as int));
            assert(probes@.take(i + 1).last() == probes@[i as int]);
        }
        match &probes[i].1 {
            Ok(true) => {
                out.push(probes[i].0);
            },
            _ => {},
        }
        i += 1;
    }
    proof {
        assert(probes@.take(probes@.len() as int) =~= probes@);
    }
    out
}

/// Every strategy's failure is isolated during discovery: when every single
/// probe fails, discovery still succeeds and reports no strategy available,
/// rather than propagating any of the failures.
pub proof fn lemma_discovery_isolates_failures(
    probes: Seq<(WalletStrategyType, Result<bool, WalletError>)>,
)
    requires
        forall|i: int| 0 <= i < probes.len() ==> probes[i].1 is Err,
    ensures
        spec_available(probes) == Seq::<WalletStrategyType>::empty(),
    decreases probes.len(),
{
    if probes.len() > 0 {
        lemma_discovery_isolates_failures(probes.drop_last());
    }
}

/// A kind is available exactly when some probe answered `true` for it.
pub proof fn lemma_available_characterization(
    probes: Seq<(WalletStrategyType, Result<bool, WalletError>)>,
    kind: WalletStrategyType,
)
    ensures
        spec_available(probes).contains(kind) <==> exists|i: int|
            0 <= i < probes.len() && probes[i].0 == kind && probes[i].1 == Ok::<
                bool,
                WalletError,
            >(true),
    decreases probes.len(),
{
    if probes.len() > 0 {
        let pre = probes.drop_last();
        lemma_available_characterization(pre, kind);
        let restavail = spec_available(pre);
        let avail = spec_available(probes);
        if avail.contains(kind) {
            let j = choose|j: int| 0 <= j < avail.len() && avail[j] == kind;
            if probes.last().1 == Ok::<bool, WalletError>(true) && j == avail.len() - 1 {
                assert(probes[probes.len() - 1].0 == kind && probes[probes.len() - 1].1 == Ok::<
                    bool,
                    WalletError,
                >(true));
            } else {
                assert(restavail[j] == kind);
                assert(restavail.contains(kind));
                let i = choose|i: int|
                    0 <= i < pre.len() && pre[i].0 == kind && pre[i].1 == Ok::<
                        bool,
                        WalletError,
                    >(true);
                assert(probes[i] == pre[i]);
            }
        }
        if exists|i: int|
            0 <= i < probes.len() && probes[i].0 == kind && probes[i].1 == Ok::<
                bool,
                WalletError,
            >(true) {
            let i = choose|i: int|
                0 <= i < probes.len() && probes[i].0 == kind && probes[i].1 == Ok::<
                    bool,
                    WalletError,
                >(true);
            if i < probes.len() - 1 {
                assert(pre[i].0 == kind && pre[i].1 == Ok::<bool, WalletError>(true));
                assert(restavail.contains(kind));
                let j = choose|j: int| 0 <= j < restavail.len() && restavail[j] == kind;
                assert(avail[j] == kind);
                assert(avail.contains(kind));
            } else {
                assert(avail[avail.len() - 1] == kind);
                assert(avail.contains(kind));
            }
        }
    }
}

/// The fixed preference order of auto-selection: lower is better.
pub open spec fn spec_priority(k: WalletStrategyType) -> int {
    match k {
        WalletStrategyType::Wander => 0,
        WalletStrategyType::Beacon => 1,
        WalletStrategyType::WalletKit => 2,
        WalletStrategyType::WebWallet => 3,
    }
}

/// The kind auto-selection picks from a non-empty available set: the
/// available kind of highest priority.
pub open spec fn spec_best(avail: Seq<WalletStrategyType>) -> WalletStrategyType {
    if avail.contains(WalletStrategyType::Wander) {
        WalletStrategyType::Wander
    } else if avail.contains(WalletStrategyType::Beacon) {
        WalletStrategyType::Beacon
    } else if avail.contains(WalletStrategyType::WalletKit) {
        WalletStrategyType::WalletKit
    } else {
        WalletStrategyType::WebWallet
    }
}

/// The pick of a non-empty available set is itself available, and no
/// available kind has a higher priority.
pub proof fn lemma_best_is_available(avail: Seq<WalletStrategyType>)
    requires
        avail.len() > 0,
    ensures
        avail.contains(spec_best(avail)),
        forall|k: WalletStrategyType|
            avail.contains(k) ==> spec_priority(spec_best(avail)) <= spec_priority(k),
{
    let first = avail[0];
    assert(avail.contains(first));
    assert forall|k: WalletStrategyType| avail.contains(k) implies spec_priority(spec_best(avail))
        <= spec_priority(k) by {
        match k {
            WalletStrategyType::Wander => {},
            WalletStrategyType::Beacon => {},
            WalletStrategyType::WalletKit => {},
            WalletStrategyType::WebWallet => {},
        }
    }
    match first {
        WalletStrategyType::Wander => {},
        WalletStrategyType::Beacon => {},
        WalletStrategyType::WalletKit => {},
        WalletStrategyType::WebWallet => {},
    }
}

/// Auto-selection is deterministic under the fixed priority order: of two
/// available kinds of different priority, the lower-priority one is never
/// picked.
pub proof fn lemma_auto_select_prefers_priority(
    avail: Seq<WalletStrategyType>,
    k1: WalletStrategyType,
    k2: WalletStrategyType,
)
    requires
        avail.contains(k1),
        avail.contains(k2),
        spec_priority(k1) < spec_priority(k2),
    ensures
        spec_best(avail) != k2,
        spec_priority(spec_best(avail)) <= spec_priority(k1),
{
    lemma_best_is_available(avail);
}

impl WalletStrategyManager {
    /// Picks the best available strategy and selects it.
    ///
    /// Fails with `NotInstalled` when the available set is empty. Otherwise
    /// the pick is the available kind of highest priority in the fixed
    /// preference order; selecting it fails with `ConnectionFailed` only
    /// when the pick is not registered, and the selection is then unchanged.
    pub fn auto_select_strategy(&mut self, available: &Vec<WalletStrategyType>) -> (r: Result<
        WalletStrategyType,
        WalletError,
    >)
        requires
            old(self).inv(),
        ensures
            final(self).inv(),
            final(self).registered_view() == old(self).registered_view(),
            available@.len() == 0 ==> {
                &&& r == Err::<WalletStrategyType, _>(WalletError::NotInstalled)
                &&& final(self).current_view() == old(self).current_view()
            },
            available@.len() > 0 && old(self).registered_view().contains(spec_best(available@))
                ==> {
                &&& r == Ok::<_, WalletError>(spec_best(available@))
                &&& final(self).current_view() == Some(spec_best(available@))
            },
            available@.len() > 0 && !old(self).registered_view().contains(spec_best(available@))
                ==> {
                &&& r matches Err(e) && kind_of(e) == ErrorKind::ConnectionFailed
                &&& final(self).current_view() == old(self).current_view()
            },
    {
        if available.len() == 0 {
            return Err(WalletError::NotInstalled);
        }
        let preferred: [WalletStrategyType; 4] = [
            WalletStrategyType::Wander,
            WalletStrategyType::Beacon,
            WalletStrategyType::WalletKit,
            WalletStrategyType::WebWallet,
        ];
        let mut pi: usize = 0;
        while pi < 4
            invariant
                old(self).inv(),
                *self == *old(self),
                available@.len() > 0,
                pi >= 1 ==> !available@.contains(WalletStrategyType::Wander),
                pi >= 2 ==> !available@.contains(WalletStrategyType::Beacon),
                pi >= 3 ==> !available@.contains(WalletStrategyType::WalletKit),
                preferred@ =~= seq![
                    WalletStrategyType::Wander,
                    WalletStrategyType::Beacon,
                    WalletStrategyType::WalletKit,
                    WalletStrategyType::WebWallet,
                ],
            decreases 4 - pi,
        {
            let candidate = preferred[pi];
            if vec_contains(available, candidate) {
                assert(candidate == spec_best(available@));
                match self.set_strategy(candidate) {
                    Ok(()) => {
                        return Ok(candidate);
                    },
                    Err(e) => {
                        return Err(e);
                    },
                }
            }
            pi += 1;
        }
        // Every kind appears in the preference list, so a non-empty
        // available set always contains a preferred kind; this fallback to
        // the first available kind can only restate the pick.
        let first_available = available[0];
        proof {
            lemma_best_is_available(available@);
            match first_available {
                WalletStrategyType::Wander => {},
                WalletStrategyType::Beacon => {},
                WalletStrategyType::WalletKit => {},
                WalletStrategyType::WebWallet => {},
            }
            assert(first_available == spec_best(available@));
        }
        match self.set_strategy(first_available) {
            Ok(()) => Ok(first_available),
            Err(e) => Err(e),
        }
    }
}

impl Default for WalletStrategyManager {
    /// An empty registry with no selection.
    fn default() -> (r: Self)
        ensures
            r.registered_view() == Seq::<WalletStrategyType>::empty(),
            r.current_view() is None,
            r.inv(),
    {
        WalletStrategyManager::new()
    }
}

/// Whether a kind occurs in a list of kinds.
fn vec_contains(v: &Vec<WalletStrategyType>, kind: WalletStrategyType) -> (r: bool)
    ensures
        r == v@.contains(kind),
{
    let mut i: usize = 0;
    while i < v.len()
        invariant
            i <= v@.len(),
            forall|j: int| 0 <= j < i ==> v@[j] != kind,
        decreases v@.len() - i,
    {
        if v[i] == kind {
            return true;
        }
        i += 1;
    }
    false
}

} // verus!
