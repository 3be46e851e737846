//! The wallet service: the single owner of the session state.
//!
//! Every operation on the session goes through this type, so the state is
//! mutated by one writer only. Operations that involve a provider call are
//! split in two: a `begin_*` step that validates, marks the state and names
//! the strategy to call, and a `finish_*` step that takes the provider
//! call's outcome and settles the state. The host performs the asynchronous
//! call in between and is free to interleave operations; whichever outcome
//! is handed back last wins.

use vstd::prelude::*;
use vstd::string::*;
use crate::errors::WalletError;
use crate::manager::{filter_available, spec_available, spec_best, WalletStrategyManager};
use crate::session::{
    begin_connect_post, connect_failure_post, connect_success_post, connect_timeout_post,
    disconnect_failure_post, disconnect_ok_post, is_default_session, requested_permissions,
    spec_requested_permissions, ExtendedWalletState, WalletState,
};
use crate::strategy::{
    capabilities_of, spec_capabilities_of, spec_name, WalletCapabilities, WalletStrategyType,
};

verus! {

/// The wallet service: a strategy registry plus the session state it keeps
/// consistent.
pub struct WalletService {
    manager: WalletStrategyManager,
    state: ExtendedWalletState,
}

impl WalletService {
    /// The registered strategy kinds, in registration order.
    pub closed spec fn registered_view(&self) -> Seq<WalletStrategyType> {
        self.manager.registered_view()
    }

    /// The currently selected strategy kind, if any.
    pub closed spec fn current_view(&self) -> Option<WalletStrategyType> {
        self.manager.current_view()
    }

    /// The session state.
    pub closed spec fn state_view(&self) -> ExtendedWalletState {
        self.state
    }

    /// Registry well-formedness, as the registry states it.
    pub closed spec fn registry_wf(&self) -> bool {
        self.manager.inv()
    }

    /// Service well-formedness: the registry is well-formed, the session's
    /// active strategy is the registry's selection, and the session's
    /// capabilities are those the active strategy declares, or all off while
    /// none is active.
    pub open spec fn inv(&self) -> bool {
        &&& self.registry_wf()
        &&& self.state_view().strategy == self.current_view()
        &&& match self.state_view().strategy {
            Some(k) => self.state_view().capabilities == spec_capabilities_of(k),
            None => self.state_view().capabilities == WalletCapabilities::spec_none(),
        }
    }

    /// A fresh service with the built-in provider families registered and a
    /// default session.
    pub fn new() -> (r: Self)
        ensures
            r.inv(),
            r.registered_view() =~= seq![
                WalletStrategyType::Wander,
                WalletStrategyType::Beacon,
            ],
            r.current_view() is None,
            is_default_session(r.state_view()),
    {
        let mut manager = WalletStrategyManager::new();
        manager.register_strategy(WalletStrategyType::Wander);
        manager.register_strategy(WalletStrategyType::Beacon);
        WalletService { manager, state: ExtendedWalletState::default() }
    }

    /// The session state, for observers.
    pub fn get_extended_state(&self) -> (r: &ExtendedWalletState)
        ensures
            *r == self.state_view(),
    {
        &self.state
    }

    /// The currently selected strategy kind, if any.
    pub fn active_strategy(&self) -> (r: Option<WalletStrategyType>)
        ensures
            r == self.current_view(),
    {
        self.manager.get_current_strategy()
    }

    /// A snapshot of the registered kinds; the host probes each of these for
    /// availability and hands the outcomes to `apply_discovery`.
    pub fn registered_kinds(&self) -> (r: Vec<WalletStrategyType>)
        ensures
            r@ == self.registered_view(),
    {
        self.manager.registered_kinds()
    }

    /// Selects a strategy explicitly and updates the session's capabilities
    /// to those the strategy declares. Fails with `ConnectionFailed` when
    /// the kind is not registered, leaving the session unchanged. Does not
    /// disconnect an existing session.
    pub fn set_strategy(&mut self, kind: WalletStrategyType) -> (r: Result<(), WalletError>)
        requires
            old(self).inv(),
        ensures
            final(self).inv(),
            final(self).registered_view() == old(self).registered_view(),
            final(self).state_view().base_state == old(self).state_view().base_state,
            final(self).state_view().available_strategies == old(
                self,
            ).state_view().available_strategies,
            old(self).registered_view().contains(kind) ==> {
                &&& r is Ok
                &&& final(self).current_view() == Some(kind)
                &&& final(self).state_view().strategy == Some(kind)
                &&& final(self).state_view().capabilities == spec_capabilities_of(kind)
            },
            !old(self).registered_view().contains(kind) ==> {
                &&& final(self).current_view() == old(self).current_view()
                &&& final(self).state_view() == old(self).state_view()
                &&& r matches Err(e) && e matches WalletError::ConnectionFailed(d) && d@
                    == "Strategy "@ + spec_name(kind) + " not registered"@
            },
    {
        match self.manager.set_strategy(kind) {
            Ok(()) => {
                self.state.strategy = Some(kind);
                self.state.capabilities = capabilities_of(kind);
                Ok(())
            },
            Err(e) => Err(e),
        }
    }

    /// Starts a connection attempt: marks it in flight, clears any prior
    /// error, and names the strategy to call together with the permissions
    /// to request. When no strategy is active the attempt settles
    /// immediately as a `NotInstalled` failure.
    pub fn begin_connect(&mut self) -> (r: Result<
        (WalletStrategyType, Vec<String>),
        WalletError,
    >)
        requires
            old(self).inv(),
        ensures
            final(self).inv(),
            final(self).registered_view() == old(self).registered_view(),
            final(self).current_view() == old(self).current_view(),
            final(self).state_view().strategy == old(self).state_view().strategy,
            final(self).state_view().capabilities == old(self).state_view().capabilities,
            final(self).state_view().available_strategies == old(
                self,
            ).state_view().available_strategies,
            old(self).current_view() matches Some(k) ==> {
                &&& r matches Ok(p) && p.0 == k && p.1@.map_values(|s: String| s@)
                    == spec_requested_permissions()
                &&& begin_connect_post(
                    old(self).state_view().base_state,
                    final(self).state_view().base_state,
                )
            },
            old(self).current_view() is None ==> {
                &&& r matches Err(e) && e == WalletError::NotInstalled
                &&& connect_failure_post(
                    old(self).state_view().base_state,
                    final(self).state_view().base_state,
                    WalletError::NotInstalled,
                )
            },
    {
        self.state.base_state.connecting = true;
        self.state.base_state.error = None;
        match self.manager.require_current_strategy() {
            Ok(k) => Ok((k, requested_permissions())),
            Err(e) => {
                self.state.base_state.connected = false;
                self.state.base_state.address = None;
                self.state.base_state.connecting = false;
                self.state.base_state.error = Some(e.clone());
                Err(e)
            },
        }
    }

    /// Settles a connection attempt with the provider call's outcome.
    ///
    /// A successful outcome with a non-empty address connects the session at
    /// that address with the requested permissions. An empty address is a
    /// defect in the provider's response and settles as a
    /// `ConnectionFailed` failure; any provider failure settles as that
    /// failure, recorded in the session and returned.
    pub fn finish_connect(&mut self, outcome: Result<String, WalletError>) -> (r: Result<
        String,
        WalletError,
    >)
        requires
            old(self).inv(),
        ensures
            final(self).inv(),
            final(self).registered_view() == old(self).registered_view(),
            final(self).current_view() == old(self).current_view(),
            final(self).state_view().strategy == old(self).state_view().strategy,
            final(self).state_view().capabilities == old(self).state_view().capabilities,
            final(self).state_view().available_strategies == old(
                self,
            ).state_view().available_strategies,
            (outcome matches Ok(addr) && addr@.len() > 0) ==> {
                &&& r == Ok::<String, WalletError>(outcome->Ok_0)
                &&& connect_success_post(
                    old(self).state_view().base_state,
                    final(self).state_view().base_state,
                    outcome->Ok_0,
                )
            },
            (outcome matches Ok(addr) && addr@.len() == 0) ==> {
                &&& r matches Err(e) && e matches WalletError::ConnectionFailed(d) && d@
                    == "No active address found"@
                &&& connect_failure_post(
                    old(self).state_view().base_state,
                    final(self).state_view().base_state,
                    r->Err_0,
                )
            },
            outcome matches Err(e) ==> {
                &&& r == Err::<String, WalletError>(e)
                &&& connect_failure_post(
                    old(self).state_view().base_state,
                    final(self).state_view().base_state,
                    e,
                )
            },
    {
        match outcome {
            Ok(addr) => {
                if addr.as_str().is_empty() {
                    let e = WalletError::ConnectionFailed(
                        String::from_str("No active address found"),
                    );
                    self.state.base_state.connected = false;
                    self.state.base_state.address = None;
                    self.state.base_state.connecting = false;
                    self.state.base_state.error = Some(e.clone());
                    Err(e)
                } else {
                    self.state.base_state.connected = true;
                    self.state.base_state.address = Some(addr.clone());
                    self.state.base_state.permissions = requested_permissions();
                    self.state.base_state.connecting = false;
                    self.state.base_state.error = None;
                    Ok(addr)
                }
            },
            Err(e) => {
                self.state.base_state.connected = false;
                self.state.base_state.address = None;
                self.state.base_state.connecting = false;
                self.state.base_state.error = Some(e.clone());
                Err(e)
            },
        }
    }

    /// Starts a disconnect: clears any prior error and names the strategy to
    /// call. When no strategy is active the disconnect settles immediately
    /// as a `NotInstalled` failure, recorded in the session.
    pub fn begin_disconnect(&mut self) -> (r: Result<WalletStrategyType, WalletError>)
        requires
            old(self).inv(),
        ensures
            final(self).inv(),
            final(self).registered_view() == old(self).registered_view(),
            final(self).current_view() == old(self).current_view(),
            final(self).state_view().strategy == old(self).state_view().strategy,
            final(self).state_view().capabilities == old(self).state_view().capabilities,
            final(self).state_view().available_strategies == old(
                self,
            ).state_view().available_strategies,
            old(self).current_view() matches Some(k) ==> {
                &&& r == Ok::<_, WalletError>(k)
                &&& final(self).state_view().base_state.error is None
                &&& final(self).state_view().base_state.connected == old(
                    self,
                ).state_view().base_state.connected
                &&& final(self).state_view().base_state.address == old(
                    self,
                ).state_view().base_state.address
                &&& final(self).state_view().base_state.permissions == old(
                    self,
                ).state_view().base_state.permissions
                &&& final(self).state_view().base_state.connecting == old(
                    self,
                ).state_view().base_state.connecting
                &&& final(self).state_view().base_state.available == old(
                    self,
                ).state_view().base_state.available
            },
            old(self).current_view() is None ==> {
                &&& r matches Err(e) && e == WalletError::NotInstalled
                &&& disconnect_failure_post(
                    old(self).state_view().base_state,
                    final(self).state_view().base_state,
                    WalletError::NotInstalled,
                )
            },
    {
        match self.manager.require_current_strategy() {
            Ok(k) => {
                self.state.base_state.error = None;
                Ok(k)
            },
            Err(e) => {
                self.state.base_state.error = Some(e.clone());
                Err(e)
            },
        }
    }

    /// Settles a disconnect with the provider call's outcome. On success
    /// everything the connection established is reset and any stale error
    /// cleared; on failure the failure is recorded and the state is
    /// otherwise unchanged.
    pub fn finish_disconnect(&mut self, outcome: Result<(), WalletError>) -> (r: Result<
        (),
        WalletError,
    >)
        requires
            old(self).inv(),
        ensures
            final(self).inv(),
            final(self).registered_view() == old(self).registered_view(),
            final(self).current_view() == old(self).current_view(),
            final(self).state_view().strategy == old(self).state_view().strategy,
            final(self).state_view().capabilities == old(self).state_view().capabilities,
            final(self).state_view().available_strategies == old(
                self,
            ).state_view().available_strategies,
            outcome is Ok ==> {
                &&& r is Ok
                &&& disconnect_ok_post(
                    old(self).state_view().base_state,
                    final(self).state_view().base_state,
                )
            },
            outcome matches Err(e) ==> {
                &&& r == Err::<(), WalletError>(e)
                &&& disconnect_failure_post(
                    old(self).state_view().base_state,
                    final(self).state_view().base_state,
                    e,
                )
            },
    {
        match outcome {
            Ok(()) => {
                self.state.base_state.connected = false;
                self.state.base_state.address = None;
                self.state.base_state.permissions = Vec::new();
                self.state.base_state.error = None;
                Ok(())
            },
            Err(e) => {
                self.state.base_state.error = Some(e.clone());
                Err(e)
            },
        }
    }

    /// The strategy a signing request dispatches to: the active one, or
    /// `NotInstalled` when none is active. The transaction payload itself
    /// crosses the provider boundary untouched.
    pub fn begin_sign(&self) -> (r: Result<WalletStrategyType, WalletError>)
        ensures
            self.current_view() matches Some(k) ==> r == Ok::<_, WalletError>(k),
            self.current_view() is None ==> r == Err::<WalletStrategyType, _>(
                WalletError::NotInstalled,
            ),
    {
        self.manager.require_current_strategy()
    }

    /// Forcibly settles a connection attempt that never resolved: takes it
    /// out of flight and records a timeout failure. The underlying provider
    /// call cannot be cancelled; a late outcome handed to `finish_connect`
    /// afterwards still wins.
    pub fn apply_connect_timeout(&mut self)
        requires
            old(self).inv(),
        ensures
            final(self).inv(),
            final(self).registered_view() == old(self).registered_view(),
            final(self).current_view() == old(self).current_view(),
            final(self).state_view().strategy == old(self).state_view().strategy,
            final(self).state_view().capabilities == old(self).state_view().capabilities,
            final(self).state_view().available_strategies == old(
                self,
            ).state_view().available_strategies,
            connect_timeout_post(
                old(self).state_view().base_state,
                final(self).state_view().base_state,
            ),
    {
        self.state.base_state.connecting = false;
        self.state.base_state.error = Some(
            WalletError::ConnectionFailed(String::from_str("timeout")),
        );
    }

    /// Applies the outcomes of an availability discovery pass: records the
    /// available strategies and auto-selects the best one.
    ///
    /// A probe error counts as "not available" and never fails discovery.
    /// When nothing is available, that is recorded as a normal, displayable
    /// state, not a failure of discovery itself. When something is
    /// available, the available kind of highest priority is selected and the
    /// session's capabilities updated, exactly as `set_strategy` would.
    pub fn apply_discovery(
        &mut self,
        probes: &Vec<(WalletStrategyType, Result<bool, WalletError>)>,
    ) -> (r: Option<WalletStrategyType>)
        requires
            old(self).inv(),
        ensures
            final(self).inv(),
            final(self).registered_view() == old(self).registered_view(),
            final(self).state_view().available_strategies@ == spec_available(probes@),
            final(self).state_view().base_state.connected == old(
                self,
            ).state_view().base_state.connected,
            final(self).state_view().base_state.address == old(
                self,
            ).state_view().base_state.address,
            final(self).state_view().base_state.permissions == old(
                self,
            ).state_view().base_state.permissions,
            final(self).state_view().base_state.connecting == old(
                self,
            ).state_view().base_state.connecting,
            spec_available(probes@).len() == 0 ==> {
                &&& r is None
                &&& final(self).current_view() == old(self).current_view()
                &&& final(self).state_view().strategy == old(self).state_view().strategy
                &&& final(self).state_view().capabilities == old(self).state_view().capabilities
                &&& final(self).state_view().base_state.available == false
                &&& final(self).state_view().base_state.error == Some(WalletError::NotInstalled)
            },
            spec_available(probes@).len() > 0 && old(self).registered_view().contains(
                spec_best(spec_available(probes@)),
            ) ==> {
                &&& r == Some(spec_best(spec_available(probes@)))
                &&& final(self).current_view() == r
                &&& final(self).state_view().strategy == r
                &&& final(self).state_view().capabilities == spec_capabilities_of(
                    spec_best(spec_available(probes@)),
                )
                &&& final(self).state_view().base_state.available == true
                &&& final(self).state_view().base_state.error == old(
                    self,
                ).state_view().base_state.error
            },
            spec_available(probes@).len() > 0 && !old(self).registered_view().contains(
                spec_best(spec_available(probes@)),
            ) ==> {
                &&& r is None
                &&& final(self).current_view() == old(self).current_view()
                &&& final(self).state_view().strategy == old(self).state_view().strategy
                &&& final(self).state_view().capabilities == old(self).state_view().capabilities
                &&& final(self).state_view().base_state.available == old(
                    self,
                ).state_view().base_state.available
                &&& final(self).state_view().base_state.error == old(
                    self,
                ).state_view().base_state.error
            },
    {
        let available = filter_available(probes);
        if available.len() == 0 {
            self.state.available_strategies = available;
            self.state.base_state.available = false;
            self.state.base_state.error = Some(WalletError::NotInstalled);
            return None;
        }
        let selected = self.manager.auto_select_strategy(&available);
        self.state.available_strategies = available;
        match selected {
            Ok(k) => {
                self.state.strategy = Some(k);
                self.state.capabilities = capabilities_of(k);
                self.state.base_state.available = true;
                Some(k)
            },
            Err(_) => None,
        }
    }

    /// Shortens an address for display: addresses of more than ten
    /// characters are reduced to their first six and last four, joined by an
    /// ellipsis.
    pub fn format_address(address: &str) -> (r: String)
        ensures
            r@ == spec_format_address(address@),
    {
        let len = address.unicode_len();
        if len <= 10 {
            address.to_owned()
        } else {
            String::from_str(address.substring_char(0, 6)).concat("...").concat(
                address.substring_char(len - 4, len),
            )
        }
    }
}

/// The capabilities a well-formed service reports are exactly those the
/// active strategy declares: selecting a strategy and then reading the
/// session's capabilities round-trips to the strategy's declared record, and
/// no later operation can break the correspondence.
pub proof fn lemma_capabilities_match_active_strategy(
    svc: &WalletService,
    kind: WalletStrategyType,
)
    requires
        svc.inv(),
        svc.state_view().strategy == Some(kind),
    ensures
        svc.state_view().capabilities == spec_capabilities_of(kind),
{
}

impl Default for WalletService {
    /// A fresh service with the built-in provider families registered.
    fn default() -> (r: Self)
        ensures
            r.inv(),
            r.registered_view() =~= seq![
                WalletStrategyType::Wander,
                WalletStrategyType::Beacon,
            ],
            r.current_view() is None,
            is_default_session(r.state_view()),
    {
        WalletService::new()
    }
}

/// The display form of an address: unchanged up to ten characters, else the
/// first six and last four joined by an ellipsis.
pub open spec fn spec_format_address(s: Seq<char>) -> Seq<char> {
    if s.len() <= 10 {
        s
    } else {
        s.subrange(0, 6) + "..."@ + s.subrange(s.len() - 4, s.len() as int)
    }
}

} // verus!
