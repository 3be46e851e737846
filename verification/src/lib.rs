//! A provider-agnostic wallet connection library.
//!
//! Client applications obtain a cryptographic identity and signing capability
//! from one of several independent wallet providers without knowing which
//! provider is active. The crate models the provider families as strategies,
//! keeps a registry that discovers and selects among them, exposes a
//! capability record per strategy, and maps each provider's unstructured
//! failure signals into a closed error taxonomy.
//!
//! The asynchronous calls into the externally owned provider objects happen
//! outside this crate; a host passes each call's outcome back in, and every
//! decision taken on those outcomes is verified here.

pub mod beacon;
pub mod errors;
pub mod hooks;
pub mod manager;
pub mod service;
pub mod session;
pub mod strategy;
pub mod wallet_kit;
pub mod wander;
pub mod web_wallet;
