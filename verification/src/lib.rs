//! A verified model of a delegated-execution proxy system: a central
//! authorization registry with a time-delayed trust-grant process, per-user
//! authenticated proxies, an upgradeable forwarding proxy, and a batch
//! call atomicizer.
//!
//! The blockchain execution environment (caller identity, block time,
//! attached value, cross-contract invocation, event log) is external to the
//! library.  Every operation takes the environment-supplied inputs as plain
//! arguments and returns the call descriptors and event records that the
//! environment is expected to perform; the outcome of a nested call is
//! likewise handed in as a plain argument, so each operation is verified for
//! every possible outcome.

pub mod authenticated_proxy;
pub mod call;
pub mod codec;
pub mod identity;
pub mod mapping;
pub mod ownable_delegate_proxy;
pub mod wyvern_atomicizer;
pub mod wyvern_proxy_registry;
pub mod wyvern_token_transfer_proxy;
