//! Watches whether the host's outbound traffic leaves through a VPN tunnel
//! and republishes that classification to local consumers.
//!
//! The crate holds the daemon's decision core: the connection-state
//! classification, the shared state cell, the probe-response parser, the
//! bounded-backoff retry policy, the reconciliation state machine, and the
//! merge of the two topology event sources. The surrounding process (HTTP
//! probing, bus subscriptions, timers) drives these components and performs
//! the I/O they decide on.

pub mod probe;
pub mod reconcile;
pub mod retry;
pub mod state;
pub mod watch;
