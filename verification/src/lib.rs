//! Decision core of a hold-invoice plugin for a Lightning node.
//!
//! A hold invoice is an invoice whose settlement is deliberately suspended:
//! when a payment for it arrives, the node asks this library what to do, and
//! the library keeps the payment pending until an operator records an explicit
//! accept or reject decision in the node's datastore, or a safety deadline
//! (invoice expiry, timelock margin) forces the payment to be failed.
//!
//! This crate holds the verified decision logic alone: the hold/accept/reject
//! state machine, command argument validation, the per-poll evaluation of the
//! two payment hooks, and the block-height tracking. All I/O — the RPC calls
//! to the node and the asynchronous polling loops — lives in the surrounding
//! unverified binary, which feeds plain values in and carries the returned
//! instructions out.

use vstd::prelude::*;

pub mod blockheight;
pub mod commands;
pub mod hooks;
pub mod laws;
pub mod state;
pub mod store;

verus! {

/// Namespace tag under which every decision record of this plugin is stored.
pub const PLUGIN_NAME: &'static str = "hodlvoice";

/// Safety margin, in blocks: a held payment is failed once fewer than this
/// many blocks (plus the configured delta) remain before its timelock expiry.
pub const CLTV_HODL: u32 = 200;

} // verus!
