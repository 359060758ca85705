//! Per-poll decision logic of the two payment hooks.
//!
//! The surrounding binary runs the polling loops: each iteration it looks the
//! payment's decision record up, feeds the outcome (with the cached invoice
//! metadata, the clock and the chain tip) to the step function here, and then
//! either returns the verdict to the node, or sleeps one polling interval and
//! polls again. Every decision — fail-open pass-through, the two safety
//! deadlines, and the hold/accept/reject state machine — is taken here.

use vstd::prelude::*;
use crate::state::Hodlstate;
use crate::store::LookupOutcome;

verus! {

/// Hard errors a hook evaluation can surface. These abort the evaluation of
/// the one event; they are never turned into a routing instruction.
#[derive(Debug, Clone, Copy, PartialEq, Eq, Structural)]
pub enum HookError {
    /// The event names a payment hash but carries no usable timelock expiry.
    MissingCltvExpiry,
    /// More than one decision record exists for the key.
    DuplicateRecords,
    /// The decision record carries no text at all.
    MissingStateText,
    /// The stored text decodes to no state of the machine.
    UnrecognizedState,
    /// No invoice metadata was found for a managed payment.
    InvoiceNotFound,
    /// A chain-tip notification carried no block object.
    MissingBlock,
    /// A chain-tip notification carried a block without a usable height.
    MissingBlockHeight,
}

/// Routing instruction the interception hook hands back to the node.
#[derive(Debug, Clone, Copy, PartialEq, Eq, Structural)]
pub enum HtlcVerdict {
    /// Let the payment unit take its normal course.
    Continue,
    /// Fail the payment unit.
    Fail,
}

/// What one poll iteration of the interception hook decides.
#[derive(Debug, Clone, Copy, PartialEq, Eq, Structural)]
pub enum HtlcStep {
    /// Return this verdict to the node now.
    Resolve(HtlcVerdict),
    /// Still held: sleep one polling interval, then poll again.
    Sleep,
}

/// Seconds between two polls of the interception hook.
pub const HTLC_POLL_SECS: u64 = 2;

/// Seconds between two polls of the payment-received hook.
pub const RECEIVED_POLL_SECS: u64 = 3;

/// An inbound interception event, reduced to the fields the logic reads.
/// A field the event did not carry (or carried with an unusable type) is
/// `None`.
#[derive(Debug, Clone)]
pub struct HtlcEvent {
    pub payment_hash: Option<String>,
    pub cltv_expiry: Option<u64>,
}

/// How an interception invocation starts off.
#[derive(Debug, Clone)]
pub enum HtlcInit {
    /// The event cannot be attributed to any payment this plugin could
    /// manage: let it pass unchanged, never poll.
    PassThrough,
    /// Monitor this payment: poll its record under the payment hash, holding
    /// the unit whose timelock expires at the given height.
    Monitor { payment_hash: String, cltv_expiry: u64 },
}

/// How an interception invocation must start, given the event: without a
/// payment hash the event is passed through (fail-open); with a hash but
/// without a timelock expiry it cannot be evaluated safely and is a hard
/// error; otherwise the payment is monitored.
pub open spec fn spec_htlc_init(event: HtlcEvent) -> Result<HtlcInit, HookError> {
    match event.payment_hash {
        None => Ok(HtlcInit::PassThrough),
        Some(h) => match event.cltv_expiry {
            None => Err(HookError::MissingCltvExpiry),
            Some(ce) => Ok(HtlcInit::Monitor { payment_hash: h, cltv_expiry: ce }),
        },
    }
}

/// Classify an inbound interception event.
pub fn htlc_init(event: HtlcEvent) -> (r: Result<HtlcInit, HookError>)
    ensures
        r == spec_htlc_init(event),
{
    match event.payment_hash {
        None => Ok(HtlcInit::PassThrough),
        Some(h) => match event.cltv_expiry {
            None => Err(HookError::MissingCltvExpiry),
            Some(ce) => Ok(HtlcInit::Monitor { payment_hash: h, cltv_expiry: ce }),
        },
    }
}

/// Whether the lookup found exactly one record, i.e. the payment is managed
/// here. Only then does the loop need the invoice's metadata.
pub fn lookup_is_managed(lookup: &LookupOutcome) -> (r: bool)
    ensures
        r == (lookup matches LookupOutcome::Found(records) && records@.len() == 1),
{
    match lookup {
        LookupOutcome::Found(records) => records.len() == 1,
        LookupOutcome::Failed => false,
    }
}

/// The expiry timestamp of the managed invoice, taken from the metadata list
/// the node returned for the payment hash: an empty answer for a payment
/// that has a decision record is a hard error.
pub fn first_invoice_expiry(expiries: &Vec<u64>) -> (r: Result<u64, HookError>)
    ensures
        expiries@.len() == 0 ==> r == Err::<u64, HookError>(HookError::InvoiceNotFound),
        expiries@.len() > 0 ==> r == Ok::<u64, HookError>(expiries@[0]),
{
    if expiries.len() == 0 {
        Err(HookError::InvoiceNotFound)
    } else {
        Ok(expiries[0])
    }
}

/// The force-close-avoidance guard: the hold must be abandoned once the
/// unit's timelock expiry, less the configured delta, is no more than the
/// safety margin above the current chain tip.
pub open spec fn timelock_unsafe(cltv_expiry: u64, cltv_delta: u64, blockheight: u64) -> bool {
    cltv_expiry - cltv_delta <= blockheight + crate::CLTV_HODL
}

/// What the decoded record state makes of the poll, once both deadlines are
/// known to be clear.
pub open spec fn spec_state_step(state: Hodlstate) -> HtlcStep {
    match state {
        Hodlstate::Hodl => HtlcStep::Sleep,
        Hodlstate::Accept => HtlcStep::Resolve(HtlcVerdict::Continue),
        Hodlstate::Reject => HtlcStep::Resolve(HtlcVerdict::Fail),
    }
}

/// One poll iteration of the interception hook, in the order the checks are
/// made: a failed or empty lookup passes the payment through (fail-open);
/// more than one record breaks the uniqueness invariant; an expired invoice
/// and a too-close timelock each fail the unit whatever the record says;
/// only then is the recorded state decoded and obeyed.
pub open spec fn spec_htlc_poll(
    lookup: LookupOutcome,
    expires_at: u64,
    now: u64,
    cltv_expiry: u64,
    cltv_delta: u64,
    blockheight: u64,
) -> Result<HtlcStep, HookError> {
    match lookup {
        LookupOutcome::Failed => Ok(HtlcStep::Resolve(HtlcVerdict::Continue)),
        LookupOutcome::Found(records) => {
            if records@.len() == 0 {
                Ok(HtlcStep::Resolve(HtlcVerdict::Continue))
            } else if records@.len() > 1 {
                Err(HookError::DuplicateRecords)
            } else if expires_at <= now {
                Ok(HtlcStep::Resolve(HtlcVerdict::Fail))
            } else if timelock_unsafe(cltv_expiry, cltv_delta, blockheight) {
                Ok(HtlcStep::Resolve(HtlcVerdict::Fail))
            } else {
                match records@[0].string {
                    None => Err(HookError::MissingStateText),
                    Some(s) => match Hodlstate::spec_from_text(s@) {
                        None => Err(HookError::UnrecognizedState),
                        Some(state) => Ok(spec_state_step(state)),
                    },
                }
            }
        },
    }
}

/// One poll iteration of the interception hook.
pub fn htlc_poll_step(
    lookup: &LookupOutcome,
    expires_at: u64,
    now: u64,
    cltv_expiry: u64,
    cltv_delta: u64,
    blockheight: u64,
) -> (r: Result<HtlcStep, HookError>)
    ensures
        r == spec_htlc_poll(*lookup, expires_at, now, cltv_expiry, cltv_delta, blockheight),
{
    match lookup {
        LookupOutcome::Failed => Ok(HtlcStep::Resolve(HtlcVerdict::Continue)),
        LookupOutcome::Found(records) => {
            if records.len() == 0 {
                Ok(HtlcStep::Resolve(HtlcVerdict::Continue))
            } else if records.len() > 1 {
                Err(HookError::DuplicateRecords)
            } else if expires_at <= now {
                Ok(HtlcStep::Resolve(HtlcVerdict::Fail))
            } else if timelock_unsafe_check(cltv_expiry, cltv_delta, blockheight) {
                Ok(HtlcStep::Resolve(HtlcVerdict::Fail))
            } else {
                match &records[0].string {
                    None => Err(HookError::MissingStateText),
                    Some(s) => match Hodlstate::from_str(s.as_str()) {
                        None => Err(HookError::UnrecognizedState),
                        Some(state) => Ok(state_step(state)),
                    },
                }
            }
        },
    }
}

/// Evaluate the timelock guard without over- or underflow.
fn timelock_unsafe_check(cltv_expiry: u64, cltv_delta: u64, blockheight: u64) -> (r: bool)
    ensures
        r == timelock_unsafe(cltv_expiry, cltv_delta, blockheight),
{
    (cltv_expiry as u128) <= (blockheight as u128) + (crate::CLTV_HODL as u128) + (cltv_delta
        as u128)
}

/// Turn a decoded state into the step it dictates.
fn state_step(state: Hodlstate) -> (r: HtlcStep)
    ensures
        r == spec_state_step(state),
{
    match state {
        Hodlstate::Hodl => HtlcStep::Sleep,
        Hodlstate::Accept => HtlcStep::Resolve(HtlcVerdict::Continue),
        Hodlstate::Reject => HtlcStep::Resolve(HtlcVerdict::Fail),
    }
}

/// Routing instruction the payment-received hook hands back to the node:
/// this coarser hook distinguishes rejecting the fully received payment
/// from merely failing a unit.
#[derive(Debug, Clone, Copy, PartialEq, Eq, Structural)]
pub enum ReceivedVerdict {
    Continue,
    Reject,
}

/// What one poll iteration of the payment-received hook decides.
#[derive(Debug, Clone, Copy, PartialEq, Eq, Structural)]
pub enum ReceivedStep {
    Resolve(ReceivedVerdict),
    Sleep,
}

/// How a payment-received invocation starts off: without a label the event
/// cannot be attributed to a managed payment and is passed through
/// (fail-open); with one, the record under the label is polled.
#[derive(Debug, Clone)]
pub enum ReceivedInit {
    PassThrough,
    Monitor { label: String },
}

/// Classify an inbound payment-received event.
pub fn received_init(label: Option<String>) -> (r: ReceivedInit)
    ensures
        label is None ==> r is PassThrough,
        label matches Some(l) ==> r matches ReceivedInit::Monitor { label: rl } && rl == l,
{
    match label {
        None => ReceivedInit::PassThrough,
        Some(l) => ReceivedInit::Monitor { label: l },
    }
}

/// One poll iteration of the payment-received hook: the same lookup
/// classification and state machine as the interception hook, with no
/// deadline checks — this variant trusts the coarser hook's own timing —
/// and a distinct instruction for a rejected payment.
pub open spec fn spec_received_poll(lookup: LookupOutcome) -> Result<ReceivedStep, HookError> {
    match lookup {
        LookupOutcome::Failed => Ok(ReceivedStep::Resolve(ReceivedVerdict::Continue)),
        LookupOutcome::Found(records) => {
            if records@.len() == 0 {
                Ok(ReceivedStep::Resolve(ReceivedVerdict::Continue))
            } else if records@.len() > 1 {
                Err(HookError::DuplicateRecords)
            } else {
                match records@[0].string {
                    None => Err(HookError::MissingStateText),
                    Some(s) => match Hodlstate::spec_from_text(s@) {
                        None => Err(HookError::UnrecognizedState),
                        Some(state) => match state {
                            Hodlstate::Hodl => Ok(ReceivedStep::Sleep),
                            Hodlstate::Accept => Ok(
                                ReceivedStep::Resolve(ReceivedVerdict::Continue),
                            ),
                            Hodlstate::Reject => Ok(
                                ReceivedStep::Resolve(ReceivedVerdict::Reject),
                            ),
                        },
                    },
                }
            }
        },
    }
}

/// One poll iteration of the payment-received hook.
pub fn received_poll_step(lookup: &LookupOutcome) -> (r: Result<ReceivedStep, HookError>)
    ensures
        r == spec_received_poll(*lookup),
{
    match lookup {
        LookupOutcome::Failed => Ok(ReceivedStep::Resolve(ReceivedVerdict::Continue)),
        LookupOutcome::Found(records) => {
            if records.len() == 0 {
                Ok(ReceivedStep::Resolve(ReceivedVerdict::Continue))
            } else if records.len() > 1 {
                Err(HookError::DuplicateRecords)
            } else {
                match &records[0].string {
                    None => Err(HookError::MissingStateText),
                    Some(s) => match Hodlstate::from_str(s.as_str()) {
                        None => Err(HookError::UnrecognizedState),
                        Some(state) => match state {
                            Hodlstate::Hodl => Ok(ReceivedStep::Sleep),
                            Hodlstate::Accept => Ok(
                                ReceivedStep::Resolve(ReceivedVerdict::Continue),
                            ),
                            Hodlstate::Reject => Ok(
                                ReceivedStep::Resolve(ReceivedVerdict::Reject),
                            ),
                        },
                    },
                }
            }
        },
    }
}

} // verus!
