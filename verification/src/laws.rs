//! The laws of the hold/resolve protocol: how the command writes, the
//! store's write discipline, and the hook polls fit together.
//!
//! Each proof function here states one guarantee of the library as a whole,
//! quantified over stores, records and clocks, and is proved from the
//! contracts and definitions in the other modules.

use vstd::prelude::*;
use crate::hooks::{
    spec_htlc_poll, spec_received_poll, timelock_unsafe, HookError, HtlcStep, HtlcVerdict,
    ReceivedStep, ReceivedVerdict,
};
use crate::state::{ci_char_eq, ci_eq, Hodlstate};
use crate::store::{
    key_view, reflects_store, spec_record_key, store_after, write_succeeds, DatastoreWrite,
    LookupOutcome, StoreView, WriteMode,
};

verus! {

/// Encoding a state and decoding the stored text returns the same state: the
/// three wire texts are pairwise distinguishable, even case-insensitively.
pub proof fn lemma_wire_text_roundtrip(s: Hodlstate)
    ensures
        Hodlstate::spec_from_text(s.wire_text()) == Some(s),
{
    reveal_strlit("hodl");
    reveal_strlit("reject");
    reveal_strlit("accept");
    assert(ci_eq(s.wire_text(), s.wire_text())) by {
        assert(forall|i: int|
            0 <= i < s.wire_text().len() ==> ci_char_eq(s.wire_text()[i], s.wire_text()[i]));
    }
    match s {
        Hodlstate::Hodl => {
        },
        Hodlstate::Reject => {
            assert(!ci_eq("reject"@, "hodl"@));
        },
        Hodlstate::Accept => {
            assert(!ci_eq("accept"@, "hodl"@));
            assert(!ci_eq("accept"@, "reject"@)) by {
                assert(!ci_char_eq("accept"@[0], "reject"@[0]));
            }
        },
    }
}

/// A fresh registration holds: on a store without the payment's key, the add
/// command's create-only write succeeds and leaves a record that decodes to
/// `Hodl` — and issuing the same create-only write again on the resulting
/// store fails.
pub proof fn lemma_add_registers_hodl(store: StoreView, w: DatastoreWrite, payment_hash: Seq<char>)
    requires
        key_view(w.key@) == spec_record_key(payment_hash),
        w.string@ == Hodlstate::Hodl.wire_text(),
        w.mode == WriteMode::MustCreate,
        !store.contains_key(spec_record_key(payment_hash)),
    ensures
        write_succeeds(store, w),
        Hodlstate::spec_from_text(store_after(store, w)[spec_record_key(payment_hash)]) == Some(
            Hodlstate::Hodl,
        ),
        !write_succeeds(store_after(store, w), w),
{
    lemma_wire_text_roundtrip(Hodlstate::Hodl);
}

/// Resolving is replace-only: with no record under the key, the accept or
/// reject write fails and registers nothing; with one, it succeeds and the
/// key thereafter reads back as the written decision.
pub proof fn lemma_resolve_replace_only(
    store: StoreView,
    w: DatastoreWrite,
    id: Seq<char>,
    state: Hodlstate,
)
    requires
        key_view(w.key@) == spec_record_key(id),
        w.string@ == state.wire_text(),
        w.mode == WriteMode::MustReplace,
    ensures
        !store.contains_key(spec_record_key(id)) ==> !write_succeeds(store, w),
        store.contains_key(spec_record_key(id)) ==> write_succeeds(store, w)
            && Hodlstate::spec_from_text(store_after(store, w)[spec_record_key(id)]) == Some(state),
{
    lemma_wire_text_roundtrip(state);
}

/// A payment never registered is never held: when the store has no record
/// under the key, a lookup reflecting it makes both hooks pass the payment
/// through on their very first poll — no polling loop begins.
pub proof fn lemma_unregistered_passes_through(
    store: StoreView,
    key: Seq<Seq<char>>,
    lookup: LookupOutcome,
    expires_at: u64,
    now: u64,
    cltv_expiry: u64,
    cltv_delta: u64,
    blockheight: u64,
)
    requires
        !store.contains_key(key),
        reflects_store(lookup, store, key),
    ensures
        spec_htlc_poll(lookup, expires_at, now, cltv_expiry, cltv_delta, blockheight) == Ok::<
            HtlcStep,
            HookError,
        >(HtlcStep::Resolve(HtlcVerdict::Continue)),
        spec_received_poll(lookup) == Ok::<ReceivedStep, HookError>(
            ReceivedStep::Resolve(ReceivedVerdict::Continue),
        ),
{
}

/// While the record still says `Hodl` and neither the invoice expiry nor the
/// timelock deadline has passed, a poll does not resolve: both hooks answer
/// with sleep, so the payment stays pending for another interval.
pub proof fn lemma_hodl_stays_pending(
    store: StoreView,
    key: Seq<Seq<char>>,
    lookup: LookupOutcome,
    expires_at: u64,
    now: u64,
    cltv_expiry: u64,
    cltv_delta: u64,
    blockheight: u64,
)
    requires
        store.contains_key(key),
        Hodlstate::spec_from_text(store[key]) == Some(Hodlstate::Hodl),
        reflects_store(lookup, store, key),
        now < expires_at,
        !timelock_unsafe(cltv_expiry, cltv_delta, blockheight),
    ensures
        spec_htlc_poll(lookup, expires_at, now, cltv_expiry, cltv_delta, blockheight) == Ok::<
            HtlcStep,
            HookError,
        >(HtlcStep::Sleep),
        spec_received_poll(lookup) == Ok::<ReceivedStep, HookError>(ReceivedStep::Sleep),
{
}

/// An operator decision, once written, resolves the next poll that reads it:
/// after an accept write the interception hook continues the payment; after
/// a reject write it fails the unit, and the payment-received hook answers
/// with its distinct reject instruction.
pub proof fn lemma_decision_resolves_next_poll(
    store: StoreView,
    w: DatastoreWrite,
    id: Seq<char>,
    state: Hodlstate,
    lookup: LookupOutcome,
    expires_at: u64,
    now: u64,
    cltv_expiry: u64,
    cltv_delta: u64,
    blockheight: u64,
)
    requires
        key_view(w.key@) == spec_record_key(id),
        w.string@ == state.wire_text(),
        w.mode == WriteMode::MustReplace,
        store.contains_key(spec_record_key(id)),
        reflects_store(lookup, store_after(store, w), spec_record_key(id)),
        now < expires_at,
        !timelock_unsafe(cltv_expiry, cltv_delta, blockheight),
    ensures
        state == Hodlstate::Accept ==> spec_htlc_poll(
            lookup,
            expires_at,
            now,
            cltv_expiry,
            cltv_delta,
            blockheight,
        ) == Ok::<HtlcStep, HookError>(HtlcStep::Resolve(HtlcVerdict::Continue)),
        state == Hodlstate::Reject ==> spec_htlc_poll(
            lookup,
            expires_at,
            now,
            cltv_expiry,
            cltv_delta,
            blockheight,
        ) == Ok::<HtlcStep, HookError>(HtlcStep::Resolve(HtlcVerdict::Fail)),
        state == Hodlstate::Accept ==> spec_received_poll(lookup) == Ok::<
            ReceivedStep,
            HookError,
        >(ReceivedStep::Resolve(ReceivedVerdict::Continue)),
        state == Hodlstate::Reject ==> spec_received_poll(lookup) == Ok::<
            ReceivedStep,
            HookError,
        >(ReceivedStep::Resolve(ReceivedVerdict::Reject)),
{
    lemma_wire_text_roundtrip(state);
}

/// A passed deadline fails the unit whatever the record says: once the
/// invoice expiry timestamp is no longer in the future, or the timelock
/// guard trips, a managed poll of the interception hook fails the unit
/// regardless of the stored text.
pub proof fn lemma_deadline_always_fails(
    lookup: LookupOutcome,
    expires_at: u64,
    now: u64,
    cltv_expiry: u64,
    cltv_delta: u64,
    blockheight: u64,
)
    requires
        lookup matches LookupOutcome::Found(records) && records@.len() == 1,
        expires_at <= now || timelock_unsafe(cltv_expiry, cltv_delta, blockheight),
    ensures
        spec_htlc_poll(lookup, expires_at, now, cltv_expiry, cltv_delta, blockheight) == Ok::<
            HtlcStep,
            HookError,
        >(HtlcStep::Resolve(HtlcVerdict::Fail)),
{
}

/// Two records under one key violate the uniqueness invariant: any handler
/// that reads such a list raises a hard error, never a routing instruction.
pub proof fn lemma_duplicate_records_hard_error(
    lookup: LookupOutcome,
    expires_at: u64,
    now: u64,
    cltv_expiry: u64,
    cltv_delta: u64,
    blockheight: u64,
)
    requires
        lookup matches LookupOutcome::Found(records) && records@.len() > 1,
    ensures
        spec_htlc_poll(lookup, expires_at, now, cltv_expiry, cltv_delta, blockheight) == Err::<
            HtlcStep,
            HookError,
        >(HookError::DuplicateRecords),
        spec_received_poll(lookup) == Err::<ReceivedStep, HookError>(HookError::DuplicateRecords),
{
}

/// A stored text that decodes to no state is a hard error, never a default
/// instruction: a managed poll with both deadlines clear surfaces it from
/// either hook.
pub proof fn lemma_unrecognized_state_hard_error(
    lookup: LookupOutcome,
    expires_at: u64,
    now: u64,
    cltv_expiry: u64,
    cltv_delta: u64,
    blockheight: u64,
)
    requires
        lookup matches LookupOutcome::Found(records) && records@.len() == 1 && (
        records@[0].string matches Some(s) && Hodlstate::spec_from_text(s@) is None),
        now < expires_at,
        !timelock_unsafe(cltv_expiry, cltv_delta, blockheight),
    ensures
        spec_htlc_poll(lookup, expires_at, now, cltv_expiry, cltv_delta, blockheight) == Err::<
            HtlcStep,
            HookError,
        >(HookError::UnrecognizedState),
        spec_received_poll(lookup) == Err::<ReceivedStep, HookError>(HookError::UnrecognizedState),
{
}

} // verus!
