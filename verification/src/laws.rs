//! What holds of every request, proved from what the requests ensure.

use crate::client::{consistent, creates, updates, well_kept, Event};
use crate::error::Error;
use crate::store::StoreContents;
use crate::threshold::{
    is_threshold, TrustThresholdFraction, MAX_DENOMINATOR, MAX_TOTAL_VOTING_POWER,
};
use crate::trust::{decoded_header, expired, is_validator_set, update_verdict};
use crate::types::{
    trust_window, ConsensusStateView, TMCreateClientPayload, TMUpdateClientPayload,
    TendermintClientView, TrustedStateView,
};
use vstd::prelude::*;

verus! {

/// The verdict of the verifier on the update that `payload` asks of the
/// client stored under its identifier, whose state is stored there too;
/// `None` also where the client has no trust window to hand to it.
pub open spec fn verdict_on(store: StoreContents, payload: TMUpdateClientPayload, now: i64) -> Option<
    bool,
> {
    let client = store.records[payload.client_id@];
    let trusted = client.state->0.state;
    match trust_window(client.trusting_period, client.max_clock_drift) {
        Some(window) => update_verdict(
            trusted.signed_header,
            trusted.validators,
            payload.header.signed_header@,
            payload.header.validator_set@,
            payload.next_validator_set@,
            client.trust_threshold.numerator(),
            client.trust_threshold.denominator(),
            window,
            client.max_clock_drift,
            now,
        ),
        None => None,
    }
}

/// An identifier is created once. Once a request to create a client went
/// through, or was turned down because its identifier was taken, a second
/// request with that identifier ends with `ClientAlreadyInitialized` and
/// leaves the store as the first one left it, whatever else the second
/// payload holds and whenever it comes.
pub proof fn law_created_once<A>(
    before: StoreContents,
    between: StoreContents,
    after: StoreContents,
    first_signer: A,
    first: TMCreateClientPayload,
    first_now: i64,
    first_result: Result<Event<A>, Error>,
    second_signer: A,
    second: TMCreateClientPayload,
    second_now: i64,
    second_result: Result<Event<A>, Error>,
)
    requires
        creates(before, between, first_signer, first, first_now, first_result),
        creates(between, after, second_signer, second, second_now, second_result),
        first_result is Ok || first_result == Err::<Event<A>, Error>(
            Error::ClientAlreadyInitialized,
        ),
        second.client_id@ == first.client_id@,
    ensures
        second_result == Err::<Event<A>, Error>(Error::ClientAlreadyInitialized),
        after == between,
{
}

/// A header that the verifier does not accept moves nothing. Where a
/// request names a client with a state and its header and validator sets
/// decode, and the verifier's verdict on it is not success, as it is not
/// where too little of the trusted voting power signed, the request ends
/// with `ValidationError` and leaves the store as it was.
pub proof fn law_rejected_update_keeps_state<A>(
    before: StoreContents,
    after: StoreContents,
    signer: A,
    payload: TMUpdateClientPayload,
    now: i64,
    r: Result<Event<A>, Error>,
)
    requires
        updates(before, after, signer, payload, now, r),
        before.records.contains_key(payload.client_id@),
        before.records[payload.client_id@].state is Some,
        decoded_header(payload.header.signed_header@) is Some,
        is_validator_set(payload.header.validator_set@),
        is_validator_set(payload.next_validator_set@),
        verdict_on(before, payload, now) != Some(true),
    ensures
        r == Err::<Event<A>, Error>(Error::ValidationError),
        after == before,
{
}

/// Whether the client of `payload` went from `before` to `after` as an
/// update at `now` moves it: it trusts the header of the payload with the
/// payload's next validator set since `now`, the height of that header is
/// above the height of the header it trusted before, its summary holds
/// that height, and its identifiers and trust parameters are as they were.
pub open spec fn moved_up(
    before: StoreContents,
    after: StoreContents,
    payload: TMUpdateClientPayload,
    now: i64,
) -> bool {
    let id = payload.client_id@;
    &&& before.records.contains_key(id)
    &&& after.records.contains_key(id)
    &&& before.records[id].state matches Some(old_state)
    &&& after.records[id].state matches Some(new_state)
    &&& new_state.state.signed_header == payload.header.signed_header@
    &&& new_state.state.validators == payload.next_validator_set@
    &&& new_state.last_update == now
    &&& decoded_header(old_state.state.signed_header) matches Some(old_info)
    &&& decoded_header(new_state.state.signed_header) matches Some(new_info)
    &&& new_info.1 > old_info.1
    &&& after.summaries.contains_key(id)
    &&& after.summaries[id].last_block == new_info.1
    &&& after.records[id].client_id == before.records[id].client_id
    &&& after.records[id].chain_id == before.records[id].chain_id
    &&& after.records[id].trusting_period == before.records[id].trusting_period
    &&& after.records[id].max_clock_drift == before.records[id].max_clock_drift
    &&& after.records[id].unbonding_period == before.records[id].unbonding_period
    &&& after.records[id].trust_threshold == before.records[id].trust_threshold
}

/// A request that failed fails again. Where a request to update a client
/// ended with an error, the same request at the same time ends with the
/// same error, and the store is still as it was before the first.
pub proof fn law_failed_update_repeats<A>(
    before: StoreContents,
    between: StoreContents,
    after: StoreContents,
    signer: A,
    payload: TMUpdateClientPayload,
    now: i64,
    first_result: Result<Event<A>, Error>,
    second_result: Result<Event<A>, Error>,
)
    requires
        updates(before, between, signer, payload, now, first_result),
        updates(between, after, signer, payload, now, second_result),
        first_result is Err,
    ensures
        second_result == first_result,
        after == before,
{
}

/// An update moves a client upwards and changes nothing else of it: after
/// a request to update a client went through, the height of the header that
/// the client trusts is above the height of the one it trusted before.
pub proof fn law_update_advances_height<A>(
    before: StoreContents,
    after: StoreContents,
    signer: A,
    payload: TMUpdateClientPayload,
    now: i64,
    r: Result<Event<A>, Error>,
)
    requires
        updates(before, after, signer, payload, now, r),
        r is Ok,
    ensures
        moved_up(before, after, payload, now),
{
}

/// A client that is not there cannot be updated. A request that names an
/// identifier without a client ends with `ItemNotFound` and leaves the store
/// as it was, whatever its payload holds.
pub proof fn law_unknown_client_not_found<A>(
    before: StoreContents,
    after: StoreContents,
    signer: A,
    payload: TMUpdateClientPayload,
    now: i64,
    r: Result<Event<A>, Error>,
)
    requires
        updates(before, after, signer, payload, now, r),
        !before.records.contains_key(payload.client_id@),
    ensures
        r == Err::<Event<A>, Error>(Error::ItemNotFound),
        after == before,
{
}

/// A state that is too old anchors nothing. Where the state of the client
/// that a request names was stored longer ago than the client's trusting
/// period and clock drift together, the request ends with `ValidationError`
/// and leaves the store as it was, whatever its payload holds.
pub proof fn law_expired_state_rejects<A>(
    before: StoreContents,
    after: StoreContents,
    signer: A,
    payload: TMUpdateClientPayload,
    now: i64,
    r: Result<Event<A>, Error>,
)
    requires
        updates(before, after, signer, payload, now, r),
        before.records.contains_key(payload.client_id@),
        before.records[payload.client_id@].state matches Some(state) && expired(
            state.last_update,
            before.records[payload.client_id@].trusting_period,
            before.records[payload.client_id@].max_clock_drift,
            now,
        ),
    ensures
        r == Err::<Event<A>, Error>(Error::ValidationError),
        after == before,
{
}

/// A request that fails changes nothing.
pub proof fn law_failure_changes_nothing<A>(
    before: StoreContents,
    after: StoreContents,
    signer: A,
    create: TMCreateClientPayload,
    update: TMUpdateClientPayload,
    now: i64,
    r: Result<Event<A>, Error>,
)
    requires
        creates(before, after, signer, create, now, r) || updates(
            before,
            after,
            signer,
            update,
            now,
            r,
        ),
        r is Err,
    ensures
        after == before,
{
}

/// Storing a client overwrites: to store it twice is to store it once, and
/// of two clients stored under one identifier the second is kept.
pub proof fn law_insert_overwrites(
    store: StoreContents,
    id: Seq<u8>,
    first: TendermintClientView,
    second: TendermintClientView,
)
    ensures
        store.with_record(id, first).with_record(id, first) == store.with_record(id, first),
        store.with_record(id, first).with_record(id, second) == store.with_record(id, second),
        store.with_record(id, second).records[id] == second,
{
    assert(store.records.insert(id, first).insert(id, first) =~= store.records.insert(id, first));
    assert(store.records.insert(id, first).insert(id, second) =~= store.records.insert(
        id,
        second,
    ));
}

/// A request touches one client. What is stored under another identifier
/// than the one of the request is after the request what it was before.
pub proof fn law_other_clients_untouched<A>(
    before: StoreContents,
    after: StoreContents,
    signer: A,
    create: TMCreateClientPayload,
    update: TMUpdateClientPayload,
    now: i64,
    r: Result<Event<A>, Error>,
    other: Seq<u8>,
)
    requires
        creates(before, after, signer, create, now, r) && other != create.client_id@ || updates(
            before,
            after,
            signer,
            update,
            now,
            r,
        ) && other != update.client_id@,
    ensures
        after.records.contains_key(other) == before.records.contains_key(other),
        after.records.contains_key(other) ==> after.records[other] == before.records[other],
        after.summaries.contains_key(other) == before.summaries.contains_key(other),
        after.summaries.contains_key(other) ==> after.summaries[other] == before.summaries[other],
{
}

/// No client is removed. A client that was stored before a request is
/// stored after it, and the listing after it begins with the listing
/// before it; only a request that created a client made it longer, by the
/// identifier of that client.
pub proof fn law_clients_stay<A>(
    before: StoreContents,
    after: StoreContents,
    signer: A,
    create: TMCreateClientPayload,
    update: TMUpdateClientPayload,
    now: i64,
    r: Result<Event<A>, Error>,
)
    requires
        creates(before, after, signer, create, now, r) || updates(
            before,
            after,
            signer,
            update,
            now,
            r,
        ),
    ensures
        forall|id: Seq<u8>| #[trigger]
            before.records.contains_key(id) ==> after.records.contains_key(id),
        before.listing.is_prefix_of(after.listing),
        after.listing.len() <= before.listing.len() + 1,
        updates(before, after, signer, update, now, r) ==> after.listing == before.listing,
{
}

/// A threshold can be held against any voting power: for powers up to
/// `MAX_TOTAL_VOTING_POWER`, both sides of the comparison
/// `signed * denominator > total * numerator` stay within `u64`.
pub proof fn law_threshold_products_fit(
    numerator: u64,
    denominator: u64,
    signed: u64,
    total: u64,
)
    requires
        is_threshold(numerator, denominator),
        signed <= total <= MAX_TOTAL_VOTING_POWER,
    ensures
        signed * denominator <= u64::MAX,
        total * numerator <= u64::MAX,
{
    assert(signed * denominator <= MAX_TOTAL_VOTING_POWER * MAX_DENOMINATOR) by (nonlinear_arith)
        requires
            signed <= MAX_TOTAL_VOTING_POWER,
            denominator <= MAX_DENOMINATOR,
    ;
    assert(total * numerator <= MAX_TOTAL_VOTING_POWER * MAX_DENOMINATOR) by (nonlinear_arith)
        requires
            total <= MAX_TOTAL_VOTING_POWER,
            numerator <= MAX_DENOMINATOR,
    ;
}

/// A created client asks for a third. After a request to create a client
/// went through, the client is stored under its identifier with the
/// payload's header, validator set and periods, and a trust threshold of
/// one third.
pub proof fn law_created_client_asks_a_third<A>(
    before: StoreContents,
    after: StoreContents,
    signer: A,
    payload: TMCreateClientPayload,
    now: i64,
    r: Result<Event<A>, Error>,
)
    requires
        creates(before, after, signer, payload, now, r),
        r is Ok,
    ensures
        after.records.contains_key(payload.client_id@),
        after.records[payload.client_id@].state == Some(
            ConsensusStateView {
                state: TrustedStateView {
                    signed_header: payload.header.signed_header@,
                    validators: payload.header.validator_set@,
                },
                last_update: now,
            },
        ),
        after.records[payload.client_id@].trusting_period == payload.trusting_period,
        after.records[payload.client_id@].max_clock_drift == payload.max_clock_drift,
        after.records[payload.client_id@].unbonding_period == payload.unbonding_period,
        after.records[payload.client_id@].trust_threshold.numerator() == 1,
        after.records[payload.client_id@].trust_threshold.denominator() == 3,
        after.listing == before.listing.push(payload.client_id@),
{
    TrustThresholdFraction::lemma_one_third();
}

/// The store that holds nothing is consistent.
pub proof fn law_empty_store_consistent()
    ensures
        consistent(StoreContents::empty()),
{
}

/// Creating a client keeps a consistent store consistent.
pub proof fn law_create_keeps_consistency<A>(
    before: StoreContents,
    after: StoreContents,
    signer: A,
    payload: TMCreateClientPayload,
    now: i64,
    r: Result<Event<A>, Error>,
)
    requires
        consistent(before),
        creates(before, after, signer, payload, now, r),
    ensures
        consistent(after),
{
    if r is Ok {
        let id = payload.client_id@;
        assert(!before.listing.contains(id));
        assert forall|other: Seq<u8>| #[trigger]
            after.listing.contains(other) <==> after.records.contains_key(other) by {
            if other == id {
                assert(after.listing[before.listing.len() as int] == id);
            } else if before.listing.contains(other) {
                let i = choose|i: int| 0 <= i < before.listing.len() && before.listing[i] == other;
                assert(after.listing[i] == other);
            }
        }
        assert forall|other: Seq<u8>| #[trigger] after.records.contains_key(other) implies well_kept(
            after,
            other,
        ) by {}
    }
}

/// Updating a client keeps a consistent store consistent, and in a
/// consistent store no request ends with `NoneValue`.
pub proof fn law_update_keeps_consistency<A>(
    before: StoreContents,
    after: StoreContents,
    signer: A,
    payload: TMUpdateClientPayload,
    now: i64,
    r: Result<Event<A>, Error>,
)
    requires
        consistent(before),
        updates(before, after, signer, payload, now, r),
    ensures
        consistent(after),
        r != Err::<Event<A>, Error>(Error::NoneValue),
{
    if r is Ok {
        assert forall|other: Seq<u8>| #[trigger] after.records.contains_key(other) implies well_kept(
            after,
            other,
        ) by {}
    }
}

} // verus!
