//! The two requests: to create a client from an initial header, and to
//! update it with a later one.

use crate::clock::unix_now;
use crate::error::Error;
use crate::store::{ClientStore, StoreContents};
use crate::threshold::TrustThresholdFraction;
use crate::trust::{
    decoded_header, initial_validity, transition_result, validate_initial, verify_transition,
    HeaderInfo,
};
use crate::types::{
    summary_of, ConsensusState, ConsensusStateView, TMClientInfo, TMClientStorageWrapper,
    TMCreateClientPayload, TMUpdateClientPayload, TendermintClient, TendermintClientView,
    TrustedState, TrustedStateView,
};
use vstd::prelude::*;

verus! {

/// What is reported of a request that went through: who sent it, the
/// client's identifier, the identifier of the chain it follows, and the
/// height of the header that it now trusts.
#[derive(Clone, Debug, PartialEq, Eq)]
pub enum Event<A> {
    ClientCreated(A, Vec<u8>, Vec<u8>, u64),
    ClientUpdated(A, Vec<u8>, Vec<u8>, u64),
}

/// Whether `event` reports the creation of `client_id` by `signer`.
pub open spec fn is_created<A>(
    event: Event<A>,
    signer: A,
    client_id: Seq<u8>,
    chain_id: Seq<u8>,
    height: u64,
) -> bool {
    event matches Event::ClientCreated(s, id, chain, h) && s == signer && id@ == client_id
        && chain@ == chain_id && h == height
}

/// Whether `event` reports an update of `client_id` by `signer`.
pub open spec fn is_updated<A>(
    event: Event<A>,
    signer: A,
    client_id: Seq<u8>,
    chain_id: Seq<u8>,
    height: u64,
) -> bool {
    event matches Event::ClientUpdated(s, id, chain, h) && s == signer && id@ == client_id
        && chain@ == chain_id && h == height
}

/// The error that a request to create a client ends with, if it ends with
/// one: the identifier is taken, or the header and its validator set do not
/// decode, or they cannot start a client.
pub open spec fn create_error(store: StoreContents, payload: TMCreateClientPayload) -> Option<Error> {
    if store.records.contains_key(payload.client_id@) {
        Some(Error::ClientAlreadyInitialized)
    } else {
        match initial_validity(payload.header.signed_header@, payload.header.validator_set@) {
            Err(rejection) => Some(rejection.error()),
            Ok(_) => None,
        }
    }
}

/// The client that `payload` creates at `now` for a header of the chain
/// `chain_id`: it trusts the payload's header, backed by the payload's
/// validator set, with a threshold of one third.
pub open spec fn created_client(
    payload: TMCreateClientPayload,
    chain_id: Seq<u8>,
    now: i64,
) -> TendermintClientView {
    TendermintClientView {
        state: Some(
            ConsensusStateView {
                state: TrustedStateView {
                    signed_header: payload.header.signed_header@,
                    validators: payload.header.validator_set@,
                },
                last_update: now,
            },
        ),
        client_id: payload.client_id@,
        chain_id,
        trusting_period: payload.trusting_period,
        max_clock_drift: payload.max_clock_drift,
        unbonding_period: payload.unbonding_period,
        trust_threshold: TrustThresholdFraction::one_third(),
    }
}

/// The store after `payload` created its client at `now`: the client and
/// its summary are stored under its identifier, which is the last listed.
pub open spec fn store_after_create(
    store: StoreContents,
    payload: TMCreateClientPayload,
    chain_id: Seq<u8>,
    height: u64,
    now: i64,
) -> StoreContents {
    store.with_client(
        payload.client_id@,
        created_client(payload, chain_id, now),
        height,
    ).with_listed(payload.client_id@)
}

/// What a request to create a client at `now` does: it ends with the error
/// of `create_error` and leaves the store as it was, or it stores the client
/// and reports it with the chain and height of the payload's header.
pub open spec fn creates<A>(
    before: StoreContents,
    after: StoreContents,
    signer: A,
    payload: TMCreateClientPayload,
    now: i64,
    r: Result<Event<A>, Error>,
) -> bool {
    match create_error(before, payload) {
        Some(e) => r == Err::<Event<A>, Error>(e) && after == before,
        None => {
            &&& initial_validity(
                payload.header.signed_header@,
                payload.header.validator_set@,
            ) matches Ok(info)
            &&& r matches Ok(event)
            &&& is_created(event, signer, payload.client_id@, info.0, info.1)
            &&& after == store_after_create(before, payload, info.0, info.1, now)
        },
    }
}

/// The new trusted state of the client that `payload` names with the
/// height of its header, or the error that the request ends with: no such
/// client, a client without a state, or a header that is turned down.
pub open spec fn update_outcome(
    store: StoreContents,
    payload: TMUpdateClientPayload,
    now: i64,
) -> Result<(TrustedStateView, u64), Error> {
    let id = payload.client_id@;
    if !store.records.contains_key(id) {
        Err(Error::ItemNotFound)
    } else {
        match store.records[id].state {
            None => Err(Error::NoneValue),
            Some(trusted) => match transition_result(
                store.records[id],
                trusted,
                payload.header.signed_header@,
                payload.header.validator_set@,
                payload.next_validator_set@,
                now,
            ) {
                Err(rejection) => Err(rejection.error()),
                Ok(accepted) => Ok(accepted),
            },
        }
    }
}

/// `client` with `state` as its trusted state, stored at `now`.
pub open spec fn renewed_client(
    client: TendermintClientView,
    state: TrustedStateView,
    now: i64,
) -> TendermintClientView {
    TendermintClientView {
        state: Some(ConsensusStateView { state, last_update: now }),
        ..client
    }
}

/// What a request to update a client at `now` does: it ends with the error
/// of `update_outcome` and leaves the store as it was, or it stores the
/// client with its new state and its summary, and reports it with the
/// client's chain and the height of the payload's header.
pub open spec fn updates<A>(
    before: StoreContents,
    after: StoreContents,
    signer: A,
    payload: TMUpdateClientPayload,
    now: i64,
    r: Result<Event<A>, Error>,
) -> bool {
    let id = payload.client_id@;
    match update_outcome(before, payload, now) {
        Err(e) => r == Err::<Event<A>, Error>(e) && after == before,
        Ok(accepted) => {
            &&& r matches Ok(event)
            &&& is_updated(event, signer, id, before.records[id].chain_id, accepted.1)
            &&& after == before.with_client(
                id,
                renewed_client(before.records[id], accepted.0, now),
                accepted.1,
            )
        },
    }
}

/// Whether the client stored under `id` is kept as a created client is: it
/// carries the identifier it is stored under and a state whose header
/// decodes, and its summary is the one of the client at that header's height.
pub open spec fn well_kept(store: StoreContents, id: Seq<u8>) -> bool {
    let client = store.records[id];
    &&& client.client_id == id
    &&& client.state matches Some(state)
    &&& decoded_header(state.state.signed_header) matches Some(info)
    &&& store.summaries.contains_key(id)
    &&& store.summaries[id] == summary_of(client, info.1)
}

/// Whether the three parts of a store agree: the identifiers with a client
/// are those with a summary and those listed, none is listed twice, and
/// each client is well kept.
pub open spec fn consistent(store: StoreContents) -> bool {
    &&& forall|id: Seq<u8>| #[trigger]
        store.summaries.contains_key(id) ==> store.records.contains_key(id)
    &&& forall|id: Seq<u8>| #[trigger]
        store.listing.contains(id) <==> store.records.contains_key(id)
    &&& store.listing.no_duplicates()
    &&& forall|id: Seq<u8>| #[trigger] store.records.contains_key(id) ==> well_kept(store, id)
}

/// Stores `client` and its summary under `id`, where `last_block` is the
/// height of the client's trusted header.
pub fn store_client(store: &mut ClientStore, id: Vec<u8>, client: TendermintClient, last_block: u64)
    ensures
        final(store)@ == old(store)@.with_client(id@, client@, last_block),
{
    let info = TMClientInfo::of(&client, last_block);
    store.insert(id.clone(), TMClientStorageWrapper { client });
    store.insert_info(id, info);
}

/// Creates the client of `payload` at `now`, for a header that was found
/// to be that of `info`: stores it with its summary, lists it, and reports
/// it. It replaces what was stored under the identifier.
pub fn create_client<A>(
    store: &mut ClientStore,
    signer: A,
    payload: TMCreateClientPayload,
    info: HeaderInfo,
    now: i64,
) -> (event: Event<A>)
    ensures
        is_created(event, signer, payload.client_id@, info.chain_id@, info.height),
        final(store)@ == store_after_create(
            old(store)@,
            payload,
            info.chain_id@,
            info.height,
            now,
        ),
{
    let id = payload.client_id;
    let chain_id = info.chain_id;
    let client = TendermintClient {
        state: Some(
            ConsensusState {
                state: TrustedState {
                    signed_header: payload.header.signed_header,
                    validators: payload.header.validator_set,
                },
                last_update: now,
            },
        ),
        client_id: id.clone(),
        chain_id: chain_id.clone(),
        trusting_period: payload.trusting_period,
        max_clock_drift: payload.max_clock_drift,
        unbonding_period: payload.unbonding_period,
        trust_threshold: TrustThresholdFraction::default(),
    };
    store_client(store, id.clone(), client, info.height);
    store.list_client(id.clone());
    Event::ClientCreated(signer, id, chain_id, info.height)
}

/// Handles a request to create a client, at the time `now`.
pub fn init_client_at<A>(
    store: &mut ClientStore,
    signer: A,
    payload: TMCreateClientPayload,
    now: i64,
) -> (r: Result<Event<A>, Error>)
    ensures
        creates(old(store)@, final(store)@, signer, payload, now, r),
{
    if store.contains_key(&payload.client_id) {
        return Err(Error::ClientAlreadyInitialized);
    }
    match validate_initial(&payload.header) {
        Ok(info) => Ok(create_client(store, signer, payload, info, now)),
        Err(rejection) => Err(rejection.error()),
    }
}

/// Handles a request to create a client, at the time of the call.
pub fn init_client<A>(store: &mut ClientStore, signer: A, payload: TMCreateClientPayload) -> (r:
    Result<Event<A>, Error>)
    ensures
        exists|now: i64| #[trigger] creates(old(store)@, final(store)@, signer, payload, now, r),
{
    let now = unix_now();
    init_client_at(store, signer, payload, now)
}

/// `client` with `state` as its trusted state, stored at `now`.
pub fn renew_client(client: &TendermintClient, state: TrustedState, now: i64) -> (renewed:
    TendermintClient)
    ensures
        renewed@ == renewed_client(client@, state@, now),
{
    TendermintClient {
        state: Some(ConsensusState { state, last_update: now }),
        client_id: client.client_id.clone(),
        chain_id: client.chain_id.clone(),
        trusting_period: client.trusting_period,
        max_clock_drift: client.max_clock_drift,
        unbonding_period: client.unbonding_period,
        trust_threshold: client.trust_threshold,
    }
}

/// Handles a request to update a client, at the time `now`.
pub fn update_client_at<A>(
    store: &mut ClientStore,
    signer: A,
    payload: TMUpdateClientPayload,
    now: i64,
) -> (r: Result<Event<A>, Error>)
    ensures
        updates(old(store)@, final(store)@, signer, payload, now, r),
{
    let Some(stored) = store.get(&payload.client_id) else {
        return Err(Error::ItemNotFound);
    };
    let Some(trusted) = &stored.client.state else {
        return Err(Error::NoneValue);
    };
    let (state, height) = match verify_transition(
        &stored.client,
        trusted,
        &payload.header,
        &payload.next_validator_set,
        now,
    ) {
        Ok(accepted) => accepted,
        Err(rejection) => {
            return Err(rejection.error());
        },
    };
    let client = renew_client(&stored.client, state, now);
    let chain_id = client.chain_id.clone();
    store_client(store, payload.client_id.clone(), client, height);
    Ok(Event::ClientUpdated(signer, payload.client_id, chain_id, height))
}

/// Handles a request to update a client, at the time of the call.
pub fn update_client<A>(store: &mut ClientStore, signer: A, payload: TMUpdateClientPayload) -> (r:
    Result<Event<A>, Error>)
    ensures
        exists|now: i64| #[trigger] updates(old(store)@, final(store)@, signer, payload, now, r),
{
    let now = unix_now();
    update_client_at(store, signer, payload, now)
}

} // verus!
