use tendermint::block::CommitSig;
use tendermint::Time;
use tendermint_client::{
    init_client, init_client_at, update_client, update_client_at, ClientStore, Error, Event,
    TMClientStorageWrapper, TMCreateClientPayload, TMHeader, TMUpdateClientPayload,
    TrustThresholdFraction,
};
use tendermint_testgen::light_block::TmLightBlock;
use tendermint_testgen::{Commit, Generator, Header, LightBlock, Validator};

const T0: i64 = 1_700_000_000;

fn validators(ids: &[&str]) -> Vec<Validator> {
    ids.iter().map(|id| Validator::new(id).voting_power(50)).collect()
}

/// A block of `chain` at `height` and `time`, signed by all of `vals`, that
/// names `next` as the next validator set.
fn block(chain: &str, height: u64, time: i64, vals: &[Validator], next: &[Validator]) -> TmLightBlock {
    let header = Header::new(vals)
        .height(height)
        .chain_id(chain)
        .next_validators(next)
        .time(Time::from_unix_timestamp(time, 0).unwrap());
    let commit = Commit::new(header.clone(), 1);
    LightBlock::new(header, commit).next_validators(next).generate().unwrap()
}

fn json_header(block: &TmLightBlock) -> TMHeader {
    TMHeader {
        signed_header: serde_json::to_vec(&block.signed_header).unwrap(),
        validator_set: serde_json::to_vec(&block.validators).unwrap(),
    }
}

fn create_payload(id: &str, block: &TmLightBlock) -> TMCreateClientPayload {
    TMCreateClientPayload {
        header: json_header(block),
        trusting_period: 100,
        max_clock_drift: 10,
        unbonding_period: 1000,
        client_id: id.as_bytes().to_vec(),
    }
}

fn update_payload(id: &str, block: &TmLightBlock) -> TMUpdateClientPayload {
    TMUpdateClientPayload {
        header: json_header(block),
        client_id: id.as_bytes().to_vec(),
        next_validator_set: serde_json::to_vec(&block.next_validators).unwrap(),
    }
}

/// A store with the client `id`, created at `T0 + 10` from a block of
/// "chain-A" at height 1 and time `T0` with the validators a and b.
fn store_with_client(id: &str) -> ClientStore {
    let v1 = validators(&["a", "b"]);
    let genesis = block("chain-A", 1, T0, &v1, &v1);
    let mut store = ClientStore::new();
    init_client_at(&mut store, 1u32, create_payload(id, &genesis), T0 + 10).unwrap();
    store
}

fn stored(store: &ClientStore, id: &str) -> TMClientStorageWrapper {
    store.get(&id.as_bytes().to_vec()).unwrap().clone()
}

#[test]
fn create_stores_the_client_and_reports_it() {
    let v1 = validators(&["a", "b"]);
    let genesis = block("chain-A", 1, T0, &v1, &v1);
    let payload = create_payload("client-1", &genesis);
    let mut store = ClientStore::new();

    let event = init_client_at(&mut store, 7u32, payload.clone(), T0 + 10);
    assert_eq!(
        event,
        Ok(Event::ClientCreated(7u32, b"client-1".to_vec(), b"chain-A".to_vec(), 1))
    );

    let id = b"client-1".to_vec();
    assert!(store.contains_key(&id));
    let client = stored(&store, "client-1").client;
    assert_eq!(client.client_id, id);
    assert_eq!(client.chain_id, b"chain-A".to_vec());
    assert_eq!(client.trusting_period, 100);
    assert_eq!(client.max_clock_drift, 10);
    assert_eq!(client.unbonding_period, 1000);
    assert_eq!(client.trust_threshold, TrustThresholdFraction::new(1, 3).unwrap());
    let state = client.state.unwrap();
    assert_eq!(state.last_update, T0 + 10);
    assert_eq!(state.state.signed_header, payload.header.signed_header);
    assert_eq!(state.state.validators, payload.header.validator_set);

    let info = store.client_info(&id).unwrap();
    assert_eq!(info.chain_id, b"chain-A".to_vec());
    assert_eq!(info.trusting_period, 100);
    assert_eq!(info.max_clock_drift, 10);
    assert_eq!(info.unbonding_period, 1000);
    assert_eq!(info.last_block, 1);
    assert_eq!(store.clients(), &vec![id]);
}

#[test]
fn end_to_end_create_update_and_lower_height() {
    let v1 = validators(&["a", "b"]);
    let v2 = validators(&["a", "b", "c"]);
    let mut store = ClientStore::new();

    let genesis = block("chain-A", 1, T0, &v1, &v1);
    let created = init_client_at(&mut store, 1u32, create_payload("chain-A", &genesis), T0 + 10);
    assert_eq!(
        created,
        Ok(Event::ClientCreated(1u32, b"chain-A".to_vec(), b"chain-A".to_vec(), 1))
    );

    let fifth = block("chain-A", 5, T0 + 50, &v2, &v2);
    let payload = update_payload("chain-A", &fifth);
    let updated = update_client_at(&mut store, 2u32, payload.clone(), T0 + 60);
    assert_eq!(
        updated,
        Ok(Event::ClientUpdated(2u32, b"chain-A".to_vec(), b"chain-A".to_vec(), 5))
    );
    let state = stored(&store, "chain-A").client.state.unwrap();
    assert_eq!(state.last_update, T0 + 60);
    assert_eq!(state.state.signed_header, payload.header.signed_header);
    assert_eq!(state.state.validators, payload.next_validator_set);
    let kept: tendermint::validator::Set = serde_json::from_slice(&state.state.validators).unwrap();
    assert_eq!(kept, fifth.next_validators);
    assert_eq!(kept.validators().len(), 3);
    assert_eq!(store.client_info(&b"chain-A".to_vec()).unwrap().last_block, 5);
    assert_eq!(store.clients(), &vec![b"chain-A".to_vec()]);

    let third = block("chain-A", 3, T0 + 55, &v2, &v2);
    let before = stored(&store, "chain-A");
    let lower = update_client_at(&mut store, 2u32, update_payload("chain-A", &third), T0 + 60);
    assert_eq!(lower, Err(Error::ValidationError));
    assert_eq!(stored(&store, "chain-A"), before);
    assert_eq!(store.client_info(&b"chain-A".to_vec()).unwrap().last_block, 5);
}

#[test]
fn update_to_the_next_height() {
    let v1 = validators(&["a", "b"]);
    let mut store = store_with_client("c");
    let second = block("chain-A", 2, T0 + 5, &v1, &v1);
    let updated = update_client_at(&mut store, 1u32, update_payload("c", &second), T0 + 20);
    assert_eq!(updated, Ok(Event::ClientUpdated(1u32, b"c".to_vec(), b"chain-A".to_vec(), 2)));
}

#[test]
fn create_and_update_at_the_time_of_the_call() {
    let now = Time::now().unix_timestamp();
    let v1 = validators(&["a", "b"]);
    let mut store = ClientStore::new();
    let genesis = block("chain-A", 1, now - 20, &v1, &v1);
    let created = init_client(&mut store, "alice", create_payload("c", &genesis));
    assert_eq!(created, Ok(Event::ClientCreated("alice", b"c".to_vec(), b"chain-A".to_vec(), 1)));
    let first_update = stored(&store, "c").client.state.unwrap().last_update;
    assert!(now <= first_update && first_update <= now + 5);

    let fourth = block("chain-A", 4, now - 10, &v1, &v1);
    let updated = update_client(&mut store, "bob", update_payload("c", &fourth));
    assert_eq!(updated, Ok(Event::ClientUpdated("bob", b"c".to_vec(), b"chain-A".to_vec(), 4)));
    let second_update = stored(&store, "c").client.state.unwrap().last_update;
    assert!(first_update <= second_update && second_update <= now + 5);
}

#[test]
fn second_create_with_the_same_identity_fails() {
    let v1 = validators(&["a", "b"]);
    let mut store = store_with_client("c");
    let before = stored(&store, "c");
    let info_before = store.client_info(&b"c".to_vec()).unwrap().clone();

    let other = block("chain-B", 9, T0 + 1, &v1, &v1);
    let again = init_client_at(&mut store, 1u32, create_payload("c", &other), T0 + 11);
    assert_eq!(again, Err(Error::ClientAlreadyInitialized));
    assert_eq!(stored(&store, "c"), before);
    assert_eq!(store.client_info(&b"c".to_vec()).unwrap(), &info_before);
    assert_eq!(store.clients(), &vec![b"c".to_vec()]);

    let mut garbage = create_payload("c", &other);
    garbage.header.signed_header = b"no header".to_vec();
    assert_eq!(
        init_client_at(&mut store, 1u32, garbage, T0 + 11),
        Err(Error::ClientAlreadyInitialized)
    );
}

#[test]
fn two_clients_are_listed_in_order() {
    let v1 = validators(&["a", "b"]);
    let mut store = store_with_client("first");
    let other = block("chain-B", 3, T0, &v1, &v1);
    let created = init_client_at(&mut store, 1u32, create_payload("second", &other), T0 + 10);
    assert_eq!(
        created,
        Ok(Event::ClientCreated(1u32, b"second".to_vec(), b"chain-B".to_vec(), 3))
    );
    assert_eq!(store.clients(), &vec![b"first".to_vec(), b"second".to_vec()]);
    assert_eq!(store.client_info(&b"first".to_vec()).unwrap().last_block, 1);
    assert_eq!(store.client_info(&b"second".to_vec()).unwrap().last_block, 3);
}

#[test]
fn create_with_an_undecodable_header_fails() {
    let v1 = validators(&["a", "b"]);
    let genesis = block("chain-A", 1, T0, &v1, &v1);
    let mut store = ClientStore::new();

    let mut payload = create_payload("c", &genesis);
    payload.header.signed_header = b"{\"header\": 1}".to_vec();
    assert_eq!(init_client_at(&mut store, 1u32, payload, T0), Err(Error::DeserializeError));

    let mut payload = create_payload("c", &genesis);
    payload.header.validator_set = Vec::new();
    assert_eq!(init_client_at(&mut store, 1u32, payload, T0), Err(Error::DeserializeError));

    assert!(!store.contains_key(&b"c".to_vec()));
    assert!(store.client_info(&b"c".to_vec()).is_none());
    assert!(store.clients().is_empty());
}

#[test]
fn create_with_a_foreign_validator_set_fails() {
    let v1 = validators(&["a", "b"]);
    let v3 = validators(&["x", "y"]);
    let genesis = block("chain-A", 1, T0, &v1, &v1);
    let foreign = block("chain-A", 1, T0, &v3, &v3);
    let mut payload = create_payload("c", &genesis);
    payload.header.validator_set = serde_json::to_vec(&foreign.validators).unwrap();
    let mut store = ClientStore::new();
    assert_eq!(init_client_at(&mut store, 1u32, payload, T0), Err(Error::ValidationError));
    assert!(!store.contains_key(&b"c".to_vec()));
    assert!(store.clients().is_empty());
}

#[test]
fn create_with_too_few_signatures_fails() {
    let v = validators(&["a", "b", "c"]);
    let mut genesis = block("chain-A", 1, T0, &v, &v);
    genesis.signed_header.commit.signatures[1] = CommitSig::BlockIdFlagAbsent;
    genesis.signed_header.commit.signatures[2] = CommitSig::BlockIdFlagAbsent;
    let mut store = ClientStore::new();
    assert_eq!(
        init_client_at(&mut store, 1u32, create_payload("c", &genesis), T0),
        Err(Error::ValidationError)
    );
    assert!(!store.contains_key(&b"c".to_vec()));
}

#[test]
fn update_of_an_unknown_client_is_not_found() {
    let v1 = validators(&["a", "b"]);
    let mut store = store_with_client("c");
    let before = stored(&store, "c");

    let fifth = block("chain-A", 5, T0 + 50, &v1, &v1);
    let valid = update_payload("nobody", &fifth);
    assert_eq!(update_client_at(&mut store, 1u32, valid, T0 + 60), Err(Error::ItemNotFound));

    let mut garbage = update_payload("nobody", &fifth);
    garbage.header.signed_header = b"garbage".to_vec();
    garbage.next_validator_set = Vec::new();
    assert_eq!(update_client_at(&mut store, 1u32, garbage, T0 + 60), Err(Error::ItemNotFound));

    let mut empty = ClientStore::new();
    let payload = update_payload("c", &fifth);
    assert_eq!(update_client_at(&mut empty, 1u32, payload, T0 + 60), Err(Error::ItemNotFound));

    assert_eq!(stored(&store, "c"), before);
    assert!(!store.contains_key(&b"nobody".to_vec()));
    assert_eq!(store.clients(), &vec![b"c".to_vec()]);
}

#[test]
fn update_without_enough_trusted_power_fails() {
    let v3 = validators(&["x", "y", "z"]);
    let mut store = store_with_client("c");
    let before = stored(&store, "c");

    let fifth = block("chain-A", 5, T0 + 50, &v3, &v3);
    let r = update_client_at(&mut store, 1u32, update_payload("c", &fifth), T0 + 60);
    assert_eq!(r, Err(Error::ValidationError));
    assert_eq!(stored(&store, "c"), before);
    assert_eq!(store.client_info(&b"c".to_vec()).unwrap().last_block, 1);
}

#[test]
fn update_with_a_third_of_the_trusted_power_needs_more() {
    // a, b and c carry 50 each; a alone is a third of the trusted power, and
    // the threshold asks for more than a third.
    let v1 = validators(&["a", "b", "c"]);
    let genesis = block("chain-A", 1, T0, &v1, &v1);
    let mut store = ClientStore::new();
    init_client_at(&mut store, 1u32, create_payload("c", &genesis), T0 + 10).unwrap();

    let one = validators(&["a", "x", "y"]);
    let fifth = block("chain-A", 5, T0 + 50, &one, &one);
    let r = update_client_at(&mut store, 1u32, update_payload("c", &fifth), T0 + 60);
    assert_eq!(r, Err(Error::ValidationError));

    let two = validators(&["a", "b", "x"]);
    let sixth = block("chain-A", 6, T0 + 50, &two, &two);
    let r = update_client_at(&mut store, 1u32, update_payload("c", &sixth), T0 + 60);
    assert_eq!(r, Ok(Event::ClientUpdated(1u32, b"c".to_vec(), b"chain-A".to_vec(), 6)));
}

#[test]
fn update_from_an_expired_state_fails() {
    let v1 = validators(&["a", "b"]);
    // trusting period 100, clock drift 10, stored at T0 + 10
    let mut store = store_with_client("c");
    let before = stored(&store, "c");

    let fifth = block("chain-A", 5, T0 + 50, &v1, &v1);
    let late = update_client_at(&mut store, 1u32, update_payload("c", &fifth), T0 + 10 + 111);
    assert_eq!(late, Err(Error::ValidationError));
    assert_eq!(stored(&store, "c"), before);

    let mut garbage = update_payload("c", &fifth);
    garbage.header.signed_header = b"garbage".to_vec();
    let late = update_client_at(&mut store, 1u32, garbage, T0 + 10 + 111);
    assert_eq!(late, Err(Error::ValidationError));
    assert_eq!(stored(&store, "c"), before);
}

#[test]
fn update_at_the_end_of_the_trust_window_goes_through() {
    // The header of the trusted state is from T0 + 20 and the state is stored
    // at T0 + 10: at T0 + 120 the state is 110 old, which the window of 110
    // still allows, and the header is 100 old.
    let v1 = validators(&["a", "b"]);
    let genesis = block("chain-A", 1, T0 + 20, &v1, &v1);
    let mut store = ClientStore::new();
    init_client_at(&mut store, 1u32, create_payload("c", &genesis), T0 + 10).unwrap();

    let fifth = block("chain-A", 5, T0 + 50, &v1, &v1);
    let r = update_client_at(&mut store, 1u32, update_payload("c", &fifth), T0 + 120);
    assert_eq!(r, Ok(Event::ClientUpdated(1u32, b"c".to_vec(), b"chain-A".to_vec(), 5)));
}

#[test]
fn update_from_a_header_outside_the_trust_window_fails() {
    // The state is young, but its header is older than the window of 110.
    let v1 = validators(&["a", "b"]);
    let genesis = block("chain-A", 1, T0 - 200, &v1, &v1);
    let mut store = ClientStore::new();
    init_client_at(&mut store, 1u32, create_payload("c", &genesis), T0).unwrap();
    let fifth = block("chain-A", 5, T0 - 5, &v1, &v1);
    let r = update_client_at(&mut store, 1u32, update_payload("c", &fifth), T0);
    assert_eq!(r, Err(Error::ValidationError));
}

#[test]
fn update_with_a_header_from_the_future_fails() {
    let v1 = validators(&["a", "b"]);
    let mut store = store_with_client("c");
    // the clock may drift by 10
    let ahead = block("chain-A", 5, T0 + 60 + 10, &v1, &v1);
    let r = update_client_at(&mut store, 1u32, update_payload("c", &ahead), T0 + 60);
    assert_eq!(r, Err(Error::ValidationError));
    let ahead = block("chain-A", 5, T0 + 60 + 9, &v1, &v1);
    let r = update_client_at(&mut store, 1u32, update_payload("c", &ahead), T0 + 60);
    assert_eq!(r, Ok(Event::ClientUpdated(1u32, b"c".to_vec(), b"chain-A".to_vec(), 5)));
}

#[test]
fn update_with_a_header_of_another_chain_fails() {
    let v1 = validators(&["a", "b"]);
    let mut store = store_with_client("c");
    let before = stored(&store, "c");
    let other = block("chain-B", 5, T0 + 50, &v1, &v1);
    let r = update_client_at(&mut store, 1u32, update_payload("c", &other), T0 + 60);
    assert_eq!(r, Err(Error::ValidationError));
    assert_eq!(stored(&store, "c"), before);
}

#[test]
fn update_with_the_same_height_fails() {
    let v1 = validators(&["a", "b"]);
    let mut store = store_with_client("c");
    let same = block("chain-A", 1, T0 + 50, &v1, &v1);
    let r = update_client_at(&mut store, 1u32, update_payload("c", &same), T0 + 60);
    assert_eq!(r, Err(Error::ValidationError));
}

#[test]
fn update_with_an_undecodable_payload_fails() {
    let v1 = validators(&["a", "b"]);
    let mut store = store_with_client("c");
    let before = stored(&store, "c");
    let fifth = block("chain-A", 5, T0 + 50, &v1, &v1);

    let mut payload = update_payload("c", &fifth);
    payload.header.signed_header = b"[]".to_vec();
    assert_eq!(update_client_at(&mut store, 1u32, payload, T0 + 60), Err(Error::DeserializeError));

    let mut payload = update_payload("c", &fifth);
    payload.header.validator_set = b"{".to_vec();
    assert_eq!(update_client_at(&mut store, 1u32, payload, T0 + 60), Err(Error::DeserializeError));

    let mut payload = update_payload("c", &fifth);
    payload.next_validator_set = b"null".to_vec();
    assert_eq!(update_client_at(&mut store, 1u32, payload, T0 + 60), Err(Error::DeserializeError));

    assert_eq!(stored(&store, "c"), before);
}

#[test]
fn update_with_a_next_validator_set_that_the_header_does_not_name_fails() {
    let v1 = validators(&["a", "b"]);
    let v3 = validators(&["x", "y"]);
    let mut store = store_with_client("c");
    let fifth = block("chain-A", 5, T0 + 50, &v1, &v1);
    let foreign = block("chain-A", 5, T0 + 50, &v3, &v3);
    let mut payload = update_payload("c", &fifth);
    payload.next_validator_set = serde_json::to_vec(&foreign.validators).unwrap();
    assert_eq!(update_client_at(&mut store, 1u32, payload, T0 + 60), Err(Error::ValidationError));
}

#[test]
fn update_of_a_client_without_a_state_is_an_internal_fault() {
    let v1 = validators(&["a", "b"]);
    let mut store = ClientStore::new();
    store.insert(b"c".to_vec(), TMClientStorageWrapper::default());
    let fifth = block("chain-A", 5, T0 + 50, &v1, &v1);
    let r = update_client_at(&mut store, 1u32, update_payload("c", &fifth), T0 + 60);
    assert_eq!(r, Err(Error::NoneValue));
    assert_eq!(stored(&store, "c"), TMClientStorageWrapper::default());
}

#[test]
fn update_from_a_state_that_does_not_decode_fails() {
    let v1 = validators(&["a", "b"]);
    let mut store = store_with_client("c");
    let mut broken = stored(&store, "c");
    broken.client.state.as_mut().unwrap().state.signed_header = b"lost".to_vec();
    store.insert(b"c".to_vec(), broken.clone());
    let fifth = block("chain-A", 5, T0 + 50, &v1, &v1);
    let r = update_client_at(&mut store, 1u32, update_payload("c", &fifth), T0 + 60);
    assert_eq!(r, Err(Error::ValidationError));
    assert_eq!(stored(&store, "c"), broken);
}

#[test]
fn successive_updates_move_the_height_up() {
    let v1 = validators(&["a", "b"]);
    let mut store = store_with_client("c");
    let mut last = 1;
    for (height, time) in [(2u64, 5i64), (7, 6), (8, 7), (30, 8)] {
        let next = block("chain-A", height, T0 + time, &v1, &v1);
        let r = update_client_at(&mut store, 1u32, update_payload("c", &next), T0 + 20);
        assert_eq!(r, Ok(Event::ClientUpdated(1u32, b"c".to_vec(), b"chain-A".to_vec(), height)));
        let now = store.client_info(&b"c".to_vec()).unwrap().last_block;
        assert!(now > last);
        last = now;
    }
    assert_eq!(last, 30);
}
