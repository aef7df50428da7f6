//! The payloads of the requests, the client and its summary.

use crate::threshold::TrustThresholdFraction;
use vstd::prelude::*;

verus! {

/// A signed header and the validator set that signed it, each as the JSON
/// encoding of the tendermint type.
#[derive(Debug, PartialEq, Eq)]
pub struct TMHeader {
    pub signed_header: Vec<u8>,
    pub validator_set: Vec<u8>,
}

/// What a request to create a client carries.
#[derive(Debug, PartialEq, Eq)]
pub struct TMCreateClientPayload {
    pub header: TMHeader,
    pub trusting_period: u64,
    pub max_clock_drift: u64,
    pub unbonding_period: u64,
    pub client_id: Vec<u8>,
}

/// What a request to update a client carries. `next_validator_set` is the
/// JSON encoding of the set that the header names as its successor.
#[derive(Debug, PartialEq, Eq)]
pub struct TMUpdateClientPayload {
    pub header: TMHeader,
    pub client_id: Vec<u8>,
    pub next_validator_set: Vec<u8>,
}

/// A header that was accepted, and the validator set whose voting power
/// has to back the next one.
#[derive(Debug, PartialEq, Eq)]
pub struct TrustedState {
    pub signed_header: Vec<u8>,
    pub validators: Vec<u8>,
}

/// The trusted state of a client and the time, in seconds since the Unix
/// epoch, at which it was stored.
#[derive(Debug, PartialEq, Eq)]
pub struct ConsensusState {
    pub state: TrustedState,
    pub last_update: i64,
}

/// A client: its identifier, the chain it follows, its trust parameters and
/// its consensus state. Periods are in seconds.
#[derive(Debug, PartialEq, Eq)]
pub struct TendermintClient {
    pub state: Option<ConsensusState>,
    pub client_id: Vec<u8>,
    pub chain_id: Vec<u8>,
    pub trusting_period: u64,
    pub max_clock_drift: u64,
    pub unbonding_period: u64,
    pub trust_threshold: TrustThresholdFraction,
}

/// The summary of a client that is kept beside it: its parameters and the
/// height of the last header it accepted.
#[derive(Debug, PartialEq, Eq)]
pub struct TMClientInfo {
    pub chain_id: Vec<u8>,
    pub trusting_period: u64,
    pub max_clock_drift: u64,
    pub unbonding_period: u64,
    pub last_block: u64,
}

/// A client as the store holds it.
#[derive(Debug, PartialEq, Eq)]
pub struct TMClientStorageWrapper {
    pub client: TendermintClient,
}

/// A trusted state as the byte strings it holds.
pub struct TrustedStateView {
    pub signed_header: Seq<u8>,
    pub validators: Seq<u8>,
}

/// A consensus state with its trusted state as byte strings.
pub struct ConsensusStateView {
    pub state: TrustedStateView,
    pub last_update: i64,
}

/// A client with its identifiers and its state as byte strings.
pub struct TendermintClientView {
    pub state: Option<ConsensusStateView>,
    pub client_id: Seq<u8>,
    pub chain_id: Seq<u8>,
    pub trusting_period: u64,
    pub max_clock_drift: u64,
    pub unbonding_period: u64,
    pub trust_threshold: TrustThresholdFraction,
}

/// A summary with its chain identifier as a byte string.
pub struct TMClientInfoView {
    pub chain_id: Seq<u8>,
    pub trusting_period: u64,
    pub max_clock_drift: u64,
    pub unbonding_period: u64,
    pub last_block: u64,
}

impl View for TrustedState {
    type V = TrustedStateView;

    open spec fn view(&self) -> TrustedStateView {
        TrustedStateView { signed_header: self.signed_header@, validators: self.validators@ }
    }
}

impl View for ConsensusState {
    type V = ConsensusStateView;

    open spec fn view(&self) -> ConsensusStateView {
        ConsensusStateView { state: self.state@, last_update: self.last_update }
    }
}

impl View for TendermintClient {
    type V = TendermintClientView;

    open spec fn view(&self) -> TendermintClientView {
        TendermintClientView {
            state: match self.state {
                Some(state) => Some(state@),
                None => None,
            },
            client_id: self.client_id@,
            chain_id: self.chain_id@,
            trusting_period: self.trusting_period,
            max_clock_drift: self.max_clock_drift,
            unbonding_period: self.unbonding_period,
            trust_threshold: self.trust_threshold,
        }
    }
}

impl View for TMClientInfo {
    type V = TMClientInfoView;

    open spec fn view(&self) -> TMClientInfoView {
        TMClientInfoView {
            chain_id: self.chain_id@,
            trusting_period: self.trusting_period,
            max_clock_drift: self.max_clock_drift,
            unbonding_period: self.unbonding_period,
            last_block: self.last_block,
        }
    }
}

impl View for TMClientStorageWrapper {
    type V = TendermintClientView;

    open spec fn view(&self) -> TendermintClientView {
        self.client@
    }
}

/// The trusting period that a client hands to the verifier: its own trusting
/// period and the clock drift it allows, together, where that is a number
/// of seconds that `u64` holds.
pub open spec fn trust_window(trusting_period: u64, max_clock_drift: u64) -> Option<u64> {
    if trusting_period + max_clock_drift <= u64::MAX {
        Some((trusting_period + max_clock_drift) as u64)
    } else {
        None
    }
}

/// What a client's summary holds when `last_block` is the height of its
/// trusted header.
pub open spec fn summary_of(client: TendermintClientView, last_block: u64) -> TMClientInfoView {
    TMClientInfoView {
        chain_id: client.chain_id,
        trusting_period: client.trusting_period,
        max_clock_drift: client.max_clock_drift,
        unbonding_period: client.unbonding_period,
        last_block,
    }
}

impl Clone for TMHeader {
    fn clone(&self) -> (r: Self)
        ensures
            r.signed_header@ == self.signed_header@,
            r.validator_set@ == self.validator_set@,
    {
        TMHeader {
            signed_header: self.signed_header.clone(),
            validator_set: self.validator_set.clone(),
        }
    }
}

impl Clone for TMCreateClientPayload {
    fn clone(&self) -> (r: Self)
        ensures
            r.header.signed_header@ == self.header.signed_header@,
            r.header.validator_set@ == self.header.validator_set@,
            r.trusting_period == self.trusting_period,
            r.max_clock_drift == self.max_clock_drift,
            r.unbonding_period == self.unbonding_period,
            r.client_id@ == self.client_id@,
    {
        TMCreateClientPayload {
            header: self.header.clone(),
            trusting_period: self.trusting_period,
            max_clock_drift: self.max_clock_drift,
            unbonding_period: self.unbonding_period,
            client_id: self.client_id.clone(),
        }
    }
}

impl Clone for TMUpdateClientPayload {
    fn clone(&self) -> (r: Self)
        ensures
            r.header.signed_header@ == self.header.signed_header@,
            r.header.validator_set@ == self.header.validator_set@,
            r.client_id@ == self.client_id@,
            r.next_validator_set@ == self.next_validator_set@,
    {
        TMUpdateClientPayload {
            header: self.header.clone(),
            client_id: self.client_id.clone(),
            next_validator_set: self.next_validator_set.clone(),
        }
    }
}

impl Clone for TrustedState {
    fn clone(&self) -> (r: Self)
        ensures
            r@ == self@,
    {
        TrustedState {
            signed_header: self.signed_header.clone(),
            validators: self.validators.clone(),
        }
    }
}

impl Clone for ConsensusState {
    fn clone(&self) -> (r: Self)
        ensures
            r@ == self@,
    {
        ConsensusState { state: self.state.clone(), last_update: self.last_update }
    }
}

impl Clone for TendermintClient {
    fn clone(&self) -> (r: Self)
        ensures
            r@ == self@,
    {
        let state = match &self.state {
            Some(state) => Some(state.clone()),
            None => None,
        };
        TendermintClient {
            state,
            client_id: self.client_id.clone(),
            chain_id: self.chain_id.clone(),
            trusting_period: self.trusting_period,
            max_clock_drift: self.max_clock_drift,
            unbonding_period: self.unbonding_period,
            trust_threshold: self.trust_threshold,
        }
    }
}

impl Clone for TMClientInfo {
    fn clone(&self) -> (r: Self)
        ensures
            r@ == self@,
    {
        TMClientInfo {
            chain_id: self.chain_id.clone(),
            trusting_period: self.trusting_period,
            max_clock_drift: self.max_clock_drift,
            unbonding_period: self.unbonding_period,
            last_block: self.last_block,
        }
    }
}

impl Clone for TMClientStorageWrapper {
    fn clone(&self) -> (r: Self)
        ensures
            r@ == self@,
    {
        TMClientStorageWrapper { client: self.client.clone() }
    }
}

impl TendermintClient {
    /// The trusting period that this client hands to the verifier, if it
    /// has one.
    pub fn trust_window(&self) -> (window: Option<u64>)
        ensures
            window == trust_window(self.trusting_period, self.max_clock_drift),
    {
        self.trusting_period.checked_add(self.max_clock_drift)
    }
}

impl Default for TendermintClient {
    /// A client without a state: a trusting period of one day, a clock drift
    /// of thirty seconds, an unbonding period of three weeks and a trust
    /// threshold of one third.
    fn default() -> (r: Self)
        ensures
            r@.state is None,
            r@.client_id == Seq::<u8>::empty(),
            r@.chain_id == Seq::<u8>::empty(),
            r.trusting_period == 86400,
            r.max_clock_drift == 30,
            r.unbonding_period == 1814400,
            r.trust_threshold == TrustThresholdFraction::one_third(),
    {
        TendermintClient {
            state: None,
            client_id: Vec::new(),
            chain_id: Vec::new(),
            trusting_period: 86400,
            max_clock_drift: 30,
            unbonding_period: 86400 * 7 * 3,
            trust_threshold: TrustThresholdFraction::default(),
        }
    }
}

impl Default for TMClientInfo {
    fn default() -> (r: Self)
        ensures
            r@ == (TMClientInfoView {
                chain_id: Seq::<u8>::empty(),
                trusting_period: 0,
                max_clock_drift: 0,
                unbonding_period: 0,
                last_block: 0,
            }),
    {
        TMClientInfo {
            chain_id: Vec::new(),
            trusting_period: 0,
            max_clock_drift: 0,
            unbonding_period: 0,
            last_block: 0,
        }
    }
}

impl Default for TMClientStorageWrapper {
    fn default() -> (r: Self)
        ensures
            r@.state is None,
            r@.client_id == Seq::<u8>::empty(),
            r@.chain_id == Seq::<u8>::empty(),
            r@.trusting_period == 86400,
            r@.max_clock_drift == 30,
            r@.unbonding_period == 1814400,
            r@.trust_threshold == TrustThresholdFraction::one_third(),
    {
        TMClientStorageWrapper { client: TendermintClient::default() }
    }
}

impl TMClientInfo {
    /// The summary of `client` when `last_block` is the height of its trusted
    /// header.
    pub fn of(client: &TendermintClient, last_block: u64) -> (info: Self)
        ensures
            info@ == summary_of(client@, last_block),
    {
        TMClientInfo {
            chain_id: client.chain_id.clone(),
            trusting_period: client.trusting_period,
            max_clock_drift: client.max_clock_drift,
            unbonding_period: client.unbonding_period,
            last_block,
        }
    }
}

} // verus!
