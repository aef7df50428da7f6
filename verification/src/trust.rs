//! The checks on headers. The cryptography is that of tendermint's
//! production verifier, which is called on what the JSON encodings decode
//! to; what it finds is named here and not defined.

use crate::error::Rejection;
use crate::threshold::is_threshold;
use crate::types::{
    trust_window, ConsensusState, ConsensusStateView, TMHeader, TendermintClient,
    TendermintClientView, TrustedState, TrustedStateView,
};
use core::time::Duration;
use serde_json::from_slice;
use tendermint_light_client::types::{
    LightBlock, PeerId, SignedHeader, Time, TrustThreshold, UntrustedBlockState, ValidatorSet,
};
use tendermint_light_client::verifier::options::Options;
use tendermint_light_client::verifier::{ProdVerifier, Verdict, Verifier};
use vstd::prelude::*;

verus! {

/// The largest height a header can have.
pub const MAX_HEIGHT: u64 = 0x7fff_ffff_ffff_ffff;

/// What a signed header says of itself: its chain and its height.
#[derive(Clone, Debug, PartialEq, Eq)]
pub struct HeaderInfo {
    pub chain_id: Vec<u8>,
    pub height: u64,
}

/// The chain identifier and the height of the signed header that `bytes`
/// are the JSON encoding of; `None` if they are not the encoding of one.
pub uninterp spec fn decoded_header(bytes: Seq<u8>) -> Option<(Seq<u8>, u64)>;

/// Whether `bytes` are the JSON encoding of a validator set.
pub uninterp spec fn is_validator_set(bytes: Seq<u8>) -> bool;

/// Whether both encodings decode and tendermint's production verifier finds
/// that the header commits to the validator set and the commit fits the
/// header.
pub uninterp spec fn validator_sets_match(signed_header: Seq<u8>, validators: Seq<u8>) -> bool;

/// Whether both encodings decode and tendermint's production verifier finds
/// valid signatures of more than two thirds of the validator set's voting
/// power on the header.
pub uninterp spec fn commit_has_quorum(signed_header: Seq<u8>, validators: Seq<u8>) -> bool;

/// The verdict of tendermint's production verifier on an update: `None`
/// where an encoding does not decode or the time is not one tendermint can
/// hold, else whether the verdict is success.
pub uninterp spec fn update_verdict(
    trusted_header: Seq<u8>,
    trusted_validators: Seq<u8>,
    signed_header: Seq<u8>,
    validators: Seq<u8>,
    next_validators: Seq<u8>,
    numerator: u64,
    denominator: u64,
    trusting_period: u64,
    clock_drift: u64,
    now: i64,
) -> Option<bool>;

/// Decodes a signed header with `serde_json::from_slice` and reads its chain
/// identifier and height. A height that tendermint decodes is at most
/// `MAX_HEIGHT`.
#[verifier::external_body]
fn decode_header(bytes: &Vec<u8>) -> (info: Option<HeaderInfo>)
    ensures
        match info {
            Some(i) => decoded_header(bytes@) == Some((i.chain_id@, i.height)) && i.height
                <= MAX_HEIGHT,
            None => decoded_header(bytes@) is None,
        },
{
    let header = from_slice::<SignedHeader>(bytes).ok()?.header;
    Some(HeaderInfo { chain_id: header.chain_id.as_bytes().to_vec(), height: header.height.value() })
}

/// Tries `serde_json::from_slice` on the encoding of a validator set.
#[verifier::external_body]
fn decodes_as_validator_set(bytes: &Vec<u8>) -> (ok: bool)
    ensures
        ok == is_validator_set(bytes@),
{
    from_slice::<ValidatorSet>(bytes).is_ok()
}

/// `PredicateVerifier::verify_validator_sets` of the production verifier, on
/// the decoded header and validator set and without a next validator set.
#[verifier::external_body]
fn verify_validator_sets(signed_header: &Vec<u8>, validators: &Vec<u8>) -> (ok: bool)
    ensures
        ok == validator_sets_match(signed_header@, validators@),
{
    let Ok(signed_header) = from_slice::<SignedHeader>(signed_header) else { return false };
    let Ok(validators) = from_slice::<ValidatorSet>(validators) else { return false };
    let untrusted = UntrustedBlockState {
        signed_header: &signed_header,
        validators: &validators,
        next_validators: None,
    };
    matches!(ProdVerifier::default().verify_validator_sets(&untrusted), Verdict::Success)
}

/// `PredicateVerifier::verify_commit` of the production verifier, on the
/// decoded header and validator set.
#[verifier::external_body]
fn verify_commit(signed_header: &Vec<u8>, validators: &Vec<u8>) -> (ok: bool)
    ensures
        ok == commit_has_quorum(signed_header@, validators@),
{
    let Ok(signed_header) = from_slice::<SignedHeader>(signed_header) else { return false };
    let Ok(validators) = from_slice::<ValidatorSet>(validators) else { return false };
    let untrusted = UntrustedBlockState {
        signed_header: &signed_header,
        validators: &validators,
        next_validators: None,
    };
    matches!(ProdVerifier::default().verify_commit(&untrusted), Verdict::Success)
}

/// `Verifier::verify_update_header` of the production verifier, on light
/// blocks made with `LightBlock::new` from what `serde_json::from_slice`
/// decodes. The trusted block is the trusted header with the trusted
/// validators, of which the verifier reads them as the next validator set;
/// the untrusted block is the header with its validator set and the next
/// one. The provider of a block is not read. The options are the threshold
/// from `TrustThreshold::new` and the two periods in seconds; the time is
/// `now` through `Time::from_unix_timestamp`. Where a conversion fails,
/// the verifier is not asked.
///
/// The verifier takes the successor of the trusted height, which does not
/// exist for `MAX_HEIGHT`, and multiplies voting powers by the threshold's
/// parts: the conditions keep both within bounds.
#[verifier::external_body]
fn verify_update_header(
    trusted_header: &Vec<u8>,
    trusted_validators: &Vec<u8>,
    signed_header: &Vec<u8>,
    validators: &Vec<u8>,
    next_validators: &Vec<u8>,
    numerator: u64,
    denominator: u64,
    trusting_period: u64,
    clock_drift: u64,
    now: i64,
) -> (accepted: Option<bool>)
    requires
        is_threshold(numerator, denominator),
        decoded_header(trusted_header@) matches Some(info) ==> info.1 < MAX_HEIGHT,
    ensures
        accepted == update_verdict(
            trusted_header@,
            trusted_validators@,
            signed_header@,
            validators@,
            next_validators@,
            numerator,
            denominator,
            trusting_period,
            clock_drift,
            now,
        ),
{
    let id = PeerId::new([0; 20]);
    let t = LightBlock::new(from_slice(trusted_header).ok()?, from_slice(trusted_validators).ok()?, from_slice(trusted_validators).ok()?, id);
    let u = LightBlock::new(from_slice(signed_header).ok()?, from_slice(validators).ok()?, from_slice(next_validators).ok()?, id);
    let options = Options { trust_threshold: TrustThreshold::new(numerator, denominator).ok()?, trusting_period: Duration::from_secs(trusting_period), clock_drift: Duration::from_secs(clock_drift) };
    let now = Time::from_unix_timestamp(now, 0).ok()?;
    let verdict = ProdVerifier::default().verify_update_header(u.as_untrusted_state(), t.as_trusted_state(), &options, now);
    Some(matches!(verdict, Verdict::Success))
}

/// What `decoded_header` holds where decoding gave `info`.
pub open spec fn info_view(info: Option<HeaderInfo>) -> Option<(Seq<u8>, u64)> {
    match info {
        Some(i) => Some((i.chain_id@, i.height)),
        None => None,
    }
}

/// What `initial_validity` holds where validation gave `r`.
pub open spec fn validity_view(r: Result<HeaderInfo, Rejection>) -> Result<
    (Seq<u8>, u64),
    Rejection,
> {
    match r {
        Ok(info) => Ok((info.chain_id@, info.height)),
        Err(e) => Err(e),
    }
}

/// The view of an accepted state, or the rejection.
pub open spec fn outcome_view(r: Result<TrustedState, Rejection>) -> Result<
    TrustedStateView,
    Rejection,
> {
    match r {
        Ok(state) => Ok(state@),
        Err(e) => Err(e),
    }
}

/// The view of an accepted state with the height of its header, or the
/// rejection.
pub open spec fn transition_view(r: Result<(TrustedState, u64), Rejection>) -> Result<
    (TrustedStateView, u64),
    Rejection,
> {
    match r {
        Ok(accepted) => Ok((accepted.0@, accepted.1)),
        Err(e) => Err(e),
    }
}

/// The judgement on an initial header from its four checks: it has to
/// decode with its validator set, commit to that set, and carry its quorum.
/// A header that passes is judged by what it says of itself.
pub open spec fn initial_judgement(
    header: Option<(Seq<u8>, u64)>,
    validators_decode: bool,
    sets_match: bool,
    quorum: bool,
) -> Result<(Seq<u8>, u64), Rejection> {
    match header {
        None => Err(Rejection::Undecodable),
        Some(info) => if !validators_decode {
            Err(Rejection::Undecodable)
        } else if !sets_match {
            Err(Rejection::InvalidValidatorSets)
        } else if !quorum {
            Err(Rejection::InvalidCommit)
        } else {
            Ok(info)
        },
    }
}

/// Whether a header and its validator set can start a client, and if so,
/// the chain and the height of the header.
pub open spec fn initial_validity(signed_header: Seq<u8>, validators: Seq<u8>) -> Result<
    (Seq<u8>, u64),
    Rejection,
> {
    initial_judgement(
        decoded_header(signed_header),
        is_validator_set(validators),
        validator_sets_match(signed_header, validators),
        commit_has_quorum(signed_header, validators),
    )
}

/// Whether a state stored at `last_update` is too old at `now` to anchor an
/// update: its age is above the trusting period and the clock drift
/// together.
pub open spec fn expired(
    last_update: i64,
    trusting_period: u64,
    max_clock_drift: u64,
    now: i64,
) -> bool {
    now - last_update > trusting_period + max_clock_drift
}

/// What is decided of an update before the verifier is asked: the trusted
/// state must not have expired, the payload has to decode, and the header
/// has to be above the trusted one. A header that passes is given by its
/// height.
pub open spec fn transition_precheck(
    is_expired: bool,
    validators_decode: bool,
    trusted: Option<(Seq<u8>, u64)>,
    candidate: Option<(Seq<u8>, u64)>,
) -> Result<u64, Rejection> {
    if is_expired {
        Err(Rejection::Expired)
    } else {
        match (candidate, trusted) {
            (None, _) => Err(Rejection::Undecodable),
            (Some(_), _) if !validators_decode => Err(Rejection::Undecodable),
            (Some(_), None) => Err(Rejection::Untrusted),
            (Some(c), Some(t)) => if c.1 <= t.1 {
                Err(Rejection::NonIncreasingHeight)
            } else {
                Ok(c.1)
            },
        }
    }
}

/// The outcome for a verdict on a header: on success the header becomes the
/// trusted one, with the next validator set as the set to back its successor.
pub open spec fn transition_conclusion(
    accepted: Option<bool>,
    signed_header: Seq<u8>,
    next_validators: Seq<u8>,
) -> Result<TrustedStateView, Rejection> {
    if accepted == Some(true) {
        Ok(TrustedStateView { signed_header, validators: next_validators })
    } else {
        Err(Rejection::Untrusted)
    }
}

/// The outcome of an update of `client`, whose state is `trusted`, at `now`:
/// the new trusted state with the height of its header, or the rejection.
/// The verifier gets the client's threshold, its trust window as the
/// trusting period and its clock drift. A client without a trust window has
/// nothing to hand to the verifier, and no header is linked to its state.
pub open spec fn transition_result(
    client: TendermintClientView,
    trusted: ConsensusStateView,
    signed_header: Seq<u8>,
    validators: Seq<u8>,
    next_validators: Seq<u8>,
    now: i64,
) -> Result<(TrustedStateView, u64), Rejection> {
    let precheck = transition_precheck(
        expired(trusted.last_update, client.trusting_period, client.max_clock_drift, now),
        is_validator_set(validators) && is_validator_set(next_validators),
        decoded_header(trusted.state.signed_header),
        decoded_header(signed_header),
    );
    match (precheck, trust_window(client.trusting_period, client.max_clock_drift)) {
        (Err(e), _) => Err(e),
        (Ok(_), None) => Err(Rejection::Untrusted),
        (Ok(height), Some(window)) => match transition_conclusion(
            update_verdict(
                trusted.state.signed_header,
                trusted.state.validators,
                signed_header,
                validators,
                next_validators,
                client.trust_threshold.numerator(),
                client.trust_threshold.denominator(),
                window,
                client.max_clock_drift,
                now,
            ),
            signed_header,
            next_validators,
        ) {
            Ok(state) => Ok((state, height)),
            Err(e) => Err(e),
        },
    }
}

/// Judges an initial header from the results of the four checks.
pub fn judge_initial(
    header: Option<HeaderInfo>,
    validators_decode: bool,
    sets_match: bool,
    quorum: bool,
) -> (r: Result<HeaderInfo, Rejection>)
    ensures
        validity_view(r) == initial_judgement(
            info_view(header),
            validators_decode,
            sets_match,
            quorum,
        ),
{
    let Some(info) = header else {
        return Err(Rejection::Undecodable);
    };
    if !validators_decode {
        Err(Rejection::Undecodable)
    } else if !sets_match {
        Err(Rejection::InvalidValidatorSets)
    } else if !quorum {
        Err(Rejection::InvalidCommit)
    } else {
        Ok(info)
    }
}

/// Checks that a header and its validator set can start a client, and
/// gives what the header says of itself. A check is only made where the
/// ones before it passed.
pub fn validate_initial(header: &TMHeader) -> (r: Result<HeaderInfo, Rejection>)
    ensures
        validity_view(r) == initial_validity(header.signed_header@, header.validator_set@),
{
    let info = decode_header(&header.signed_header);
    let validators_decode = info.is_some() && decodes_as_validator_set(&header.validator_set);
    let sets_match = validators_decode && verify_validator_sets(
        &header.signed_header,
        &header.validator_set,
    );
    let quorum = sets_match && verify_commit(&header.signed_header, &header.validator_set);
    judge_initial(info, validators_decode, sets_match, quorum)
}

/// Whether a state stored at `last_update` has expired at `now`.
pub fn is_expired(last_update: i64, trusting_period: u64, max_clock_drift: u64, now: i64) -> (r:
    bool)
    ensures
        r == expired(last_update, trusting_period, max_clock_drift, now),
{
    let age: i128 = now as i128 - last_update as i128;
    let window: i128 = trusting_period as i128 + max_clock_drift as i128;
    age > window
}

/// Decides what can be decided of an update before the verifier is asked.
pub fn precheck_transition(
    is_expired: bool,
    validators_decode: bool,
    trusted: &Option<HeaderInfo>,
    candidate: &Option<HeaderInfo>,
) -> (r: Result<u64, Rejection>)
    ensures
        r == transition_precheck(
            is_expired,
            validators_decode,
            info_view(*trusted),
            info_view(*candidate),
        ),
{
    if is_expired {
        return Err(Rejection::Expired);
    }
    let Some(candidate) = candidate else {
        return Err(Rejection::Undecodable);
    };
    if !validators_decode {
        return Err(Rejection::Undecodable);
    }
    let Some(trusted) = trusted else {
        return Err(Rejection::Untrusted);
    };
    if candidate.height <= trusted.height {
        return Err(Rejection::NonIncreasingHeight);
    }
    Ok(candidate.height)
}

/// Turns the verifier's verdict on a header into the new trusted state.
pub fn conclude_transition(
    accepted: Option<bool>,
    signed_header: &Vec<u8>,
    next_validators: &Vec<u8>,
) -> (r: Result<TrustedState, Rejection>)
    ensures
        outcome_view(r) == transition_conclusion(accepted, signed_header@, next_validators@),
{
    match accepted {
        Some(true) => Ok(
            TrustedState {
                signed_header: signed_header.clone(),
                validators: next_validators.clone(),
            },
        ),
        _ => Err(Rejection::Untrusted),
    }
}

/// Tries to move `client`, whose state is `trusted`, to a new header at
/// `now`, and gives the new trusted state with the height of its header.
/// The verifier is only asked where the checks before it passed.
pub fn verify_transition(
    client: &TendermintClient,
    trusted: &ConsensusState,
    header: &TMHeader,
    next_validators: &Vec<u8>,
    now: i64,
) -> (r: Result<(TrustedState, u64), Rejection>)
    ensures
        transition_view(r) == transition_result(
            client@,
            trusted@,
            header.signed_header@,
            header.validator_set@,
            next_validators@,
            now,
        ),
{
    let stale = is_expired(trusted.last_update, client.trusting_period, client.max_clock_drift, now);
    let candidate = if stale {
        None
    } else {
        decode_header(&header.signed_header)
    };
    let validators_decode = candidate.is_some() && decodes_as_validator_set(&header.validator_set)
        && decodes_as_validator_set(next_validators);
    let trusted_info = if validators_decode {
        decode_header(&trusted.state.signed_header)
    } else {
        None
    };
    match (
        precheck_transition(stale, validators_decode, &trusted_info, &candidate),
        client.trust_window(),
    ) {
        (Err(e), _) => Err(e),
        (Ok(_), None) => Err(Rejection::Untrusted),
        (Ok(height), Some(window)) => {
            let accepted = verify_update_header(
                &trusted.state.signed_header,
                &trusted.state.validators,
                &header.signed_header,
                &header.validator_set,
                next_validators,
                client.trust_threshold.numerator(),
                client.trust_threshold.denominator(),
                window,
                client.max_clock_drift,
                now,
            );
            match conclude_transition(accepted, &header.signed_header, next_validators) {
                Ok(state) => Ok((state, height)),
                Err(e) => Err(e),
            }
        },
    }
}

} // verus!
