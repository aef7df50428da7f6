//! Trust thresholds.

use tendermint_light_client::types::TrustThreshold;
use vstd::prelude::*;

verus! {

/// The largest total voting power that a validator set can carry:
/// `Set::MAX_TOTAL_VOTING_POWER` of tendermint, an eighth of `i64::MAX`.
pub const MAX_TOTAL_VOTING_POWER: u64 = 0x0fff_ffff_ffff_ffff;

/// The largest denominator of a trust threshold. With it, neither side of
/// `signed * denominator > total * numerator` leaves `u64` for powers up to
/// `MAX_TOTAL_VOTING_POWER`.
pub const MAX_DENOMINATOR: u64 = 16;

/// Whether `numerator / denominator` is a trust threshold: a fraction of at
/// least one third and at most one, with a denominator within bounds.
pub open spec fn is_threshold(numerator: u64, denominator: u64) -> bool {
    &&& 0 < denominator <= MAX_DENOMINATOR
    &&& numerator <= denominator
    &&& denominator <= 3 * numerator
}

/// The fraction of a trusted validator set's voting power that has to sign a
/// new header for it to be accepted.
#[derive(Clone, Copy, Debug, PartialEq, Eq)]
pub struct TrustThresholdFraction {
    numerator: u64,
    denominator: u64,
}

/// `TrustThresholdFraction::default()` of tendermint, as numerator and
/// denominator. It is the constant `ONE_THIRD`.
#[verifier::external_body]
fn default_fraction() -> (r: (u64, u64))
    ensures
        r == (1u64, 3u64),
{
    let threshold = TrustThreshold::default();
    (threshold.numerator(), threshold.denominator())
}

impl TrustThresholdFraction {
    /// Numerator and denominator make a threshold.
    #[verifier::type_invariant]
    spec fn well_formed(self) -> bool {
        is_threshold(self.numerator, self.denominator)
    }

    /// The numerator.
    pub closed spec fn spec_numerator(&self) -> u64 {
        self.numerator
    }

    /// The denominator.
    pub closed spec fn spec_denominator(&self) -> u64 {
        self.denominator
    }

    /// The threshold of one third.
    pub closed spec fn one_third() -> TrustThresholdFraction {
        TrustThresholdFraction { numerator: 1, denominator: 3 }
    }

    /// One third has the numerator 1 and the denominator 3.
    pub proof fn lemma_one_third()
        ensures
            Self::one_third().numerator() == 1,
            Self::one_third().denominator() == 3,
    {
    }

    /// The threshold `numerator / denominator`, if that is one.
    pub fn new(numerator: u64, denominator: u64) -> (r: Option<Self>)
        ensures
            r is Some <==> is_threshold(numerator, denominator),
            r matches Some(t) ==> t.numerator() == numerator && t.denominator() == denominator,
    {
        if denominator == 0 || denominator > MAX_DENOMINATOR || numerator > denominator {
            return None;
        }
        if 3 * numerator < denominator {
            return None;
        }
        Some(TrustThresholdFraction { numerator, denominator })
    }

    /// The numerator. It is part of a fraction that is a threshold.
    #[verifier::when_used_as_spec(spec_numerator)]
    pub fn numerator(&self) -> (r: u64)
        ensures
            r == self.numerator(),
            is_threshold(r, self.denominator()),
    {
        proof {
            use_type_invariant(self);
        }
        self.numerator
    }

    /// The denominator. It is part of a fraction that is a threshold.
    #[verifier::when_used_as_spec(spec_denominator)]
    pub fn denominator(&self) -> (r: u64)
        ensures
            r == self.denominator(),
            is_threshold(self.numerator(), r),
    {
        proof {
            use_type_invariant(self);
        }
        self.denominator
    }
}

impl Default for TrustThresholdFraction {
    /// One third: at least one honest validator signed.
    fn default() -> (r: Self)
        ensures
            r == TrustThresholdFraction::one_third(),
            r.numerator() == 1,
            r.denominator() == 3,
    {
        let (numerator, denominator) = default_fraction();
        TrustThresholdFraction { numerator, denominator }
    }
}

} // verus!
