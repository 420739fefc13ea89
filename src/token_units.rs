use vstd::prelude::*;

verus! {

/// Yocto units in one whole token.
pub open spec fn yocto_per_token() -> int {
    1_000_000_000_000_000_000_000_000
}

/// Relies on `near_sdk::NearToken::from_near` followed by `NearToken::as_yoctonear`:
/// `n` whole tokens are `n` times `yocto_per_token()` yocto units. `from_near`
/// multiplies without a check, so `n` is bounded.
#[verifier::external_body]
pub(crate) fn whole_to_yocto(n: u128) -> (r: u128)
    requires
        n * yocto_per_token() <= u128::MAX,
    ensures
        r == n * yocto_per_token(),
{
    near_sdk::NearToken::from_near(n).as_yoctonear()
}

} // verus!
