//! What the library asks of the NEAR host about the call that is running: the
//! random seed of the block, the signer, and the deposit attached.
//!
//! Every contract in this file is believed, not proved. What the host hands
//! back depends on the call that is running, so nothing is claimed of it but
//! what holds of every call.

use near_sdk::AccountId;
use vstd::prelude::*;

verus! {

/// `near_sdk::AccountId`, carried as an opaque value.
#[verifier::external_type_specification]
#[verifier::external_body]
pub struct ExAccountId(near_sdk::AccountId);

/// `near_sdk::env::random_seed`: the random seed of the current block, which
/// is 32 bytes long. Which bytes they are is the host's choice.
#[verifier::external_body]
pub(crate) fn random_seed() -> (seed: Vec<u8>)
    ensures
        seed@.len() == 32,
{
    near_sdk::env::random_seed()
}

/// `near_sdk::env::signer_account_id`: the account that signed the
/// transaction that led to this call. Nothing is claimed of which it is. The
/// host answers this in every call that may change state, as a sale is.
#[verifier::external_body]
pub(crate) fn signer_account_id() -> AccountId {
    near_sdk::env::signer_account_id()
}

/// `near_sdk::env::attached_deposit`: the value attached to this call, in
/// yoctoNEAR as `NearToken::as_yoctonear` gives it. Nothing is claimed of the
/// amount.
#[verifier::external_body]
pub(crate) fn attached_deposit() -> u128 {
    near_sdk::env::attached_deposit().as_yoctonear()
}

} // verus!
