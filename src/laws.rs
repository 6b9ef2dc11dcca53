//! Properties that hold of every input, proved over the contracts' models.
use vstd::prelude::*;

use crate::account::{auth_outcome, Account, AccountError, Signature, SignatureCheck};
use crate::upgrade::{upgrade_outcome, UpgradeError};
use crate::web_auth::{account_arg, arg_value, web_auth_outcome, WebAuthError};

verus! {

/// A single-signature bundle whose key is not trusted is rejected as an unknown
/// signer, whatever the digest and the signature bytes.
pub proof fn unknown_key_is_rejected(
    signers: Set<[u8; 32]>,
    payload: [u8; 32],
    key: [u8; 32],
    signature: [u8; 64],
)
    requires
        !signers.contains(key),
    ensures
        auth_outcome(signers, payload, seq![Signature { public_key: key, signature }])
            == Err::<SignatureCheck, AccountError>(AccountError::UnknownSigner),
{
}

/// A bundle of two or more signatures is rejected for its size, whatever keys
/// it names: the registry is never consulted for it.
pub proof fn oversized_bundle_is_rejected(
    signers: Set<[u8; 32]>,
    payload: [u8; 32],
    signatures: Seq<Signature>,
)
    requires
        signatures.len() >= 2,
    ensures
        auth_outcome(signers, payload, signatures) == Err::<SignatureCheck, AccountError>(
            AccountError::TooManySignatures,
        ),
        forall|other: Set<[u8; 32]>| #[trigger]
            auth_outcome(other, payload, signatures) == auth_outcome(signers, payload, signatures),
{
}

/// A single signature under a trusted key is accepted exactly when the host's
/// Ed25519 check of that very key, digest and signature holds: the check handed
/// back carries them unchanged, so two signatures that differ in any bit give
/// two different checks.
pub proof fn trusted_key_defers_to_signature_check(
    signers: Set<[u8; 32]>,
    payload: [u8; 32],
    key: [u8; 32],
    first: [u8; 64],
    second: [u8; 64],
)
    requires
        signers.contains(key),
    ensures
        auth_outcome(signers, payload, seq![Signature { public_key: key, signature: first }])
            == Ok::<SignatureCheck, AccountError>(
            SignatureCheck { public_key: key, payload, signature: first },
        ),
        (auth_outcome(signers, payload, seq![Signature { public_key: key, signature: first }])
            == auth_outcome(signers, payload, seq![Signature { public_key: key, signature: second }]))
            <==> first == second,
{
}

/// An upgrade on storage without an admin fails, and an upgrade that goes
/// ahead always demands the stored admin's authorization bound to that very
/// code hash, whatever was authorized before.
pub proof fn upgrade_is_gated_by_admin(admin: Option<Seq<char>>, new_wasm_hash: [u8; 32])
    ensures
        admin is None ==> upgrade_outcome(admin, new_wasm_hash) == Err::<
            (Seq<char>, [u8; 32]),
            UpgradeError,
        >(UpgradeError::NotInitialized),
        admin is Some ==> upgrade_outcome(admin, new_wasm_hash) == Ok::<
            (Seq<char>, [u8; 32]),
            UpgradeError,
        >((admin->Some_0, new_wasm_hash)),
{
}

/// A request without an `account` argument fails with `MissingArgument` before
/// any principal is asked for authorization, whatever else it holds.
pub proof fn missing_account_demands_nothing(args: Seq<(String, String)>)
    requires
        arg_value(args, account_arg()) is None,
    ensures
        web_auth_outcome(args) == (
            Seq::<Seq<char>>::empty(),
            Err::<(), WebAuthError>(WebAuthError::MissingArgument),
        ),
{
    assert(web_auth_outcome(args).0 =~= Seq::<Seq<char>>::empty());
}

/// Deciding twice on the same digest and bundle gives the same outcome as
/// long as the trusted keys are the same: the decision depends on nothing else
/// of the account, and deciding changes nothing of it.
pub proof fn check_auth_is_repeatable(
    before: &Account,
    after: &Account,
    payload: [u8; 32],
    signatures: Seq<Signature>,
)
    requires
        before.signers() == after.signers(),
    ensures
        auth_outcome(before.signers(), payload, signatures) == auth_outcome(
            after.signers(),
            payload,
            signatures,
        ),
{
}

} // verus!
