//! The account: a key registry, an admin principal, the signature policy that
//! decides whether an action is authorized, and the upgrade gate.
use vstd::prelude::*;

use crate::upgrade::{
    plan_upgrade, plan_view, string_option_view, upgrade_outcome, UpgradeError, UpgradePlan,
};

verus! {

broadcast use vstd::array::group_array_axioms;

/// A key of the account's persisted storage.
#[derive(Clone, Copy, Debug, PartialEq, Eq)]
pub enum DataKey {
    /// The admin principal.
    Admin,
    /// The presence marker of a trusted 32-byte public key.
    Signer([u8; 32]),
}

/// One element of a signature bundle: a public key and a 64-byte signature
/// that is claimed to be made with it.
#[derive(Clone, Copy, Debug, PartialEq, Eq)]
pub struct Signature {
    pub public_key: [u8; 32],
    pub signature: [u8; 64],
}

/// A typed rejection of an authorization attempt.
#[derive(Clone, Copy, Debug, PartialEq, Eq, Structural)]
pub enum AccountError {
    /// The bundle names a key that is not in the registry.
    UnknownSigner,
    /// The bundle holds more than one signature.
    TooManySignatures,
}

impl AccountError {
    /// The error's code at the host boundary.
    pub fn code(&self) -> (r: u32)
        ensures
            r == match *self {
                AccountError::UnknownSigner => 1u32,
                AccountError::TooManySignatures => 2u32,
            },
    {
        match self {
            AccountError::UnknownSigner => 1,
            AccountError::TooManySignatures => 2,
        }
    }
}

/// The cryptographic check that the host still owes before an authorization is
/// accepted: `signature` must be a valid Ed25519 signature of `payload` under
/// `public_key`. A mismatch aborts the whole invocation.
#[derive(Clone, Copy, Debug, PartialEq, Eq)]
pub struct SignatureCheck {
    pub public_key: [u8; 32],
    pub payload: [u8; 32],
    pub signature: [u8; 64],
}

/// The outcome of an authorization attempt, given the trusted keys, the digest
/// and a non-empty bundle: the arity check comes first, then the registry
/// lookup, and an accepted bundle leaves the signature check to the host.
pub open spec fn auth_outcome(
    signers: Set<[u8; 32]>,
    payload: [u8; 32],
    signatures: Seq<Signature>,
) -> Result<SignatureCheck, AccountError> {
    if signatures.len() > 1 {
        Err(AccountError::TooManySignatures)
    } else if !signers.contains(signatures[0].public_key) {
        Err(AccountError::UnknownSigner)
    } else {
        Ok(
            SignatureCheck {
                public_key: signatures[0].public_key,
                payload,
                signature: signatures[0].signature,
            },
        )
    }
}

/// The persisted state of one account.
pub struct Account {
    admin: Option<String>,
    signers: Vec<[u8; 32]>,
}

/// Whether two public keys are the same, byte for byte.
fn same_key(a: &[u8; 32], b: &[u8; 32]) -> (r: bool)
    ensures
        r == (*a == *b),
{
    let mut i: usize = 0;
    while i < 32
        invariant
            i <= 32,
            forall|j: int| 0 <= j < i ==> a[j] == b[j],
        decreases 32 - i,
    {
        if a[i] != b[i] {
            return false;
        }
        i = i + 1;
    }
    assert(*a =~= *b);
    true
}

impl Account {
    /// The stored admin, if any.
    pub closed spec fn admin(&self) -> Option<Seq<char>> {
        string_option_view(self.admin)
    }

    /// The set of trusted public keys.
    pub closed spec fn signers(&self) -> Set<[u8; 32]> {
        self.signers@.to_set()
    }

    /// An account whose storage is still empty: no admin, no trusted key.
    pub fn uninitialized() -> (r: Account)
        ensures
            r.admin() == None::<Seq<char>>,
            r.signers() == Set::<[u8; 32]>::empty(),
    {
        let r = Account { admin: None, signers: Vec::new() };
        assert(r.signers@.to_set() =~= Set::<[u8; 32]>::empty());
        r
    }

    /// A new account with its admin and its one trusted key.
    pub fn new(admin: String, signer: [u8; 32]) -> (r: Account)
        ensures
            r.admin() == Some(admin@),
            r.signers() == set![signer],
    {
        let mut r = Account::uninitialized();
        r.initialize(admin, signer);
        r
    }

    /// Stores the admin and seeds the registry with exactly one key; whatever
    /// was stored before is replaced.
    pub fn initialize(&mut self, admin: String, signer: [u8; 32])
        ensures
            final(self).admin() == Some(admin@),
            final(self).signers() == set![signer],
    {
        let mut signers: Vec<[u8; 32]> = Vec::new();
        signers.push(signer);
        self.admin = Some(admin);
        self.signers = signers;
        assert(self.signers@ =~= seq![signer]);
        assert forall|k: [u8; 32]| self.signers@.to_set().contains(k) <==> k == signer by {
            if k == signer {
                assert(self.signers@[0] == k);
            }
        }
        assert(self.signers@.to_set() =~= set![signer]);
    }

    /// Whether `key` is a trusted public key. An absent key is simply not
    /// trusted.
    pub fn is_trusted(&self, key: &[u8; 32]) -> (r: bool)
        ensures
            r == self.signers().contains(*key),
    {
        let mut i: usize = 0;
        while i < self.signers.len()
            invariant
                i <= self.signers@.len(),
                forall|j: int| 0 <= j < i ==> self.signers@[j] != *key,
            decreases self.signers@.len() - i,
        {
            if same_key(&self.signers[i], key) {
                assert(self.signers@.to_set().contains(self.signers@[i as int]));
                return true;
            }
            i = i + 1;
        }
        proof {
            if self.signers@.to_set().contains(*key) {
                let j = choose|j: int| 0 <= j < self.signers@.len() && self.signers@[j] == *key;
                assert(self.signers@[j] != *key);
            }
        }
        false
    }

    /// Whether the storage holds an entry under `key`.
    pub fn has(&self, key: &DataKey) -> (r: bool)
        ensures
            r == match *key {
                DataKey::Admin => self.admin() is Some,
                DataKey::Signer(k) => self.signers().contains(k),
            },
    {
        match key {
            DataKey::Admin => self.admin.is_some(),
            DataKey::Signer(k) => self.is_trusted(k),
        }
    }

    /// Decides an authorization attempt for the digest `signature_payload`.
    ///
    /// A bundle of more than one signature is rejected before anything else is
    /// looked at; a key outside the registry is rejected next. Otherwise the
    /// attempt is accepted exactly when the returned check holds, so the host
    /// must verify it and abort on a mismatch. The actions being authorized do
    /// not enter the decision.
    pub fn check_auth(&self, signature_payload: &[u8; 32], signatures: &Vec<Signature>) -> (r:
        Result<SignatureCheck, AccountError>)
        requires
            signatures@.len() >= 1,
        ensures
            r == auth_outcome(self.signers(), *signature_payload, signatures@),
    {
        if signatures.len() > 1 {
            return Err(AccountError::TooManySignatures);
        }
        let signature = signatures[0];
        if !self.has(&DataKey::Signer(signature.public_key)) {
            return Err(AccountError::UnknownSigner);
        }
        Ok(
            SignatureCheck {
                public_key: signature.public_key,
                payload: *signature_payload,
                signature: signature.signature,
            },
        )
    }

    /// Plans an upgrade: it always demands the stored admin's authorization,
    /// and fails when no admin was ever stored.
    pub fn upgrade(&self, new_wasm_hash: [u8; 32]) -> (r: Result<UpgradePlan, UpgradeError>)
        ensures
            plan_view(r) == upgrade_outcome(self.admin(), new_wasm_hash),
    {
        plan_upgrade(&self.admin, new_wasm_hash)
    }
}

} // verus!
