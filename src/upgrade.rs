//! The upgrade gate shared by both contracts: a code replacement is only ever
//! planned together with a demand for the admin's authorization.
use vstd::prelude::*;

verus! {

/// What the host must do to perform an upgrade: first obtain the admin's
/// authorization, then replace the code with the one named by the hash.
pub struct UpgradePlan {
    /// The principal (a strkey) whose authorization is demanded.
    pub admin: String,
    /// The hash of the code that replaces the current one.
    pub new_wasm_hash: [u8; 32],
}

/// Why an upgrade cannot even be attempted.
#[derive(Clone, Copy, Debug, PartialEq, Eq, Structural)]
pub enum UpgradeError {
    /// No admin has been stored: the account was never initialized.
    NotInitialized,
}

/// The outcome of an upgrade request, given the stored admin.
pub open spec fn upgrade_outcome(admin: Option<Seq<char>>, new_wasm_hash: [u8; 32]) -> Result<
    (Seq<char>, [u8; 32]),
    UpgradeError,
> {
    match admin {
        None => Err(UpgradeError::NotInitialized),
        Some(a) => Ok((a, new_wasm_hash)),
    }
}

/// The view of an upgrade result: the plan as an admin and a hash.
pub open spec fn plan_view(r: Result<UpgradePlan, UpgradeError>) -> Result<
    (Seq<char>, [u8; 32]),
    UpgradeError,
> {
    match r {
        Ok(p) => Ok((p.admin@, p.new_wasm_hash)),
        Err(e) => Err(e),
    }
}

/// The view of an optional string, such as a stored admin.
pub open spec fn string_option_view(s: Option<String>) -> Option<Seq<char>> {
    match s {
        None => None,
        Some(a) => Some(a@),
    }
}

/// Plans an upgrade: fails when no admin is stored, and otherwise demands the
/// stored admin's authorization for the replacement by `new_wasm_hash`.
pub fn plan_upgrade(admin: &Option<String>, new_wasm_hash: [u8; 32]) -> (r: Result<
    UpgradePlan,
    UpgradeError,
>)
    ensures
        plan_view(r) == upgrade_outcome(string_option_view(*admin), new_wasm_hash),
{
    match admin {
        None => Err(UpgradeError::NotInitialized),
        Some(a) => Ok(UpgradePlan { admin: a.clone(), new_wasm_hash }),
    }
}

} // verus!
