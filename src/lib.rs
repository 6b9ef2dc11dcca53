//! Authorization decisions for a programmable account and a companion
//! multi-principal check.
//!
//! Every operation here is a pure decision over the account's persisted state
//! and the call's arguments. What the host must still do (demand a principal's
//! authorization, verify an Ed25519 signature, replace the code) is handed back
//! as a plan value, so the decision itself is proved and the host effects stay
//! at the edge.
use vstd::prelude::*;

pub mod account;
pub mod laws;
pub mod upgrade;
pub mod web_auth;

pub use account::{Account, AccountError, DataKey, Signature, SignatureCheck};
pub use upgrade::{UpgradeError, UpgradePlan};
pub use web_auth::{WebAuthContract, WebAuthError, WebAuthPlan};
