//! The multi-principal check: a request names its principals by argument, two
//! of them required and one optional, and each one named is asked for its
//! authorization in a fixed order.
use vstd::prelude::*;

use crate::upgrade::{
    plan_upgrade, plan_view, string_option_view, upgrade_outcome, UpgradeError, UpgradePlan,
};

verus! {

/// A typed rejection of a multi-principal request.
#[derive(Clone, Copy, Debug, PartialEq, Eq, Structural)]
pub enum WebAuthError {
    /// A required argument is absent.
    MissingArgument,
}

impl WebAuthError {
    /// The error's code at the host boundary.
    pub fn code(&self) -> (r: u32)
        ensures
            r == 1,
    {
        match self {
            WebAuthError::MissingArgument => 1,
        }
    }
}

/// What the host must do for a request: demand the authorization of each
/// principal in `demands`, in order, and then return `result`.
pub struct WebAuthPlan {
    /// The principals (strkeys) whose authorization is demanded, in order.
    pub demands: Vec<String>,
    /// What the call returns once every demand was granted.
    pub result: Result<(), WebAuthError>,
}

/// The name of the required argument that holds the account.
pub open spec fn account_arg() -> Seq<char> {
    "account"@
}

/// The name of the required argument that holds the web-auth domain's account.
pub open spec fn domain_arg() -> Seq<char> {
    "web_auth_domain_account"@
}

/// The name of the optional argument that holds the client domain's account.
pub open spec fn client_arg() -> Seq<char> {
    "client_domain_account"@
}

/// The value of the first argument named `name` at position `i` or later.
pub open spec fn arg_from(args: Seq<(String, String)>, name: Seq<char>, i: int) -> Option<
    Seq<char>,
>
    decreases args.len() - i,
{
    if i < 0 || i >= args.len() {
        None
    } else if args[i].0@ == name {
        Some(args[i].1@)
    } else {
        arg_from(args, name, i + 1)
    }
}

/// The value of the argument named `name`, if the request holds one.
pub open spec fn arg_value(args: Seq<(String, String)>, name: Seq<char>) -> Option<Seq<char>> {
    arg_from(args, name, 0)
}

/// The outcome of a request: the principals asked for authorization, in order,
/// and the result. Evaluation stops at the first required argument that is
/// absent, after the demands made before it.
pub open spec fn web_auth_outcome(args: Seq<(String, String)>) -> (
    Seq<Seq<char>>,
    Result<(), WebAuthError>,
) {
    match arg_value(args, account_arg()) {
        None => (seq![], Err(WebAuthError::MissingArgument)),
        Some(a) => match arg_value(args, domain_arg()) {
            None => (seq![a], Err(WebAuthError::MissingArgument)),
            Some(b) => match arg_value(args, client_arg()) {
                None => (seq![a, b], Ok(())),
                Some(c) => (seq![a, b, c], Ok(())),
            },
        },
    }
}

/// The view of a plan: its demands as character sequences, and its result.
pub open spec fn web_plan_view(p: WebAuthPlan) -> (Seq<Seq<char>>, Result<(), WebAuthError>) {
    (p.demands@.map_values(|s: String| s@), p.result)
}

/// Looks up the argument named `name`: the first one with that name.
fn find_arg(args: &Vec<(String, String)>, name: &String) -> (r: Option<String>)
    ensures
        string_option_view(r) == arg_value(args@, name@),
{
    let mut i: usize = 0;
    while i < args.len()
        invariant
            i <= args@.len(),
            arg_value(args@, name@) == arg_from(args@, name@, i as int),
        decreases args@.len() - i,
    {
        if args[i].0 == *name {
            return Some(args[i].1.clone());
        }
        i = i + 1;
    }
    None
}

/// The persisted state of the companion contract: its admin.
pub struct WebAuthContract {
    admin: Option<String>,
}

impl WebAuthContract {
    /// The stored admin, if any.
    pub closed spec fn admin(&self) -> Option<Seq<char>> {
        string_option_view(self.admin)
    }

    /// A contract whose storage is still empty.
    pub fn uninitialized() -> (r: WebAuthContract)
        ensures
            r.admin() == None::<Seq<char>>,
    {
        WebAuthContract { admin: None }
    }

    /// A new contract with its admin.
    pub fn new(admin: String) -> (r: WebAuthContract)
        ensures
            r.admin() == Some(admin@),
    {
        WebAuthContract { admin: Some(admin) }
    }

    /// Stores the admin, replacing any earlier one.
    pub fn initialize(&mut self, admin: String)
        ensures
            final(self).admin() == Some(admin@),
    {
        self.admin = Some(admin);
    }

    /// Plans an upgrade: it always demands the stored admin's authorization,
    /// and fails when no admin was ever stored.
    pub fn upgrade(&self, new_wasm_hash: [u8; 32]) -> (r: Result<UpgradePlan, UpgradeError>)
        ensures
            plan_view(r) == upgrade_outcome(self.admin(), new_wasm_hash),
    {
        plan_upgrade(&self.admin, new_wasm_hash)
    }

    /// Decides a request given as (name, value) arguments: `account` and then
    /// `web_auth_domain_account` are required, `client_domain_account` is
    /// optional. Each principal found is asked for its authorization in that
    /// order; the first required argument that is absent ends the evaluation
    /// with `MissingArgument`.
    pub fn web_auth_verify(args: &Vec<(String, String)>) -> (r: WebAuthPlan)
        ensures
            web_plan_view(r) == web_auth_outcome(args@),
    {
        let mut demands: Vec<String> = Vec::new();
        let account = find_arg(args, &"account".to_owned());
        match account {
            None => {
                assert(demands@.map_values(|s: String| s@) =~= seq![]);
                return WebAuthPlan { demands, result: Err(WebAuthError::MissingArgument) };
            },
            Some(a) => {
                demands.push(a);
            },
        }
        let domain = find_arg(args, &"web_auth_domain_account".to_owned());
        match domain {
            None => {
                assert(demands@.map_values(|s: String| s@) =~= web_auth_outcome(args@).0);
                return WebAuthPlan { demands, result: Err(WebAuthError::MissingArgument) };
            },
            Some(b) => {
                demands.push(b);
            },
        }
        let client = find_arg(args, &"client_domain_account".to_owned());
        match client {
            None => {},
            Some(c) => {
                demands.push(c);
            },
        }
        assert(demands@.map_values(|s: String| s@) =~= web_auth_outcome(args@).0);
        WebAuthPlan { demands, result: Ok(()) }
    }
}

} // verus!
