//! The safety policy for production sessions.
//!
//! Two switches are stored per user. Values from the environment, where
//! set, replace the stored ones when the policy is loaded.

use crate::text::{ascii_lower, str_eq, to_ascii_lowercase, trim, trimmed};
use vstd::prelude::*;
use vstd::string::*;

verus! {

/// Name of the environment variable that overrides `prod_require_confirmation`.
pub const ENV_REQUIRE_CONFIRMATION: &'static str = "QOREDB_PROD_REQUIRE_CONFIRMATION";

/// Name of the environment variable that overrides `prod_block_dangerous_sql`.
pub const ENV_BLOCK_DANGEROUS: &'static str = "QOREDB_PROD_BLOCK_DANGEROUS";

/// The rules applied to dangerous statements on production sessions.
#[derive(Debug, Clone, Copy, PartialEq, Eq, Structural)]
pub struct SafetyPolicy {
    /// A dangerous statement needs the caller's acknowledgement.
    pub prod_require_confirmation: bool,
    /// A dangerous statement is refused outright.
    pub prod_block_dangerous_sql: bool,
}

/// Whether the text of a switch means "on": `1`, `true`, `yes` or `on`,
/// in any case, with blanks around it ignored.
pub open spec fn is_truthy(value: Seq<char>) -> bool {
    let v = ascii_lower(trimmed(value));
    v == "1"@ || v == "true"@ || v == "yes"@ || v == "on"@
}

/// The switch after an override: the override's meaning where one is set.
pub open spec fn overridden(stored: bool, value: Option<Seq<char>>) -> bool {
    match value {
        Some(v) => is_truthy(v),
        None => stored,
    }
}

/// The characters of an optional text.
pub open spec fn opt_str_view(o: Option<&str>) -> Option<Seq<char>> {
    match o {
        Some(s) => Some(s@),
        None => None,
    }
}

/// Whether the text of a switch means "on".
pub fn env_bool(value: &str) -> (b: bool)
    ensures
        b == is_truthy(value@),
{
    let t = trim(value);
    let v = to_ascii_lowercase(t.as_str());
    str_eq(v.as_str(), "1") || str_eq(v.as_str(), "true") || str_eq(v.as_str(), "yes") || str_eq(
        v.as_str(),
        "on",
    )
}

impl SafetyPolicy {
    /// The policy where nothing is stored: confirmation needed, nothing
    /// refused outright.
    pub open spec fn defaults_spec() -> SafetyPolicy {
        SafetyPolicy { prod_require_confirmation: true, prod_block_dangerous_sql: false }
    }

    /// The policy in force given what is stored and what the environment
    /// overrides.
    pub open spec fn effective(
        stored: Option<SafetyPolicy>,
        env_require: Option<Seq<char>>,
        env_block: Option<Seq<char>>,
    ) -> SafetyPolicy {
        let base = match stored {
            Some(p) => p,
            None => Self::defaults_spec(),
        };
        SafetyPolicy {
            prod_require_confirmation: overridden(base.prod_require_confirmation, env_require),
            prod_block_dangerous_sql: overridden(base.prod_block_dangerous_sql, env_block),
        }
    }

    /// The policy where nothing is stored.
    pub fn defaults() -> (p: Self)
        ensures
            p == Self::defaults_spec(),
    {
        SafetyPolicy { prod_require_confirmation: true, prod_block_dangerous_sql: false }
    }

    /// Replaces each switch by the meaning of its override, where one is set.
    /// The arguments are the values of the two environment variables.
    pub fn apply_env_overrides(&mut self, env_require: Option<&str>, env_block: Option<&str>)
        ensures
            final(self).prod_require_confirmation == overridden(
                old(self).prod_require_confirmation,
                opt_str_view(env_require),
            ),
            final(self).prod_block_dangerous_sql == overridden(
                old(self).prod_block_dangerous_sql,
                opt_str_view(env_block),
            ),
    {
        if let Some(value) = env_require {
            self.prod_require_confirmation = env_bool(value);
        }
        if let Some(value) = env_block {
            self.prod_block_dangerous_sql = env_bool(value);
        }
    }

    /// The policy in force: the stored one, or the defaults where none is
    /// stored or readable, with the environment's overrides applied.
    pub fn load(stored: Option<SafetyPolicy>, env_require: Option<&str>, env_block: Option<&str>) -> (p:
        Self)
        ensures
            p == Self::effective(stored, opt_str_view(env_require), opt_str_view(env_block)),
    {
        let mut policy = match stored {
            Some(p) => p,
            None => Self::defaults(),
        };
        policy.apply_env_overrides(env_require, env_block);
        policy
    }
}

/// Loading what was just stored gives it back wherever the environment sets
/// no override; where it sets one, that switch follows the environment
/// whatever was stored.
pub proof fn lemma_load_after_store(
    p: SafetyPolicy,
    env_require: Option<Seq<char>>,
    env_block: Option<Seq<char>>,
)
    ensures
        env_require is None && env_block is None ==> SafetyPolicy::effective(
            Some(p),
            env_require,
            env_block,
        ) == p,
        env_require is Some ==> SafetyPolicy::effective(
            Some(p),
            env_require,
            env_block,
        ).prod_require_confirmation == is_truthy(env_require->0),
        env_block is Some ==> SafetyPolicy::effective(
            Some(p),
            env_require,
            env_block,
        ).prod_block_dangerous_sql == is_truthy(env_block->0),
{
}

} // verus!
