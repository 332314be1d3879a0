//! Workflows of the CI provider.

pub mod definition;

use crate::text::same_text;
use vstd::prelude::*;

verus! {

/// Whether the engine runs inside the CI provider's environment, going by
/// the value of the variable that the provider sets there to `true`.
pub fn is_in_env(github_actions: Option<&str>) -> (inside: bool)
    ensures
        inside == (github_actions matches Some(value) && value@ == "true"@),
{
    match github_actions {
        Some(value) => same_text(value, "true"),
        None => false,
    }
}

} // verus!
