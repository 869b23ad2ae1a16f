//! Rendering-engine detection from a user-agent string.
//!
//! The capability probe behind the `Auto` strategy and the drag-hazard
//! handling: Gecko reliably hot-reloads document mask definitions, Blink
//! applies mask changes synchronously.  The host adapter fetches the
//! user-agent string and lowercases it; the classification itself is
//! ordinary string scanning and is verified here.

use crate::text::{spec_contains, str_contains};
use vstd::prelude::*;

verus! {

/// Whether a lowercased user-agent string denotes a Gecko engine: it names
/// gecko on its own account, not merely in the `like gecko` token every
/// WebKit-derived browser carries.
pub open spec fn spec_is_gecko(ua: Seq<char>) -> bool {
    &&& spec_contains(ua, "gecko"@)
    &&& !spec_contains(ua, "like gecko"@)
    &&& !spec_contains(ua, "webkit"@)
    &&& !spec_contains(ua, "chrome"@)
    &&& !spec_contains(ua, "safari"@)
}

/// Whether a lowercased user-agent string denotes a Blink engine.
pub open spec fn spec_is_blink(ua: Seq<char>) -> bool {
    spec_contains(ua, "chrome"@)
}

/// Classifies a lowercased user-agent string as Gecko.
pub fn is_gecko(user_agent: &str) -> (r: bool)
    ensures
        r == spec_is_gecko(user_agent@),
{
    str_contains(user_agent, "gecko") && !str_contains(user_agent, "like gecko")
        && !str_contains(user_agent, "webkit") && !str_contains(user_agent, "chrome")
        && !str_contains(user_agent, "safari")
}

/// Classifies a lowercased user-agent string as Blink.
pub fn is_blink(user_agent: &str) -> (r: bool)
    ensures
        r == spec_is_blink(user_agent@),
{
    str_contains(user_agent, "chrome")
}

} // verus!
