//! Finding the default gateway in the routing report of the platform's
//! network tool (`ip route show`, or `ipconfig` on Windows).
use vstd::prelude::*;

verus! {

/// The text of capture group 1 in the leftmost-first match of regular
/// expression `pattern` in `haystack`; `None` where the pattern does not
/// compile, does not match, or matches without group 1.
pub uninterp spec fn first_group_of(pattern: Seq<char>, haystack: Seq<char>) -> Option<Seq<char>>;

/// Relies on `regex::Regex::new` to compile `pattern` and on
/// `Regex::captures` with `Captures::get(1)` to find the group's text in
/// the leftmost-first match.
#[verifier::external_body]
fn first_group(pattern: &str, haystack: &str) -> (r: Option<String>)
    ensures
        r is Some <==> first_group_of(pattern@, haystack@) is Some,
        r is Some ==> r->0@ == first_group_of(pattern@, haystack@)->0,
{
    let re = regex::Regex::new(pattern).ok()?;
    let caps = re.captures(haystack)?;
    caps.get(1).map(|m| m.as_str().to_string())
}

/// The pattern whose group 1 is the gateway address in the tool's report:
/// `default via <addr>` from `ip route show`, or
/// `Default Gateway . . . : <addr>` from `ipconfig`.
pub open spec fn gateway_pattern_text(windows: bool) -> Seq<char> {
    if windows {
        "Default Gateway[. ]+: ([\\d.]+)"@
    } else {
        "default via ([\\d.]+)"@
    }
}

/// The gateway pattern for the platform.
pub fn gateway_pattern(windows: bool) -> (r: &'static str)
    ensures
        r@ == gateway_pattern_text(windows),
{
    if windows {
        "Default Gateway[. ]+: ([\\d.]+)"
    } else {
        "default via ([\\d.]+)"
    }
}

/// The address text of the first default gateway in `report`, the output of
/// `ipconfig` where `windows` holds and of `ip route show` elsewhere; `None`
/// where the report names none.
pub fn gateway_text(report: &str, windows: bool) -> (r: Option<String>)
    ensures
        r is Some <==> first_group_of(gateway_pattern_text(windows), report@) is Some,
        r is Some ==> r->0@ == first_group_of(gateway_pattern_text(windows), report@)->0,
{
    first_group(gateway_pattern(windows), report)
}

} // verus!
