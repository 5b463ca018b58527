//! The two pure commands: `greet` and `get_app_version`.

use vstd::prelude::*;
use vstd::string::StringExecFns;

verus! {

/// The fixed text that precedes the caller's name in a greeting.
pub open spec fn greeting_prefix() -> Seq<char> {
    "Hello, "@
}

/// The fixed text that ends every greeting.
pub open spec fn greeting_suffix() -> Seq<char> {
    "! You've been greeted from Rust!"@
}

/// The full greeting owed for a given name: prefix, name, suffix.
pub open spec fn greeting_of(name: Seq<char>) -> Seq<char> {
    greeting_prefix() + name + greeting_suffix()
}

/// Returns the fixed-format greeting embedding `name`. Every string is a
/// valid name; the empty string yields the degenerate greeting.
pub fn greet(name: &str) -> (r: String)
    ensures
        r@ == greeting_of(name@),
{
    let mut r = String::new();
    r.append("Hello, ");
    r.append(name);
    r.append("! You've been greeted from Rust!");
    proof {
        assert(r@ =~= greeting_of(name@));
    }
    r
}

/// Every greeting carries the name as a contiguous substring (right after
/// the fixed prefix) and ends with the fixed suffix.
pub proof fn lemma_greeting_embeds_name(name: Seq<char>)
    ensures
        greeting_of(name).len() == greeting_prefix().len() + name.len() + greeting_suffix().len(),
        greeting_of(name).subrange(
            greeting_prefix().len() as int,
            greeting_prefix().len() + name.len() as int,
        ) == name,
        greeting_of(name).subrange(
            greeting_prefix().len() + name.len() as int,
            greeting_of(name).len() as int,
        ) == greeting_suffix(),
{
    assert(greeting_of(name).subrange(
        greeting_prefix().len() as int,
        greeting_prefix().len() + name.len() as int,
    ) =~= name);
    assert(greeting_of(name).subrange(
        greeting_prefix().len() + name.len() as int,
        greeting_of(name).len() as int,
    ) =~= greeting_suffix());
}

/// The application version, fixed at build time to the package version.
pub open spec fn app_version() -> Seq<char> {
    "1.0.0"@
}

/// Returns the statically known version string: always the same value
/// within a build, with no inputs and no failure path.
pub fn get_app_version() -> (r: String)
    ensures
        r@ == app_version(),
{
    String::from_str("1.0.0")
}

} // verus!
