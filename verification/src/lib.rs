//! Links a set of independently versioned components for local development:
//! specifier parsing, version classification, checkout strategy, task
//! building, and a phase scheduler with completion barriers.

use vstd::prelude::*;
use rand::distr::Alphanumeric;
use rand::distr::SampleString;

pub mod cli;
pub mod configuration;
pub mod errors;
pub mod mfe;
pub mod scheduler;
pub mod task;
pub mod task_runner;

verus! {

use vstd::string::*;

/// One character drawn from ASCII letters and digits.
pub open spec fn is_ascii_alphanumeric_char(c: char) -> bool {
    ('0' <= c && c <= '9') || ('a' <= c && c <= 'z') || ('A' <= c && c <= 'Z')
}

/// The relative path of a component's working directory: `./<component>`.
pub open spec fn spec_child_path(component: Seq<char>) -> Seq<char> {
    "./"@ + component
}

/// Text of the path under which a component is cloned and built.
pub fn get_child_path_from_string(component: &String) -> (r: String)
    ensures
        r@ == spec_child_path(component@),
{
    let mut out = String::from_str("./");
    out.append(component.as_str());
    out
}

/// Relies on rand's `Alphanumeric` distribution: `sample_string` appends
/// exactly `len` characters to a fresh string, each sampled from ASCII
/// letters and digits. The characters themselves are random.
#[verifier::external_body]
pub fn generate_arbitrary_string() -> (r: String)
    ensures
        r@.len() == 20,
        forall|i: int| 0 <= i < r@.len() ==> is_ascii_alphanumeric_char(#[trigger] r@[i]),
{
    Alphanumeric.sample_string(&mut rand::rng(), 20)
}

/// A generated local branch name: the fixed prefix `ananke/dev/` followed by
/// twenty random alphanumeric characters.
pub open spec fn is_generated_branch_name(s: Seq<char>) -> bool {
    &&& s.len() == 31
    &&& s.subrange(0, 11) == "ananke/dev/"@
    &&& forall|i: int| 11 <= i < 31 ==> is_ascii_alphanumeric_char(#[trigger] s[i])
}

/// Builds a fresh local branch name for landing on a commit or tag.
pub fn create_branch_name() -> (r: String)
    ensures
        is_generated_branch_name(r@),
{
    let mut out = String::from_str("ananke/dev/");
    let suffix = generate_arbitrary_string();
    out.append(suffix.as_str());
    proof {
        reveal_strlit("ananke/dev/");
        assert(out@.subrange(0, 11) =~= "ananke/dev/"@);
    }
    out
}

} // verus!
