//! The shape of a parsed `link` command line, and the adapter that turns it
//! into the component set and configuration the task builder consumes.
//! Reading the actual command line is the unverified edge's job; it hands
//! this module plain strings and flags.

use vstd::prelude::*;
use crate::configuration::Configuration;
use crate::errors::SpecifierParseError;
use crate::mfe::{Microfrontend, Microfrontends, spec_parse};

verus! {

/// What the `link` command line carries: the target host, the raw component
/// specifiers, and the two flags.
pub struct LinkCliResult {
    pub target_host: String,
    pub microfrontend: Vec<String>,
    pub force_update_all: bool,
    pub pull: bool,
}

/// Turns the parsed command line into the component set and the run
/// configuration. Parsing fails fast: a malformed specifier is reported
/// before any scheduling begins, and the adapter succeeds exactly when every
/// specifier is well-formed. On success the descriptors stand in the
/// specifiers' order.
pub fn link_options_adapter(link_result: LinkCliResult) -> (r: Result<
    (Microfrontends, Configuration),
    SpecifierParseError,
>)
    ensures
        r is Ok <==> (forall|i: int|
            0 <= i < link_result.microfrontend@.len() ==> spec_parse(
                (#[trigger] link_result.microfrontend@[i])@,
            ) is Ok),
        r matches Ok((mfes, config)) ==> {
            &&& mfes.0@.len() == link_result.microfrontend@.len()
            &&& (forall|i: int|
                0 <= i < mfes.0@.len() ==> spec_parse(link_result.microfrontend@[i]@)
                    == Ok::<_, SpecifierParseError>(
                    (
                        (#[trigger] mfes.0@[i]).project_group@,
                        mfes.0@[i].project_name@,
                        mfes.0@[i].version@,
                    ),
                ) && mfes.0@[i].wf())
            &&& config.target_host@ == link_result.target_host@
            &&& config.force_update_all == link_result.force_update_all
            &&& config.pull == link_result.pull
        },
        r matches Err(e) ==> exists|i: int|
            0 <= i < link_result.microfrontend@.len() && spec_parse(
                (#[trigger] link_result.microfrontend@[i])@,
            ) == Err::<(Seq<char>, Seq<char>, Seq<char>), _>(e),
{
    let configuration = Configuration {
        target_host: link_result.target_host,
        force_update_all: link_result.force_update_all,
        pull: link_result.pull,
    };
    let n = link_result.microfrontend.len();
    let mut collection: Vec<Microfrontend> = Vec::new();
    let mut i: usize = 0;
    while i < n
        invariant
            i <= n,
            n == link_result.microfrontend@.len(),
            collection@.len() == i,
            forall|k: int|
                0 <= k < i ==> spec_parse(link_result.microfrontend@[k]@) == Ok::<
                    _,
                    SpecifierParseError,
                >(
                    (
                        (#[trigger] collection@[k]).project_group@,
                        collection@[k].project_name@,
                        collection@[k].version@,
                    ),
                ) && collection@[k].wf(),
        decreases n - i,
    {
        let raw = link_result.microfrontend[i].clone();
        match Microfrontend::from_raw_format(raw) {
            Ok(m) => collection.push(m),
            Err(e) => {
                return Err(e);
            },
        }
        i += 1;
    }
    proof {
        assert forall|k: int| 0 <= k < link_result.microfrontend@.len() implies spec_parse(
            (#[trigger] link_result.microfrontend@[k])@,
        ) is Ok by {
            assert(spec_parse(link_result.microfrontend@[k]@) == Ok::<_, SpecifierParseError>(
                (collection@[k].project_group@, collection@[k].project_name@, collection@[k].version@),
            ));
        }
    }
    Ok((Microfrontends(collection), configuration))
}

} // verus!
