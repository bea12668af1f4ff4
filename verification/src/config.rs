//! What the tracker is configured with: the credential for the feed and the
//! list of watched routes.

use crate::error::{Error, ErrorView};
use crate::model::strings_view;
use vstd::prelude::*;
use vstd::string::StringExecFns;

verus! {

/// Requires the credential for the feed: the value that the configuration
/// holds for it, where it holds one. Without one the tracker does not start.
pub fn credential(found: Option<String>) -> (checked: Result<String, Error>)
    ensures
        match checked {
            Ok(key) => found == Some(key),
            Err(e) => found is None && e@ == ErrorView::Config,
        },
{
    match found {
        Some(key) => Ok(key),
        None => Err(Error::Config),
    }
}

/// The short names of the routes that are watched where nothing else is
/// configured.
pub open spec fn default_watched() -> Seq<Seq<char>> {
    seq!["212"@, "215"@]
}

/// The watch list that is used where nothing else is configured.
pub fn default_watch_list() -> (watched: Vec<String>)
    ensures
        strings_view(watched@) == default_watched(),
{
    let mut watched: Vec<String> = Vec::new();
    watched.push(String::from_str("212"));
    watched.push(String::from_str("215"));
    assert(strings_view(watched@) =~= default_watched());
    watched
}

} // verus!
