//! Content types that the server states explicitly.

use vstd::prelude::*;
use vstd::string::*;
use crate::paths::extension_of;
use crate::paths::extension;
use crate::strutil::str_eq;

verus! {

/// The content type the server declares for `path`, by its extension. `None`
/// leaves the type to the client's default handling.
pub open spec fn content_type_of(path: Seq<char>) -> Option<Seq<char>> {
    if extension_of(path) == Some("svg"@) {
        Some("image/svg+xml"@)
    } else if extension_of(path) == Some("js"@) {
        Some("application/javascript"@)
    } else {
        None
    }
}

/// Determines a specific content type from the extension of the given path.
/// This returns `None` for any extension that clients already handle well by
/// default.
pub fn content_type_from_path(path: &str) -> (r: Option<String>)
    ensures
        match r {
            Some(ct) => content_type_of(path@) == Some(ct@),
            None => content_type_of(path@) is None,
        },
{
    match extension(path) {
        Some(ext) => {
            if str_eq(ext, "svg") {
                Some("image/svg+xml".to_owned())
            } else if str_eq(ext, "js") {
                Some("application/javascript".to_owned())
            } else {
                None
            }
        },
        None => None,
    }
}

} // verus!
