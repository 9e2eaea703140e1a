//! Lookups in the string-keyed metadata of a page.

use crate::text::opt_chars;
use std::collections::HashMap;
use vstd::prelude::*;

verus! {

/// The value of a metadata entry whose key reads `key`.
pub open spec fn metadata_entry(m: Map<String, String>, key: Seq<char>) -> Option<Seq<char>> {
    if exists|k: String| #[trigger] m.contains_key(k) && k@ == key {
        Some(m[choose|k: String| #[trigger] m.contains_key(k) && k@ == key]@)
    } else {
        None
    }
}

/// Relies on `HashMap::get`: the value stored under the key equal to
/// `key`, if there is one.
#[verifier::external_body]
pub(crate) fn metadata_value(metadata: &HashMap<String, String>, key: &str) -> (r: Option<String>)
    ensures
        opt_chars(r) == metadata_entry(metadata@, key@),
{
    metadata.get(key).cloned()
}

} // verus!
