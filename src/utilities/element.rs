//! Escaping text for XML elements.

use crate::text::{replace, replace_all};
use vstd::prelude::*;

verus! {

/// `s` with `&`, `<`, `>`, `"` and `'` written as XML entities, `&` first.
pub open spec fn xml_escaped(s: Seq<char>) -> Seq<char> {
    replace_all(
        replace_all(
            replace_all(replace_all(replace_all(s, "&"@, "&amp;"@), "<"@, "&lt;"@), ">"@, "&gt;"@),
            "\""@,
            "&quot;"@,
        ),
        "'"@,
        "&apos;"@,
    )
}

/// Escapes the five XML special characters.
pub fn escape_xml(value: &str) -> (r: String)
    ensures
        r@ == xml_escaped(value@),
{
    proof {
        reveal_strlit("&");
        reveal_strlit("<");
        reveal_strlit(">");
        reveal_strlit("\"");
        reveal_strlit("'");
    }
    let a = replace(value, "&", "&amp;");
    let b = replace(a.as_str(), "<", "&lt;");
    let c = replace(b.as_str(), ">", "&gt;");
    let d = replace(c.as_str(), "\"", "&quot;");
    replace(d.as_str(), "'", "&apos;")
}

} // verus!
