//! Tags: cleaning tag names, reading the tag data of a page, and escaping
//! text for the tag index page.

use crate::metadata::{metadata_entry, metadata_value};
use crate::models::data::TagsData;
use crate::text::{chars_of, push_char, replace, replace_all};
use std::collections::HashMap;
use vstd::prelude::*;

verus! {

/// Whether a character is alphabetic or numeric in Unicode's sense.
pub uninterp spec fn is_unicode_alnum(c: char) -> bool;

/// Relies on `char::is_alphanumeric`: whether the character has the
/// Alphabetic property or a numeric general category, which depends on
/// the character alone.
#[verifier::external_body]
fn alphanumeric(c: char) -> (r: bool)
    ensures
        r == is_unicode_alnum(c),
{
    c.is_alphanumeric()
}

/// The letters and digits of `s`, in order.
pub open spec fn alnum_only(s: Seq<char>) -> Seq<char>
    decreases s.len(),
{
    if s.len() == 0 {
        s
    } else if is_unicode_alnum(s.last()) {
        alnum_only(s.drop_last()).push(s.last())
    } else {
        alnum_only(s.drop_last())
    }
}

/// Keeps only the letters and digits of a tag.
pub fn sanitize_tag(tag: &str) -> (r: String)
    ensures
        r@ == alnum_only(tag@),
{
    let cs = chars_of(tag);
    let mut out = String::new();
    let mut i: usize = 0;
    while i < cs.len()
        invariant
            i <= cs.len(),
            cs@ == tag@,
            out@ == alnum_only(cs@.take(i as int)),
        decreases cs.len() - i,
    {
        proof {
            assert(cs@.take(i + 1).drop_last() =~= cs@.take(i as int));
            assert(cs@.take(i + 1).last() == cs@[i as int]);
        }
        if alphanumeric(cs[i]) {
            push_char(&mut out, cs[i]);
        }
        i = i + 1;
    }
    proof {
        assert(cs@.take(i as int) =~= cs@);
    }
    out
}

/// The value of an entry, or nothing when it is absent.
pub open spec fn entry_or_empty(m: Map<String, String>, key: Seq<char>) -> Seq<char> {
    match metadata_entry(m, key) {
        Some(v) => v,
        None => Seq::<char>::empty(),
    }
}

fn entry_text(metadata: &HashMap<String, String>, key: &str) -> (r: String)
    ensures
        r@ == entry_or_empty(metadata@, key@),
{
    match metadata_value(metadata, key) {
        Some(v) => v,
        None => String::new(),
    }
}

/// The tag data of a page: its `date`, `title`, `description`,
/// `permalink` and `keywords` entries, each empty when absent.
pub fn create_tags_data(metadata: &HashMap<String, String>) -> (r: TagsData)
    ensures
        r.dates@ == entry_or_empty(metadata@, "date"@),
        r.titles@ == entry_or_empty(metadata@, "title"@),
        r.descriptions@ == entry_or_empty(metadata@, "description"@),
        r.permalinks@ == entry_or_empty(metadata@, "permalink"@),
        r.keywords@ == entry_or_empty(metadata@, "keywords"@),
{
    TagsData {
        dates: entry_text(metadata, "date"),
        titles: entry_text(metadata, "title"),
        descriptions: entry_text(metadata, "description"),
        permalinks: entry_text(metadata, "permalink"),
        keywords: entry_text(metadata, "keywords"),
    }
}

/// `s` with `&`, `<` and `>` written as HTML entities (`&` first).
pub open spec fn escaped(s: Seq<char>) -> Seq<char> {
    replace_all(replace_all(replace_all(s, "&"@, "&amp;"@), "<"@, "&lt;"@), ">"@, "&gt;"@)
}

/// Escapes `&`, `<` and `>` for HTML.
pub fn html_escape(input: &str) -> (r: String)
    ensures
        r@ == escaped(input@),
{
    proof {
        reveal_strlit("&");
        reveal_strlit("<");
        reveal_strlit(">");
    }
    let a = replace(input, "&", "&amp;");
    let b = replace(a.as_str(), "<", "&lt;");
    replace(b.as_str(), ">", "&gt;")
}


/// The tag index page: the page template with each `[[content]]`
/// replaced by the tag listing.
pub fn fill_tags_page(base_html: &str, html_content: &str) -> (r: String)
    ensures
        r@ == replace_all(base_html@, "[[content]]"@, html_content@),
{
    proof {
        reveal_strlit("[[content]]");
    }
    replace(base_html, "[[content]]", html_content)
}

} // verus!
