//! Reading the parts of a page file.

use crate::text::{chars_of, find_chars, first_occurrence, join, join_strings, string_of_range, strings_view};
use vstd::prelude::*;

verus! {

/// `s` begins with `p`.
pub open spec fn begins_with(s: Seq<char>, p: Seq<char>) -> bool {
    p.len() <= s.len() && s.take(p.len() as int) == p
}

/// What follows the first `close` in `s`, or nothing when `close` does not
/// occur.
pub open spec fn after_first(s: Seq<char>, close: Seq<char>) -> Seq<char> {
    match first_occurrence(s, close) {
        Some(i) => s.skip(i + close.len()),
        None => Seq::<char>::empty(),
    }
}

/// A page without its front matter: when the page opens with `---`, `+++`
/// or `{` on a line of its own, everything up to and including the first
/// closing line of the same kind is dropped (all of it when there is none);
/// any other page is kept whole.
pub open spec fn without_front_matter(s: Seq<char>) -> Seq<char> {
    if begins_with(s, "---\n"@) {
        after_first(s, "\n---\n"@)
    } else if begins_with(s, "+++\n"@) {
        after_first(s, "\n+++\n"@)
    } else if begins_with(s, "{\n"@) {
        after_first(s, "\n}\n"@)
    } else {
        s
    }
}

fn begins(cs: &Vec<char>, p: &str) -> (r: bool)
    ensures
        r == begins_with(cs@, p@),
{
    let ps = chars_of(p);
    if ps.len() > cs.len() {
        return false;
    }
    let mut i: usize = 0;
    while i < ps.len()
        invariant
            i <= ps.len() <= cs.len(),
            ps@ == p@,
            forall|j: int| 0 <= j < i ==> cs@[j] == ps@[j],
        decreases ps.len() - i,
    {
        if cs[i] != ps[i] {
            proof {
                assert(cs@.take(ps.len() as int)[i as int] == cs@[i as int]);
            }
            return false;
        }
        i = i + 1;
    }
    proof {
        assert(cs@.take(ps.len() as int) =~= ps@);
    }
    true
}

fn rest_after(cs: &Vec<char>, close: &str) -> (r: String)
    ensures
        r@ == after_first(cs@, close@),
{
    let ps = chars_of(close);
    match find_chars(cs, &ps) {
        Some(i) => {
            proof {
                assert(cs@.subrange(i + ps.len(), cs.len() as int) =~= cs@.skip(i + ps.len()));
            }
            string_of_range(cs, i + ps.len(), cs.len())
        },
        None => String::new(),
    }
}

/// The page without its front matter, as [`without_front_matter`] says.
pub fn extract_front_matter(content: &str) -> (r: String)
    ensures
        r@ == without_front_matter(content@),
{
    let cs = chars_of(content);
    if begins(&cs, "---\n") {
        rest_after(&cs, "\n---\n")
    } else if begins(&cs, "+++\n") {
        rest_after(&cs, "\n+++\n")
    } else if begins(&cs, "{\n") {
        rest_after(&cs, "\n}\n")
    } else {
        content.to_owned()
    }
}


/// The last `length` components joined by `/`, the root dropped; `None`
/// when `length` is zero or there are fewer components.
pub open spec fn last_components(comps: Seq<Seq<char>>, length: nat) -> Option<Seq<char>> {
    if length == 0 || comps.len() < length {
        None
    } else {
        let last = comps.skip(comps.len() - length);
        if last[0].len() == 0 {
            Some(join(last.drop_first(), "/"@))
        } else {
            Some(join(last, "/"@))
        }
    }
}

/// The last `length` of the given path components, as
/// [`last_components`] says; the root is an empty component.
pub fn truncate_components(comps: &Vec<String>, length: usize) -> (r: Option<String>)
    ensures
        opt_view(r) == last_components(strings_view(comps@), length as nat),
{
    if length == 0 || comps.len() < length {
        return None;
    }
    let start = comps.len() - length;
    let first = chars_of(comps[start].as_str());
    let from = if first.len() == 0 { start + 1 } else { start };
    let mut kept: Vec<String> = Vec::new();
    let mut i: usize = from;
    while i < comps.len()
        invariant
            from <= i <= comps.len(),
            strings_view(kept@) == strings_view(comps@).subrange(from as int, i as int),
        decreases comps.len() - i,
    {
        let ghost before = strings_view(kept@);
        let c = comps[i].clone();
        kept.push(c);
        proof {
            assert(c == comps@[i as int]);
            assert(strings_view(kept@) =~= before.push(c@));
            assert(strings_view(kept@) =~= strings_view(comps@).subrange(from as int, i + 1));
        }
        i = i + 1;
    }
    proof {
        let last = strings_view(comps@).skip(start as int);
        if first.len() == 0 {
            assert(last.drop_first() =~= strings_view(comps@).subrange(from as int, comps.len() as int));
        } else {
            assert(last =~= strings_view(comps@).subrange(from as int, comps.len() as int));
        }
    }
    Some(join_strings(&kept, "/"))
}

/// The characters of an optional string.
pub open spec fn opt_view(o: Option<String>) -> Option<Seq<char>> {
    match o {
        Some(s) => Some(s@),
        None => None,
    }
}

} // verus!
