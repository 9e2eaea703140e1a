//! Google News sitemaps: the entry that page metadata describes, with
//! each field checked against what the news sitemap format allows.

use crate::metadata::{metadata_entry, metadata_value};
pub use crate::models::data::NewsData;
use crate::text::{
    chars_of, drop_controls, first_chars, join, join_strings, opt_chars, pieces, printable_prefix,
    split_pieces, strings_view, trim, trim_string,
};
use std::collections::HashMap;
use vstd::prelude::*;

verus! {

/// A genre that the news sitemap format knows.
pub open spec fn known_genre(g: Seq<char>) -> bool {
    g == "PressRelease"@ || g == "Satire"@ || g == "Blog"@ || g == "OpEd"@ || g == "Opinion"@ || g
        == "UserGenerated"@
}

/// The trimmed pieces that are known genres, in order.
pub open spec fn known_genres(ps: Seq<Seq<char>>) -> Seq<Seq<char>>
    decreases ps.len(),
{
    if ps.len() == 0 {
        ps
    } else if known_genre(trim(ps.last())) {
        known_genres(ps.drop_last()).push(trim(ps.last()))
    } else {
        known_genres(ps.drop_last())
    }
}

/// The trimmed pieces that are not empty, in order.
pub open spec fn non_empty_trimmed(ps: Seq<Seq<char>>) -> Seq<Seq<char>>
    decreases ps.len(),
{
    if ps.len() == 0 {
        ps
    } else if trim(ps.last()).len() > 0 {
        non_empty_trimmed(ps.drop_last()).push(trim(ps.last()))
    } else {
        non_empty_trimmed(ps.drop_last())
    }
}

/// The known genres of a comma-separated list, trimmed and joined by
/// `", "`.
pub open spec fn genres_text(s: Seq<char>) -> Seq<char> {
    join(known_genres(pieces(s, ',')), ", "@)
}

/// The first ten pieces of a comma-separated list, trimmed, without the
/// empty ones, joined by `", "`.
pub open spec fn keywords_text(s: Seq<char>) -> Seq<char> {
    let ps = pieces(s, ',');
    let first = if ps.len() <= 10 { ps } else { ps.take(10) };
    join(non_empty_trimmed(first), ", "@)
}

/// A language code: two lowercase ASCII letters, else `"en"`.
pub open spec fn language_text(s: Seq<char>) -> Seq<char> {
    if s.len() == 2 && 'a' <= s[0] <= 'z' && 'a' <= s[1] <= 'z' {
        s
    } else {
        "en"@
    }
}

/// A URL: kept when it starts with `http://` or `https://` and holds none
/// of `<`, `>` and `"`, else empty.
pub open spec fn url_text(s: Seq<char>) -> Seq<char> {
    if ((s.len() >= 7 && s.take(7) == "http://"@) || (s.len() >= 8 && s.take(8) == "https://"@))
        && !(exists|i: int| 0 <= i < s.len() && (s[i] == '<' || s[i] == '>' || s[i] == '"')) {
        s
    } else {
        Seq::<char>::empty()
    }
}

/// Free text without control characters, at most 1000 characters.
pub open spec fn news_text(s: Seq<char>) -> Seq<char> {
    first_chars(drop_controls(s), 1000)
}

fn known_genre_text(g: &String) -> (r: bool)
    ensures
        r == known_genre(g@),
{
    g.eq(&"PressRelease".to_owned()) || g.eq(&"Satire".to_owned()) || g.eq(&"Blog".to_owned())
        || g.eq(&"OpEd".to_owned()) || g.eq(&"Opinion".to_owned()) || g.eq(
        &"UserGenerated".to_owned(),
    )
}

/// Keeps the known genres of a comma-separated list, trimmed, joined by
/// `", "`.
pub fn validate_genres(genres: &str) -> (r: String)
    ensures
        r@ == genres_text(genres@),
{
    let ps = split_pieces(genres, ',');
    let mut kept: Vec<String> = Vec::new();
    let mut i: usize = 0;
    while i < ps.len()
        invariant
            i <= ps.len(),
            strings_view(kept@) == known_genres(strings_view(ps@).take(i as int)),
        decreases ps.len() - i,
    {
        proof {
            assert(strings_view(ps@).take(i + 1).drop_last() =~= strings_view(ps@).take(i as int));
            assert(strings_view(ps@).take(i + 1).last() == ps@[i as int]@);
        }
        let g = trim_string(ps[i].as_str());
        if known_genre_text(&g) {
            let ghost before = strings_view(kept@);
            kept.push(g);
            proof {
                assert(strings_view(kept@) =~= before.push(g@));
            }
        }
        i = i + 1;
    }
    proof {
        assert(strings_view(ps@).take(i as int) =~= strings_view(ps@));
    }
    join_strings(&kept, ", ")
}

/// Keeps the first ten pieces of a comma-separated list, trimmed, without
/// the empty ones, joined by `", "`.
pub fn validate_keywords(keywords: &str) -> (r: String)
    ensures
        r@ == keywords_text(keywords@),
{
    let ps = split_pieces(keywords, ',');
    let n = if ps.len() <= 10 { ps.len() } else { 10 };
    let ghost first = if strings_view(ps@).len() <= 10 { strings_view(ps@) } else { strings_view(ps@).take(10) };
    let mut kept: Vec<String> = Vec::new();
    let mut i: usize = 0;
    while i < n
        invariant
            i <= n <= ps.len(),
            n == first.len(),
            first == strings_view(ps@).take(n as int),
            strings_view(kept@) == non_empty_trimmed(first.take(i as int)),
        decreases n - i,
    {
        proof {
            assert(first.take(i + 1).drop_last() =~= first.take(i as int));
            assert(first.take(i + 1).last() == ps@[i as int]@);
        }
        let k = trim_string(ps[i].as_str());
        let kc = chars_of(k.as_str());
        if kc.len() > 0 {
            let ghost before = strings_view(kept@);
            kept.push(k);
            proof {
                assert(strings_view(kept@) =~= before.push(kc@));
            }
        }
        i = i + 1;
    }
    proof {
        assert(first.take(n as int) =~= first);
    }
    join_strings(&kept, ", ")
}

/// Keeps a language code of two lowercase ASCII letters, else gives `"en"`.
pub fn validate_language(lang: &str) -> (r: String)
    ensures
        r@ == language_text(lang@),
{
    let cs = chars_of(lang);
    if cs.len() == 2 && 'a' <= cs[0] && cs[0] <= 'z' && 'a' <= cs[1] && cs[1] <= 'z' {
        lang.to_owned()
    } else {
        "en".to_owned()
    }
}

/// Keeps an http(s) URL without `<`, `>` and `"`, else gives an empty
/// string.
pub fn validate_url(url: &str) -> (r: String)
    ensures
        r@ == url_text(url@),
{
    let cs = chars_of(url);
    let n = cs.len();
    proof {
        reveal_strlit("http://");
        reveal_strlit("https://");
    }
    let http = n >= 7 && cs[0] == 'h' && cs[1] == 't' && cs[2] == 't' && cs[3] == 'p' && cs[4] == ':'
        && cs[5] == '/' && cs[6] == '/';
    let https = n >= 8 && cs[0] == 'h' && cs[1] == 't' && cs[2] == 't' && cs[3] == 'p' && cs[4]
        == 's' && cs[5] == ':' && cs[6] == '/' && cs[7] == '/';
    proof {
        if http {
            assert(cs@.take(7) =~= "http://"@);
        } else if n >= 7 && cs@.take(7) == "http://"@ {
            assert(cs@.take(7)[0] == cs@[0] && cs@.take(7)[1] == cs@[1] && cs@.take(7)[2] == cs@[2]
                && cs@.take(7)[3] == cs@[3] && cs@.take(7)[4] == cs@[4] && cs@.take(7)[5] == cs@[5]
                && cs@.take(7)[6] == cs@[6]);
        }
        if https {
            assert(cs@.take(8) =~= "https://"@);
        } else if n >= 8 && cs@.take(8) == "https://"@ {
            assert(cs@.take(8)[0] == cs@[0] && cs@.take(8)[1] == cs@[1] && cs@.take(8)[2] == cs@[2]
                && cs@.take(8)[3] == cs@[3] && cs@.take(8)[4] == cs@[4] && cs@.take(8)[5] == cs@[5]
                && cs@.take(8)[6] == cs@[6] && cs@.take(8)[7] == cs@[7]);
        }
    }
    if !(http || https) {
        return String::new();
    }
    let mut i: usize = 0;
    while i < n
        invariant
            i <= n == cs.len(),
            cs@ == url@,
            forall|j: int| 0 <= j < i ==> !(cs@[j] == '<' || cs@[j] == '>' || cs@[j] == '"'),
        decreases n - i,
    {
        let c = cs[i];
        if c == '<' || c == '>' || c == '"' {
            return String::new();
        }
        i = i + 1;
    }
    url.to_owned()
}

/// Drops control characters and keeps at most 1000 characters.
pub fn sanitize_text(text: &str) -> (r: String)
    ensures
        r@ == news_text(text@),
{
    let cs = chars_of(text);
    proof {
        assert(cs@.subrange(0, cs.len() as int) =~= cs@);
    }
    printable_prefix(&cs, 0, cs.len(), 1000)
}


/// The RFC 3339 form of a date that `time` reads in RFC 2822 form, or
/// `None` where it cannot read it.
pub uninterp spec fn rfc3339_of_rfc2822(input: Seq<char>) -> Option<Seq<char>>;

/// Relies on `time::OffsetDateTime::parse` with the RFC 2822 description,
/// then `OffsetDateTime::format` with the RFC 3339 description (an empty
/// string where formatting fails): the result depends on the input alone.
#[verifier::external_body]
fn rfc2822_as_rfc3339(input: &str) -> (r: Option<String>)
    ensures
        opt_chars(r) == rfc3339_of_rfc2822(input@),
{
    match time::OffsetDateTime::parse(input, &time::format_description::well_known::Rfc2822) {
        Ok(d) => Some(d.format(&time::format_description::well_known::Rfc3339).unwrap_or_default()),
        Err(_) => None,
    }
}

/// Relies on `time::OffsetDateTime::now_utc`, formatted as RFC 3339: the
/// current time, about which nothing is promised.
#[verifier::external_body]
fn now_rfc3339() -> String {
    let now = time::OffsetDateTime::now_utc();
    now.format(&time::format_description::well_known::Rfc3339).unwrap_or_default()
}


/// Reformats an RFC 2822 date as RFC 3339; a date that cannot be read gives
/// the current time instead.
pub fn format_publication_date(input: &str) -> (r: String)
    ensures
        rfc3339_of_rfc2822(input@) matches Some(d) ==> r@ == d,
{
    match rfc2822_as_rfc3339(input) {
        Some(d) => d,
        None => now_rfc3339(),
    }
}

/// The value of an entry, or `default` when it is absent.
pub open spec fn entry_or(m: Map<String, String>, key: Seq<char>, default: Seq<char>) -> Seq<char> {
    match metadata_entry(m, key) {
        Some(v) => v,
        None => default,
    }
}

/// The metadata of one news article.
#[derive(Debug, Clone)]
pub struct NewsSiteMapConfig {
    metadata: HashMap<String, String>,
}

impl NewsSiteMapConfig {
    /// The metadata held.
    pub closed spec fn entries(&self) -> Map<String, String> {
        self.metadata@
    }

    /// A configuration holding `metadata`.
    pub fn new(metadata: HashMap<String, String>) -> (r: Self)
        ensures
            r.entries() == metadata@,
    {
        NewsSiteMapConfig { metadata }
    }

    fn value_or_empty(&self, key: &str) -> (r: String)
        ensures
            r@ == entry_or(self.entries(), key@, Seq::<char>::empty()),
    {
        match metadata_value(&self.metadata, key) {
            Some(v) => v,
            None => String::new(),
        }
    }

    /// The cleaned value of an entry, or of `default` when it is absent.
    pub fn get_sanitized(&self, key: &str, default: &str) -> (r: String)
        ensures
            r@ == news_text(entry_or(self.entries(), key@, default@)),
    {
        match metadata_value(&self.metadata, key) {
            Some(v) => sanitize_text(v.as_str()),
            None => sanitize_text(default),
        }
    }

    /// The publication date in RFC 3339 form (see [`format_publication_date`]).
    pub fn get_formatted_date(&self) -> (r: String)
        ensures
            rfc3339_of_rfc2822(entry_or(self.entries(), "news_publication_date"@, Seq::<char>::empty()))
                matches Some(d) ==> r@ == d,
    {
        let date = self.value_or_empty("news_publication_date");
        format_publication_date(date.as_str())
    }

    /// The sitemap entry of the article: genres, keywords, language and
    /// URLs checked, names and title cleaned (with defaults when absent),
    /// and the publication date in RFC 3339 form.
    pub fn to_news_data(&self) -> (r: NewsData)
        ensures
            r.news_genres@ == genres_text(entry_or(self.entries(), "news_genres"@, Seq::<char>::empty())),
            r.news_image_loc@ == url_text(entry_or(self.entries(), "news_image_loc"@, Seq::<char>::empty())),
            r.news_keywords@ == keywords_text(entry_or(self.entries(), "news_keywords"@, Seq::<char>::empty())),
            r.news_language@ == language_text(entry_or(self.entries(), "news_language"@, Seq::<char>::empty())),
            r.news_loc@ == url_text(entry_or(self.entries(), "news_loc"@, Seq::<char>::empty())),
            rfc3339_of_rfc2822(entry_or(self.entries(), "news_publication_date"@, Seq::<char>::empty()))
                matches Some(d) ==> r.news_publication_date@ == d,
            r.news_publication_name@ == news_text(
                entry_or(self.entries(), "news_publication_name"@, "Unnamed Publication"@),
            ),
            r.news_title@ == news_text(entry_or(self.entries(), "news_title"@, "Untitled Article"@)),
    {
        let genres = self.value_or_empty("news_genres");
        let image = self.value_or_empty("news_image_loc");
        let keywords = self.value_or_empty("news_keywords");
        let language = self.value_or_empty("news_language");
        let loc = self.value_or_empty("news_loc");
        NewsData {
            news_genres: validate_genres(genres.as_str()),
            news_image_loc: validate_url(image.as_str()),
            news_keywords: validate_keywords(keywords.as_str()),
            news_language: validate_language(language.as_str()),
            news_loc: validate_url(loc.as_str()),
            news_publication_date: self.get_formatted_date(),
            news_publication_name: self.get_sanitized("news_publication_name", "Unnamed Publication"),
            news_title: self.get_sanitized("news_title", "Untitled Article"),
        }
    }
}

/// Renders the news sitemap of one article.
#[derive(Debug, Clone)]
pub struct NewsSiteMapGenerator {
    /// The article's metadata.
    pub config: NewsSiteMapConfig,
}

impl NewsSiteMapGenerator {
    /// A generator for `config`.
    pub fn new(config: NewsSiteMapConfig) -> (r: Self)
        ensures
            r.config.entries() == config.entries(),
    {
        NewsSiteMapGenerator { config }
    }
}

} // verus!
