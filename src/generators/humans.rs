//! humans.txt: the people and the technology behind a site.
//!
//! Every field is sanitised when it is set: free text is trimmed, stripped
//! of control characters and cut to 100 characters; a website must be an
//! `http` or `https` URL; a date must be an RFC 3339 date-time or an ISO
//! 8601 date; a Twitter handle must be `@` followed by ASCII letters,
//! digits and underscores, or it is dropped.

use crate::metadata::{metadata_entry, metadata_value};
use crate::text::{
    chars_of, drop_controls, first_chars, is_alnum, labelled_line, printable_prefix,
    push_labelled_line, trim, trim_bounds,
};
use std::collections::HashMap;
use vstd::prelude::*;

verus! {

/// The longest text field, in characters.
pub const MAX_TEXT_LENGTH: usize = 100;

/// Errors in building a humans.txt configuration.
#[derive(Debug)]
pub enum HumansError {
    /// A field holds an unusable value.
    InvalidInput {
        /// The field.
        field: String,
        /// What is wrong with it.
        message: String,
    },
    /// A required field is missing.
    MissingMetadata(String),
    /// A date could not be read.
    InvalidDate(String),
    /// A URL could not be read, or is not http(s).
    InvalidUrl(String),
}

/// What a [`HumansError`] says, with its text as sequences of characters.
pub enum HumansFault {
    Input(Seq<char>, Seq<char>),
    Missing(Seq<char>),
    Date(Seq<char>),
    Url(Seq<char>),
}

impl View for HumansError {
    type V = HumansFault;

    open spec fn view(&self) -> HumansFault {
        match self {
            HumansError::InvalidInput { field, message } => HumansFault::Input(field@, message@),
            HumansError::MissingMetadata(s) => HumansFault::Missing(s@),
            HumansError::InvalidDate(s) => HumansFault::Date(s@),
            HumansError::InvalidUrl(s) => HumansFault::Url(s@),
        }
    }
}

/// The message of an error.
pub open spec fn humans_fault_message(f: HumansFault) -> Seq<char> {
    match f {
        HumansFault::Input(field, message) => "Invalid input for field '"@ + field + "': "@
            + message,
        HumansFault::Missing(s) => "Missing required metadata field: "@ + s,
        HumansFault::Date(s) => "Invalid date format: "@ + s,
        HumansFault::Url(s) => "Invalid URL: "@ + s,
    }
}

impl HumansError {
    /// The human-readable message of this error.
    pub fn to_string(&self) -> (r: String)
        ensures
            r@ == humans_fault_message(self@),
    {
        match self {
            HumansError::InvalidInput { field, message } => {
                let mut out = "Invalid input for field '".to_owned();
                out.append(field.as_str());
                out.append("': ");
                out.append(message.as_str());
                out
            },
            HumansError::MissingMetadata(s) => {
                let mut out = "Missing required metadata field: ".to_owned();
                out.append(s.as_str());
                out
            },
            HumansError::InvalidDate(s) => {
                let mut out = "Invalid date format: ".to_owned();
                out.append(s.as_str());
                out
            },
            HumansError::InvalidUrl(s) => {
                let mut out = "Invalid URL: ".to_owned();
                out.append(s.as_str());
                out
            },
        }
    }
}

/// The scheme of the URL that the `url` crate reads from a text, or `None`
/// where the text is not a URL.
pub uninterp spec fn url_scheme_of(text: Seq<char>) -> Option<Seq<char>>;

/// Whether `dtt` reads a text as an RFC 3339 date-time or an ISO 8601 date.
pub uninterp spec fn is_dtt_date(text: Seq<char>) -> bool;

/// Relies on `url::Url::parse`: the scheme of the parsed URL, or `None` where
/// parsing fails; both are determined by the text alone.
#[verifier::external_body]
fn url_scheme(text: &str) -> (r: Option<String>)
    ensures
        crate::text::opt_chars(r) == url_scheme_of(text@),
{
    match url::Url::parse(text) {
        Ok(u) => Some(u.scheme().to_owned()),
        Err(_) => None,
    }
}

/// Relies on `dtt::datetime::DateTime::parse`: whether the text reads as a
/// date, determined by the text alone.
#[verifier::external_body]
fn date_parses(text: &str) -> (r: bool)
    ensures
        r == is_dtt_date(text@),
{
    dtt::datetime::DateTime::parse(text).is_ok()
}

/// Free text: trimmed, without control characters, at most 100 characters.
pub open spec fn clean_text(s: Seq<char>) -> Seq<char> {
    first_chars(drop_controls(trim(s)), 100)
}

/// A website: empty when blank, the trimmed text when it is an http(s) URL.
pub open spec fn clean_url(s: Seq<char>) -> Result<Seq<char>, HumansFault> {
    let t = trim(s);
    if t.len() == 0 {
        Ok(t)
    } else if url_scheme_of(t) == Some("http"@) || url_scheme_of(t) == Some("https"@) {
        Ok(t)
    } else {
        Err(HumansFault::Url(t))
    }
}

/// A Twitter handle: the trimmed text when it is `@` followed by ASCII
/// letters, digits and underscores, else empty.
pub open spec fn clean_handle(s: Seq<char>) -> Seq<char> {
    let t = trim(s);
    if t.len() > 0 && t[0] == '@' && (forall|i: int|
        1 <= i < t.len() ==> is_alnum(#[trigger] t[i]) || t[i] == '_') {
        t
    } else {
        Seq::<char>::empty()
    }
}

/// A date: empty when blank, the trimmed text when it reads as a date.
pub open spec fn clean_date(s: Seq<char>) -> Result<Seq<char>, HumansFault> {
    let t = trim(s);
    if t.len() == 0 {
        Ok(t)
    } else if is_dtt_date(t) {
        Ok(t)
    } else {
        Err(HumansFault::Date(t))
    }
}

/// Trims `text`, drops its control characters and keeps at most 100
/// characters.
pub fn sanitize_text(text: &str) -> (r: String)
    ensures
        r@ == clean_text(text@),
{
    let cs = chars_of(text);
    let (lo, hi) = trim_bounds(&cs);
    printable_prefix(&cs, lo, hi, MAX_TEXT_LENGTH)
}

/// Checks a website: blank gives an empty string, an http(s) URL gives the
/// trimmed text, anything else [`HumansError::InvalidUrl`].
pub fn sanitize_url(url: &str) -> (r: Result<String, HumansError>)
    ensures
        match r {
            Ok(s) => clean_url(url@) == Ok::<Seq<char>, HumansFault>(s@),
            Err(e) => clean_url(url@) == Err::<Seq<char>, HumansFault>(e@),
        },
{
    let cs = chars_of(url);
    let (lo, hi) = trim_bounds(&cs);
    let t = crate::text::string_of_range(&cs, lo, hi);
    if hi == lo {
        return Ok(t);
    }
    let scheme = url_scheme(t.as_str());
    proof {
        reveal_strlit("http");
        reveal_strlit("https");
    }
    let accepted = match &scheme {
        Some(s) => s.eq(&"http".to_owned()) || s.eq(&"https".to_owned()),
        None => false,
    };
    if accepted {
        Ok(t)
    } else {
        Err(HumansError::InvalidUrl(t))
    }
}

/// Keeps a Twitter handle of the form `@name`, where the name has only
/// ASCII letters, digits and underscores; anything else gives an empty
/// string.
pub fn sanitize_twitter_handle(handle: &str) -> (r: String)
    ensures
        r@ == clean_handle(handle@),
{
    let cs = chars_of(handle);
    let (lo, hi) = trim_bounds(&cs);
    let ghost t = cs@.subrange(lo as int, hi as int);
    if hi == lo {
        return String::new();
    }
    proof {
        assert(t[0] == cs@[lo as int]);
    }
    if cs[lo] != '@' {
        return String::new();
    }
    let mut i: usize = lo + 1;
    while i < hi
        invariant
            lo < i <= hi <= cs.len(),
            t == cs@.subrange(lo as int, hi as int),
            t == trim(handle@),
            forall|j: int| 1 <= j < i - lo ==> is_alnum(#[trigger] t[j]) || t[j] == '_',
        decreases hi - i,
    {
        let c = cs[i];
        proof {
            assert(t[i - lo] == c);
        }
        if !(('0' <= c && c <= '9') || ('A' <= c && c <= 'Z') || ('a' <= c && c <= 'z') || c
            == '_') {
            proof {
                assert(!(is_alnum(t[i - lo]) || t[i - lo] == '_'));
            }
            return String::new();
        }
        i = i + 1;
    }
    crate::text::string_of_range(&cs, lo, hi)
}

/// Checks a date: blank gives an empty string, a readable date the trimmed
/// text, anything else [`HumansError::InvalidDate`].
pub fn sanitize_date(date: &str) -> (r: Result<String, HumansError>)
    ensures
        match r {
            Ok(s) => clean_date(date@) == Ok::<Seq<char>, HumansFault>(s@),
            Err(e) => clean_date(date@) == Err::<Seq<char>, HumansFault>(e@),
        },
{
    let cs = chars_of(date);
    let (lo, hi) = trim_bounds(&cs);
    let t = crate::text::string_of_range(&cs, lo, hi);
    if hi == lo {
        return Ok(t);
    }
    if date_parses(t.as_str()) {
        Ok(t)
    } else {
        Err(HumansError::InvalidDate(t))
    }
}


/// The people and technology behind a site.
#[derive(Debug, Clone, PartialEq, Eq, Default)]
pub struct HumansConfig {
    /// The author's name.
    pub author: String,
    /// The author's website.
    pub author_website: String,
    /// The author's Twitter handle.
    pub author_twitter: String,
    /// Where the author is.
    pub author_location: String,
    /// The components the site is built with.
    pub site_components: String,
    /// When the site was last updated.
    pub site_last_updated: String,
    /// The standards the site follows.
    pub site_standards: String,
    /// The software behind the site.
    pub site_software: String,
    /// Thanks.
    pub thanks: String,
}

/// The fields of a configuration, in the order in which they are declared.
pub open spec fn humans_fields(c: HumansConfig) -> Seq<Seq<char>> {
    seq![
        c.author@,
        c.author_website@,
        c.author_twitter@,
        c.author_location@,
        c.site_components@,
        c.site_last_updated@,
        c.site_standards@,
        c.site_software@,
        c.thanks@,
    ]
}

/// Builds a [`HumansConfig`] field by field, sanitising each value.
#[derive(Default, Debug)]
pub struct HumansConfigBuilder {
    /// The configuration built so far.
    pub config: HumansConfig,
}

impl HumansConfigBuilder {
    /// A builder with every field empty.
    pub fn new() -> (r: Self)
        ensures
            forall|i: int| 0 <= i < 9 ==> (#[trigger] humans_fields(r.config)[i]).len() == 0,
    {
        HumansConfigBuilder {
            config: HumansConfig {
                author: String::new(),
                author_website: String::new(),
                author_twitter: String::new(),
                author_location: String::new(),
                site_components: String::new(),
                site_last_updated: String::new(),
                site_standards: String::new(),
                site_software: String::new(),
                thanks: String::new(),
            },
        }
    }

    /// Sets the author, as free text.
    pub fn author(self, author: &str) -> (r: Self)
        ensures
            humans_fields(r.config) == humans_fields(self.config).update(0, clean_text(author@)),
    {
        let mut b = self;
        b.config.author = sanitize_text(author);
        proof {
            assert(humans_fields(b.config) =~= humans_fields(self.config).update(0, clean_text(author@)));
        }
        b
    }

    /// Sets the author's website, which must be blank or an http(s) URL.
    pub fn author_website(self, website: &str) -> (r: Result<Self, HumansError>)
        ensures
            match r {
                Ok(b) => clean_url(website@) == Ok::<Seq<char>, HumansFault>(b.config.author_website@)
                    && humans_fields(b.config) == humans_fields(self.config).update(
                    1,
                    b.config.author_website@,
                ),
                Err(e) => clean_url(website@) == Err::<Seq<char>, HumansFault>(e@),
            },
    {
        let mut b = self;
        b.config.author_website = match sanitize_url(website) {
            Ok(u) => u,
            Err(e) => return Err(e),
        };
        proof {
            assert(humans_fields(b.config) =~= humans_fields(self.config).update(1, b.config.author_website@));
        }
        Ok(b)
    }

    /// Sets the author's Twitter handle; one not of the form `@name` is
    /// dropped.
    pub fn author_twitter(self, twitter: &str) -> (r: Self)
        ensures
            humans_fields(r.config) == humans_fields(self.config).update(2, clean_handle(twitter@)),
    {
        let mut b = self;
        b.config.author_twitter = sanitize_twitter_handle(twitter);
        proof {
            assert(humans_fields(b.config) =~= humans_fields(self.config).update(2, clean_handle(twitter@)));
        }
        b
    }

    /// Sets the author's location, as free text.
    pub fn author_location(self, location: &str) -> (r: Self)
        ensures
            humans_fields(r.config) == humans_fields(self.config).update(3, clean_text(location@)),
    {
        let mut b = self;
        b.config.author_location = sanitize_text(location);
        proof {
            assert(humans_fields(b.config) =~= humans_fields(self.config).update(3, clean_text(location@)));
        }
        b
    }

    /// Sets the site's components, as free text.
    pub fn site_components(self, components: &str) -> (r: Self)
        ensures
            humans_fields(r.config) == humans_fields(self.config).update(4, clean_text(components@)),
    {
        let mut b = self;
        b.config.site_components = sanitize_text(components);
        proof {
            assert(humans_fields(b.config) =~= humans_fields(self.config).update(4, clean_text(components@)));
        }
        b
    }

    /// Sets the date of the last update, which must be blank or a date.
    pub fn site_last_updated(self, date: &str) -> (r: Result<Self, HumansError>)
        ensures
            match r {
                Ok(b) => clean_date(date@) == Ok::<Seq<char>, HumansFault>(b.config.site_last_updated@)
                    && humans_fields(b.config) == humans_fields(self.config).update(
                    5,
                    b.config.site_last_updated@,
                ),
                Err(e) => clean_date(date@) == Err::<Seq<char>, HumansFault>(e@),
            },
    {
        let mut b = self;
        b.config.site_last_updated = match sanitize_date(date) {
            Ok(d) => d,
            Err(e) => return Err(e),
        };
        proof {
            assert(humans_fields(b.config) =~= humans_fields(self.config).update(5, b.config.site_last_updated@));
        }
        Ok(b)
    }

    /// Sets the site's standards, as free text.
    pub fn site_standards(self, standards: &str) -> (r: Self)
        ensures
            humans_fields(r.config) == humans_fields(self.config).update(6, clean_text(standards@)),
    {
        let mut b = self;
        b.config.site_standards = sanitize_text(standards);
        proof {
            assert(humans_fields(b.config) =~= humans_fields(self.config).update(6, clean_text(standards@)));
        }
        b
    }

    /// Sets the site's software, as free text.
    pub fn site_software(self, software: &str) -> (r: Self)
        ensures
            humans_fields(r.config) == humans_fields(self.config).update(7, clean_text(software@)),
    {
        let mut b = self;
        b.config.site_software = sanitize_text(software);
        proof {
            assert(humans_fields(b.config) =~= humans_fields(self.config).update(7, clean_text(software@)));
        }
        b
    }

    /// Sets the thanks, as free text.
    pub fn thanks(self, thanks: &str) -> (r: Self)
        ensures
            humans_fields(r.config) == humans_fields(self.config).update(8, clean_text(thanks@)),
    {
        let mut b = self;
        b.config.thanks = sanitize_text(thanks);
        proof {
            assert(humans_fields(b.config) =~= humans_fields(self.config).update(8, clean_text(thanks@)));
        }
        b
    }

    /// The configuration, which must name an author.
    pub fn build(self) -> (r: Result<HumansConfig, HumansError>)
        ensures
            trim(self.config.author@).len() == 0 ==> (r matches Err(e) && e@ == HumansFault::Missing(
                "author"@,
            )),
            trim(self.config.author@).len() > 0 ==> r == Ok::<HumansConfig, HumansError>(self.config),
    {
        let cs = chars_of(self.config.author.as_str());
        let (lo, hi) = trim_bounds(&cs);
        if hi == lo {
            return Err(HumansError::MissingMetadata("author".to_owned()));
        }
        Ok(self.config)
    }
}

/// Free text from an optional value, empty when absent.
pub open spec fn text_or_empty(v: Option<Seq<char>>) -> Seq<char> {
    match v {
        Some(t) => clean_text(t),
        None => Seq::<char>::empty(),
    }
}

/// The configuration that page metadata describes, as its fields, or the
/// fault that stops it: a bad website, then a bad date, then a missing
/// author.
pub open spec fn humans_from_entries(m: Map<String, String>) -> Result<Seq<Seq<char>>, HumansFault> {
    let website = match metadata_entry(m, "author_website"@) {
        Some(w) => clean_url(w),
        None => Ok(Seq::<char>::empty()),
    };
    let updated = match metadata_entry(m, "site_last_updated"@) {
        Some(d) => clean_date(d),
        None => Ok(Seq::<char>::empty()),
    };
    let twitter = match metadata_entry(m, "author_twitter"@) {
        Some(t) => clean_handle(t),
        None => Seq::<char>::empty(),
    };
    let author = text_or_empty(metadata_entry(m, "author"@));
    match website {
        Err(f) => Err(f),
        Ok(w) => match updated {
            Err(f) => Err(f),
            Ok(d) => if trim(author).len() == 0 {
                Err(HumansFault::Missing("author"@))
            } else {
                Ok(
                    seq![
                        author,
                        w,
                        twitter,
                        text_or_empty(metadata_entry(m, "author_location"@)),
                        text_or_empty(metadata_entry(m, "site_components"@)),
                        d,
                        text_or_empty(metadata_entry(m, "site_standards"@)),
                        text_or_empty(metadata_entry(m, "site_software"@)),
                        text_or_empty(metadata_entry(m, "thanks"@)),
                    ],
                )
            },
        },
    }
}

impl HumansConfig {
    /// An empty builder.
    pub fn builder() -> (r: HumansConfigBuilder)
        ensures
            forall|i: int| 0 <= i < 9 ==> (#[trigger] humans_fields(r.config)[i]).len() == 0,
    {
        HumansConfigBuilder::new()
    }

    /// The configuration that page metadata describes, each field read from
    /// the entry of the same name and sanitised as its builder method does.
    pub fn from_metadata(metadata: &HashMap<String, String>) -> (r: Result<HumansConfig, HumansError>)
        ensures
            match r {
                Ok(c) => humans_from_entries(metadata@) == Ok::<Seq<Seq<char>>, HumansFault>(
                    humans_fields(c),
                ),
                Err(e) => humans_from_entries(metadata@) == Err::<Seq<Seq<char>>, HumansFault>(e@),
            },
    {
        let mut builder = Self::builder();
        proof {
            assert(humans_fields(builder.config)[0].len() == 0);
            assert(humans_fields(builder.config)[2].len() == 0);
            assert(humans_fields(builder.config)[3].len() == 0);
            assert(humans_fields(builder.config)[4].len() == 0);
            assert(humans_fields(builder.config)[6].len() == 0);
            assert(humans_fields(builder.config)[7].len() == 0);
            assert(humans_fields(builder.config)[8].len() == 0);
            assert(humans_fields(builder.config)[1].len() == 0);
            assert(humans_fields(builder.config)[5].len() == 0);
        }
        if let Some(author) = metadata_value(metadata, "author") {
            builder = builder.author(author.as_str());
        }
        if let Some(website) = metadata_value(metadata, "author_website") {
            builder = match builder.author_website(website.as_str()) {
                Ok(b) => b,
                Err(e) => return Err(e),
            };
        }
        if let Some(twitter) = metadata_value(metadata, "author_twitter") {
            builder = builder.author_twitter(twitter.as_str());
        }
        if let Some(location) = metadata_value(metadata, "author_location") {
            builder = builder.author_location(location.as_str());
        }
        if let Some(components) = metadata_value(metadata, "site_components") {
            builder = builder.site_components(components.as_str());
        }
        if let Some(date) = metadata_value(metadata, "site_last_updated") {
            builder = match builder.site_last_updated(date.as_str()) {
                Ok(b) => b,
                Err(e) => return Err(e),
            };
        }
        if let Some(standards) = metadata_value(metadata, "site_standards") {
            builder = builder.site_standards(standards.as_str());
        }
        if let Some(software) = metadata_value(metadata, "site_software") {
            builder = builder.site_software(software.as_str());
        }
        if let Some(thanks) = metadata_value(metadata, "thanks") {
            builder = builder.thanks(thanks.as_str());
        }
        let ghost fields = humans_fields(builder.config);
        proof {
            let m = metadata@;
            assert(fields[0] =~= text_or_empty(metadata_entry(m, "author"@)));
            assert(fields[3] =~= text_or_empty(metadata_entry(m, "author_location"@)));
            assert(fields[4] =~= text_or_empty(metadata_entry(m, "site_components"@)));
            assert(fields[6] =~= text_or_empty(metadata_entry(m, "site_standards"@)));
            assert(fields[7] =~= text_or_empty(metadata_entry(m, "site_software"@)));
            assert(fields[8] =~= text_or_empty(metadata_entry(m, "thanks"@)));
            if metadata_entry(m, "author_twitter"@) is None {
                assert(fields[2] =~= Seq::<char>::empty());
            }
            if metadata_entry(m, "author_website"@) is None {
                assert(fields[1] =~= Seq::<char>::empty());
            }
            if metadata_entry(m, "site_last_updated"@) is None {
                assert(fields[5] =~= Seq::<char>::empty());
            }
        }
        let r = builder.build();
        proof {
            if r is Ok {
                assert(humans_fields(r->Ok_0) =~= fields);
            }
        }
        r
    }
}


/// The text of humans.txt for a configuration: the TEAM, THANKS and SITE
/// sections, each with a line for every non-empty field.
pub open spec fn humans_text(c: HumansConfig) -> Seq<char> {
    "/* TEAM */\n"@ + labelled_line("    Name: "@, c.author@) + labelled_line(
        "    Website: "@,
        c.author_website@,
    ) + labelled_line("    Twitter: "@, c.author_twitter@) + labelled_line(
        "    Location: "@,
        c.author_location@,
    ) + "\n/* THANKS */\n"@ + labelled_line("    Thanks: "@, c.thanks@) + "\n/* SITE */\n"@
        + labelled_line("    Last update: "@, c.site_last_updated@) + labelled_line(
        "    Standards: "@,
        c.site_standards@,
    ) + labelled_line("    Components: "@, c.site_components@) + labelled_line(
        "    Software: "@,
        c.site_software@,
    )
}

/// Renders humans.txt.
#[derive(Debug)]
pub struct HumansGenerator {
    /// The configuration to render.
    pub config: HumansConfig,
}

impl HumansGenerator {
    /// A generator for `config`.
    pub fn new(config: HumansConfig) -> (r: Self)
        ensures
            r.config == config,
    {
        HumansGenerator { config }
    }

    /// The text of humans.txt, as [`humans_text`] lays it out.
    pub fn generate(&self) -> (r: String)
        ensures
            r@ == humans_text(self.config),
    {
        let c = &self.config;
        let mut content = "/* TEAM */\n".to_owned();
        push_labelled_line(&mut content, "    Name: ", &c.author);
        push_labelled_line(&mut content, "    Website: ", &c.author_website);
        push_labelled_line(&mut content, "    Twitter: ", &c.author_twitter);
        push_labelled_line(&mut content, "    Location: ", &c.author_location);
        content.append("\n/* THANKS */\n");
        push_labelled_line(&mut content, "    Thanks: ", &c.thanks);
        content.append("\n/* SITE */\n");
        push_labelled_line(&mut content, "    Last update: ", &c.site_last_updated);
        push_labelled_line(&mut content, "    Standards: ", &c.site_standards);
        push_labelled_line(&mut content, "    Components: ", &c.site_components);
        push_labelled_line(&mut content, "    Software: ", &c.site_software);
        content
    }
}

} // verus!
