//! Web app manifests: the configuration, its builder and its sanitising
//! rules. Rendering a configuration as JSON is left to callers that hold a
//! JSON serialiser.

pub mod defaults;

use crate::metadata::{metadata_entry, metadata_value};
use crate::text::{chars_of, drop_controls, first_chars, opt_chars, printable_prefix};
use std::collections::HashMap;
use vstd::prelude::*;

verus! {

/// Errors in building or rendering a manifest.
#[derive(Debug)]
pub enum ManifestError {
    /// The name is missing or empty.
    InvalidName(String),
    /// A colour could not be read.
    InvalidColor(String),
    /// An icon URL could not be read.
    InvalidIconUrl(String),
    /// The display mode is not known.
    InvalidDisplayMode(String),
    /// The manifest could not be rendered as JSON; the serialiser's message.
    SerializationError(String),
}

/// An icon of the manifest.
#[derive(Debug, Clone)]
pub struct IconConfig {
    /// Where the icon is.
    pub src: String,
    /// Its sizes, as `"WxH"`.
    pub sizes: String,
    /// Its MIME type.
    pub icon_type: Option<String>,
    /// What it is for.
    pub purpose: Option<String>,
}

impl IconConfig {
    /// An icon with the default type and purpose.
    pub fn new(src: &str, sizes: &str) -> (r: Self)
        ensures
            r.src@ == src@,
            r.sizes@ == sizes@,
            opt_chars(r.icon_type) == Some(defaults::ICON_TYPE@),
            opt_chars(r.purpose) == Some(defaults::ICON_PURPOSE@),
    {
        IconConfig {
            src: src.to_owned(),
            sizes: sizes.to_owned(),
            icon_type: Some(defaults::ICON_TYPE.to_owned()),
            purpose: Some(defaults::ICON_PURPOSE.to_owned()),
        }
    }

    /// Sets the MIME type.
    pub fn icon_type(self, icon_type: &str) -> (r: Self)
        ensures
            r.src == self.src,
            r.sizes == self.sizes,
            opt_chars(r.icon_type) == Some(icon_type@),
            r.purpose == self.purpose,
    {
        IconConfig { icon_type: Some(icon_type.to_owned()), ..self }
    }

    /// Sets the purpose.
    pub fn purpose(self, purpose: &str) -> (r: Self)
        ensures
            r.src == self.src,
            r.sizes == self.sizes,
            r.icon_type == self.icon_type,
            opt_chars(r.purpose) == Some(purpose@),
    {
        IconConfig { purpose: Some(purpose.to_owned()), ..self }
    }
}

/// Whether `c` is an ASCII hexadecimal digit.
pub open spec fn is_hex(c: char) -> bool {
    ('0' <= c <= '9') || ('a' <= c <= 'f') || ('A' <= c <= 'F')
}

/// A colour that is kept as written: `#` and three or six hex digits, or
/// anything of the form `rgb(...)`.
pub open spec fn readable_color(c: Seq<char>) -> bool {
    (c.len() > 0 && c[0] == '#' && (c.len() == 4 || c.len() == 7) && (forall|i: int|
        1 <= i < c.len() ==> is_hex(#[trigger] c[i]))) || (c.len() >= 4 && c.take(4) == "rgb("@
        && c.last() == ')')
}

/// A colour as kept: itself when readable, else the default background.
pub open spec fn clean_color(c: Seq<char>) -> Seq<char> {
    if readable_color(c) {
        c
    } else {
        defaults::BACKGROUND@
    }
}

/// Drops the control characters of `text` and keeps at most `max_length`
/// characters.
pub fn sanitize_text(text: &str, max_length: usize) -> (r: String)
    ensures
        r@ == first_chars(drop_controls(text@), max_length as nat),
{
    let cs = chars_of(text);
    proof {
        assert(cs@.subrange(0, cs.len() as int) =~= cs@);
    }
    printable_prefix(&cs, 0, cs.len(), max_length)
}

/// Keeps a readable colour, and gives the default background for any
/// other.
pub fn sanitize_color(color: String) -> (r: String)
    ensures
        r@ == clean_color(color@),
{
    let cs = chars_of(color.as_str());
    let n = cs.len();
    proof {
        reveal_strlit("rgb(");
    }
    if n > 0 && cs[0] == '#' && (n == 4 || n == 7) {
        let mut i: usize = 1;
        let mut hex = true;
        while i < n
            invariant
                1 <= i <= n,
                n == cs.len(),
                cs@ == color@,
                hex == (forall|j: int| 1 <= j < i ==> is_hex(#[trigger] cs@[j])),
            decreases n - i,
        {
            let c = cs[i];
            if !(('0' <= c && c <= '9') || ('a' <= c && c <= 'f') || ('A' <= c && c <= 'F')) {
                hex = false;
            }
            i = i + 1;
        }
        if hex {
            return color;
        }
    }
    if n >= 4 && cs[0] == 'r' && cs[1] == 'g' && cs[2] == 'b' && cs[3] == '(' && cs[n - 1] == ')' {
        proof {
            assert(cs@.take(4) =~= "rgb("@);
        }
        return color;
    }
    proof {
        if n >= 4 && cs@.take(4) == "rgb("@ {
            assert(cs@[0] == cs@.take(4)[0]);
            assert(cs@[1] == cs@.take(4)[1]);
            assert(cs@[2] == cs@.take(4)[2]);
            assert(cs@[3] == cs@.take(4)[3]);
        }
    }
    defaults::BACKGROUND.to_owned()
}


/// A validated web app manifest.
#[derive(Debug, Clone)]
pub struct ManifestConfig {
    /// The name, at most 45 characters.
    pub name: String,
    /// The short name, at most 12 characters.
    pub short_name: Option<String>,
    /// The description, at most 120 characters.
    pub description: Option<String>,
    /// The start URL.
    pub start_url: String,
    /// The display mode.
    pub display: String,
    /// The background colour.
    pub background_color: String,
    /// The theme colour.
    pub theme_color: Option<String>,
    /// The icons.
    pub icons: Vec<IconConfig>,
    /// The orientation.
    pub orientation: String,
    /// The scope.
    pub scope: String,
}

/// The text fields of a manifest, in the order name, short name,
/// description, start URL, display, background colour, theme colour,
/// orientation, scope.
pub open spec fn manifest_fields(c: ManifestConfig) -> Seq<Option<Seq<char>>> {
    seq![
        Some(c.name@),
        opt_chars(c.short_name),
        opt_chars(c.description),
        Some(c.start_url@),
        Some(c.display@),
        Some(c.background_color@),
        opt_chars(c.theme_color),
        Some(c.orientation@),
        Some(c.scope@),
    ]
}

/// Free text cut to `n` characters, when present.
pub open spec fn clipped(v: Option<Seq<char>>, n: nat) -> Option<Seq<char>> {
    match v {
        Some(t) => Some(first_chars(drop_controls(t), n)),
        None => None,
    }
}

/// A value, or `default` when absent.
pub open spec fn or_default(v: Option<Seq<char>>, default: Seq<char>) -> Seq<char> {
    match v {
        Some(t) => t,
        None => default,
    }
}

/// Whether a draft lacks a usable name.
pub open spec fn draft_unnamed(draft: Seq<Option<Seq<char>>>) -> bool {
    draft[0] is None || draft[0]->Some_0.len() == 0
}

/// The fields of the manifest built from the values set on a builder, in
/// the order of [`manifest_fields`]: text is cut to its limit, colours are
/// checked, and absent values take their defaults.
pub open spec fn built_fields(draft: Seq<Option<Seq<char>>>) -> Seq<Option<Seq<char>>> {
    seq![
        clipped(draft[0], 45),
        clipped(draft[1], 12),
        clipped(draft[2], 120),
        Some(or_default(draft[3], defaults::START_URL@)),
        Some(or_default(draft[4], defaults::DISPLAY@)),
        Some(
            match draft[5] {
                Some(c) => clean_color(c),
                None => defaults::BACKGROUND@,
            },
        ),
        match draft[6] {
            Some(c) => Some(clean_color(c)),
            None => None,
        },
        Some(or_default(draft[7], defaults::ORIENTATION@)),
        Some(or_default(draft[8], defaults::SCOPE@)),
    ]
}

/// Builds a [`ManifestConfig`].
#[derive(Debug, Default)]
pub struct ManifestConfigBuilder {
    name: Option<String>,
    short_name: Option<String>,
    description: Option<String>,
    start_url: Option<String>,
    display: Option<String>,
    background_color: Option<String>,
    theme_color: Option<String>,
    icons: Vec<IconConfig>,
    orientation: Option<String>,
    scope: Option<String>,
}

impl ManifestConfigBuilder {
    /// The values set so far, in the order of [`manifest_fields`].
    pub closed spec fn draft(&self) -> Seq<Option<Seq<char>>> {
        seq![
            opt_chars(self.name),
            opt_chars(self.short_name),
            opt_chars(self.description),
            opt_chars(self.start_url),
            opt_chars(self.display),
            opt_chars(self.background_color),
            opt_chars(self.theme_color),
            opt_chars(self.orientation),
            opt_chars(self.scope),
        ]
    }

    /// The icons added so far, in order.
    pub closed spec fn icons_view(&self) -> Seq<IconConfig> {
        self.icons@
    }

    /// Sets the name.
    pub fn name(self, name: &str) -> (r: Self)
        ensures
            r.draft() == self.draft().update(0, Some(name@)),
            r.icons_view() == self.icons_view(),
    {
        let r = ManifestConfigBuilder { name: Some(name.to_owned()), ..self };
        proof {
            assert(r.draft() =~= self.draft().update(0, Some(name@)));
        }
        r
    }

    /// Sets the short name.
    pub fn short_name(self, name: &str) -> (r: Self)
        ensures
            r.draft() == self.draft().update(1, Some(name@)),
            r.icons_view() == self.icons_view(),
    {
        let r = ManifestConfigBuilder { short_name: Some(name.to_owned()), ..self };
        proof {
            assert(r.draft() =~= self.draft().update(1, Some(name@)));
        }
        r
    }

    /// Sets the description.
    pub fn description(self, desc: &str) -> (r: Self)
        ensures
            r.draft() == self.draft().update(2, Some(desc@)),
            r.icons_view() == self.icons_view(),
    {
        let r = ManifestConfigBuilder { description: Some(desc.to_owned()), ..self };
        proof {
            assert(r.draft() =~= self.draft().update(2, Some(desc@)));
        }
        r
    }

    /// Sets the start URL.
    pub fn start_url(self, url: &str) -> (r: Self)
        ensures
            r.draft() == self.draft().update(3, Some(url@)),
            r.icons_view() == self.icons_view(),
    {
        let r = ManifestConfigBuilder { start_url: Some(url.to_owned()), ..self };
        proof {
            assert(r.draft() =~= self.draft().update(3, Some(url@)));
        }
        r
    }

    /// Sets the display mode.
    pub fn display(self, display: &str) -> (r: Self)
        ensures
            r.draft() == self.draft().update(4, Some(display@)),
            r.icons_view() == self.icons_view(),
    {
        let r = ManifestConfigBuilder { display: Some(display.to_owned()), ..self };
        proof {
            assert(r.draft() =~= self.draft().update(4, Some(display@)));
        }
        r
    }

    /// Sets the background colour.
    pub fn background_color(self, color: &str) -> (r: Self)
        ensures
            r.draft() == self.draft().update(5, Some(color@)),
            r.icons_view() == self.icons_view(),
    {
        let r = ManifestConfigBuilder { background_color: Some(color.to_owned()), ..self };
        proof {
            assert(r.draft() =~= self.draft().update(5, Some(color@)));
        }
        r
    }

    /// Sets the theme colour.
    pub fn theme_color(self, color: &str) -> (r: Self)
        ensures
            r.draft() == self.draft().update(6, Some(color@)),
            r.icons_view() == self.icons_view(),
    {
        let r = ManifestConfigBuilder { theme_color: Some(color.to_owned()), ..self };
        proof {
            assert(r.draft() =~= self.draft().update(6, Some(color@)));
        }
        r
    }

    /// Adds an icon after those already added.
    pub fn add_icon(self, icon: IconConfig) -> (r: Self)
        ensures
            r.draft() == self.draft(),
            r.icons_view() == self.icons_view().push(icon),
    {
        let mut b = self;
        b.icons.push(icon);
        b
    }

    /// Sets the orientation.
    pub fn orientation(self, orientation: &str) -> (r: Self)
        ensures
            r.draft() == self.draft().update(7, Some(orientation@)),
            r.icons_view() == self.icons_view(),
    {
        let r = ManifestConfigBuilder { orientation: Some(orientation.to_owned()), ..self };
        proof {
            assert(r.draft() =~= self.draft().update(7, Some(orientation@)));
        }
        r
    }

    /// Sets the scope.
    pub fn scope(self, scope: &str) -> (r: Self)
        ensures
            r.draft() == self.draft().update(8, Some(scope@)),
            r.icons_view() == self.icons_view(),
    {
        let r = ManifestConfigBuilder { scope: Some(scope.to_owned()), ..self };
        proof {
            assert(r.draft() =~= self.draft().update(8, Some(scope@)));
        }
        r
    }

    /// The manifest, which must have a non-empty name; the fields are those
    /// that [`built_fields`] gives, and the icons are kept in order.
    pub fn build(self) -> (r: Result<ManifestConfig, ManifestError>)
        ensures
            draft_unnamed(self.draft()) ==> (r matches Err(ManifestError::InvalidName(m)) && m@
                == "Name cannot be empty"@),
            !draft_unnamed(self.draft()) ==> (r matches Ok(c) && manifest_fields(c) == built_fields(
                self.draft(),
            ) && c.icons@ == self.icons_view()),
    {
        let ghost draft = self.draft();
        let name = match self.name {
            Some(n) => n,
            None => String::new(),
        };
        let name_chars = chars_of(name.as_str());
        if name_chars.len() == 0 {
            return Err(ManifestError::InvalidName("Name cannot be empty".to_owned()));
        }
        let short_name = match self.short_name {
            Some(n) => Some(sanitize_text(n.as_str(), 12)),
            None => None,
        };
        let description = match self.description {
            Some(d) => Some(sanitize_text(d.as_str(), 120)),
            None => None,
        };
        let start_url = match self.start_url {
            Some(u) => u,
            None => defaults::START_URL.to_owned(),
        };
        let display = match self.display {
            Some(d) => d,
            None => defaults::DISPLAY.to_owned(),
        };
        let background_color = match self.background_color {
            Some(c) => sanitize_color(c),
            None => defaults::BACKGROUND.to_owned(),
        };
        let theme_color = match self.theme_color {
            Some(c) => Some(sanitize_color(c)),
            None => None,
        };
        let orientation = match self.orientation {
            Some(o) => o,
            None => defaults::ORIENTATION.to_owned(),
        };
        let scope = match self.scope {
            Some(s) => s,
            None => defaults::SCOPE.to_owned(),
        };
        let config = ManifestConfig {
            name: sanitize_text(name.as_str(), 45),
            short_name,
            description,
            start_url,
            display,
            background_color,
            theme_color,
            icons: self.icons,
            orientation,
            scope,
        };
        proof {
            assert(manifest_fields(config) =~= built_fields(draft));
        }
        Ok(config)
    }
}

/// The values that page metadata sets on a builder, in the order of
/// [`manifest_fields`]; `theme-color` and `background-color` are spelt
/// with hyphens.
pub open spec fn metadata_draft(m: Map<String, String>) -> Seq<Option<Seq<char>>> {
    seq![
        metadata_entry(m, "name"@),
        metadata_entry(m, "short_name"@),
        metadata_entry(m, "description"@),
        None,
        None,
        metadata_entry(m, "background-color"@),
        metadata_entry(m, "theme-color"@),
        None,
        None,
    ]
}

impl ManifestConfig {
    /// An empty builder.
    pub fn builder() -> (r: ManifestConfigBuilder)
        ensures
            forall|i: int| 0 <= i < 9 ==> #[trigger] r.draft()[i] is None,
            r.icons_view().len() == 0,
    {
        ManifestConfigBuilder {
            name: None,
            short_name: None,
            description: None,
            start_url: None,
            display: None,
            background_color: None,
            theme_color: None,
            icons: Vec::new(),
            orientation: None,
            scope: None,
        }
    }

    /// The manifest that page metadata describes: the `name`,
    /// `short_name`, `description`, `theme-color` and `background-color`
    /// entries, and an `icon` entry as one icon of the default size.
    pub fn from_metadata(metadata: &HashMap<String, String>) -> (r: Result<Self, ManifestError>)
        ensures
            draft_unnamed(metadata_draft(metadata@)) ==> (r matches Err(
                ManifestError::InvalidName(_),
            )),
            !draft_unnamed(metadata_draft(metadata@)) ==> (r matches Ok(c) && manifest_fields(c)
                == built_fields(metadata_draft(metadata@)) && (metadata_entry(metadata@, "icon"@) is None
                ==> c.icons.len() == 0) && (metadata_entry(metadata@, "icon"@) matches Some(i) ==> (
            c.icons.len() == 1 && c.icons[0].src@ == i && c.icons[0].sizes@ == defaults::ICON_SIZE@))),
    {
        let mut builder = Self::builder();
        if let Some(name) = metadata_value(metadata, "name") {
            builder = builder.name(name.as_str());
        }
        if let Some(short_name) = metadata_value(metadata, "short_name") {
            builder = builder.short_name(short_name.as_str());
        }
        if let Some(description) = metadata_value(metadata, "description") {
            builder = builder.description(description.as_str());
        }
        if let Some(theme_color) = metadata_value(metadata, "theme-color") {
            builder = builder.theme_color(theme_color.as_str());
        }
        if let Some(background_color) = metadata_value(metadata, "background-color") {
            builder = builder.background_color(background_color.as_str());
        }
        if let Some(icon) = metadata_value(metadata, "icon") {
            builder = builder.add_icon(IconConfig::new(icon.as_str(), defaults::ICON_SIZE));
        }
        proof {
            assert(builder.draft() =~= metadata_draft(metadata@));
        }
        builder.build()
    }
}

/// Renders a web app manifest.
#[derive(Debug)]
pub struct ManifestGenerator {
    config: ManifestConfig,
}

impl ManifestGenerator {
    /// A generator for `config`.
    pub fn new(config: ManifestConfig) -> (r: Self)
        ensures
            r.config() == config,
    {
        ManifestGenerator { config }
    }

    /// The manifest this generator renders.
    pub closed spec fn config(&self) -> ManifestConfig {
        self.config
    }

    /// The manifest this generator renders.
    pub fn manifest(&self) -> (r: &ManifestConfig)
        ensures
            *r == self.config(),
    {
        &self.config
    }
}

} // verus!
