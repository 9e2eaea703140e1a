//! Plain records of page data.

use vstd::prelude::*;

verus! {

/// The domain of a CNAME file.
#[derive(Debug, Clone, PartialEq, Eq, Default)]
pub struct CnameData {
    /// The domain.
    pub cname: String,
}

/// The site address that robots.txt points at.
#[derive(Debug, Clone, PartialEq, Eq, Default)]
pub struct TxtData {
    /// The base URL of the site.
    pub permalink: String,
}

/// The fields of humans.txt.
#[derive(Debug, Clone, PartialEq, Eq, Default)]
pub struct HumansData {
    /// The author's name.
    pub author: String,
    /// The author's website.
    pub author_website: String,
    /// The author's Twitter handle.
    pub author_twitter: String,
    /// Where the author is.
    pub author_location: String,
    /// Thanks.
    pub thanks: String,
    /// When the site was last updated.
    pub site_last_updated: String,
    /// The standards the site follows.
    pub site_standards: String,
    /// The components the site is built with.
    pub site_components: String,
    /// The software behind the site.
    pub site_software: String,
}

/// The fields of security.txt.
#[derive(Debug, Clone, PartialEq, Eq, Default)]
pub struct SecurityData {
    /// Where to report, one per `Contact` line.
    pub contact: Vec<String>,
    /// When the file stops being valid.
    pub expires: String,
    /// Where reporters are thanked.
    pub acknowledgments: String,
    /// The languages reports may be written in.
    pub preferred_languages: String,
    /// Where the file is published.
    pub canonical: String,
    /// The disclosure policy.
    pub policy: String,
    /// Security jobs.
    pub hiring: String,
    /// The key to encrypt reports with.
    pub encryption: String,
}


/// One page listed under a tag.
#[derive(Debug, Clone, PartialEq, Eq, Default)]
pub struct PageData {
    /// The page's date.
    pub date: String,
    /// The page's description.
    pub description: String,
    /// Where the page is.
    pub permalink: String,
    /// The page's title.
    pub title: String,
}

/// The tag-related metadata of one page.
#[derive(Debug, Clone, PartialEq, Eq, Default)]
pub struct TagsData {
    /// The page's date.
    pub dates: String,
    /// The page's title.
    pub titles: String,
    /// The page's description.
    pub descriptions: String,
    /// Where the page is.
    pub permalinks: String,
    /// The page's keywords.
    pub keywords: String,
}

/// The entry of one article in a news sitemap.
#[derive(Debug, Clone, PartialEq, Eq, Default)]
pub struct NewsData {
    /// The genres, joined by `", "`.
    pub news_genres: String,
    /// The URL of the article's image.
    pub news_image_loc: String,
    /// The keywords, joined by `", "`.
    pub news_keywords: String,
    /// The two-letter language code.
    pub news_language: String,
    /// The URL of the article.
    pub news_loc: String,
    /// The publication date, in RFC 3339 form.
    pub news_publication_date: String,
    /// The name of the publication.
    pub news_publication_name: String,
    /// The title of the article.
    pub news_title: String,
}

} // verus!
