//! The text of CNAME, robots.txt, humans.txt and security.txt files from
//! page data.

use crate::models::data::{CnameData, HumansData, NewsData, SecurityData, TxtData};
use crate::text::{labelled_line, push_labelled_line, strings_view};
use vstd::prelude::*;

verus! {

/// The CNAME file: the domain, then the domain under `www.`.
pub fn cname(options: &CnameData) -> (r: String)
    ensures
        r@ == options.cname@ + "\nwww."@ + options.cname@,
{
    let mut out = options.cname.clone();
    out.append("\nwww.");
    out.append(options.cname.as_str());
    out
}

/// robots.txt: every agent allowed, and the sitemap of the site.
pub fn txt(options: &TxtData) -> (r: String)
    ensures
        r@ == "User-agent: *\nSitemap: "@ + options.permalink@ + "/sitemap.xml"@,
{
    let mut out = "User-agent: *\nSitemap: ".to_owned();
    out.append(options.permalink.as_str());
    out.append("/sitemap.xml");
    out
}

/// The text of humans.txt: the TEAM, THANKS and SITE sections, each with
/// a line for every non-empty field.
pub open spec fn human_text(o: HumansData) -> Seq<char> {
    "/* TEAM */\n"@ + labelled_line("    Name: "@, o.author@) + labelled_line(
        "    Website: "@,
        o.author_website@,
    ) + labelled_line("    Twitter: "@, o.author_twitter@) + labelled_line(
        "    Location: "@,
        o.author_location@,
    ) + "\n/* THANKS */\n"@ + labelled_line("    Thanks: "@, o.thanks@) + "\n/* SITE */\n"@
        + labelled_line("    Last update: "@, o.site_last_updated@) + labelled_line(
        "    Standards: "@,
        o.site_standards@,
    ) + labelled_line("    Components: "@, o.site_components@) + labelled_line(
        "    Software: "@,
        o.site_software@,
    )
}

/// humans.txt, as [`human_text`] lays it out.
pub fn human(options: &HumansData) -> (r: String)
    ensures
        r@ == human_text(*options),
{
    let mut content = "/* TEAM */\n".to_owned();
    push_labelled_line(&mut content, "    Name: ", &options.author);
    push_labelled_line(&mut content, "    Website: ", &options.author_website);
    push_labelled_line(&mut content, "    Twitter: ", &options.author_twitter);
    push_labelled_line(&mut content, "    Location: ", &options.author_location);
    content.append("\n/* THANKS */\n");
    push_labelled_line(&mut content, "    Thanks: ", &options.thanks);
    content.append("\n/* SITE */\n");
    push_labelled_line(&mut content, "    Last update: ", &options.site_last_updated);
    push_labelled_line(&mut content, "    Standards: ", &options.site_standards);
    push_labelled_line(&mut content, "    Components: ", &options.site_components);
    push_labelled_line(&mut content, "    Software: ", &options.site_software);
    content
}

/// One `Contact` line for each contact, in order.
pub open spec fn contact_lines(contacts: Seq<Seq<char>>) -> Seq<char>
    decreases contacts.len(),
{
    if contacts.len() == 0 {
        Seq::<char>::empty()
    } else {
        contact_lines(contacts.drop_last()) + "Contact: "@ + contacts.last() + "\n"@
    }
}

/// The text of security.txt: empty without a contact or an expiry date;
/// else the contacts, the expiry date and a line for every other non-empty
/// field.
pub open spec fn security_text(o: SecurityData) -> Seq<char> {
    if o.contact.len() == 0 || o.expires@.len() == 0 {
        Seq::<char>::empty()
    } else {
        contact_lines(strings_view(o.contact@)) + "Expires: "@ + o.expires@ + "\n"@
            + labelled_line("Acknowledgments: "@, o.acknowledgments@) + labelled_line(
            "Preferred-Languages: "@,
            o.preferred_languages@,
        ) + labelled_line("Canonical: "@, o.canonical@) + labelled_line("Policy: "@, o.policy@)
            + labelled_line("Hiring: "@, o.hiring@) + labelled_line("Encryption: "@, o.encryption@)
    }
}

/// security.txt, as [`security_text`] lays it out.
pub fn security(options: &SecurityData) -> (r: String)
    ensures
        r@ == security_text(*options),
{
    let expires = crate::text::chars_of(options.expires.as_str());
    if options.contact.len() == 0 || expires.len() == 0 {
        return String::new();
    }
    let mut content = String::new();
    let mut i: usize = 0;
    while i < options.contact.len()
        invariant
            i <= options.contact.len(),
            content@ == contact_lines(strings_view(options.contact@).take(i as int)),
        decreases options.contact.len() - i,
    {
        proof {
            assert(strings_view(options.contact@).take(i + 1).drop_last() =~= strings_view(
                options.contact@,
            ).take(i as int));
        }
        content.append("Contact: ");
        content.append(options.contact[i].as_str());
        content.append("\n");
        i = i + 1;
    }
    proof {
        assert(strings_view(options.contact@).take(i as int) =~= strings_view(options.contact@));
    }
    content.append("Expires: ");
    content.append(options.expires.as_str());
    content.append("\n");
    push_labelled_line(&mut content, "Acknowledgments: ", &options.acknowledgments);
    push_labelled_line(&mut content, "Preferred-Languages: ", &options.preferred_languages);
    push_labelled_line(&mut content, "Canonical: ", &options.canonical);
    push_labelled_line(&mut content, "Policy: ", &options.policy);
    push_labelled_line(&mut content, "Hiring: ", &options.hiring);
    push_labelled_line(&mut content, "Encryption: ", &options.encryption);
    content
}


/// The `<url>` entry of one article in a news sitemap.
pub open spec fn news_entry(o: NewsData) -> Seq<char> {
    "<url>\n    <loc>"@ + o.news_loc@
        + "</loc>\n    <news:news>\n        <news:publication>\n            <news:name>"@
        + o.news_publication_name@ + "</news:name>\n            <news:language>"@
        + o.news_language@
        + "</news:language>\n        </news:publication>\n        <news:genres>"@
        + o.news_genres@ + "</news:genres>\n        <news:publication_date>"@
        + o.news_publication_date@ + "</news:publication_date>\n        <news:title>"@
        + o.news_title@ + "</news:title>\n        <news:keywords>"@ + o.news_keywords@
        + "</news:keywords>\n    </news:news>\n    <image:image>\n        <image:loc>"@
        + o.news_image_loc@ + "</image:loc>\n    </image:image>\n</url>"@
}

/// The head of a news sitemap, up to its first entry.
pub open spec fn news_sitemap_head() -> Seq<char> {
    "<?xml version='1.0' encoding='UTF-8'?>\n<urlset xmlns=\"http://www.sitemaps.org/schemas/sitemap/0.9\"\n        xmlns:news=\"http://www.google.com/schemas/sitemap-news/0.9\"\n        xmlns:image=\"http://www.google.com/schemas/sitemap-image/1.1\">\n    "@
}

fn add_news_sitemap_entry(options: &NewsData, urls: &mut Vec<String>) -> (r: std::io::Result<()>)
    ensures
        r is Ok,
        strings_view(final(urls)@) == strings_view(old(urls)@).push(news_entry(*options)),
{
    let mut e = "<url>\n    <loc>".to_owned();
    e.append(options.news_loc.as_str());
    e.append("</loc>\n    <news:news>\n        <news:publication>\n            <news:name>");
    e.append(options.news_publication_name.as_str());
    e.append("</news:name>\n            <news:language>");
    e.append(options.news_language.as_str());
    e.append("</news:language>\n        </news:publication>\n        <news:genres>");
    e.append(options.news_genres.as_str());
    e.append("</news:genres>\n        <news:publication_date>");
    e.append(options.news_publication_date.as_str());
    e.append("</news:publication_date>\n        <news:title>");
    e.append(options.news_title.as_str());
    e.append("</news:title>\n        <news:keywords>");
    e.append(options.news_keywords.as_str());
    e.append("</news:keywords>\n    </news:news>\n    <image:image>\n        <image:loc>");
    e.append(options.news_image_loc.as_str());
    e.append("</image:loc>\n    </image:image>\n</url>");
    let ghost before = strings_view(urls@);
    urls.push(e);
    proof {
        assert(strings_view(urls@) =~= before.push(news_entry(*options)));
    }
    Ok(())
}

/// The news sitemap of one article: the XML head, the article's entry and
/// the closing `</urlset>`.
pub fn news_sitemap(options: NewsData) -> (r: String)
    ensures
        r@ == news_sitemap_head() + news_entry(options) + "</urlset>"@,
{
    let mut urls: Vec<String> = Vec::new();
    let _ = add_news_sitemap_entry(&options, &mut urls);
    proof {
        assert(strings_view(urls@).len() == 1);
    }
    let body = crate::text::join_strings(&urls, "\n");
    let mut out = "<?xml version='1.0' encoding='UTF-8'?>\n<urlset xmlns=\"http://www.sitemaps.org/schemas/sitemap/0.9\"\n        xmlns:news=\"http://www.google.com/schemas/sitemap-news/0.9\"\n        xmlns:image=\"http://www.google.com/schemas/sitemap-image/1.1\">\n    ".to_owned();
    out.append(body.as_str());
    out.append("</urlset>");
    out
}

} // verus!
