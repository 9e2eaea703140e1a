//! CNAME records.
//!
//! [`CnameConfig::new`] is the validating constructor: it turns a raw
//! domain into its ASCII form and checks it against the DNS name syntax,
//! and what it returns satisfies [`CnameConfig::wf`]. Everything that
//! follows (rendering one record, a batch of records, or a record read from
//! page metadata) is total: it cannot fail on any configuration.

use crate::metadata::{metadata_entry, metadata_value};
use crate::text::{
    chars_of, decimal, decimal_string, is_alnum, is_space, is_space_char, join, join_strings,
    opt_chars, parse_u32, parse_u32_spec, pieces, push_decimal, replace, replace_all,
    string_of_range, strings_view,
};
use rayon::iter::{IntoParallelIterator, ParallelIterator};
use std::collections::HashMap;
use vstd::prelude::*;

verus! {

/// The TTL used when none is given.
pub const DEFAULT_TTL: u32 = 3600;

/// The longest domain, in characters, of its ASCII form.
pub const MAX_DOMAIN_LEN: usize = 255;

/// The longest label, in characters.
pub const MAX_LABEL_LEN: usize = 63;

/// Errors in validating a domain or a TTL.
#[derive(Debug)]
pub enum CnameError {
    /// The domain name is empty or missing.
    EmptyDomain,
    /// The domain contains invalid characters.
    InvalidCharacters(String),
    /// A domain label exceeds 63 characters.
    LabelTooLong(String),
    /// The domain name format is invalid.
    MalformedDomain(String),
    /// A domain label starts or ends with a hyphen.
    InvalidHyphenUsage(String),
    /// The TTL value provided is invalid.
    InvalidTtl(String),
    /// The total domain length exceeds 255 characters.
    ExcessiveDomainLength(String),
}

/// What a [`CnameError`] says, with its text as a sequence of characters.
pub enum CnameFault {
    Empty,
    Characters(Seq<char>),
    LabelLength(Seq<char>),
    Malformed(Seq<char>),
    Hyphen(Seq<char>),
    Ttl(Seq<char>),
    DomainLength(Seq<char>),
}

impl View for CnameError {
    type V = CnameFault;

    open spec fn view(&self) -> CnameFault {
        match self {
            CnameError::EmptyDomain => CnameFault::Empty,
            CnameError::InvalidCharacters(s) => CnameFault::Characters(s@),
            CnameError::LabelTooLong(s) => CnameFault::LabelLength(s@),
            CnameError::MalformedDomain(s) => CnameFault::Malformed(s@),
            CnameError::InvalidHyphenUsage(s) => CnameFault::Hyphen(s@),
            CnameError::InvalidTtl(s) => CnameFault::Ttl(s@),
            CnameError::ExcessiveDomainLength(s) => CnameFault::DomainLength(s@),
        }
    }
}

/// The message of an error.
pub open spec fn fault_message(f: CnameFault) -> Seq<char> {
    match f {
        CnameFault::Empty => "Domain name cannot be empty."@,
        CnameFault::Characters(s) => "Domain contains invalid characters: "@ + s,
        CnameFault::LabelLength(s) => "Domain label exceeds maximum length of 63 characters: "@ + s,
        CnameFault::Malformed(s) => "Invalid domain format: "@ + s,
        CnameFault::Hyphen(s) => "Domain labels cannot start or end with hyphens: "@ + s,
        CnameFault::Ttl(s) => "Invalid TTL value: "@ + s,
        CnameFault::DomainLength(s) => "Total domain length exceeds 255 characters: "@ + s,
    }
}

impl CnameError {
    /// The human-readable message of this error.
    pub fn to_string(&self) -> (r: String)
        ensures
            r@ == fault_message(self@),
    {
        let (head, detail) = match self {
            CnameError::EmptyDomain => {
                return "Domain name cannot be empty.".to_owned();
            },
            CnameError::InvalidCharacters(s) => ("Domain contains invalid characters: ", s),
            CnameError::LabelTooLong(s) => (
                "Domain label exceeds maximum length of 63 characters: ",
                s,
            ),
            CnameError::MalformedDomain(s) => ("Invalid domain format: ", s),
            CnameError::InvalidHyphenUsage(s) => (
                "Domain labels cannot start or end with hyphens: ",
                s,
            ),
            CnameError::InvalidTtl(s) => ("Invalid TTL value: ", s),
            CnameError::ExcessiveDomainLength(s) => (
                "Total domain length exceeds 255 characters: ",
                s,
            ),
        };
        let mut out = head.to_owned();
        out.append(detail.as_str());
        out
    }
}

// ---------------------------------------------------------------------
// Domain syntax
// ---------------------------------------------------------------------

/// The labels of a domain: the pieces of `s` between dots, in order;
/// there is always at least one.
pub open spec fn split_labels(s: Seq<char>) -> Seq<Seq<char>> {
    pieces(s, '.')
}

/// A character allowed in a label.
pub open spec fn label_char(c: char) -> bool {
    is_alnum(c) || c == '-'
}

/// The first gate that one label fails, if any.
pub open spec fn label_fault(l: Seq<char>) -> Option<CnameFault> {
    if l.len() == 0 {
        Some(CnameFault::Malformed("Empty label in domain name."@))
    } else if l.len() > 63 {
        Some(CnameFault::LabelLength(l))
    } else if l[0] == '-' || l.last() == '-' {
        Some(CnameFault::Hyphen(l))
    } else if exists|j: int| 0 <= j < l.len() && !label_char(#[trigger] l[j]) {
        Some(CnameFault::Characters(l))
    } else {
        None
    }
}

/// The fault of the first label, from the `k`-th on, that fails a gate.
pub open spec fn first_label_fault(ls: Seq<Seq<char>>, k: int) -> Option<CnameFault>
    decreases ls.len() - k,
{
    if k < 0 || k >= ls.len() {
        None
    } else {
        match label_fault(ls[k]) {
            Some(f) => Some(f),
            None => first_label_fault(ls, k + 1),
        }
    }
}

/// The gates on the ASCII form of a domain, in order: its length, the
/// number of labels, then each label in turn.
pub open spec fn domain_check(d: Seq<char>) -> Result<(), CnameFault> {
    if d.len() > 255 {
        Err(CnameFault::DomainLength(d))
    } else if split_labels(d).len() < 2 {
        Err(CnameFault::Malformed("Domain must have at least two parts (e.g., example.com)."@))
    } else {
        match first_label_fault(split_labels(d), 0) {
            Some(f) => Err(f),
            None => Ok(()),
        }
    }
}

/// The labels of `cs` that the boundaries `starts` and `ends` mark out.
pub open spec fn marked_labels(cs: Seq<char>, starts: Seq<usize>, ends: Seq<usize>) -> Seq<
    Seq<char>,
> {
    Seq::new(starts.len(), |k: int| cs.subrange(starts[k] as int, ends[k] as int))
}

fn label_check(cs: &Vec<char>, lo: usize, hi: usize) -> (r: Option<CnameError>)
    requires
        lo <= hi <= cs.len(),
    ensures
        match r {
            Some(e) => label_fault(cs@.subrange(lo as int, hi as int)) == Some(e@),
            None => label_fault(cs@.subrange(lo as int, hi as int)) is None,
        },
{
    let ghost l = cs@.subrange(lo as int, hi as int);
    if hi == lo {
        return Some(CnameError::MalformedDomain("Empty label in domain name.".to_owned()));
    }
    if hi - lo > MAX_LABEL_LEN {
        return Some(CnameError::LabelTooLong(string_of_range(cs, lo, hi)));
    }
    if cs[lo] == '-' || cs[hi - 1] == '-' {
        return Some(CnameError::InvalidHyphenUsage(string_of_range(cs, lo, hi)));
    }
    let mut i: usize = lo;
    proof {
        assert(l[0] == cs@[lo as int]);
        assert(l.last() == cs@[hi - 1]);
    }
    while i < hi
        invariant
            lo <= i <= hi <= cs.len(),
            l == cs@.subrange(lo as int, hi as int),
            0 < l.len() <= 63,
            l[0] != '-' && l.last() != '-',
            forall|j: int| 0 <= j < i - lo ==> label_char(#[trigger] l[j]),
        decreases hi - i,
    {
        let c = cs[i];
        if !(('0' <= c && c <= '9') || ('A' <= c && c <= 'Z') || ('a' <= c && c <= 'z') || c
            == '-') {
            proof {
                assert(l[i - lo] == c);
                assert(!label_char(l[i - lo]));
            }
            return Some(CnameError::InvalidCharacters(string_of_range(cs, lo, hi)));
        }
        proof {
            assert(l[i - lo] == c);
        }
        i = i + 1;
    }
    None
}

/// Checks the ASCII form of a domain against the DNS name syntax: at most
/// 255 characters, at least two dot-separated labels, and each label
/// non-empty, at most 63 characters, made of ASCII letters, digits and
/// hyphens, and neither starting nor ending with a hyphen. The first gate
/// that fails gives the error.
pub fn validate_domain(domain: &str) -> (r: Result<(), CnameError>)
    ensures
        match r {
            Ok(_) => domain_check(domain@) is Ok,
            Err(e) => domain_check(domain@) == Err::<(), CnameFault>(e@),
        },
{
    let cs = chars_of(domain);
    if cs.len() > MAX_DOMAIN_LEN {
        return Err(CnameError::ExcessiveDomainLength(domain.to_owned()));
    }
    let mut starts: Vec<usize> = Vec::new();
    let mut ends: Vec<usize> = Vec::new();
    let mut cur: usize = 0;
    let mut i: usize = 0;
    proof {
        assert(cs@.take(0) =~= Seq::<char>::empty());
        assert(marked_labels(cs@, starts@, ends@).push(cs@.subrange(0, 0)) =~= seq![
            Seq::<char>::empty(),
        ]);
    }
    while i < cs.len()
        invariant
            i <= cs.len(),
            cur <= i,
            starts.len() == ends.len(),
            forall|k: int| 0 <= k < starts.len() ==> #[trigger] starts[k] <= ends[k] <= cs.len(),
            split_labels(cs@.take(i as int)) == marked_labels(cs@, starts@, ends@).push(
                cs@.subrange(cur as int, i as int),
            ),
        decreases cs.len() - i,
    {
        let ghost prev = marked_labels(cs@, starts@, ends@);
        proof {
            assert(cs@.take(i + 1).drop_last() =~= cs@.take(i as int));
            assert(cs@.take(i + 1).last() == cs@[i as int]);
        }
        if cs[i] == '.' {
            starts.push(cur);
            ends.push(i);
            cur = i + 1;
            proof {
                assert(marked_labels(cs@, starts@, ends@) =~= prev.push(
                    cs@.subrange(starts@.last() as int, i as int),
                ));
                assert(cs@.subrange(cur as int, i + 1) =~= Seq::<char>::empty());
            }
        } else {
            proof {
                assert(cs@.subrange(cur as int, i + 1) =~= cs@.subrange(cur as int, i as int).push(
                    cs@[i as int],
                ));
                assert(prev.push(cs@.subrange(cur as int, i as int)).update(
                    prev.len() as int,
                    cs@.subrange(cur as int, i + 1),
                ) =~= prev.push(cs@.subrange(cur as int, i + 1)));
            }
        }
        i = i + 1;
    }
    starts.push(cur);
    ends.push(cs.len());
    let ghost labels = marked_labels(cs@, starts@, ends@);
    proof {
        assert(cs@.take(cs.len() as int) =~= cs@);
        assert(labels =~= split_labels(domain@));
    }
    if starts.len() < 2 {
        return Err(
            CnameError::MalformedDomain(
                "Domain must have at least two parts (e.g., example.com).".to_owned(),
            ),
        );
    }
    let mut k: usize = 0;
    while k < starts.len()
        invariant
            k <= starts.len(),
            starts.len() == ends.len(),
            forall|q: int| 0 <= q < starts.len() ==> #[trigger] starts[q] <= ends[q] <= cs.len(),
            labels == marked_labels(cs@, starts@, ends@),
            labels == split_labels(domain@),
            cs@ == domain@,
            cs.len() <= 255,
            starts.len() >= 2,
            first_label_fault(labels, 0) == first_label_fault(labels, k as int),
        decreases starts.len() - k,
    {
        match label_check(&cs, starts[k], ends[k]) {
            Some(e) => {
                proof {
                    assert(labels[k as int] == cs@.subrange(starts[k as int] as int, ends[k as int] as int));
                    assert(first_label_fault(labels, k as int) == Some(e@));
                    assert(domain_check(domain@) == Err::<(), CnameFault>(e@));
                }
                return Err(e);
            },
            None => {
                proof {
                    assert(labels[k as int] == cs@.subrange(starts[k as int] as int, ends[k as int] as int));
                }
            },
        }
        k = k + 1;
    }
    Ok(())
}


// ---------------------------------------------------------------------
// Normalisation and configuration
// ---------------------------------------------------------------------

/// The ASCII (Punycode) form that IDNA processing gives a domain, or `None`
/// where the domain cannot be converted.
pub uninterp spec fn ascii_domain_of(domain: Seq<char>) -> Option<Seq<char>>;

/// Relies on `idna::domain_to_ascii`: the UTS 46 ASCII form of a domain, or
/// an error, determined by the input alone.
#[verifier::external_body]
fn domain_to_ascii(domain: &str) -> (r: Option<String>)
    ensures
        match r {
            Some(a) => ascii_domain_of(domain@) == Some(a@),
            None => ascii_domain_of(domain@) is None,
        },
{
    idna::domain_to_ascii(domain).ok()
}

/// Whether `d` starts or ends with white space.
pub open spec fn has_outer_space(d: Seq<char>) -> bool {
    d.len() > 0 && (is_space(d[0]) || is_space(d.last()))
}

/// The ASCII form of a raw domain once every gate has passed, or the fault
/// of the first gate that fails: surrounding white space, emptiness, IDNA
/// conversion, then [`domain_check`] on the ASCII form.
pub open spec fn normalised_domain(d: Seq<char>) -> Result<Seq<char>, CnameFault> {
    if has_outer_space(d) {
        Err(CnameFault::Characters("Domain contains leading or trailing whitespace."@))
    } else if d.len() == 0 {
        Err(CnameFault::Empty)
    } else {
        match ascii_domain_of(d) {
            None => Err(CnameFault::Characters("Invalid domain format: "@ + d)),
            Some(a) => match domain_check(a) {
                Err(f) => Err(f),
                Ok(_) => Ok(a),
            },
        }
    }
}

/// The domain and TTL that a configuration made from `d` and `ttl` holds,
/// or the fault that stops it.
pub open spec fn config_result(d: Seq<char>, ttl: Option<u32>) -> Result<(Seq<char>, u32), CnameFault> {
    match normalised_domain(d) {
        Err(f) => Err(f),
        Ok(a) => {
            let t = match ttl {
                Some(t) => t,
                None => 3600u32,
            };
            if t == 0 {
                Err(CnameFault::Ttl("TTL must be greater than 0."@))
            } else {
                Ok((a, t))
            }
        },
    }
}

/// The text of a record: `"<domain> <ttl> IN CNAME www.<domain>"` without a
/// template, else the template with each `{domain}` and then each `{ttl}`
/// replaced.
pub open spec fn record_text(domain: Seq<char>, ttl: u32, format: Option<Seq<char>>) -> Seq<char> {
    match format {
        None => domain + " "@ + decimal(ttl as nat) + " IN CNAME www."@ + domain,
        Some(f) => replace_all(
            replace_all(f, "{domain}"@, domain),
            "{ttl}"@,
            decimal(ttl as nat),
        ),
    }
}

/// A validated CNAME configuration.
#[derive(Debug, Clone, PartialEq, Eq, Default)]
pub struct CnameConfig {
    /// The domain name, in ASCII form.
    pub domain: String,
    /// The Time-To-Live of the record, in seconds.
    pub ttl: u32,
    /// An optional template with `{domain}` and `{ttl}` placeholders.
    pub format: Option<String>,
}

impl CnameConfig {
    /// The configuration holds a domain that passes every gate and a
    /// positive TTL.
    pub open spec fn wf(&self) -> bool {
        domain_check(self.domain@) is Ok && self.ttl > 0
    }

    /// The record that this configuration renders to.
    pub open spec fn record(&self) -> Seq<char> {
        record_text(self.domain@, self.ttl, opt_chars(self.format))
    }

    fn validate_and_normalise_domain(domain: &str) -> (r: Result<String, CnameError>)
        ensures
            match r {
                Ok(a) => normalised_domain(domain@) == Ok::<Seq<char>, CnameFault>(a@),
                Err(e) => normalised_domain(domain@) == Err::<Seq<char>, CnameFault>(e@),
            },
    {
        let cs = chars_of(domain);
        let n = cs.len();
        if n > 0 && (is_space_char(cs[0]) || is_space_char(cs[n - 1])) {
            return Err(
                CnameError::InvalidCharacters(
                    "Domain contains leading or trailing whitespace.".to_owned(),
                ),
            );
        }
        if n == 0 {
            return Err(CnameError::EmptyDomain);
        }
        match domain_to_ascii(domain) {
            None => {
                let mut msg = "Invalid domain format: ".to_owned();
                msg.append(domain);
                Err(CnameError::InvalidCharacters(msg))
            },
            Some(ascii) => match validate_domain(ascii.as_str()) {
                Err(e) => Err(e),
                Ok(_) => Ok(ascii),
            },
        }
    }

    /// Creates a validated configuration: the domain is converted to its
    /// ASCII form and checked, the TTL defaults to 3600 and must be
    /// positive, and the template is kept as given.
    pub fn new(domain: &str, ttl: Option<u32>, format: Option<String>) -> (r: Result<
        CnameConfig,
        CnameError,
    >)
        ensures
            match r {
                Ok(c) => {
                    &&& config_result(domain@, ttl) == Ok::<(Seq<char>, u32), CnameFault>(
                        (c.domain@, c.ttl),
                    )
                    &&& c.format == format
                    &&& c.wf()
                },
                Err(e) => config_result(domain@, ttl) == Err::<(Seq<char>, u32), CnameFault>(e@),
            },
    {
        let domain = match Self::validate_and_normalise_domain(domain) {
            Ok(d) => d,
            Err(e) => return Err(e),
        };
        let ttl = match ttl {
            Some(t) => t,
            None => DEFAULT_TTL,
        };
        if ttl == 0 {
            return Err(CnameError::InvalidTtl("TTL must be greater than 0.".to_owned()));
        }
        Ok(CnameConfig { domain, ttl, format })
    }

    /// Renders the record: the template with `{domain}` and `{ttl}`
    /// replaced, or `"<domain> <ttl> IN CNAME www.<domain>"` without one.
    pub fn generate_custom(&self) -> (r: String)
        ensures
            r@ == self.record(),
    {
        match &self.format {
            Some(fmt) => {
                proof {
                    reveal_strlit("{domain}");
                    reveal_strlit("{ttl}");
                }
                let with_domain = replace(fmt.as_str(), "{domain}", self.domain.as_str());
                let ttl = decimal_string(self.ttl);
                replace(with_domain.as_str(), "{ttl}", ttl.as_str())
            },
            None => {
                let mut out = self.domain.clone();
                out.append(" ");
                push_decimal(&mut out, self.ttl);
                out.append(" IN CNAME www.");
                out.append(self.domain.as_str());
                out
            },
        }
    }
}


// ---------------------------------------------------------------------
// Generation
// ---------------------------------------------------------------------

/// Relies on rayon's indexed parallel iterator over a `Vec`: `map` followed
/// by `collect` into a `Vec` keeps the position of every item, whatever
/// the order in which the threads ran.
#[verifier::external_body]
fn render_in_parallel(configs: Vec<CnameConfig>) -> (r: Vec<String>)
    ensures
        r.len() == configs.len(),
        forall|i: int| 0 <= i < r.len() ==> #[trigger] r[i]@ == configs[i].record(),
{
    configs.into_par_iter().map(|c| c.generate_custom()).collect()
}

/// The record made from the values of the `cname`, `ttl` and `format`
/// entries of page metadata, or the fault that stops it.
pub open spec fn record_from_values(
    cname: Option<Seq<char>>,
    ttl: Option<Seq<char>>,
    format: Option<Seq<char>>,
) -> Result<Seq<char>, CnameFault> {
    match cname {
        None => Err(CnameFault::Empty),
        Some(d) => {
            let t = match ttl {
                None => Ok(3600u32),
                Some(text) => match parse_u32_spec(text) {
                    Some(n) => Ok(n),
                    None => Err(CnameFault::Ttl("Invalid TTL value."@)),
                },
            };
            match t {
                Err(f) => Err(f),
                Ok(n) => match config_result(d, Some(n)) {
                    Err(f) => Err(f),
                    Ok((a, n2)) => Ok(record_text(a, n2, format)),
                },
            }
        },
    }
}

/// The record that page metadata describes.
pub open spec fn metadata_record(m: Map<String, String>) -> Result<Seq<char>, CnameFault> {
    record_from_values(
        metadata_entry(m, "cname"@),
        metadata_entry(m, "ttl"@),
        metadata_entry(m, "format"@),
    )
}

/// Renders CNAME records from validated configurations.
#[derive(Debug)]
pub struct CnameGenerator {
    /// The configuration of the record.
    pub config: CnameConfig,
}

impl CnameGenerator {
    /// A generator for `config`.
    pub fn new(config: CnameConfig) -> (r: CnameGenerator)
        ensures
            r.config == config,
    {
        CnameGenerator { config }
    }

    /// The record of this generator's configuration.
    pub fn generate(&self) -> (r: String)
        ensures
            r@ == self.config.record(),
    {
        self.config.generate_custom()
    }

    /// Renders every configuration, in parallel, and returns the records in
    /// the order of the configurations.
    pub fn batch_generate(configs: Vec<CnameConfig>) -> (r: Vec<Result<String, CnameError>>)
        ensures
            r.len() == configs.len(),
            forall|i: int|
                0 <= i < r.len() ==> (#[trigger] r[i] matches Ok(s) && s@ == configs[i].record()),
    {
        let ghost input = configs@;
        let records = render_in_parallel(configs);
        let mut out: Vec<Result<String, CnameError>> = Vec::new();
        for s in it: records.into_iter()
            invariant
                it.seq() == records@,
                records.len() == input.len(),
                forall|i: int| 0 <= i < records.len() ==> #[trigger] records[i]@ == input[i].record(),
                out.len() == it.index(),
                forall|i: int|
                    0 <= i < out.len() ==> (#[trigger] out[i] matches Ok(t) && t@ == input[i].record()),
        {
            out.push(Ok(s));
        }
        out
    }

    /// The records of every configuration, in order, joined by
    /// `delimiter`: the text that a batch export writes.
    pub fn batch_content(configs: Vec<CnameConfig>, delimiter: &str) -> (r: Result<String, CnameError>)
        ensures
            r matches Ok(s) && s@ == join(configs@.map_values(|c: CnameConfig| c.record()), delimiter@),
    {
        let ghost input = configs@;
        let results = Self::batch_generate(configs);
        let mut records: Vec<String> = Vec::new();
        for res in it: results.into_iter()
            invariant
                it.seq() == results@,
                results.len() == input.len(),
                forall|i: int|
                    0 <= i < results.len() ==> (#[trigger] results[i] matches Ok(t) && t@ == input[i].record()),
                records.len() == it.index(),
                forall|i: int| 0 <= i < records.len() ==> #[trigger] records[i]@ == input[i].record(),
        {
            match res {
                Ok(s) => records.push(s),
                Err(e) => return Err(e),
            }
        }
        proof {
            assert(strings_view(records@) =~= input.map_values(|c: CnameConfig| c.record()));
        }
        Ok(join_strings(&records, delimiter))
    }

    /// The record described by page metadata: the domain under `cname`
    /// (its absence is [`CnameError::EmptyDomain`]), the TTL under `ttl` as
    /// a decimal number (3600 when absent), and the template under
    /// `format`. Keys are matched exactly.
    pub fn from_metadata(metadata: &HashMap<String, String>) -> (r: Result<String, CnameError>)
        ensures
            match r {
                Ok(s) => metadata_record(metadata@) == Ok::<Seq<char>, CnameFault>(s@),
                Err(e) => metadata_record(metadata@) == Err::<Seq<char>, CnameFault>(e@),
            },
    {
        let domain = match metadata_value(metadata, "cname") {
            Some(d) => d,
            None => return Err(CnameError::EmptyDomain),
        };
        let ttl = match metadata_value(metadata, "ttl") {
            Some(text) => match parse_u32(text.as_str()) {
                Some(n) => n,
                None => return Err(CnameError::InvalidTtl("Invalid TTL value.".to_owned())),
            },
            None => DEFAULT_TTL,
        };
        let format = metadata_value(metadata, "format");
        let config = match CnameConfig::new(domain.as_str(), Some(ttl), format) {
            Ok(c) => c,
            Err(e) => return Err(e),
        };
        let generator = CnameGenerator::new(config);
        Ok(generator.generate())
    }
}


// ---------------------------------------------------------------------
// Laws
// ---------------------------------------------------------------------

/// `raw` passes the gates before IDNA conversion and converts to `ascii`.
pub open spec fn is_raw_form_of(raw: Seq<char>, ascii: Seq<char>) -> bool {
    !has_outer_space(raw) && raw.len() > 0 && ascii_domain_of(raw) == Some(ascii)
}

proof fn lemma_clean_prefix(ls: Seq<Seq<char>>, k: int, i: int)
    requires
        0 <= k <= i < ls.len(),
        forall|j: int| 0 <= j < i ==> label_fault(#[trigger] ls[j]) is None,
        label_fault(ls[i]) is Some,
    ensures
        first_label_fault(ls, k) == label_fault(ls[i]),
    decreases i - k,
{
    if k < i {
        lemma_clean_prefix(ls, k + 1, i);
    }
}

proof fn lemma_no_dot_one_label(s: Seq<char>)
    requires
        forall|j: int| 0 <= j < s.len() ==> s[j] != '.',
    ensures
        split_labels(s).len() == 1,
    decreases s.len(),
{
    if s.len() > 0 {
        lemma_no_dot_one_label(s.drop_last());
    }
}

/// A domain whose first faulty label is longer than 63 characters fails
/// with that label as `LabelTooLong`, once the total length and the label
/// count have passed; so does every raw domain with that ASCII form.
pub proof fn lemma_long_label_rejected(d: Seq<char>, i: int)
    requires
        d.len() <= 255,
        split_labels(d).len() >= 2,
        0 <= i < split_labels(d).len(),
        split_labels(d)[i].len() > 63,
        forall|j: int| 0 <= j < i ==> label_fault(#[trigger] split_labels(d)[j]) is None,
    ensures
        domain_check(d) == Err::<(), CnameFault>(CnameFault::LabelLength(split_labels(d)[i])),
        forall|raw: Seq<char>, ttl: Option<u32>|
            is_raw_form_of(raw, d) ==> #[trigger] config_result(raw, ttl) == Err::<
                (Seq<char>, u32),
                CnameFault,
            >(CnameFault::LabelLength(split_labels(d)[i])),
{
    lemma_clean_prefix(split_labels(d), 0, i);
}

/// A domain longer than 255 characters fails with `ExcessiveDomainLength`,
/// and so does every raw domain with that ASCII form.
pub proof fn lemma_long_domain_rejected(d: Seq<char>)
    requires
        d.len() > 255,
    ensures
        domain_check(d) == Err::<(), CnameFault>(CnameFault::DomainLength(d)),
        forall|raw: Seq<char>, ttl: Option<u32>|
            is_raw_form_of(raw, d) ==> #[trigger] config_result(raw, ttl) == Err::<
                (Seq<char>, u32),
                CnameFault,
            >(CnameFault::DomainLength(d)),
{
}

/// A domain of a single label (no dot) fails with `MalformedDomain`, once
/// its length has passed; so does every raw domain with that ASCII form.
pub proof fn lemma_single_label_rejected(d: Seq<char>)
    requires
        d.len() <= 255,
        forall|j: int| 0 <= j < d.len() ==> d[j] != '.',
    ensures
        domain_check(d) matches Err(CnameFault::Malformed(_)),
        forall|raw: Seq<char>, ttl: Option<u32>|
            is_raw_form_of(raw, d) ==> (#[trigger] config_result(raw, ttl) matches Err(
                CnameFault::Malformed(_),
            )),
{
    lemma_no_dot_one_label(d);
}

/// A domain whose first faulty label starts or ends with a hyphen fails
/// with that label as `InvalidHyphenUsage`, once the total length and the
/// label count have passed; so does every raw domain with that ASCII form.
pub proof fn lemma_hyphen_label_rejected(d: Seq<char>, i: int)
    requires
        d.len() <= 255,
        split_labels(d).len() >= 2,
        0 <= i < split_labels(d).len(),
        0 < split_labels(d)[i].len() <= 63,
        split_labels(d)[i][0] == '-' || split_labels(d)[i].last() == '-',
        forall|j: int| 0 <= j < i ==> label_fault(#[trigger] split_labels(d)[j]) is None,
    ensures
        domain_check(d) == Err::<(), CnameFault>(CnameFault::Hyphen(split_labels(d)[i])),
        forall|raw: Seq<char>, ttl: Option<u32>|
            is_raw_form_of(raw, d) ==> #[trigger] config_result(raw, ttl) == Err::<
                (Seq<char>, u32),
                CnameFault,
            >(CnameFault::Hyphen(split_labels(d)[i])),
{
    lemma_clean_prefix(split_labels(d), 0, i);
}

/// Two raw domains with the same ASCII form give the same configuration,
/// and so the same record, for any TTL.
pub proof fn lemma_same_ascii_same_config(d1: Seq<char>, d2: Seq<char>, ttl: Option<u32>)
    requires
        ascii_domain_of(d1) is Some,
        is_raw_form_of(d1, ascii_domain_of(d1)->Some_0),
        is_raw_form_of(d2, ascii_domain_of(d1)->Some_0),
    ensures
        config_result(d1, ttl) == config_result(d2, ttl),
        forall|f: Option<Seq<char>>|
            record_from_values(Some(d1), None, f) == record_from_values(Some(d2), None, f),
{
}

/// Page metadata without a `ttl` entry gives the same result as one whose
/// `ttl` entry reads `3600`.
pub proof fn lemma_missing_ttl_is_default(cname: Option<Seq<char>>, format: Option<Seq<char>>)
    ensures
        record_from_values(cname, None, format) == record_from_values(cname, Some("3600"@), format),
{
    reveal_strlit("3600");
    let s = "3600"@;
    assert(crate::text::unsigned_body(s) == s);
    assert(s.drop_last() =~= seq!['3', '6', '0']);
    assert(s.drop_last().drop_last() =~= seq!['3', '6']);
    assert(s.drop_last().drop_last().drop_last() =~= seq!['3']);
    assert(s.drop_last().drop_last().drop_last().drop_last() =~= Seq::<char>::empty());
    assert(crate::text::digit_value('3') == 3);
    assert(crate::text::digit_value('6') == 6);
    assert(crate::text::digit_value('0') == 0);
    assert(seq!['3'].drop_last() =~= Seq::<char>::empty());
    assert(seq!['3', '6'].drop_last() =~= seq!['3']);
    assert(seq!['3', '6', '0'].drop_last() =~= seq!['3', '6']);
    assert(crate::text::digits_value(Seq::<char>::empty()) == 0);
    assert(seq!['3'].last() == '3');
    assert(seq!['3', '6'].last() == '6');
    assert(seq!['3', '6', '0'].last() == '0');
    assert(s.last() == '0');
    assert(crate::text::digits_value(seq!['3']) == 3);
    assert(crate::text::digits_value(seq!['3', '6']) == 36);
    assert(crate::text::digits_value(seq!['3', '6', '0']) == 360);
    assert(crate::text::digits_value(s) == 3600);
    assert(parse_u32_spec(s) == Some(3600u32));
}

} // verus!
