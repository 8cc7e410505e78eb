//! Calls into outside crates and into parts of std that carry no
//! specification, each with the contract its source or documentation gives.
//!
//! Results that take pages to describe are given a name: a spec function
//! without a body that depends on the arguments alone.
use vstd::prelude::*;

verus! {

/// Whether regex's `Regex::new(pattern)` compiles and its `is_match` holds
/// of `haystack`; false when the pattern does not compile.
pub uninterp spec fn regex_matches_of(pattern: Seq<char>, haystack: Seq<char>) -> bool;

/// The text of capture group `group` of the leftmost match of `pattern` in
/// `haystack`, as regex's `Regex::captures` gives it; `None` when the pattern
/// does not compile, nothing matches, or the group took part in no match.
pub uninterp spec fn regex_capture_of(pattern: Seq<char>, haystack: Seq<char>, group: nat) -> Option<Seq<char>>;

/// regex's `Regex::replace_all(haystack, replacement)`; the haystack itself
/// when the pattern does not compile.
pub uninterp spec fn regex_replace_all_of(pattern: Seq<char>, haystack: Seq<char>, replacement: Seq<char>) -> Seq<char>;

/// The lowercase hexadecimal form of the MD5 digest of the UTF-8 bytes of `s`.
pub uninterp spec fn md5_hex_of(s: Seq<char>) -> Seq<char>;

/// `c` is one of `0-9` and `a-f`.
pub open spec fn is_lower_hex_digit(c: char) -> bool {
    ('0' <= c && c <= '9') || ('a' <= c && c <= 'f')
}

/// `s` is 32 lowercase hexadecimal digits, the text form of an MD5 digest.
pub open spec fn is_lower_hex_digest(s: Seq<char>) -> bool {
    s.len() == 32 && forall|i: int| 0 <= i < s.len() ==> is_lower_hex_digit(#[trigger] s[i])
}

/// The text nodes under the first element of the HTML document `html` that
/// the CSS `selector` picks, first in the order scraper's `Html::select`
/// yields elements (the order nodes were inserted into the tree); `None`
/// when no element is picked or the selector does not parse.
pub uninterp spec fn first_match_texts_of(html: Seq<char>, selector: Seq<char>) -> Option<Seq<Seq<char>>>;

/// The text held in the gzip stream `bytes`; `None` when the stream is not
/// valid gzip or does not hold UTF-8.
pub uninterp spec fn gunzip_text_of(bytes: Seq<u8>) -> Option<Seq<char>>;

/// std's `String::from_utf8_lossy`: `bytes` read as UTF-8, with each invalid
/// sequence replaced by U+FFFD.
pub uninterp spec fn utf8_lossy_of(bytes: Seq<u8>) -> Seq<char>;

/// `c` has the Unicode White_Space property, as std's `char::is_whitespace`
/// tests it.
pub open spec fn is_white_space(c: char) -> bool {
    ('\u{9}' <= c && c <= '\u{d}') || c == ' ' || c == '\u{85}' || c == '\u{a0}' || c == '\u{1680}'
        || ('\u{2000}' <= c && c <= '\u{200a}') || c == '\u{2028}' || c == '\u{2029}' || c == '\u{202f}'
        || c == '\u{205f}' || c == '\u{3000}'
}

/// `s` without its leading white space.
pub open spec fn trim_start_of(s: Seq<char>) -> Seq<char>
    decreases s.len(),
{
    if s.len() > 0 && is_white_space(s[0]) {
        trim_start_of(s.subrange(1, s.len() as int))
    } else {
        s
    }
}

/// `s` without its trailing white space.
pub open spec fn trim_end_of(s: Seq<char>) -> Seq<char>
    decreases s.len(),
{
    if s.len() > 0 && is_white_space(s.last()) {
        trim_end_of(s.drop_last())
    } else {
        s
    }
}

/// std's `str::trim`: `s` without leading and trailing white space.
pub open spec fn trim_of(s: Seq<char>) -> Seq<char> {
    trim_end_of(trim_start_of(s))
}

/// std's `str::replace` for a non-empty `from`: `s` with every
/// non-overlapping occurrence of `from`, taken from the left, replaced by `to`.
pub open spec fn replace_of(s: Seq<char>, from: Seq<char>, to: Seq<char>) -> Seq<char>
    decreases s.len(),
{
    if from.len() == 0 || s.len() < from.len() {
        s
    } else if s.subrange(0, from.len() as int) == from {
        to + replace_of(s.subrange(from.len() as int, s.len() as int), from, to)
    } else {
        seq![s[0]] + replace_of(s.subrange(1, s.len() as int), from, to)
    }
}

/// The value of attribute `attr` of each element of the HTML document `html`
/// that the CSS `selector` picks, in the order scraper's `Html::select` yields
/// them; `None` for an element without it. Empty when the selector does not
/// parse.
pub uninterp spec fn attribute_values_of(html: Seq<char>, selector: Seq<char>, attr: Seq<char>) -> Seq<Option<Seq<char>>>;

/// Relies on regex's `Regex::new` and `Regex::is_match`. The digest pattern
/// `^[a-f0-9]{32}$` matches exactly 32 lowercase hexadecimal digits: its
/// anchors hold at the start and the very end of the haystack.
#[verifier::external_body]
pub(crate) fn regex_matches(pattern: &str, haystack: &str) -> (r: bool)
    ensures
        r == regex_matches_of(pattern@, haystack@),
        pattern@ == crate::login_client::MD5_DIGEST_PATTERN@ ==> r == is_lower_hex_digest(haystack@),
{
    match regex::Regex::new(pattern) {
        Ok(re) => re.is_match(haystack),
        Err(_) => false,
    }
}

/// Relies on regex's `Regex::new`, `Regex::captures` and `Captures::get`.
#[verifier::external_body]
pub(crate) fn regex_capture(pattern: &str, haystack: &str, group: usize) -> (r: Option<String>)
    ensures
        match regex_capture_of(pattern@, haystack@, group as nat) {
            Some(c) => r is Some && r->0@ == c,
            None => r is None,
        },
{
    match regex::Regex::new(pattern) {
        Ok(re) => re.captures(haystack).and_then(|c| c.get(group)).map(|m| m.as_str().to_string()),
        Err(_) => None,
    }
}

/// Relies on regex's `Regex::new` and `Regex::replace_all`.
#[verifier::external_body]
pub(crate) fn regex_replace_all(pattern: &str, haystack: &str, replacement: &str) -> (r: String)
    ensures
        r@ == regex_replace_all_of(pattern@, haystack@, replacement@),
{
    match regex::Regex::new(pattern) {
        Ok(re) => re.replace_all(haystack, replacement).to_string(),
        Err(_) => haystack.to_string(),
    }
}

/// Relies on md5's `compute` and the `LowerHex` form of its `Digest`, which
/// writes each of the 16 bytes as two lowercase hexadecimal digits.
#[verifier::external_body]
pub(crate) fn md5_hex(s: &str) -> (r: String)
    ensures
        r@ == md5_hex_of(s@),
        is_lower_hex_digest(r@),
{
    format!("{:x}", md5::compute(s.as_bytes()))
}

/// Relies on scraper's `Html::parse_document`, `Selector::parse`,
/// `Html::select` and `ElementRef::text`.
#[verifier::external_body]
pub(crate) fn first_match_texts(html: &str, selector: &str) -> (r: Option<Vec<String>>)
    ensures
        match first_match_texts_of(html@, selector@) {
            Some(t) => r is Some && r->0.deep_view() == t,
            None => r is None,
        },
{
    let document = scraper::Html::parse_document(html);
    let selector = scraper::Selector::parse(selector).ok()?;
    let element = document.select(&selector).next()?;
    Some(element.text().map(|t| t.to_string()).collect())
}

/// Relies on flate2's `GzDecoder` read through `std::io::Read::read_to_string`.
#[verifier::external_body]
pub(crate) fn gunzip_text(bytes: &Vec<u8>) -> (r: Option<String>)
    ensures
        match gunzip_text_of(bytes@) {
            Some(t) => r is Some && r->0@ == t,
            None => r is None,
        },
{
    let mut decoder = flate2::read::GzDecoder::new(&bytes[..]);
    let mut text = String::new();
    std::io::Read::read_to_string(&mut decoder, &mut text).ok()?;
    Some(text)
}

/// Relies on std's `String::from_utf8_lossy`.
#[verifier::external_body]
pub(crate) fn utf8_lossy(bytes: &Vec<u8>) -> (r: String)
    ensures
        r@ == utf8_lossy_of(bytes@),
{
    String::from_utf8_lossy(bytes).into_owned()
}

/// Relies on std's `str::replace`.
#[verifier::external_body]
pub(crate) fn replace_text(s: &str, from: &str, to: &str) -> (r: String)
    requires
        from@.len() > 0,
    ensures
        r@ == replace_of(s@, from@, to@),
{
    s.replace(from, to)
}

/// Relies on scraper's `Html::parse_document`, `Selector::parse`,
/// `Html::select` and `Element::attr`.
#[verifier::external_body]
pub(crate) fn attribute_values(html: &str, selector: &str, attr: &str) -> (r: Vec<Option<String>>)
    ensures
        r.deep_view() == attribute_values_of(html@, selector@, attr@),
{
    let document = scraper::Html::parse_document(html);
    match scraper::Selector::parse(selector) {
        Ok(sel) => document.select(&sel).map(|e| e.value().attr(attr).map(|v| v.to_string())).collect(),
        Err(_) => Vec::new(),
    }
}

/// Relies on std's `str::trim`.
#[verifier::external_body]
pub(crate) fn trim(s: &str) -> (r: String)
    ensures
        r@ == trim_of(s@),
{
    s.trim().to_string()
}

} // verus!
