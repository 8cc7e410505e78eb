//! The news pages of the website: how many there are, and where their links
//! point.
use vstd::prelude::*;
use vstd::string::*;
use crate::login_client::same_text;
use crate::outside::{attribute_values, attribute_values_of, replace_of, replace_text};
use crate::text::starts_with;

verus! {

/// The website that relative news links are resolved against.
pub const SITE_ROOT: &'static str = "https://plazmaburst2.com";

/// `d` is an ASCII decimal digit.
pub open spec fn is_digit(d: char) -> bool {
    '0' <= d <= '9'
}

/// The value of a decimal digit.
pub open spec fn digit_value(d: char) -> int {
    d as int - '0' as int
}

/// The value of a string of decimal digits.
pub open spec fn digits_value(s: Seq<char>) -> int
    decreases s.len(),
{
    if s.len() == 0 {
        0
    } else {
        digits_value(s.drop_last()) * 10 + digit_value(s.last())
    }
}

/// The digits of an unsigned decimal numeral, as std's `u8::from_str`
/// reads it: an optional leading `+` and at least one digit.
pub open spec fn numeral_digits(s: Seq<char>) -> Seq<char> {
    if s.len() > 0 && s[0] == '+' {
        s.subrange(1, s.len() as int)
    } else {
        s
    }
}

/// The `u8` that `s` denotes, if it is a numeral of a value below 256.
pub open spec fn u8_of(s: Seq<char>) -> Option<u8> {
    let d = numeral_digits(s);
    if d.len() > 0 && (forall|i: int| 0 <= i < d.len() ==> is_digit(d[i])) && digits_value(d) <= 255 {
        Some(digits_value(d) as u8)
    } else {
        None
    }
}

/// The text after the last `=` of `s`, or all of `s` when it has none.
pub open spec fn after_last_eq(s: Seq<char>) -> Seq<char>
    decreases s.len(),
{
    if s.len() == 0 {
        s
    } else if s.last() == '=' {
        Seq::empty()
    } else {
        after_last_eq(s.drop_last()).push(s.last())
    }
}

/// The page number a pagination link points at: the `u8` after its last `=`.
pub open spec fn page_number_of(href: Seq<char>) -> Option<u8> {
    u8_of(after_last_eq(href))
}

/// The largest page number among the first `n` links, or 0.
pub open spec fn max_page_of(hrefs: Seq<Option<Seq<char>>>, n: int) -> nat
    decreases n,
{
    if n <= 0 {
        0
    } else {
        let m = max_page_of(hrefs, n - 1);
        match hrefs[n - 1] {
            Some(h) => match page_number_of(h) {
                Some(p) => if p > m { p as nat } else { m },
                None => m,
            },
            None => m,
        }
    }
}

proof fn lemma_digits_value_step(s: Seq<char>, k: int)
    requires
        0 <= k < s.len(),
    ensures
        digits_value(s.subrange(0, k + 1)) == digits_value(s.subrange(0, k)) * 10 + digit_value(s[k]),
{
    assert(s.subrange(0, k + 1).drop_last() =~= s.subrange(0, k));
}

proof fn lemma_digits_value_nonneg(s: Seq<char>)
    requires
        forall|i: int| 0 <= i < s.len() ==> is_digit(s[i]),
    ensures
        0 <= digits_value(s),
    decreases s.len(),
{
    if s.len() > 0 {
        lemma_digits_value_nonneg(s.drop_last());
    }
}

proof fn lemma_digits_value_grows(s: Seq<char>, k: int)
    requires
        0 <= k <= s.len(),
        forall|i: int| 0 <= i < s.len() ==> is_digit(s[i]),
    ensures
        0 <= digits_value(s.subrange(0, k)) <= digits_value(s),
    decreases s.len() - k,
{
    lemma_digits_value_nonneg(s.subrange(0, k));
    if k < s.len() {
        lemma_digits_value_step(s, k);
        lemma_digits_value_grows(s, k + 1);
    } else {
        assert(s.subrange(0, k) =~= s);
    }
}

/// Reads a decimal `u8` as std's `u8::from_str` does: an optional `+`, then
/// one or more digits, of a value below 256.
pub fn parse_u8(s: &str) -> (r: Option<u8>)
    ensures
        r == u8_of(s@),
{
    let n = s.unicode_len();
    let start: usize = if n > 0 && s.get_char(0) == '+' { 1 } else { 0 };
    let ghost d = numeral_digits(s@);
    assert(d =~= s@.subrange(start as int, n as int));
    if start >= n {
        return None;
    }
    let mut value: u16 = 0;
    let mut i: usize = start;
    while i < n
        invariant
            start <= i <= n,
            n == s@.len(),
            start < n,
            d == s@.subrange(start as int, n as int),
            d == numeral_digits(s@),
            forall|j: int| 0 <= j < i - start ==> is_digit(d[j]),
            value as nat == digits_value(d.subrange(0, i - start)),
            value <= 255,
        decreases n - i,
    {
        let c = s.get_char(i);
        assert(c == d[i - start]);
        if c < '0' || c > '9' {
            assert(!is_digit(d[i - start]));
            assert(!(forall|j: int| 0 <= j < d.len() ==> is_digit(d[j])));
            return None;
        }
        let digit = (c as u32 - '0' as u32) as u16;
        proof {
            lemma_digits_value_step(d, i - start);
        }
        let next = value * 10 + digit;
        if next > 255 {
            proof {
                if forall|j: int| 0 <= j < d.len() ==> is_digit(d[j]) {
                    lemma_digits_value_grows(d, i + 1 - start);
                    assert(digits_value(d) > 255);
                }
                assert(u8_of(s@) is None);
            }
            return None;
        }
        value = next;
        i = i + 1;
    }
    assert(d.subrange(0, n - start) =~= d);
    Some(value as u8)
}

/// The text after the last `=` of `href`, or all of it when it has none.
pub fn text_after_last_eq(href: &str) -> (r: String)
    ensures
        r@ == after_last_eq(href@),
{
    let n = href.unicode_len();
    let mut i: usize = n;
    assert(href@.subrange(0, n as int) =~= href@);
    assert(after_last_eq(href@) + href@.subrange(n as int, n as int) =~= after_last_eq(href@));
    while i > 0
        invariant
            i <= n,
            n == href@.len(),
            after_last_eq(href@) == after_last_eq(href@.subrange(0, i as int)) + href@.subrange(i as int, n as int),
            forall|j: int| i <= j < n ==> href@[j] != '=',
        decreases i,
    {
        let c = href.get_char(i - 1);
        let ghost pre = href@.subrange(0, i as int);
        assert(pre.drop_last() =~= href@.subrange(0, i - 1));
        assert(pre.last() == c);
        if c == '=' {
            assert(after_last_eq(pre) =~= Seq::<char>::empty());
            assert(href@.subrange(i as int, n as int) =~= Seq::<char>::empty() + href@.subrange(i as int, n as int));
            return href.substring_char(i, n).to_owned();
        }
        assert(after_last_eq(pre) == after_last_eq(href@.subrange(0, i - 1)).push(c));
        assert(after_last_eq(href@.subrange(0, i - 1)).push(c) + href@.subrange(i as int, n as int)
            =~= after_last_eq(href@.subrange(0, i - 1)) + href@.subrange(i - 1, n as int));
        i = i - 1;
    }
    assert(href@.subrange(0, 0) =~= Seq::<char>::empty());
    assert(href@.subrange(0, n as int) =~= href@);
    href.to_owned()
}

/// The page number a pagination link points at.
pub fn link_page_number(href: &str) -> (r: Option<u8>)
    ensures
        r == page_number_of(href@),
{
    let tail = text_after_last_eq(href);
    parse_u8(tail.as_str())
}

/// The number of news pages from the targets of the page's pagination
/// links, `None` for a link without one: one more than the largest page
/// number among them, or 1.
pub fn news_pages_count(hrefs: &Vec<Option<String>>) -> (r: u16)
    ensures
        r as nat == max_page_of(hrefs.deep_view(), hrefs.len() as int) + 1,
{
    let ghost dv = hrefs.deep_view();
    let mut max_page: u8 = 0;
    let mut i: usize = 0;
    while i < hrefs.len()
        invariant
            i <= hrefs.len(),
            dv == hrefs.deep_view(),
            max_page as nat == max_page_of(dv, i as int),
        decreases hrefs.len() - i,
    {
        match &hrefs[i] {
            Some(h) => match link_page_number(h.as_str()) {
                Some(p) => {
                    if p > max_page {
                        max_page = p;
                    }
                },
                None => {},
            },
            None => {},
        }
        i = i + 1;
    }
    max_page as u16 + 1
}

/// Picks the pagination links of the front page.
pub const PAGE_LINK_SELECTOR: &'static str = "div > a";

/// The number of news pages that the front page `html` links to.
pub fn news_pages_count_of_page(html: &str) -> (r: u16)
    ensures
        r as nat == ({
            let hrefs = attribute_values_of(html@, PAGE_LINK_SELECTOR@, "href"@);
            max_page_of(hrefs, hrefs.len() as int) + 1
        }),
{
    let hrefs = attribute_values(html, PAGE_LINK_SELECTOR, "href");
    news_pages_count(&hrefs)
}

/// One node that follows a news date on a news page, as plain values.
#[derive(Debug, Clone)]
pub enum NewsPiece {
    /// An element: its tag name, its `align`, `class` and `href` attributes,
    /// and its inner HTML.
    Element {
        name: String,
        align: Option<String>,
        class: Option<String>,
        href: Option<String>,
        inner_html: String,
    },
    /// A text node.
    Text(String),
    /// Any other node, such as a comment.
    Other,
}

/// The attribute holds exactly `v`.
pub open spec fn attr_is(a: Option<String>, v: Seq<char>) -> bool {
    match a {
        Some(x) => x@ == v,
        None => false,
    }
}

/// The node ends a news entry: a centred `div`, or a `div` of class `news_div`.
pub open spec fn ends_entry(p: NewsPiece) -> bool {
    match p {
        NewsPiece::Element { name, align, class, .. } => name@ == "div"@ && (attr_is(align, "center"@)
            || attr_is(class, "news_div"@)),
        _ => false,
    }
}

/// The text a node adds to a news entry.
pub open spec fn piece_text(p: NewsPiece) -> Seq<char> {
    match p {
        NewsPiece::Element { name, href, inner_html, .. } => if name@ == "br"@ {
            "\n"@
        } else if name@ == "a"@ {
            match href {
                Some(h) => "<a href=\""@ + h@ + "\">"@ + inner_html@ + "</a>"@,
                None => Seq::empty(),
            }
        } else {
            inner_html@
        },
        NewsPiece::Text(t) => t@,
        NewsPiece::Other => Seq::empty(),
    }
}

/// The text of the first `n` nodes, or of those before the first that ends
/// the entry.
pub open spec fn raw_entry_text(pieces: Seq<NewsPiece>, n: int) -> Seq<char>
    decreases n,
{
    if n <= 0 {
        Seq::empty()
    } else if exists|j: int| 0 <= j < n && ends_entry(#[trigger] pieces[j]) {
        raw_entry_text(pieces, n - 1)
    } else {
        raw_entry_text(pieces, n - 1) + piece_text(pieces[n - 1])
    }
}

/// A news entry's text once tidied: tabs dropped, doubled line breaks made
/// single, and the punctuation right after a link dropped.
pub open spec fn tidied(s: Seq<char>) -> Seq<char> {
    let s1 = replace_of(s, "\t"@, ""@);
    let s2 = replace_of(s1, "\n\n"@, "\n"@);
    let s3 = replace_of(s2, "</a>.\n"@, "</a>"@);
    let s4 = replace_of(s3, "</a>!"@, "</a>"@);
    replace_of(s4, "</a>."@, "</a>"@)
}

/// Whether the node ends a news entry.
pub fn is_entry_end(piece: &NewsPiece) -> (r: bool)
    ensures
        r == ends_entry(*piece),
{
    match piece {
        NewsPiece::Element { name, align, class, .. } => {
            let centred = match align {
                Some(a) => same_text(a.as_str(), "center"),
                None => false,
            };
            let news_div = match class {
                Some(c) => same_text(c.as_str(), "news_div"),
                None => false,
            };
            same_text(name.as_str(), "div") && (centred || news_div)
        },
        _ => false,
    }
}

/// The text that one node adds to a news entry.
pub fn news_piece_text(piece: &NewsPiece) -> (r: String)
    ensures
        r@ == piece_text(*piece),
{
    match piece {
        NewsPiece::Element { name, href, inner_html, .. } => {
            if same_text(name.as_str(), "br") {
                String::from_str("\n")
            } else if same_text(name.as_str(), "a") {
                match href {
                    Some(h) => {
                        let mut t = String::from_str("<a href=\"");
                        t.append(h.as_str());
                        t.append("\">");
                        t.append(inner_html.as_str());
                        t.append("</a>");
                        t
                    },
                    None => String::new(),
                }
            } else {
                inner_html.clone()
            }
        },
        NewsPiece::Text(t) => t.clone(),
        NewsPiece::Other => String::new(),
    }
}

/// The text of a news entry from the nodes that follow its date: the text
/// of each node up to the first that ends the entry, then tidied.
pub fn news_entry_text(pieces: &Vec<NewsPiece>) -> (r: String)
    ensures
        r@ == tidied(raw_entry_text(pieces@, pieces@.len() as int)),
{
    let mut text = String::new();
    let mut i: usize = 0;
    let mut ended = false;
    while i < pieces.len() && !ended
        invariant
            i <= pieces.len(),
            ended ==> exists|j: int| 0 <= j < i && ends_entry(#[trigger] pieces@[j]),
            !ended ==> forall|j: int| 0 <= j < i ==> !ends_entry(#[trigger] pieces@[j]),
            text@ == raw_entry_text(pieces@, i as int),
        decreases pieces.len() - i,
    {
        if is_entry_end(&pieces[i]) {
            ended = true;
            assert(ends_entry(pieces@[i as int]));
            assert(raw_entry_text(pieces@, i + 1) == raw_entry_text(pieces@, i as int));
            assert(text@ == raw_entry_text(pieces@, i + 1));
        } else {
            let piece = news_piece_text(&pieces[i]);
            text.append(piece.as_str());
        }
        i = i + 1;
    }
    proof {
        lemma_raw_entry_text_stops(pieces@, i as int, ended);
        reveal_strlit("\t");
        reveal_strlit("\n\n");
        reveal_strlit("</a>.\n");
        reveal_strlit("</a>!");
        reveal_strlit("</a>.");
    }
    let t1 = replace_text(text.as_str(), "\t", "");
    let t2 = replace_text(t1.as_str(), "\n\n", "\n");
    let t3 = replace_text(t2.as_str(), "</a>.\n", "</a>");
    let t4 = replace_text(t3.as_str(), "</a>!", "</a>");
    replace_text(t4.as_str(), "</a>.", "</a>")
}

proof fn lemma_raw_entry_text_stops(pieces: Seq<NewsPiece>, i: int, ended: bool)
    requires
        0 <= i <= pieces.len(),
        ended ==> exists|j: int| 0 <= j < i && ends_entry(#[trigger] pieces[j]),
        !ended ==> i == pieces.len(),
    ensures
        raw_entry_text(pieces, pieces.len() as int) == raw_entry_text(pieces, i),
    decreases pieces.len() - i,
{
    if i < pieces.len() {
        let j = choose|j: int| 0 <= j < i && ends_entry(#[trigger] pieces[j]);
        assert(0 <= j < i + 1 && ends_entry(pieces[j]));
        lemma_raw_entry_text_stops(pieces, i + 1, ended);
    }
}

/// The address a news link points at: as written when it begins with
/// `http`, otherwise resolved against the website root.
pub fn absolute_link_url(href: &str) -> (r: String)
    ensures
        r@ == if crate::text::has_prefix(href@, "http"@) {
            href@
        } else if crate::text::has_prefix(href@, "/"@) {
            SITE_ROOT@ + href@
        } else {
            SITE_ROOT@ + "/"@ + href@
        },
{
    if starts_with(href, "http") {
        href.to_owned()
    } else if starts_with(href, "/") {
        let mut u = String::from_str(SITE_ROOT);
        u.append(href);
        u
    } else {
        let mut u = String::from_str(SITE_ROOT);
        u.append("/");
        u.append(href);
        u
    }
}

} // verus!
