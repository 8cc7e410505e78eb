//! The two login request strategies: what each sends, and how each reply is
//! read.
use vstd::prelude::*;
use vstd::string::*;
use crate::outside::{
    first_match_texts, first_match_texts_of, gunzip_text, gunzip_text_of, md5_hex, md5_hex_of,
    is_lower_hex_digest, regex_capture, regex_capture_of, regex_matches, regex_replace_all,
    regex_replace_all_of, trim, trim_of, utf8_lossy, utf8_lossy_of,
};
use crate::text::{find_char, first_index_of, starts_with};

verus! {

/// Pattern of a password that is already a lowercase hexadecimal MD5 digest.
pub const MD5_DIGEST_PATTERN: &'static str = "^[a-f0-9]{32}$";

/// Selects the container that holds the welcome message of the website.
pub const WELCOME_BOX_SELECTOR: &'static str = "td#wb_box";

/// Finds an `alert('...')` or `alert("...")` call; group 1 is its message.
pub const ALERT_PATTERN: &'static str = "alert\\(['\"](.*?)['\"]\\)";

/// An escaped line break, single or doubled, as a page script writes it.
pub const ESCAPED_LINE_BREAK_PATTERN: &'static str = "\\\\n\\\\n|\\\\n";

/// A literal backslash.
pub const BACKSLASH_PATTERN: &'static str = "\\\\";

/// Line break that replaces an escaped one in an alert message.
pub const CRLF: &'static str = "\r\n";

/// The reply text when the website answered with neither a welcome nor an alert.
pub const NO_CONNECTION_MESSAGE: &'static str = "No connection to game server.";

/// The reply text when the legacy loader answered with a status other than 200.
pub const LEGACY_FAILURE_MESSAGE: &'static str = "Failed to login.";

/// The value of the content-encoding header of a gzip-compressed reply.
pub const GZIP_ENCODING: &'static str = "gzip";

/// Why the website strategy produced no reply text.
#[derive(Debug, Clone, Copy, PartialEq, Eq, Structural)]
pub enum LoginError {
    /// The website answered with a status other than 200.
    RequestFailed,
    /// The reply was declared gzip but could not be read as gzip text.
    UnreadableBody,
}

/// Whether `p` is taken to be an MD5 digest already.
pub open spec fn is_md5_digest(p: Seq<char>) -> bool {
    is_lower_hex_digest(p)
}

/// The password form that the website strategy sends.
pub open spec fn sent_password(p: Seq<char>) -> Seq<char> {
    if is_md5_digest(p) {
        p
    } else {
        md5_hex_of(p)
    }
}

/// The form body of the website strategy.
pub open spec fn website_body(login: Seq<char>, password: Seq<char>) -> Seq<char> {
    "login="@ + login + "&password="@ + sent_password(password) + "&Submit=Log-in"@
}

/// The form body of the legacy-loader strategy.
pub open spec fn legacy_body(login: Seq<char>, password: Seq<char>) -> Seq<char> {
    "rq=load&l="@ + login + "&p="@ + password
}

/// The pieces joined with one space between neighbours.
pub open spec fn join_spaced(parts: Seq<Seq<char>>) -> Seq<char>
    decreases parts.len(),
{
    if parts.len() == 0 {
        Seq::empty()
    } else if parts.len() == 1 {
        parts[0]
    } else {
        join_spaced(parts.drop_last()) + seq![' '] + parts.last()
    }
}

/// The welcome message in the container's text nodes: the trimmed, spaced
/// text up to and including its first `!`.
pub open spec fn welcome_of(texts: Seq<Seq<char>>) -> Option<Seq<char>> {
    let t = trim_of(join_spaced(texts));
    match first_index_of(t, '!') {
        Some(k) => Some(t.subrange(0, k + 1)),
        None => None,
    }
}

/// An alert message with escaped line breaks made real and backslashes dropped.
pub open spec fn unescaped_alert(m: Seq<char>) -> Seq<char> {
    regex_replace_all_of(BACKSLASH_PATTERN@, regex_replace_all_of(ESCAPED_LINE_BREAK_PATTERN@, m, CRLF@), ""@)
}

/// The welcome message of an HTML page, if its welcome container holds one.
pub open spec fn page_welcome(html: Seq<char>) -> Option<Seq<char>> {
    match first_match_texts_of(html, WELCOME_BOX_SELECTOR@) {
        Some(texts) => welcome_of(texts),
        None => None,
    }
}

/// The reply text that the website strategy reads from an HTML page.
pub open spec fn website_reply(html: Seq<char>) -> Seq<char> {
    match page_welcome(html) {
        Some(w) => w,
        None => match regex_capture_of(ALERT_PATTERN@, html, 1) {
            Some(m) => unescaped_alert(m),
            None => NO_CONNECTION_MESSAGE@,
        },
    }
}

/// The page text of a website reply body, by its content encoding.
pub open spec fn decoded_body(content_encoding: Option<Seq<char>>, body: Seq<u8>) -> Option<Seq<char>> {
    if content_encoding == Some(GZIP_ENCODING@) {
        gunzip_text_of(body)
    } else {
        Some(utf8_lossy_of(body))
    }
}

/// Whether `a` and `b` hold the same characters.
pub fn same_text(a: &str, b: &str) -> (r: bool)
    ensures
        r == (a@ == b@),
{
    if a.unicode_len() != b.unicode_len() {
        return false;
    }
    assert(a@.subrange(0, a@.len() as int) =~= a@);
    starts_with(a, b)
}

/// Whether the website strategy takes `password` to be an MD5 digest already.
pub fn password_is_md5_digest(password: &str) -> (r: bool)
    ensures
        r == is_md5_digest(password@),
{
    regex_matches(MD5_DIGEST_PATTERN, password)
}

/// The password as the website strategy sends it: unchanged when it already
/// is an MD5 digest, otherwise the lowercase hex MD5 digest of it.
pub fn password_to_send(password: &str) -> (r: String)
    ensures
        r@ == sent_password(password@),
{
    if password_is_md5_digest(password) {
        password.to_owned()
    } else {
        md5_hex(password)
    }
}

/// The form-encoded body that the website strategy posts.
pub fn website_login_body(login: &str, password: &str) -> (r: String)
    ensures
        r@ == website_body(login@, password@),
{
    let sent = password_to_send(password);
    let mut body = String::from_str("login=");
    body.append(login);
    body.append("&password=");
    body.append(sent.as_str());
    body.append("&Submit=Log-in");
    body
}

/// The form-encoded body that the legacy-loader strategy posts.
pub fn legacy_login_body(login: &str, password: &str) -> (r: String)
    ensures
        r@ == legacy_body(login@, password@),
{
    let mut body = String::from_str("rq=load&l=");
    body.append(login);
    body.append("&p=");
    body.append(password);
    body
}

/// The text nodes joined with one space between neighbours.
pub fn join_with_spaces(parts: &Vec<String>) -> (r: String)
    ensures
        r@ == join_spaced(parts.deep_view()),
{
    let ghost dv = parts.deep_view();
    if parts.len() == 0 {
        return String::new();
    }
    let mut joined = parts[0].clone();
    let mut i: usize = 1;
    proof {
        reveal_strlit(" ");
        assert(dv.subrange(0, 1).drop_last() =~= Seq::<Seq<char>>::empty());
    }
    while i < parts.len()
        invariant
            1 <= i <= parts.len(),
            dv == parts.deep_view(),
            dv.len() == parts.len(),
            joined@ == join_spaced(dv.subrange(0, i as int)),
            " "@ == seq![' '],
        decreases parts.len() - i,
    {
        joined.append(" ");
        joined.append(parts[i].as_str());
        proof {
            let next = dv.subrange(0, i + 1);
            assert(next.drop_last() =~= dv.subrange(0, i as int));
            assert(next.last() == parts[i as int]@);
        }
        i = i + 1;
    }
    assert(dv.subrange(0, parts.len() as int) =~= dv);
    joined
}

/// The welcome message held by the welcome container's text nodes: the
/// trimmed text up to and including its first `!`, if it has one.
pub fn welcome_message(texts: &Vec<String>) -> (r: Option<String>)
    ensures
        match welcome_of(texts.deep_view()) {
            Some(w) => r is Some && r->0@ == w,
            None => r is None,
        },
{
    let joined = join_with_spaces(texts);
    let trimmed = trim(joined.as_str());
    let len = trimmed.as_str().unicode_len();
    match find_char(trimmed.as_str(), '!') {
        Some(k) => {
            assert(k < len);
            let head = trimmed.as_str().substring_char(0, k + 1);
            Some(head.to_owned())
        },
        None => None,
    }
}

/// An alert message with each escaped line break (`\n`, or `\n\n` as one)
/// turned into CRLF and every remaining backslash dropped.
pub fn unescape_alert_message(message: &str) -> (r: String)
    ensures
        r@ == unescaped_alert(message@),
{
    let broken = regex_replace_all(ESCAPED_LINE_BREAK_PATTERN, message, CRLF);
    regex_replace_all(BACKSLASH_PATTERN, broken.as_str(), "")
}

/// Picks the reply text once the welcome message and the alert message of a
/// page are known: the welcome first, then the unescaped alert, then the
/// fixed no-connection message.
pub fn choose_website_reply(welcome: Option<String>, alert: Option<String>) -> (r: String)
    ensures
        r@ == match welcome {
            Some(w) => w@,
            None => match alert {
                Some(m) => unescaped_alert(m@),
                None => NO_CONNECTION_MESSAGE@,
            },
        },
{
    match welcome {
        Some(w) => w,
        None => match alert {
            Some(m) => unescape_alert_message(m.as_str()),
            None => NO_CONNECTION_MESSAGE.to_owned(),
        },
    }
}

/// The reply text that the website strategy reads from an HTML page.
pub fn website_reply_text(html: &str) -> (r: String)
    ensures
        r@ == website_reply(html@),
{
    let welcome = match first_match_texts(html, WELCOME_BOX_SELECTOR) {
        Some(texts) => welcome_message(&texts),
        None => None,
    };
    match welcome {
        Some(w) => w,
        None => choose_website_reply(None, regex_capture(ALERT_PATTERN, html, 1)),
    }
}

/// Reads a reply body as text: gunzipped when the content encoding is
/// `gzip`, otherwise read as UTF-8 with invalid sequences replaced.
pub fn decode_body(content_encoding: &Option<String>, body: &Vec<u8>) -> (r: Option<String>)
    ensures
        match decoded_body(content_encoding.deep_view(), body@) {
            Some(t) => r is Some && r->0@ == t,
            None => r is None,
        },
{
    let gzip = match content_encoding {
        Some(e) => same_text(e.as_str(), GZIP_ENCODING),
        None => false,
    };
    if gzip {
        gunzip_text(body)
    } else {
        Some(utf8_lossy(body))
    }
}

/// The reply text of the website strategy from the HTTP status, the
/// content-encoding header and the raw body: an error on a status other
/// than 200 or a gzip body that cannot be read, otherwise the classified page.
pub fn website_response_text(status: u16, content_encoding: &Option<String>, body: &Vec<u8>) -> (r: Result<String, LoginError>)
    ensures
        status != 200 ==> r == Err::<String, LoginError>(LoginError::RequestFailed),
        status == 200 ==> match decoded_body(content_encoding.deep_view(), body@) {
            Some(page) => r is Ok && r->Ok_0@ == website_reply(page),
            None => r == Err::<String, LoginError>(LoginError::UnreadableBody),
        },
{
    if status != 200 {
        return Err(LoginError::RequestFailed);
    }
    match decode_body(content_encoding, body) {
        Some(page) => Ok(website_reply_text(page.as_str())),
        None => Err(LoginError::UnreadableBody),
    }
}

/// The reply text of the legacy-loader strategy: the body on status 200,
/// otherwise the fixed failure message.
pub fn legacy_response_text(status: u16, body: &Vec<u8>) -> (r: String)
    ensures
        r@ == if status == 200 { utf8_lossy_of(body@) } else { LEGACY_FAILURE_MESSAGE@ },
{
    if status == 200 {
        utf8_lossy(body)
    } else {
        LEGACY_FAILURE_MESSAGE.to_owned()
    }
}

} // verus!
