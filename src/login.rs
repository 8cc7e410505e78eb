//! The login orchestration: annotating the website reply, deciding whether
//! the legacy loader is consulted, and deciding success.
use vstd::prelude::*;
use vstd::string::*;
use crate::login_client::{is_md5_digest, password_is_md5_digest, website_reply, page_welcome};
use crate::credentials::{auth_contents, auth_file_contents};
use crate::text::{contains_char, has_prefix, starts_with};

verus! {

/// The text that every successful login message begins with.
pub const WELCOME_PREFIX: &'static str = "Welcome back";

/// A legacy-loader reply that begins with this text accepts the credentials.
pub const LEGACY_ACCEPTED_PREFIX: &'static str = "x";

/// The annotation appended to a welcome reply of the website strategy made
/// with a plain password.
pub const WEBSITE_ANNOTATION: &'static str = "\r\n(Signed with password for game website)";

/// How a login was made, as its message annotation tells.
#[derive(Debug, Clone, Copy, PartialEq, Eq, Structural)]
pub enum LoginMethod {
    GameWebsite,
    StandaloneLauncher,
    MD5Password,
}

/// The annotation appended to a login message made by `m`.
pub open spec fn method_suffix(m: LoginMethod) -> Seq<char> {
    match m {
        LoginMethod::GameWebsite => "\r\n(Signed in with password for game website)"@,
        LoginMethod::StandaloneLauncher => "\r\n(Signed in with password for standalone launcher)"@,
        LoginMethod::MD5Password => "\r\n(Signed with md5 password for game website)"@,
    }
}

impl LoginMethod {
    /// The annotation appended to a login message made this way.
    pub fn message_suffix(&self) -> (r: &'static str)
        ensures
            r@ == method_suffix(*self),
    {
        match self {
            LoginMethod::GameWebsite => "\r\n(Signed in with password for game website)",
            LoginMethod::StandaloneLauncher => "\r\n(Signed in with password for standalone launcher)",
            LoginMethod::MD5Password => "\r\n(Signed with md5 password for game website)",
        }
    }
}

/// The result of one login attempt sequence.
#[derive(Debug, Clone)]
pub struct LoginOutcome {
    pub raw_message: String,
    pub succeeded: bool,
    pub method: LoginMethod,
}

impl LoginOutcome {
    /// The outcome counts as a success exactly when its message is a welcome.
    pub open spec fn wf(&self) -> bool {
        self.succeeded == is_welcome(self.raw_message@)
    }
}

/// Where a login stands after the website strategy replied.
#[derive(Debug, Clone)]
pub enum LoginStep {
    /// The login is decided.
    Done(LoginOutcome),
    /// The legacy loader is to be asked; the annotated website reply so far.
    AskLegacy(String),
}

/// A message counts as a successful login exactly when it begins with the
/// welcome prefix.
pub open spec fn is_welcome(m: Seq<char>) -> bool {
    has_prefix(m, WELCOME_PREFIX@)
}

/// The method of the website strategy for `password`.
pub open spec fn website_method(password: Seq<char>) -> LoginMethod {
    if is_md5_digest(password) {
        LoginMethod::MD5Password
    } else {
        LoginMethod::GameWebsite
    }
}

/// The website reply with its annotation: the MD5 one when the password is a
/// digest and the reply holds no `(`, else the website one when the reply is
/// a welcome, else none.
pub open spec fn annotated_reply(password: Seq<char>, reply: Seq<char>) -> Seq<char> {
    if is_md5_digest(password) && !reply.contains('(') {
        reply + " "@ + method_suffix(LoginMethod::MD5Password)
    } else if is_welcome(reply) {
        reply + " "@ + WEBSITE_ANNOTATION@
    } else {
        reply
    }
}

/// The welcome message made up for a login that the legacy loader accepted.
pub open spec fn standalone_welcome(username: Seq<char>) -> Seq<char> {
    "Welcome back, "@ + username + " !"@ + " "@ + method_suffix(LoginMethod::StandaloneLauncher)
}

/// The final login message: the annotated website reply if it is a welcome;
/// otherwise the made-up welcome if the legacy reply begins with `x`;
/// otherwise the annotated website reply.
pub open spec fn final_message(username: Seq<char>, password: Seq<char>, reply: Seq<char>, legacy: Seq<char>) -> Seq<char> {
    let annotated = annotated_reply(password, reply);
    if is_welcome(annotated) {
        annotated
    } else if has_prefix(legacy, LEGACY_ACCEPTED_PREFIX@) {
        standalone_welcome(username)
    } else {
        annotated
    }
}

/// Whether `message` is a successful login message.
pub fn is_signed_in(message: &str) -> (r: bool)
    ensures
        r == is_welcome(message@),
{
    starts_with(message, WELCOME_PREFIX)
}

/// The website reply with its annotation appended.
pub fn annotate_website_reply(password: &str, reply: String) -> (r: String)
    ensures
        r@ == annotated_reply(password@, reply@),
{
    if password_is_md5_digest(password) && !contains_char(reply.as_str(), '(') {
        let mut m = reply;
        m.append(" ");
        m.append(LoginMethod::MD5Password.message_suffix());
        m
    } else if is_signed_in(reply.as_str()) {
        let mut m = reply;
        m.append(" ");
        m.append(WEBSITE_ANNOTATION);
        m
    } else {
        reply
    }
}

/// Decides the login once the website strategy replied: done when the
/// annotated reply is a welcome, otherwise the legacy loader is to be asked.
pub fn after_website_reply(password: &str, reply: String) -> (r: LoginStep)
    ensures
        ({
            let annotated = annotated_reply(password@, reply@);
            if is_welcome(annotated) {
                r matches LoginStep::Done(o) && o.raw_message@ == annotated && o.succeeded
                    && o.method == website_method(password@) && o.wf()
            } else {
                r matches LoginStep::AskLegacy(m) && m@ == annotated
            }
        }),
{
    let annotated = annotate_website_reply(password, reply);
    if is_signed_in(annotated.as_str()) {
        let method = if password_is_md5_digest(password) {
            LoginMethod::MD5Password
        } else {
            LoginMethod::GameWebsite
        };
        LoginStep::Done(LoginOutcome { raw_message: annotated, succeeded: true, method })
    } else {
        LoginStep::AskLegacy(annotated)
    }
}

/// The welcome message for a login that the legacy loader accepted.
pub fn standalone_welcome_message(username: &str) -> (r: String)
    ensures
        r@ == standalone_welcome(username@),
        is_welcome(r@),
{
    let mut m = String::from_str("Welcome back, ");
    m.append(username);
    m.append(" !");
    m.append(" ");
    m.append(LoginMethod::StandaloneLauncher.message_suffix());
    proof {
        lemma_standalone_is_welcome(username@);
    }
    m
}

/// Decides the login once the legacy loader replied to a login whose
/// annotated website reply `pending` was no welcome: a made-up welcome when
/// the legacy reply begins with `x`, otherwise `pending`.
pub fn after_legacy_reply(username: &str, password: &str, pending: String, legacy: &str) -> (r: LoginOutcome)
    ensures
        has_prefix(legacy@, LEGACY_ACCEPTED_PREFIX@) ==> r.raw_message@ == standalone_welcome(username@)
            && r.method == LoginMethod::StandaloneLauncher,
        !has_prefix(legacy@, LEGACY_ACCEPTED_PREFIX@) ==> r.raw_message@ == pending@
            && r.method == website_method(password@),
        r.succeeded == is_welcome(r.raw_message@),
        r.wf(),
{
    if starts_with(legacy, LEGACY_ACCEPTED_PREFIX) {
        let m = standalone_welcome_message(username);
        LoginOutcome { raw_message: m, succeeded: true, method: LoginMethod::StandaloneLauncher }
    } else {
        let method = if password_is_md5_digest(password) {
            LoginMethod::MD5Password
        } else {
            LoginMethod::GameWebsite
        };
        let succeeded = is_signed_in(pending.as_str());
        LoginOutcome { raw_message: pending, succeeded, method }
    }
}

/// The auth file text to write after a login: the credentials when the
/// login succeeded, nothing otherwise.
pub fn credentials_to_persist(outcome: &LoginOutcome, username: &str, password: &str) -> (r: Option<String>)
    ensures
        outcome.succeeded ==> (r matches Some(c) && c@ == auth_contents(username@, password@)),
        !outcome.succeeded ==> r is None,
{
    if outcome.succeeded {
        Some(auth_file_contents(username, password))
    } else {
        None
    }
}

proof fn lemma_prefix_extends(a: Seq<char>, b: Seq<char>, p: Seq<char>)
    requires
        has_prefix(a, p),
    ensures
        has_prefix(a + b, p),
{
    assert((a + b).subrange(0, p.len() as int) =~= a.subrange(0, p.len() as int));
}

proof fn lemma_standalone_is_welcome(username: Seq<char>)
    ensures
        is_welcome(standalone_welcome(username)),
{
    reveal_strlit("Welcome back, ");
    reveal_strlit("Welcome back");
    assert(standalone_welcome(username).subrange(0, 12) =~= WELCOME_PREFIX@);
}

proof fn lemma_md5_annotation_keeps_non_welcome(reply: Seq<char>)
    requires
        !is_welcome(reply),
    ensures
        !is_welcome(reply + " "@ + method_suffix(LoginMethod::MD5Password)),
{
    reveal_strlit("Welcome back");
    reveal_strlit(" ");
    reveal_strlit("\r\n(Signed with md5 password for game website)");
    let m = reply + " "@ + method_suffix(LoginMethod::MD5Password);
    let w = WELCOME_PREFIX@;
    if is_welcome(m) {
        if reply.len() >= 12 {
            assert(reply.subrange(0, 12) =~= m.subrange(0, 12));
        } else {
            let k = reply.len() as int;
            assert(m[k] == ' ');
            assert(m.subrange(0, 12)[k] == w[k]);
            if k + 1 < 12 {
                assert(m[k + 1] == '\r');
                assert(m.subrange(0, 12)[k + 1] == w[k + 1]);
            }
        }
    }
}

/// A reply page whose welcome container holds a welcome message makes the
/// login succeed, whatever the password and whatever the legacy loader says.
pub proof fn lemma_welcome_page_signs_in(username: Seq<char>, password: Seq<char>, html: Seq<char>, legacy: Seq<char>)
    requires
        page_welcome(html) matches Some(w) && is_welcome(w),
    ensures
        is_welcome(annotated_reply(password, website_reply(html))),
        is_welcome(final_message(username, password, website_reply(html), legacy)),
{
    let reply = website_reply(html);
    if is_md5_digest(password) && !reply.contains('(') {
        lemma_prefix_extends(reply, " "@ + method_suffix(LoginMethod::MD5Password), WELCOME_PREFIX@);
        assert(reply + " "@ + method_suffix(LoginMethod::MD5Password)
            =~= reply + (" "@ + method_suffix(LoginMethod::MD5Password)));
    } else {
        lemma_prefix_extends(reply, " "@ + WEBSITE_ANNOTATION@, WELCOME_PREFIX@);
        assert(reply + " "@ + WEBSITE_ANNOTATION@ =~= reply + (" "@ + WEBSITE_ANNOTATION@));
    }
}

/// A reply page without a welcome message, whose reply text is no welcome
/// either, makes the login succeed exactly when the legacy loader's reply
/// begins with `x`.
pub proof fn lemma_no_welcome_page_defers_to_legacy(username: Seq<char>, password: Seq<char>, html: Seq<char>, legacy: Seq<char>)
    requires
        page_welcome(html) is None,
        !is_welcome(website_reply(html)),
    ensures
        !is_welcome(annotated_reply(password, website_reply(html))),
        is_welcome(standalone_welcome(username)),
        is_welcome(final_message(username, password, website_reply(html), legacy))
            == has_prefix(legacy, LEGACY_ACCEPTED_PREFIX@),
{
    let reply = website_reply(html);
    if is_md5_digest(password) && !reply.contains('(') {
        lemma_md5_annotation_keeps_non_welcome(reply);
    }
    lemma_standalone_is_welcome(username);
}

} // verus!
