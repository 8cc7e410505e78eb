//! The auth file: two newline-terminated records, username then password.
use vstd::prelude::*;
use vstd::string::*;
use crate::text::{find_char, first_index_of};

verus! {

/// The name of the auth file, which lies beside the launcher executable.
pub const AUTH_FILE_NAME: &'static str = "Plazma Burst 2.auth";

/// The name used for both username and password when no credentials are stored.
pub const GUEST: &'static str = ".guest";

/// A username and a password, either as typed or as stored.
#[derive(Debug, Clone)]
pub struct Credentials {
    pub username: String,
    pub password: String,
}

/// The text of an auth file holding `username` and `password`.
pub open spec fn auth_contents(username: Seq<char>, password: Seq<char>) -> Seq<char> {
    username + seq!['\n'] + password + seq!['\n']
}

/// `s` without one trailing newline, if it has one.
pub open spec fn without_final_newline(s: Seq<char>) -> Seq<char> {
    if s.len() > 0 && s.last() == '\n' {
        s.drop_last()
    } else {
        s
    }
}

/// The credentials in an auth file's text: the part before the first newline
/// and the rest without its final newline, when both are non-empty.
pub open spec fn parse_auth(content: Seq<char>) -> Option<(Seq<char>, Seq<char>)> {
    match first_index_of(content, '\n') {
        Some(k) => {
            let username = content.subrange(0, k);
            let password = without_final_newline(content.subrange(k + 1, content.len() as int));
            if username.len() > 0 && password.len() > 0 {
                Some((username, password))
            } else {
                None
            }
        },
        None => None,
    }
}

/// The identity the game is started with: the stored credentials, or the
/// guest when there are none.
pub open spec fn launch_identity(content: Option<Seq<char>>) -> (Seq<char>, Seq<char>) {
    match content {
        Some(c) => match parse_auth(c) {
            Some(id) => id,
            None => (GUEST@, GUEST@),
        },
        None => (GUEST@, GUEST@),
    }
}

/// The text to write to the auth file for `username` and `password`.
pub fn auth_file_contents(username: &str, password: &str) -> (r: String)
    ensures
        r@ == auth_contents(username@, password@),
{
    let mut c = username.to_owned();
    c.append("\n");
    c.append(password);
    c.append("\n");
    proof {
        reveal_strlit("\n");
    }
    c
}

/// The credentials held by an auth file's text, if it holds two non-empty
/// records.
pub fn parse_auth_file(content: &str) -> (r: Option<Credentials>)
    ensures
        match parse_auth(content@) {
            Some((u, p)) => r is Some && r->0.username@ == u && r->0.password@ == p,
            None => r is None,
        },
{
    let n = content.unicode_len();
    match find_char(content, '\n') {
        Some(k) => {
            let username = content.substring_char(0, k);
            let rest = content.substring_char(k + 1, n);
            let m = rest.unicode_len();
            let password = if m > 0 && rest.get_char(m - 1) == '\n' {
                rest.substring_char(0, m - 1)
            } else {
                rest
            };
            proof {
                assert(rest@.drop_last() =~= rest@.subrange(0, rest@.len() - 1));
            }
            if username.unicode_len() > 0 && password.unicode_len() > 0 {
                Some(Credentials { username: username.to_owned(), password: password.to_owned() })
            } else {
                None
            }
        },
        None => None,
    }
}

/// The identity the game is started with, from the auth file's text if the
/// file could be read: its credentials, or the guest.
pub fn identity_for_launch(content: &Option<String>) -> (r: Credentials)
    ensures
        (r.username@, r.password@) == launch_identity(content.deep_view()),
{
    let parsed = match content {
        Some(c) => parse_auth_file(c.as_str()),
        None => None,
    };
    match parsed {
        Some(id) => id,
        None => Credentials { username: GUEST.to_owned(), password: GUEST.to_owned() },
    }
}

/// Writing credentials without newlines and reading them back gives them
/// exactly, as long as neither is empty.
pub proof fn lemma_auth_round_trip(username: Seq<char>, password: Seq<char>)
    requires
        !username.contains('\n'),
        !password.contains('\n'),
        username.len() > 0,
        password.len() > 0,
    ensures
        parse_auth(auth_contents(username, password)) == Some((username, password)),
{
    let c = auth_contents(username, password);
    let k = username.len() as int;
    assert(c[k] == '\n');
    assert(c.contains('\n'));
    let i = first_index_of(c, '\n')->0;
    assert(forall|j: int| 0 <= j < k ==> c[j] == username[j]);
    assert(i == k) by {
        if i < k {
            assert(c[i] == username[i]);
            assert(username.contains('\n'));
        }
    }
    assert(c.subrange(0, k) =~= username);
    let rest = c.subrange(k + 1, c.len() as int);
    assert(rest =~= password + seq!['\n']);
    assert(rest.drop_last() =~= password);
}

} // verus!
