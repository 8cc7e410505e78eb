//! The command line that starts the game in the player.
use vstd::prelude::*;
use vstd::string::*;
use crate::credentials::{identity_for_launch, launch_identity};
use crate::platform::{get_platform, platform_of, player_file_name, PlatformError};
use crate::text::{has_prefix, starts_with};
use crate::update::GAME_DATA_FILE;

verus! {

/// The prefix that marks a Windows extended-length path.
pub const VERBATIM_PREFIX: &'static str = "\\\\?\\";

/// The program to start and its one argument.
#[derive(Debug, Clone)]
pub struct LaunchCommand {
    pub program: &'static str,
    pub argument: String,
}

pub open spec fn verbatim_prefix() -> Seq<char> {
    seq!['\\', '\\', '?', '\\']
}

/// `path` with every leading extended-length marker removed.
pub open spec fn without_verbatim(path: Seq<char>) -> Seq<char>
    decreases path.len(),
{
    if path.len() >= 4 && has_prefix(path, verbatim_prefix()) {
        without_verbatim(path.subrange(4, path.len() as int))
    } else {
        path
    }
}

/// The login query string for a username and a password.
pub open spec fn login_query_of(username: Seq<char>, password: Seq<char>) -> Seq<char> {
    "?l="@ + username + "&p="@ + password + "&from_standalone=1"@
}

/// The game data path as shown to the player: the canonical path without
/// extended-length markers, or the bare file name when there is none.
pub open spec fn shown_path(canonical: Option<Seq<char>>) -> Seq<char> {
    match canonical {
        Some(p) => without_verbatim(p),
        None => GAME_DATA_FILE@,
    }
}

/// The player argument: the game data path followed by the login query of
/// the stored identity.
pub open spec fn launch_argument_of(canonical: Option<Seq<char>>, auth: Option<Seq<char>>) -> Seq<char> {
    let id = launch_identity(auth);
    shown_path(canonical) + login_query_of(id.0, id.1)
}

/// `path` with every leading `\\?\` removed.
pub fn strip_verbatim_prefix(path: &str) -> (r: String)
    ensures
        r@ == without_verbatim(path@),
{
    proof {
        reveal_strlit("\\\\?\\");
        assert(VERBATIM_PREFIX@ =~= verbatim_prefix());
    }
    let mut rest: &str = path;
    while starts_with(rest, VERBATIM_PREFIX)
        invariant
            without_verbatim(rest@) == without_verbatim(path@),
            VERBATIM_PREFIX@ == verbatim_prefix(),
        decreases rest@.len(),
    {
        let n = rest.unicode_len();
        rest = rest.substring_char(4, n);
    }
    rest.to_owned()
}

/// The game data path as shown to the player.
pub fn display_path(canonical: &Option<String>) -> (r: String)
    ensures
        r@ == shown_path(canonical.deep_view()),
{
    match canonical {
        Some(p) => strip_verbatim_prefix(p.as_str()),
        None => GAME_DATA_FILE.to_owned(),
    }
}

/// The login query string `?l=<username>&p=<password>&from_standalone=1`.
pub fn login_query(username: &str, password: &str) -> (r: String)
    ensures
        r@ == login_query_of(username@, password@),
{
    let mut q = String::from_str("?l=");
    q.append(username);
    q.append("&p=");
    q.append(password);
    q.append("&from_standalone=1");
    q
}

/// The player argument from the canonical game data path, if there is one,
/// and the auth file's text, if it could be read. Without stored credentials
/// the guest identity is used.
pub fn launch_argument(canonical: &Option<String>, auth: &Option<String>) -> (r: String)
    ensures
        r@ == launch_argument_of(canonical.deep_view(), auth.deep_view()),
        auth is None ==> r@ == shown_path(canonical.deep_view()) + "?l=.guest&p=.guest&from_standalone=1"@,
{
    let id = identity_for_launch(auth);
    let query = login_query(id.username.as_str(), id.password.as_str());
    let mut arg = display_path(canonical);
    arg.append(query.as_str());
    proof {
        reveal_strlit("?l=");
        reveal_strlit("&p=");
        reveal_strlit("&from_standalone=1");
        reveal_strlit(".guest");
        reveal_strlit("?l=.guest&p=.guest&from_standalone=1");
        if auth is None {
            assert(login_query_of(".guest"@, ".guest"@) =~= "?l=.guest&p=.guest&from_standalone=1"@);
        }
    }
    arg
}

/// The command that starts the game on a host with operating system `os`
/// and architecture `arch`: the platform's player, given the game data path
/// and the login query. An unsupported platform is refused.
pub fn launch_command(os: &str, arch: &str, canonical: &Option<String>, auth: &Option<String>) -> (r: Result<LaunchCommand, PlatformError>)
    ensures
        match platform_of(os@, arch@) {
            None => r == Err::<LaunchCommand, PlatformError>(PlatformError::UnsupportedPlatform),
            Some(p) => r matches Ok(c) && c.program@ == player_file_name(p)
                && c.argument@ == launch_argument_of(canonical.deep_view(), auth.deep_view()),
        },
{
    let platform = match get_platform(os, arch) {
        Ok(p) => p,
        Err(e) => return Err(e),
    };
    match platform.get_download_info() {
        Some(info) => Ok(LaunchCommand { program: info.file_name, argument: launch_argument(canonical, auth) }),
        None => Err(PlatformError::UnsupportedPlatform),
    }
}

} // verus!
