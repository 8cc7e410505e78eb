//! Which downloads bring the player and the game assets up to date.
//!
//! The player build is fetched once, when its file is missing. The game
//! assets are a version marker and the game data: both are fetched when the
//! local marker is missing, or when it differs from the remote one.
use vstd::prelude::*;
use crate::platform::{get_platform, platform_of, player_file_name, player_url, Platform, PlatformError};

verus! {

pub const VERSION_MARKER_URL: &'static str = "https://www.plazmaburst2.com/launcher/time.php";
pub const GAME_DATA_URL: &'static str = "https://www.plazmaburst2.com/pb2/pb2_re34.swf";
pub const VERSION_MARKER_FILE: &'static str = "last_update.v";
pub const GAME_DATA_FILE: &'static str = "pb2_re34_alt.swf";

/// One file to fetch: from where, and the local file name to save it as.
#[derive(Debug, Clone, Copy)]
pub struct DownloadJob {
    pub url: &'static str,
    pub file_name: &'static str,
}

/// What the game assets need next.
#[derive(Debug, Clone, Copy, PartialEq, Eq, Structural)]
pub enum GameAssetAction {
    /// Fetch the version marker and the game data.
    DownloadBoth,
    /// Fetch the remote version marker to compare with the local one.
    FetchRemoteMarker,
    /// Nothing to fetch.
    UpToDate,
}

/// The first steps of an update: the player download, if any, and what the
/// game assets need.
#[derive(Debug, Clone, Copy)]
pub struct UpdatePlan {
    pub player: Option<DownloadJob>,
    pub game: GameAssetAction,
}

/// The job fetches `url` into `file_name`.
pub open spec fn job_is(j: DownloadJob, url: Seq<char>, file_name: Seq<char>) -> bool {
    j.url@ == url && j.file_name@ == file_name
}

/// The action on the game assets from whether the local marker is present.
pub open spec fn game_action_of(marker_present: bool) -> GameAssetAction {
    if marker_present {
        GameAssetAction::FetchRemoteMarker
    } else {
        GameAssetAction::DownloadBoth
    }
}

/// The player download of `platform` when its file is not present.
pub fn player_download(platform: &Platform, player_present: bool) -> (r: Option<DownloadJob>)
    ensures
        player_present ==> r is None,
        !player_present ==> (r matches Some(j) && job_is(j, player_url(*platform), player_file_name(*platform))),
{
    if player_present {
        return None;
    }
    match platform.get_download_info() {
        Some(info) => Some(DownloadJob { url: info.url, file_name: info.file_name }),
        None => None,
    }
}

/// What the game assets need from whether the local version marker is
/// present: both files when it is missing, the remote marker otherwise.
pub fn game_asset_action(marker_present: bool) -> (r: GameAssetAction)
    ensures
        r == game_action_of(marker_present),
        !marker_present ==> r == GameAssetAction::DownloadBoth,
{
    if marker_present {
        GameAssetAction::FetchRemoteMarker
    } else {
        GameAssetAction::DownloadBoth
    }
}

/// Whether two byte strings are equal.
pub fn same_bytes(a: &Vec<u8>, b: &Vec<u8>) -> (r: bool)
    ensures
        r == (a@ == b@),
{
    if a.len() != b.len() {
        return false;
    }
    let mut i: usize = 0;
    while i < a.len()
        invariant
            a.len() == b.len(),
            i <= a.len(),
            forall|j: int| 0 <= j < i ==> a@[j] == b@[j],
        decreases a.len() - i,
    {
        if a[i] != b[i] {
            return false;
        }
        i = i + 1;
    }
    assert(a@ =~= b@);
    true
}

/// What the game assets need once the remote version marker is known:
/// nothing when it equals the local one byte for byte, both files otherwise.
pub fn compare_markers(local_marker: &Vec<u8>, remote_marker: &Vec<u8>) -> (r: GameAssetAction)
    ensures
        local_marker@ == remote_marker@ ==> r == GameAssetAction::UpToDate,
        local_marker@ != remote_marker@ ==> r == GameAssetAction::DownloadBoth,
{
    if same_bytes(local_marker, remote_marker) {
        GameAssetAction::UpToDate
    } else {
        GameAssetAction::DownloadBoth
    }
}

/// The downloads an action on the game assets calls for: the version marker
/// and then the game data for `DownloadBoth`, none otherwise.
pub fn game_asset_downloads(action: GameAssetAction) -> (r: Vec<DownloadJob>)
    ensures
        action == GameAssetAction::DownloadBoth ==> r@.len() == 2
            && job_is(r@[0], VERSION_MARKER_URL@, VERSION_MARKER_FILE@)
            && job_is(r@[1], GAME_DATA_URL@, GAME_DATA_FILE@),
        action != GameAssetAction::DownloadBoth ==> r@.len() == 0,
{
    let mut jobs: Vec<DownloadJob> = Vec::new();
    if action == GameAssetAction::DownloadBoth {
        jobs.push(DownloadJob { url: VERSION_MARKER_URL, file_name: VERSION_MARKER_FILE });
        jobs.push(DownloadJob { url: GAME_DATA_URL, file_name: GAME_DATA_FILE });
    }
    jobs
}

/// The first steps of an update on a host with operating system `os` and
/// architecture `arch`, from which local files are present. An unsupported
/// platform is refused before any download or remote check is planned.
pub fn plan_update(os: &str, arch: &str, player_present: bool, marker_present: bool) -> (r: Result<UpdatePlan, PlatformError>)
    ensures
        match platform_of(os@, arch@) {
            None => r == Err::<UpdatePlan, PlatformError>(PlatformError::UnsupportedPlatform),
            Some(p) => r matches Ok(plan)
                && (player_present ==> plan.player is None)
                && (!player_present ==> (plan.player matches Some(j)
                    && job_is(j, player_url(p), player_file_name(p))))
                && plan.game == game_action_of(marker_present),
        },
{
    let platform = match get_platform(os, arch) {
        Ok(p) => p,
        Err(e) => return Err(e),
    };
    let player = player_download(&platform, player_present);
    Ok(UpdatePlan { player, game: game_asset_action(marker_present) })
}

} // verus!
