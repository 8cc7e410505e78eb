//! The host platform and the player build that it needs.
use vstd::prelude::*;
use crate::login_client::same_text;

verus! {

pub const URL_X86_64_WINDOWS: &'static str = "https://github.com/luadebug/PB2GameLauncher/raw/main/flashplayer-x86_64-pc-windows-msvc.exe";
pub const URL_I686_WINDOWS: &'static str = "https://github.com/luadebug/PB2GameLauncher/raw/main/flashplayer-i686-pc-windows-msvc.exe";
pub const URL_MACOS: &'static str = "https://github.com/luadebug/PB2GameLauncher/raw/main/flashplayer_32_sa.dmg";
pub const URL_X86_64_LINUX: &'static str = "https://github.com/luadebug/PB2GameLauncher/raw/main/flashplayer-x86_64-unknown-linux-gnu";
pub const URL_I686_LINUX: &'static str = "https://github.com/luadebug/PB2GameLauncher/raw/main/flashplayer-i686-unknown-linux-gnu";

pub const WINDOWS_PLAYER_FILE: &'static str = "flashplayer.exe";
pub const MACOS_PLAYER_FILE: &'static str = "flashplayer.dmg";
pub const LINUX_PLAYER_FILE: &'static str = "flashplayer";

/// A CPU width that a player build exists for.
#[derive(Debug, Clone, Copy, PartialEq, Eq, Structural)]
pub enum Architecture {
    X86_64,
    I686,
}

/// An operating system, with its CPU width where the player build depends on it.
#[derive(Debug, Clone, Copy, PartialEq, Eq, Structural)]
pub enum Platform {
    Windows(Architecture),
    MacOS,
    Linux(Architecture),
}

/// The host has no player build.
#[derive(Debug, Clone, Copy, PartialEq, Eq, Structural)]
pub enum PlatformError {
    UnsupportedPlatform,
}

/// Where the player build of a platform is downloaded from, and the local
/// file it is saved as.
#[derive(Debug, Clone, Copy)]
pub struct DownloadInfo {
    pub url: &'static str,
    pub file_name: &'static str,
}

/// The CPU width named by an architecture name as Rust's target names it.
pub open spec fn arch_of(arch: Seq<char>) -> Option<Architecture> {
    if arch == "x86_64"@ {
        Some(Architecture::X86_64)
    } else if arch == "x86"@ || arch == "i686"@ {
        Some(Architecture::I686)
    } else {
        None
    }
}

/// The platform named by an operating system name and an architecture name,
/// as Rust's target names them; macOS has no architecture axis.
pub open spec fn platform_of(os: Seq<char>, arch: Seq<char>) -> Option<Platform> {
    if os == "windows"@ {
        match arch_of(arch) {
            Some(a) => Some(Platform::Windows(a)),
            None => None,
        }
    } else if os == "macos"@ {
        Some(Platform::MacOS)
    } else if os == "linux"@ {
        match arch_of(arch) {
            Some(a) => Some(Platform::Linux(a)),
            None => None,
        }
    } else {
        None
    }
}

/// The download URL of the player build for `p`.
pub open spec fn player_url(p: Platform) -> Seq<char> {
    match p {
        Platform::Windows(Architecture::X86_64) => URL_X86_64_WINDOWS@,
        Platform::Windows(Architecture::I686) => URL_I686_WINDOWS@,
        Platform::MacOS => URL_MACOS@,
        Platform::Linux(Architecture::X86_64) => URL_X86_64_LINUX@,
        Platform::Linux(Architecture::I686) => URL_I686_LINUX@,
    }
}

/// The local file name of the player build for `p`.
pub open spec fn player_file_name(p: Platform) -> Seq<char> {
    match p {
        Platform::Windows(_) => WINDOWS_PLAYER_FILE@,
        Platform::MacOS => MACOS_PLAYER_FILE@,
        Platform::Linux(_) => LINUX_PLAYER_FILE@,
    }
}

/// The CPU width named by `arch`, if a player build exists for it.
pub fn get_architecture(arch: &str) -> (r: Option<Architecture>)
    ensures
        r == arch_of(arch@),
{
    if same_text(arch, "x86_64") {
        Some(Architecture::X86_64)
    } else if same_text(arch, "x86") || same_text(arch, "i686") {
        Some(Architecture::I686)
    } else {
        None
    }
}

/// The platform of a host with operating system `os` and architecture
/// `arch`; `UnsupportedPlatform` where no player build exists for it.
pub fn get_platform(os: &str, arch: &str) -> (r: Result<Platform, PlatformError>)
    ensures
        match platform_of(os@, arch@) {
            Some(p) => r == Ok::<Platform, PlatformError>(p),
            None => r == Err::<Platform, PlatformError>(PlatformError::UnsupportedPlatform),
        },
{
    let a = get_architecture(arch);
    if same_text(os, "windows") {
        match a {
            Some(a) => Ok(Platform::Windows(a)),
            None => Err(PlatformError::UnsupportedPlatform),
        }
    } else if same_text(os, "macos") {
        Ok(Platform::MacOS)
    } else if same_text(os, "linux") {
        match a {
            Some(a) => Ok(Platform::Linux(a)),
            None => Err(PlatformError::UnsupportedPlatform),
        }
    } else {
        Err(PlatformError::UnsupportedPlatform)
    }
}

impl Platform {
    /// The player build of this platform: its download URL and local file name.
    pub fn get_download_info(&self) -> (r: Option<DownloadInfo>)
        ensures
            r matches Some(info) && info.url@ == player_url(*self) && info.file_name@ == player_file_name(*self),
    {
        match self {
            Platform::Windows(arch) => match arch {
                Architecture::X86_64 => Some(DownloadInfo { url: URL_X86_64_WINDOWS, file_name: WINDOWS_PLAYER_FILE }),
                Architecture::I686 => Some(DownloadInfo { url: URL_I686_WINDOWS, file_name: WINDOWS_PLAYER_FILE }),
            },
            Platform::MacOS => Some(DownloadInfo { url: URL_MACOS, file_name: MACOS_PLAYER_FILE }),
            Platform::Linux(arch) => match arch {
                Architecture::X86_64 => Some(DownloadInfo { url: URL_X86_64_LINUX, file_name: LINUX_PLAYER_FILE }),
                Architecture::I686 => Some(DownloadInfo { url: URL_I686_LINUX, file_name: LINUX_PLAYER_FILE }),
            },
        }
    }
}

} // verus!
