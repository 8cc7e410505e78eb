use pb2_launcher::credentials::{auth_file_contents, identity_for_launch, parse_auth_file};
use pb2_launcher::launch::{display_path, launch_argument, launch_command, login_query, strip_verbatim_prefix};
use pb2_launcher::login::{
    after_legacy_reply, after_website_reply, annotate_website_reply, credentials_to_persist, is_signed_in, LoginMethod,
    LoginStep,
};
use pb2_launcher::login_client::{
    decode_body, legacy_login_body, legacy_response_text, password_is_md5_digest, password_to_send,
    unescape_alert_message, website_login_body, website_reply_text, website_response_text, welcome_message,
    choose_website_reply, LoginError,
};
use pb2_launcher::news::{
    absolute_link_url, link_page_number, news_entry_text, news_pages_count, news_pages_count_of_page, parse_u8,
    NewsPiece,
};
use pb2_launcher::platform::{get_platform, Architecture, Platform, PlatformError};
use pb2_launcher::update::{compare_markers, game_asset_action, game_asset_downloads, plan_update, player_download, GameAssetAction};
use std::io::Write;

const HUNTER2_MD5: &str = "2ab96390c7dbe3439de74d0c9b0b1767";

fn gzip(text: &str) -> Vec<u8> {
    let mut enc = flate2::write::GzEncoder::new(Vec::new(), flate2::Compression::default());
    enc.write_all(text.as_bytes()).unwrap();
    enc.finish().unwrap()
}

#[test]
fn plaintext_password_is_sent_as_md5() {
    let body = website_login_body("alice", "hunter2");
    assert_eq!(body, format!("login=alice&password={}&Submit=Log-in", HUNTER2_MD5));
    assert!(body.contains(HUNTER2_MD5));
    assert!(!body.contains("hunter2&"));
}

#[test]
fn md5_password_is_sent_unchanged() {
    let digest = "5ebe2294ecd0e0f08eab7690d2a6ee69";
    assert!(password_is_md5_digest(digest));
    assert_eq!(password_to_send(digest), digest);
    assert_eq!(website_login_body("bob", digest), format!("login=bob&password={}&Submit=Log-in", digest));
}

#[test]
fn near_md5_passwords_are_hashed() {
    let upper = "5EBE2294ECD0E0F08EAB7690D2A6EE69";
    assert!(!password_is_md5_digest(upper));
    assert_ne!(password_to_send(upper), upper);
    let short = "5ebe2294ecd0e0f08eab7690d2a6ee6";
    assert!(!password_is_md5_digest(short));
    assert_eq!(password_to_send(short).len(), 32);
    assert!(!password_is_md5_digest("5ebe2294ecd0e0f08eab7690d2a6ee69\n"));
}

#[test]
fn legacy_body_carries_password_as_given() {
    assert_eq!(legacy_login_body("alice", "hunter2"), "rq=load&l=alice&p=hunter2");
}

#[test]
fn welcome_container_gives_welcome_up_to_bang() {
    let page = "<html><body><table><tr><td id=\"wb_box\">  Welcome back, <b>alice</b>! You have mail.</td></tr></table></body></html>";
    assert_eq!(website_reply_text(page), "Welcome back,  alice !");
    let texts = vec!["  Welcome back, ".to_string(), "alice".to_string(), "! more".to_string()];
    assert_eq!(welcome_message(&texts), Some("Welcome back,  alice !".to_string()));
    assert_eq!(welcome_message(&vec!["no bang here".to_string()]), None);
}

#[test]
fn welcome_page_signs_in() {
    let page = "<table><tr><td id=\"wb_box\">Welcome back, alice! Enjoy</td></tr></table>";
    let reply = website_reply_text(page);
    match after_website_reply("hunter2", reply) {
        LoginStep::Done(o) => {
            assert!(o.succeeded);
            assert_eq!(o.raw_message, "Welcome back, alice! \r\n(Signed with password for game website)");
            assert_eq!(o.method, LoginMethod::GameWebsite);
        }
        LoginStep::AskLegacy(_) => panic!("expected a decided login"),
    }
}

#[test]
fn alert_page_gives_unescaped_message() {
    let page = "<html><script>alert('Wrong password.\\n\\nTry again \\\\ later')</script></html>";
    assert_eq!(website_reply_text(page), "Wrong password.\r\nTry again  later");
    let page2 = "<script>alert(\"Banned.\\nBye\")</script>";
    assert_eq!(website_reply_text(page2), "Banned.\r\nBye");
    assert_eq!(unescape_alert_message("a\\nb\\\\c"), "a\r\nbc");
}

#[test]
fn page_without_known_pattern_gives_no_connection() {
    assert_eq!(website_reply_text("<html><body>maintenance</body></html>"), "No connection to game server.");
    assert_eq!(choose_website_reply(None, None), "No connection to game server.");
    assert_eq!(choose_website_reply(Some("Welcome back, x!".to_string()), Some("a".to_string())), "Welcome back, x!");
}

#[test]
fn failed_website_login_asks_legacy_then_legacy_accepts() {
    let reply = "Wrong password.".to_string();
    let pending = match after_website_reply("hunter2", reply) {
        LoginStep::AskLegacy(m) => m,
        LoginStep::Done(_) => panic!("expected a fallback"),
    };
    assert_eq!(pending, "Wrong password.");
    let o = after_legacy_reply("alice", "hunter2", pending.clone(), "x12345");
    assert!(o.succeeded);
    assert_eq!(o.raw_message, "Welcome back, alice ! \r\n(Signed in with password for standalone launcher)");
    assert_eq!(o.method, LoginMethod::StandaloneLauncher);
    let o2 = after_legacy_reply("alice", "hunter2", pending, "Failed to login.");
    assert!(!o2.succeeded);
    assert_eq!(o2.raw_message, "Wrong password.");
    assert_eq!(o2.method, LoginMethod::GameWebsite);
}

#[test]
fn md5_login_is_annotated() {
    let digest = "5ebe2294ecd0e0f08eab7690d2a6ee69";
    assert_eq!(
        annotate_website_reply(digest, "Welcome back, bob!".to_string()),
        "Welcome back, bob! \r\n(Signed with md5 password for game website)"
    );
    assert_eq!(annotate_website_reply(digest, "Error (code 3)".to_string()), "Error (code 3)");
    let failed = annotate_website_reply(digest, "No connection to game server.".to_string());
    assert_eq!(failed, "No connection to game server. \r\n(Signed with md5 password for game website)");
    assert!(!is_signed_in(&failed));
    match after_website_reply(digest, "Welcome back, bob!".to_string()) {
        LoginStep::Done(o) => assert_eq!(o.method, LoginMethod::MD5Password),
        LoginStep::AskLegacy(_) => panic!("expected a decided login"),
    }
}

#[test]
fn message_suffixes() {
    assert_eq!(LoginMethod::GameWebsite.message_suffix(), "\r\n(Signed in with password for game website)");
    assert_eq!(LoginMethod::StandaloneLauncher.message_suffix(), "\r\n(Signed in with password for standalone launcher)");
    assert_eq!(LoginMethod::MD5Password.message_suffix(), "\r\n(Signed with md5 password for game website)");
}

#[test]
fn success_is_the_welcome_prefix() {
    assert!(is_signed_in("Welcome back"));
    assert!(is_signed_in("Welcome back, z!"));
    assert!(!is_signed_in("welcome back"));
    assert!(!is_signed_in(" Welcome back"));
    assert!(!is_signed_in(""));
}

#[test]
fn website_response_status_and_encoding() {
    let page = "<table><tr><td id=\"wb_box\">Welcome back, zed!</td></tr></table>";
    assert_eq!(website_response_text(404, &None, &page.as_bytes().to_vec()), Err(LoginError::RequestFailed));
    assert_eq!(website_response_text(200, &None, &page.as_bytes().to_vec()), Ok("Welcome back, zed!".to_string()));
    let zipped = gzip(page);
    assert_eq!(website_response_text(200, &Some("gzip".to_string()), &zipped), Ok("Welcome back, zed!".to_string()));
    assert_eq!(
        website_response_text(200, &Some("gzip".to_string()), &page.as_bytes().to_vec()),
        Err(LoginError::UnreadableBody)
    );
    assert_eq!(decode_body(&Some("br".to_string()), &b"plain".to_vec()), Some("plain".to_string()));
    assert_eq!(decode_body(&None, &vec![0x61, 0xff]), Some("a\u{fffd}".to_string()));
}

#[test]
fn legacy_response_by_status() {
    assert_eq!(legacy_response_text(200, &b"x ok".to_vec()), "x ok");
    assert_eq!(legacy_response_text(500, &b"x ok".to_vec()), "Failed to login.");
}

#[test]
fn auth_file_round_trip() {
    let c = auth_file_contents("alice", "hunter2");
    assert_eq!(c, "alice\nhunter2\n");
    let id = parse_auth_file(&c).unwrap();
    assert_eq!(id.username, "alice");
    assert_eq!(id.password, "hunter2");
}

#[test]
fn malformed_auth_files_give_none() {
    assert!(parse_auth_file("").is_none());
    assert!(parse_auth_file("alice").is_none());
    assert!(parse_auth_file("alice\n").is_none());
    assert!(parse_auth_file("\nhunter2\n").is_none());
    let id = parse_auth_file("alice\nhunter2").unwrap();
    assert_eq!(id.password, "hunter2");
}

#[test]
fn absent_auth_file_launches_as_guest() {
    let id = identity_for_launch(&None);
    assert_eq!(id.username, ".guest");
    assert_eq!(id.password, ".guest");
    let arg = launch_argument(&Some("/opt/pb2/pb2_re34_alt.swf".to_string()), &None);
    assert_eq!(arg, "/opt/pb2/pb2_re34_alt.swf?l=.guest&p=.guest&from_standalone=1");
    assert!(arg.ends_with("?l=.guest&p=.guest&from_standalone=1"));
    let bad = launch_argument(&None, &Some("garbage".to_string()));
    assert_eq!(bad, "pb2_re34_alt.swf?l=.guest&p=.guest&from_standalone=1");
}

#[test]
fn stored_credentials_reach_the_command_line() {
    let cmd = launch_command("linux", "x86_64", &Some("\\\\?\\C:\\pb2\\pb2_re34_alt.swf".to_string()), &Some("alice\nhunter2\n".to_string())).unwrap();
    assert_eq!(cmd.program, "flashplayer");
    assert_eq!(cmd.argument, "C:\\pb2\\pb2_re34_alt.swf?l=alice&p=hunter2&from_standalone=1");
    assert_eq!(login_query("a", "b"), "?l=a&p=b&from_standalone=1");
}

#[test]
fn verbatim_prefix_is_stripped() {
    assert_eq!(strip_verbatim_prefix("\\\\?\\C:\\x"), "C:\\x");
    assert_eq!(strip_verbatim_prefix("\\\\?\\\\\\?\\C:"), "C:");
    assert_eq!(strip_verbatim_prefix("/home/x"), "/home/x");
    assert_eq!(display_path(&None), "pb2_re34_alt.swf");
}

#[test]
fn platforms_resolve() {
    assert_eq!(get_platform("windows", "x86_64"), Ok(Platform::Windows(Architecture::X86_64)));
    assert_eq!(get_platform("windows", "x86"), Ok(Platform::Windows(Architecture::I686)));
    assert_eq!(get_platform("linux", "i686"), Ok(Platform::Linux(Architecture::I686)));
    assert_eq!(get_platform("macos", "aarch64"), Ok(Platform::MacOS));
    let info = Platform::Windows(Architecture::I686).get_download_info().unwrap();
    assert_eq!(info.file_name, "flashplayer.exe");
    assert_eq!(info.url, "https://github.com/luadebug/PB2GameLauncher/raw/main/flashplayer-i686-pc-windows-msvc.exe");
    let mac = Platform::MacOS.get_download_info().unwrap();
    assert_eq!(mac.file_name, "flashplayer.dmg");
}

#[test]
fn unsupported_platforms_are_refused_before_any_download() {
    assert_eq!(get_platform("freebsd", "x86_64"), Err(PlatformError::UnsupportedPlatform));
    assert_eq!(get_platform("linux", "aarch64"), Err(PlatformError::UnsupportedPlatform));
    assert_eq!(get_platform("windows", "arm"), Err(PlatformError::UnsupportedPlatform));
    assert!(plan_update("freebsd", "x86_64", false, false).is_err());
    assert!(launch_command("linux", "riscv64", &None, &None).is_err());
}

#[test]
fn missing_marker_downloads_both() {
    assert_eq!(game_asset_action(false), GameAssetAction::DownloadBoth);
    let jobs = game_asset_downloads(GameAssetAction::DownloadBoth);
    assert_eq!(jobs.len(), 2);
    assert_eq!(jobs[0].file_name, "last_update.v");
    assert_eq!(jobs[0].url, "https://www.plazmaburst2.com/launcher/time.php");
    assert_eq!(jobs[1].file_name, "pb2_re34_alt.swf");
    assert_eq!(jobs[1].url, "https://www.plazmaburst2.com/pb2/pb2_re34.swf");
}

#[test]
fn marker_comparison_decides_download() {
    assert_eq!(game_asset_action(true), GameAssetAction::FetchRemoteMarker);
    assert_eq!(compare_markers(&b"1700000000".to_vec(), &b"1700000000".to_vec()), GameAssetAction::UpToDate);
    assert_eq!(compare_markers(&b"1700000000".to_vec(), &b"1700000001".to_vec()), GameAssetAction::DownloadBoth);
    assert_eq!(compare_markers(&b"17".to_vec(), &b"17\n".to_vec()), GameAssetAction::DownloadBoth);
    assert!(game_asset_downloads(GameAssetAction::UpToDate).is_empty());
    assert!(game_asset_downloads(GameAssetAction::FetchRemoteMarker).is_empty());
}

#[test]
fn player_is_downloaded_once() {
    let p = Platform::Linux(Architecture::X86_64);
    assert!(player_download(&p, true).is_none());
    let j = player_download(&p, false).unwrap();
    assert_eq!(j.file_name, "flashplayer");
    let plan = plan_update("windows", "x86_64", false, true).unwrap();
    assert_eq!(plan.player.unwrap().file_name, "flashplayer.exe");
    assert_eq!(plan.game, GameAssetAction::FetchRemoteMarker);
}

#[test]
fn page_numbers_and_count() {
    assert_eq!(parse_u8("12"), Some(12));
    assert_eq!(parse_u8("+7"), Some(7));
    assert_eq!(parse_u8("255"), Some(255));
    assert_eq!(parse_u8("256"), None);
    assert_eq!(parse_u8(""), None);
    assert_eq!(parse_u8("+"), None);
    assert_eq!(parse_u8("1a"), None);
    assert_eq!(link_page_number("?a=&s=0&pg=4"), Some(4));
    assert_eq!(link_page_number("/forum"), None);
    let hrefs = vec![Some("?pg=2".to_string()), Some("?pg=9".to_string()), None, Some("/x".to_string()), Some("?pg=3".to_string())];
    assert_eq!(news_pages_count(&hrefs), 10);
    assert_eq!(news_pages_count(&vec![]), 1);
    assert_eq!(news_pages_count(&vec![None]), 1);
    assert_eq!(news_pages_count(&vec![Some("?pg=255".to_string())]), 256);
    let page = "<div><a href=\"?a=&s=0&pg=1\">2</a><a name=\"top\">t</a><a href=\"?a=&s=0&pg=5\">6</a></div><a href=\"?pg=40\">x</a>";
    assert_eq!(news_pages_count_of_page(page), 6);
}

#[test]
fn news_links_are_absolute() {
    assert_eq!(absolute_link_url("https://x.org/a"), "https://x.org/a");
    assert_eq!(absolute_link_url("/forum"), "https://plazmaburst2.com/forum");
    assert_eq!(absolute_link_url("?a=1"), "https://plazmaburst2.com/?a=1");
}

fn element(name: &str, align: Option<&str>, class: Option<&str>, href: Option<&str>, inner: &str) -> NewsPiece {
    NewsPiece::Element {
        name: name.to_string(),
        align: align.map(|s| s.to_string()),
        class: class.map(|s| s.to_string()),
        href: href.map(|s| s.to_string()),
        inner_html: inner.to_string(),
    }
}

#[test]
fn news_entry_text_assembly() {
    let pieces = vec![
        NewsPiece::Text("\tNew map ".to_string()),
        element("a", None, None, Some("/maps"), "here"),
        NewsPiece::Text(".".to_string()),
        element("br", None, None, None, ""),
        element("br", None, None, None, ""),
        element("b", None, None, None, "Bold"),
        NewsPiece::Other,
        element("a", None, None, None, "no href"),
        element("div", None, Some("news_div"), None, "next"),
        NewsPiece::Text("after".to_string()),
    ];
    assert_eq!(news_entry_text(&pieces), "New map <a href=\"/maps\">here</a>Bold");
    let centred = vec![NewsPiece::Text("a".to_string()), element("div", Some("center"), None, None, "x"), NewsPiece::Text("b".to_string())];
    assert_eq!(news_entry_text(&centred), "a");
    let plain_div = vec![element("div", None, None, None, "kept"), element("span", None, None, None, "!")];
    assert_eq!(news_entry_text(&plain_div), "kept!");
}

#[test]
fn credentials_are_stored_only_after_success() {
    let ok = after_legacy_reply("alice", "hunter2", "Wrong password.".to_string(), "x1");
    assert_eq!(credentials_to_persist(&ok, "alice", "hunter2"), Some("alice\nhunter2\n".to_string()));
    let failed = after_legacy_reply("alice", "hunter2", "Wrong password.".to_string(), "nope");
    assert_eq!(credentials_to_persist(&failed, "alice", "hunter2"), None);
}

#[test]
fn plain_password_welcome_gets_website_annotation() {
    match after_website_reply("hunter2", "Welcome back, bob!".to_string()) {
        LoginStep::Done(o) => {
            assert!(o.succeeded);
            assert_eq!(o.raw_message, "Welcome back, bob! \r\n(Signed with password for game website)");
        }
        LoginStep::AskLegacy(_) => panic!("expected a decided login"),
    }
}

#[test]
fn news_text_is_trimmed_of_tabs_and_repeated_breaks() {
    let pieces = vec![NewsPiece::Text("a\t\n\n\nb".to_string())];
    assert_eq!(news_entry_text(&pieces), "a\n\nb");
}
