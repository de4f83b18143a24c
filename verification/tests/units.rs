use pexfetch::auth::{
    config_path, load_stored_api_key, prompted_api_key, resolve_auth_state, secret_temp_name, StoredConfig,
};
use pexfetch::cli::{
    help_reply, Cli, Command, SearchArgs, VideoCommand, VideoDownloadArgs, VideoDownloadFirstArgs,
    VideoSearchArgs,
};
use pexfetch::client::{
    client_config_from_env, search_request, ClientConfig, DownloadBudget, PexelsClient,
    DEFAULT_DOWNLOAD_MAX_BYTES, DEFAULT_HTTP_TIMEOUT_MS, USER_AGENT_VALUE,
};
use pexfetch::error::{AppError, HttpFailure};
use pexfetch::paths::{join_path, path_extension};
use pexfetch::payloads::search_payload;
use pexfetch::quality::{
    build_destination, build_video_destination, pick_video_file_by_id, pick_video_file_by_quality, quality_url,
    video_extension_for, Quality, VideoQuality,
};
use pexfetch::run::{run, Action, Body, Env, Event, Output, State};
use pexfetch::srcmap::SrcMap;
use pexfetch::text::{is_blank, join_strings, parse_u64, str_lt, trim_owned, u64_to_decimal};
use pexfetch::{Photo, Video, VideoFile, VideosSearchResponse};

fn ok<T>(r: Result<T, AppError>) -> T {
    match r {
        Ok(v) => v,
        Err(e) => panic!("unexpected error: {}", e.to_string()),
    }
}

fn err<T>(r: Result<T, AppError>) -> AppError {
    match r {
        Ok(_) => panic!("expected an error"),
        Err(e) => e,
    }
}

fn some(s: &str) -> Option<String> {
    Some(s.to_owned())
}

const CONFIG: &str = "/tmp/pexfetch-units/config.json";
const BASE: &str = "http://127.0.0.1:5000";

fn api_env() -> Env {
    Env {
        pexels_api_key: some("test-key"),
        api_base: some(BASE),
        http_timeout_ms: None,
        download_max_bytes: None,
        config_path: some(CONFIG),
        xdg_config_home: None,
        home: None,
    }
}

fn video_file(id: u64, quality: Option<&str>, file_type: Option<&str>, score: u64) -> VideoFile {
    VideoFile {
        id,
        quality: quality.map(str::to_owned),
        file_type: file_type.map(str::to_owned),
        width: Some(1920),
        height: Some(1080),
        fps_bits: None,
        link: format!("https://videos.pexels.com/video-files/{id}.mp4"),
        score,
    }
}

fn video(id: u64, files: Vec<VideoFile>) -> Video {
    Video {
        id,
        width: Some(1920),
        height: Some(1080),
        url: None,
        image: None,
        duration: Some(12),
        user: None,
        video_files: files,
        video_pictures: Vec::new(),
    }
}

fn video_search_args(query: &str) -> VideoSearchArgs {
    VideoSearchArgs { query: query.to_owned(), page: 1, per_page: 15, orientation: None, size: None, locale: None }
}

/// Runs a command to its end, answering each action with `reply`; returns
/// the last action and a line for each action on the way.
fn drive(cli: &Cli, env: &Env, mut reply: impl FnMut(&Action) -> Event) -> (Action, Vec<String>) {
    let mut state = State::Begin;
    let mut event = Event::Start;
    let mut seen = Vec::new();
    for _ in 0..16 {
        let (next, action) = run(cli, env, state, event);
        match &action {
            Action::Emit(_) | Action::Fail(_) => return (action, seen),
            Action::LoadConfig { path } => seen.push(format!("load {path}")),
            Action::Fetch { request, .. } => seen.push(format!("fetch {}", request.url)),
            Action::Download { request, destination, .. } => {
                seen.push(format!("download {} to {destination}", request.url))
            }
            _ => seen.push("other".to_owned()),
        }
        event = reply(&action);
        state = next;
    }
    panic!("command did not finish");
}

fn failure(action: Action) -> AppError {
    match action {
        Action::Fail(e) => e,
        _ => panic!("expected the command to fail"),
    }
}

#[test]
fn parse_u64_accepts_digits_with_optional_plus() {
    assert_eq!(parse_u64("42"), Some(42));
    assert_eq!(parse_u64("+5"), Some(5));
    assert_eq!(parse_u64("007"), Some(7));
    assert_eq!(parse_u64("18446744073709551615"), Some(u64::MAX));
}

#[test]
fn parse_u64_rejects_signs_blanks_and_overflow() {
    assert_eq!(parse_u64(""), None);
    assert_eq!(parse_u64("+"), None);
    assert_eq!(parse_u64("-1"), None);
    assert_eq!(parse_u64(" 5"), None);
    assert_eq!(parse_u64("5s"), None);
    assert_eq!(parse_u64("18446744073709551616"), None);
}

#[test]
fn decimal_text_parses_back_to_the_number() {
    assert_eq!(u64_to_decimal(0), "0");
    assert_eq!(u64_to_decimal(1234567890), "1234567890");
    for n in [0u64, 9, 10, 987654321, u64::MAX] {
        assert_eq!(parse_u64(&u64_to_decimal(n)), Some(n));
    }
}

#[test]
fn trim_strips_unicode_whitespace_and_is_idempotent() {
    assert_eq!(trim_owned("  a b \t\n"), "a b");
    assert_eq!(trim_owned("\u{a0}key\u{2003}"), "key");
    assert_eq!(trim_owned(""), "");
    let once = trim_owned(" \r\n x y \u{85}");
    assert_eq!(trim_owned(&once), once);
    assert!(is_blank(" \t\n"));
    assert!(is_blank(""));
    assert!(!is_blank(" x "));
}

#[test]
fn string_order_and_join() {
    assert!(str_lt("a", "b"));
    assert!(str_lt("a", "ab"));
    assert!(!str_lt("ab", "a"));
    assert!(!str_lt("same", "same"));
    assert!(str_lt("hd", "sd") && !str_lt("sd", "hd"));
    let parts = vec!["large".to_owned(), "original".to_owned(), "tiny".to_owned()];
    assert_eq!(join_strings(&parts, ", "), "large, original, tiny");
    assert_eq!(join_strings(&Vec::new(), ", "), "");
}

#[test]
fn join_path_adds_one_separator() {
    assert_eq!(join_path("downloads", "1-large.jpeg"), "downloads/1-large.jpeg");
    assert_eq!(join_path("downloads/", "x"), "downloads/x");
    assert_eq!(join_path("", "x"), "x");
    assert_eq!(join_path("/", "x"), "/x");
}

#[test]
fn path_extension_follows_path_rules() {
    assert_eq!(path_extension("/photos/1/pexels-photo-1.jpeg"), some("jpeg"));
    assert_eq!(path_extension("/a/b.tar.gz"), some("gz"));
    assert_eq!(path_extension("/a/b"), None);
    assert_eq!(path_extension("/a/.hidden"), None);
    assert_eq!(path_extension("/a/b."), some(""));
    assert_eq!(path_extension("/a/b.png/"), some("png"));
    assert_eq!(path_extension("/"), None);
    assert_eq!(path_extension(""), None);
}

#[test]
fn srcmap_reads_back_writes_and_keeps_keys_sorted() {
    let mut map = SrcMap::new();
    map.insert("tiny".to_owned(), "t1".to_owned());
    map.insert("large".to_owned(), "l1".to_owned());
    map.insert("original".to_owned(), "o1".to_owned());
    map.insert("tiny".to_owned(), "t2".to_owned());
    assert_eq!(map.len(), 3);
    assert_eq!(map.get("tiny").cloned(), some("t2"));
    assert_eq!(map.get("large").cloned(), some("l1"));
    assert_eq!(map.get("medium"), None);
    assert_eq!(map.keys(), vec!["large".to_owned(), "original".to_owned(), "tiny".to_owned()]);
    let (k, v) = map.entry(1);
    assert_eq!((k.as_str(), v.as_str()), ("original", "o1"));
}

fn photo_with(src: &[(&str, &str)]) -> Photo {
    let mut map = SrcMap::new();
    for (k, v) in src {
        map.insert((*k).to_owned(), (*v).to_owned());
    }
    Photo { id: 7, width: None, height: None, url: None, photographer: None, src: map }
}

#[test]
fn quality_url_picks_the_key_or_lists_the_available_ones() {
    let p = photo_with(&[("tiny", "https://x/t.jpeg"), ("original", "https://x/o.jpeg")]);
    assert_eq!(ok(quality_url(&p, Quality::Original)), "https://x/o.jpeg");
    match err(quality_url(&p, Quality::Large2x)) {
        AppError::InvalidQuality { quality, available } => {
            assert_eq!(quality, "large2x");
            assert_eq!(available, vec!["original".to_owned(), "tiny".to_owned()]);
        }
        _ => panic!("expected an invalid quality"),
    }
}

#[test]
fn download_destination_takes_the_url_path_extension() {
    let with_query = "https://images.pexels.com/photos/1/pexels-photo-1.png?auto=compress&cs=tinysrgb";
    assert_eq!(ok(build_destination("out", 1, Quality::Large, with_query)), "out/1-large.png");
    assert_eq!(ok(build_destination("out/", 22, Quality::Tiny, "https://x.test/photos/22")), "out/22-tiny.jpeg");
    assert_eq!(ok(build_destination("out", 3, Quality::Original, "not a url")), "out/3-original.jpeg");
}

#[test]
fn video_extension_comes_from_the_mime_subtype() {
    assert_eq!(video_extension_for(Some("video/mp4")), "mp4");
    assert_eq!(video_extension_for(Some("video/webm")), "webm");
    assert_eq!(video_extension_for(Some("video/quicktime")), "mov");
    assert_eq!(video_extension_for(Some("application/vnd.apple.mpegurl")), "m3u8");
    assert_eq!(video_extension_for(Some("application/x-mpegurl")), "m3u8");
    assert_eq!(video_extension_for(Some("application/x-mpegURL")), "m3u8");
    assert_eq!(video_extension_for(Some("application/vnd.Apple.MpegURL")), "m3u8");
    assert_eq!(video_extension_for(Some("VIDEO/WEBM")), "webm");
    assert_eq!(video_extension_for(Some("video/QuickTime")), "mov");
    assert_eq!(video_extension_for(Some("weird")), "mp4");
    assert_eq!(video_extension_for(None), "mp4");
    assert_eq!(build_video_destination("clips", 5000, 90002, Some("video/webm")), "clips/5000-90002.webm");
    assert_eq!(build_video_destination("clips/", 5, 6, None), "clips/5-6.mp4");
}

#[test]
fn video_quality_picks_highest_score_first_of_equals() {
    let v = video(
        5000,
        vec![
            video_file(1, Some("hd"), Some("video/mp4"), 10),
            video_file(2, Some("sd"), Some("video/mp4"), 50),
            video_file(3, Some("hd"), Some("video/mp4"), 30),
            video_file(4, Some("hd"), Some("video/webm"), 30),
        ],
    );
    assert_eq!(ok(pick_video_file_by_quality(&v, VideoQuality::Hd)).id, 3);
    assert_eq!(ok(pick_video_file_by_quality(&v, VideoQuality::Sd)).id, 2);
}

#[test]
fn video_quality_missing_lists_sorted_distinct_qualities() {
    let v = video(
        5000,
        vec![
            video_file(1, Some("sd"), None, 1),
            video_file(2, Some("hd"), None, 2),
            video_file(3, None, None, 3),
            video_file(4, Some("sd"), None, 4),
        ],
    );
    let e = err(pick_video_file_by_quality(&v, VideoQuality::Hls));
    assert_eq!(e.kind(), "invalid_quality");
    assert_eq!(e.exit_code(), 4);
    assert_eq!(e.to_string(), "unknown quality 'hls' (available: hd, sd)");
    assert_eq!(e.report().available_qualities, Some(vec!["hd".to_owned(), "sd".to_owned()]));
}

#[test]
fn video_file_id_picks_that_entry_or_is_not_found() {
    let v = video(5000, vec![video_file(90001, Some("hd"), None, 1), video_file(90002, Some("hd"), None, 9)]);
    assert_eq!(ok(pick_video_file_by_id(&v, 90001)).id, 90001);
    let e = err(pick_video_file_by_id(&v, 7));
    assert_eq!(e.kind(), "not_found");
    assert_eq!(e.to_string(), "video 5000 has no file with id 7");
}

#[test]
fn every_error_has_its_kind_and_exit_code() {
    let cases: Vec<(AppError, &str, i32)> = vec![
        (AppError::Message("m".to_owned()), "error", 1),
        (AppError::MissingCredential("m".to_owned()), "missing_credential", 3),
        (AppError::Unauthorized("m".to_owned()), "unauthorized", 3),
        (AppError::Forbidden("m".to_owned()), "forbidden", 3),
        (AppError::NotFound("m".to_owned()), "not_found", 4),
        (AppError::RateLimited { retry_after_secs: None, remaining: None, reset_at: None }, "rate_limited", 6),
        (AppError::InvalidQuality { quality: "q".to_owned(), available: Vec::new() }, "invalid_quality", 4),
        (AppError::Io("m".to_owned()), "io_error", 1),
        (AppError::Http("m".to_owned()), "http_error", 5),
        (AppError::Json("m".to_owned()), "json_error", 1),
        (AppError::Url("m".to_owned()), "url_error", 1),
    ];
    for (e, kind, code) in cases {
        assert_eq!(e.kind(), kind);
        assert_eq!(e.exit_code(), code);
    }
    assert_eq!(AppError::message("plain".to_owned()).to_string(), "plain");
}

#[test]
fn rate_limit_and_quality_messages() {
    let limited = AppError::RateLimited { retry_after_secs: Some(42), remaining: Some(0), reset_at: Some(1714000000) };
    assert_eq!(limited.to_string(), "rate limited by Pexels (retry after 42s)");
    let report = limited.report();
    assert_eq!(report.kind, "rate_limited");
    assert_eq!((report.retry_after_secs, report.remaining, report.reset_at), (Some(42), Some(0), Some(1714000000)));
    assert_eq!(report.available_qualities, None);
    let bare = AppError::RateLimited { retry_after_secs: None, remaining: Some(3), reset_at: None };
    assert_eq!(bare.to_string(), "rate limited by Pexels");
    let q = AppError::InvalidQuality { quality: "huge".to_owned(), available: vec!["large".to_owned(), "tiny".to_owned()] };
    assert_eq!(q.to_string(), "unknown quality 'huge' (available: large, tiny)");
    let plain = AppError::Forbidden("no".to_owned()).report();
    assert_eq!((plain.message.as_str(), plain.retry_after_secs), ("no", None));
}

#[test]
fn http_statuses_map_to_their_errors() {
    let url = "https://api.pexels.com/v1/photos/9";
    let e = AppError::from_status(401, url, &None, &None, &None).expect("401 is an error");
    assert_eq!((e.kind(), e.to_string()), ("unauthorized", "Pexels rejected the API key (HTTP 401 Unauthorized)".to_owned()));
    let e = AppError::from_status(403, url, &None, &None, &None).expect("403 is an error");
    assert_eq!((e.kind(), e.to_string()), ("forbidden", "Pexels refused access (HTTP 403 Forbidden)".to_owned()));
    let e = AppError::from_status(404, url, &None, &None, &None).expect("404 is an error");
    assert_eq!(e.to_string(), "Pexels returned HTTP 404 Not Found for https://api.pexels.com/v1/photos/9");
    let e = AppError::from_status(429, url, &some("42"), &some("0"), &some("1714000000")).expect("429 is an error");
    match e {
        AppError::RateLimited { retry_after_secs, remaining, reset_at } => {
            assert_eq!((retry_after_secs, remaining, reset_at), (Some(42), Some(0), Some(1714000000)))
        }
        _ => panic!("expected rate limiting"),
    }
    match AppError::from_status(429, url, &some("soon"), &None, &some("-1")) {
        Some(AppError::RateLimited { retry_after_secs, remaining, reset_at }) => {
            assert_eq!((retry_after_secs, remaining, reset_at), (None, None, None))
        }
        _ => panic!("expected rate limiting"),
    }
    assert!(AppError::from_status(500, url, &None, &None, &None).is_none());
    assert!(AppError::from_status(200, url, &None, &None, &None).is_none());
}

#[test]
fn failed_requests_are_classified() {
    let timeout = AppError::from_http(HttpFailure { timed_out: true, connect: false, text: "boom".to_owned() });
    assert_eq!((timeout.kind(), timeout.to_string()), ("error", "HTTP request timed out: boom".to_owned()));
    let connect = AppError::from_http(HttpFailure { timed_out: false, connect: true, text: "boom".to_owned() });
    assert_eq!(connect.to_string(), "HTTP connection error: boom");
    let other = AppError::from_http(HttpFailure { timed_out: false, connect: false, text: "boom".to_owned() });
    assert_eq!((other.kind(), other.exit_code(), other.to_string()), ("http_error", 5, "boom".to_owned()));
}

#[test]
fn client_settings_come_from_the_environment() {
    let d = ok(client_config_from_env(&None, &None));
    assert_eq!((d.http_timeout_ms, d.download_max_bytes), (DEFAULT_HTTP_TIMEOUT_MS, DEFAULT_DOWNLOAD_MAX_BYTES));
    assert_eq!((DEFAULT_HTTP_TIMEOUT_MS, DEFAULT_DOWNLOAD_MAX_BYTES), (60000, 209715200));
    let c = ok(client_config_from_env(&some("250"), &some("+1024")));
    assert_eq!((c.http_timeout_ms, c.download_max_bytes), (250, 1024));
    let e = err(client_config_from_env(&some("fast"), &some("x")));
    assert_eq!(e.to_string(), "PEXFETCH_HTTP_TIMEOUT_MS must be a positive integer (got fast)");
    let e = err(client_config_from_env(&None, &some("-5")));
    assert_eq!(e.to_string(), "PEXFETCH_DOWNLOAD_MAX_BYTES must be a positive integer (got -5)");
    let def = ClientConfig::default();
    assert_eq!(def.http_timeout_ms, 60000);
}

fn settings() -> ClientConfig {
    ClientConfig { http_timeout_ms: 1000, download_max_bytes: 2000 }
}

#[test]
fn api_base_must_be_https_or_local_http() {
    assert_eq!(ok(PexelsClient::new("k".to_owned(), None, settings())).api_base(), "https://api.pexels.com");
    for base in ["https://proxy.example.com", "http://localhost:8080", "http://127.0.0.5:9", "http://[::1]:9"] {
        assert_eq!(ok(PexelsClient::new("k".to_owned(), some(base), settings())).api_base(), base);
    }
    let e = err(PexelsClient::new("k".to_owned(), some("http://example.com"), settings()));
    assert_eq!(e.kind(), "error");
    assert_eq!(
        e.to_string(),
        "PEXFETCH_API_BASE must be an https:// URL (http:// is allowed only for loopback hosts), got http://example.com"
    );
    let e = err(PexelsClient::new("k".to_owned(), some("not a url"), settings()));
    assert_eq!((e.kind(), e.exit_code()), ("error", 1));
    assert!(e.to_string().contains("PEXFETCH_API_BASE"));
    for base in ["http://127.evil.com", "http://127.0.0.1.evil.com", "http://localhost.evil.com", "ftp://127.0.0.1"] {
        assert!(PexelsClient::new("k".to_owned(), some(base), settings()).is_err(), "{base}");
    }
    assert!(PexelsClient::new("k".to_owned(), some("HTTPS://api.pexels.com"), settings()).is_ok());
    assert!(PexelsClient::new("k".to_owned(), some("http://127.1:8080"), settings()).is_ok());
}

#[test]
fn unparsable_https_base_fails_at_the_request() {
    let bare = ok(PexelsClient::new("k".to_owned(), some("https://"), settings()));
    assert_eq!(bare.api_base(), "https://");
    let spaced = ok(PexelsClient::new("k".to_owned(), some("https://exa mple.com"), settings()));
    assert_eq!(spaced.api_base(), "https://exa mple.com");
    let e = err(spaced.get_photo(1));
    assert_eq!(e.kind(), "url_error");
}

#[test]
fn requests_carry_the_endpoint_key_and_query() {
    let client = ok(PexelsClient::new("secret".to_owned(), some("https://api.pexels.com/"), settings()));
    assert_eq!(ok(client.endpoint("/v1/search")), "https://api.pexels.com/v1/search");
    let photo = ok(client.get_photo(42));
    assert_eq!(photo.url, "https://api.pexels.com/v1/photos/42");
    assert_eq!(photo.authorization, some("secret"));
    assert!(photo.accept_json && photo.query.is_empty());
    let video = ok(client.get_video(5000));
    assert_eq!(video.url, "https://api.pexels.com/v1/videos/videos/5000");
    let args = SearchArgs {
        query: "mountains".to_owned(),
        page: 2,
        per_page: 3,
        orientation: some("landscape"),
        size: None,
        color: some("blue"),
        locale: None,
    };
    let search = ok(client.search_photos(&search_request(&args)));
    assert_eq!(search.url, "https://api.pexels.com/v1/search");
    let expected: Vec<(String, String)> = [("query", "mountains"), ("page", "2"), ("per_page", "3"), ("orientation", "landscape"), ("color", "blue")]
        .iter()
        .map(|(n, v)| ((*n).to_owned(), (*v).to_owned()))
        .collect();
    assert_eq!(search.query, expected);
    assert_eq!(USER_AGENT_VALUE, "pexels-agent-cli/0.1.0");
    assert_eq!((client.http_timeout_ms(), client.download_max_bytes()), (1000, 2000));
    let probe = ok(client.check_connection());
    assert_eq!(probe.query.len(), 3);
    let file = client.download_file("https://images.pexels.com/p.jpeg");
    assert_eq!((file.url.as_str(), file.authorization, file.accept_json), ("https://images.pexels.com/p.jpeg", None, false));
}

#[test]
fn download_budget_never_passes_the_cap() {
    let mut budget = DownloadBudget::new(10);
    assert!(budget.check_declared(Some(11)).is_err());
    assert!(budget.check_declared(Some(10)).is_ok());
    assert!(budget.check_declared(None).is_ok());
    assert!(budget.accept(6).is_ok());
    let e = err(budget.accept(5));
    assert_eq!(e.to_string(), "download exceeds PEXFETCH_DOWNLOAD_MAX_BYTES (10 bytes)");
    assert_eq!(budget.received(), 6);
    assert!(budget.accept(4).is_ok());
    assert_eq!(budget.received(), 10);
    assert!(budget.accept(1).is_err());
    assert!(budget.accept(0).is_ok());
}

#[test]
fn config_path_resolution_order() {
    assert_eq!(ok(config_path(&some("/c.json"), &some("/x"), &some("/h"))), "/c.json");
    assert_eq!(ok(config_path(&None, &some("/x"), &some("/h"))), "/x/pexfetch/config.json");
    assert_eq!(ok(config_path(&None, &None, &some("/h"))), "/h/.config/pexfetch/config.json");
    let e = err(config_path(&None, &None, &None));
    assert_eq!(e.to_string(), "HOME is not set and no config path override was provided");
    assert_eq!(secret_temp_name(&some("config.json"), 42), ".config.json.42.tmp");
    assert_eq!(secret_temp_name(&None, 7), ".config.7.tmp");
}

#[test]
fn stored_config_outcomes() {
    assert_eq!(ok(load_stored_api_key(CONFIG, StoredConfig::Missing)), None);
    assert_eq!(ok(load_stored_api_key(CONFIG, StoredConfig::Parsed("abc".to_owned()))), some("abc"));
    assert_eq!(ok(load_stored_api_key(CONFIG, StoredConfig::Parsed(" \t".to_owned()))), None);
    let e = err(load_stored_api_key(CONFIG, StoredConfig::Unreadable("permission denied".to_owned())));
    assert_eq!((e.kind(), e.to_string()), ("io_error", "permission denied".to_owned()));
    let e = err(load_stored_api_key("/p/c.json", StoredConfig::Corrupt("EOF".to_owned())));
    assert_eq!(e.to_string(), "config at /p/c.json is corrupt (EOF); run `pexfetch auth logout` to reset it");
}

#[test]
fn env_key_wins_and_stored_key_is_the_fallback() {
    let a = ok(resolve_auth_state(Ok(CONFIG.to_owned()), &some("  env-key "), Ok(some("stored"))));
    assert_eq!((a.api_key, a.source.as_str(), a.configured), (some("env-key"), "env", true));
    let a = ok(resolve_auth_state(Ok(CONFIG.to_owned()), &some("   "), Ok(some("stored"))));
    assert_eq!((a.api_key, a.source.as_str()), (some("stored"), "config"));
    let a = ok(resolve_auth_state(Ok(CONFIG.to_owned()), &None, Ok(None)));
    assert_eq!((a.api_key, a.source.as_str(), a.configured), (None, "none", false));
    let e = err(resolve_auth_state(Ok(CONFIG.to_owned()), &some("k"), Err(AppError::Io("bad".to_owned()))));
    assert_eq!(e.kind(), "io_error");
}

#[test]
fn prompted_key_is_trimmed_and_required() {
    assert_eq!(ok(prompted_api_key("  key-1 \n")), "key-1");
    let e = err(prompted_api_key(" \n"));
    assert_eq!(e.kind(), "missing_credential");
    assert_eq!(e.to_string(), "API key is required; paste the key from https://www.pexels.com/api/key/");
}

#[test]
fn login_then_read_gives_the_saved_key_and_logout_clears_it() {
    let saved = ok(prompted_api_key(" typed-key\n"));
    let stored = ok(load_stored_api_key(CONFIG, StoredConfig::Parsed(saved)));
    let a = ok(resolve_auth_state(Ok(CONFIG.to_owned()), &None, Ok(stored)));
    assert_eq!((a.api_key, a.source.as_str()), (some("typed-key"), "config"));
    let after_logout = ok(load_stored_api_key(CONFIG, StoredConfig::Missing));
    let a = ok(resolve_auth_state(Ok(CONFIG.to_owned()), &None, Ok(after_logout)));
    assert!(!a.configured);
}

#[test]
fn search_payload_falls_back_to_the_request() {
    let args = SearchArgs {
        query: "sea".to_owned(),
        page: 3,
        per_page: 4,
        orientation: None,
        size: None,
        color: None,
        locale: None,
    };
    let photos = vec![photo_with(&[]), photo_with(&[])];
    let p = search_payload(&args, photos, None, Some(9), None, some("next"));
    assert_eq!((p.page, p.per_page, p.total_results, p.query.as_str()), (3, 9, 2, "sea"));
    assert_eq!(p.next_page, some("next"));
}

#[test]
fn videos_help_lists_its_subcommands() {
    let reply = help_reply(&vec!["pexfetch".to_owned(), "videos".to_owned(), "--help".to_owned()]);
    assert!(reply.contains("Search and download Pexels videos"));
    assert!(reply.contains("download-first"));
}

#[test]
fn status_without_a_key_reports_instead_of_failing() {
    let mut env = api_env();
    env.pexels_api_key = None;
    let (last, _) = drive(&Cli { command: Command::Status }, &env, |_| Event::ConfigLoaded(StoredConfig::Missing));
    match last {
        Action::Emit(Output::Status(p)) => {
            assert!(!p.api_reachable && !p.configured);
            assert_eq!(p.api_error, some("PEXELS_API_KEY is not set and no stored config was found"));
            assert_eq!(p.api_base, BASE);
        }
        _ => panic!("expected a status payload"),
    }
}

#[test]
fn videos_search_emits_the_page_with_fallbacks() {
    let cli = Cli { command: Command::Videos { command: VideoCommand::Search(video_search_args("drone")) } };
    let (last, seen) = drive(&cli, &api_env(), |a| match a {
        Action::LoadConfig { .. } => Event::ConfigLoaded(StoredConfig::Missing),
        Action::Fetch { request, body, .. } => {
            assert!(*body == Body::Videos);
            assert!(request.query.contains(&("query".to_owned(), "drone".to_owned())));
            Event::Videos(VideosSearchResponse {
                page: None,
                per_page: None,
                total_results: None,
                videos: vec![video(1, Vec::new()), video(2, Vec::new())],
                next_page: None,
                prev_page: some("prev"),
            })
        }
        _ => panic!("unexpected action"),
    });
    assert_eq!(seen[1], format!("fetch {BASE}/v1/videos/search"));
    match last {
        Action::Emit(Output::VideoSearch(p)) => {
            assert_eq!((p.page, p.per_page, p.total_results, p.query.as_str()), (1, 15, 2, "drone"));
            assert_eq!(p.prev_page, some("prev"));
        }
        _ => panic!("expected a video search payload"),
    }
}

fn clip() -> Video {
    video(
        5000,
        vec![
            video_file(90001, Some("sd"), Some("video/mp4"), 5),
            video_file(90002, Some("hd"), Some("video/webm"), 9),
            video_file(90003, Some("hd"), Some("video/mp4"), 9),
        ],
    )
}

#[test]
fn videos_download_saves_the_best_file_of_the_quality() {
    let args = VideoDownloadArgs { id: 5000, quality: VideoQuality::Hd, video_file_id: None, output_dir: "clips".to_owned() };
    let cli = Cli { command: Command::Videos { command: VideoCommand::Download(args) } };
    let (last, seen) = drive(&cli, &api_env(), |a| match a {
        Action::LoadConfig { .. } => Event::ConfigLoaded(StoredConfig::Missing),
        Action::Fetch { .. } => Event::VideoFound(clip()),
        Action::Download { .. } => Event::Downloaded,
        _ => panic!("unexpected action"),
    });
    assert_eq!(seen[1], format!("fetch {BASE}/v1/videos/videos/5000"));
    assert_eq!(seen[2], "download https://videos.pexels.com/video-files/90002.mp4 to clips/5000-90002.webm");
    match last {
        Action::Emit(Output::VideoDownload(p)) => {
            assert_eq!((p.video_id, p.video_file_id), (5000, 90002));
            assert_eq!((p.quality, p.file_type), (some("hd"), some("video/webm")));
            assert_eq!(p.saved_to, "clips/5000-90002.webm");
            assert_eq!(p.query, None);
        }
        _ => panic!("expected a video download payload"),
    }
}

#[test]
fn videos_download_by_file_id_bypasses_quality() {
    let args = VideoDownloadArgs { id: 5000, quality: VideoQuality::Hls, video_file_id: Some(90001), output_dir: "c".to_owned() };
    let cli = Cli { command: Command::Videos { command: VideoCommand::Download(args) } };
    let (last, _) = drive(&cli, &api_env(), |a| match a {
        Action::LoadConfig { .. } => Event::ConfigLoaded(StoredConfig::Missing),
        Action::Fetch { .. } => Event::VideoFound(clip()),
        Action::Download { .. } => Event::Downloaded,
        _ => panic!("unexpected action"),
    });
    match last {
        Action::Emit(Output::VideoDownload(p)) => assert_eq!((p.video_file_id, p.saved_to.as_str()), (90001, "c/5000-90001.mp4")),
        _ => panic!("expected a video download payload"),
    }
}

#[test]
fn videos_download_unknown_quality_lists_what_exists() {
    let args = VideoDownloadArgs { id: 5000, quality: VideoQuality::Hls, video_file_id: None, output_dir: "c".to_owned() };
    let cli = Cli { command: Command::Videos { command: VideoCommand::Download(args) } };
    let (last, seen) = drive(&cli, &api_env(), |a| match a {
        Action::LoadConfig { .. } => Event::ConfigLoaded(StoredConfig::Missing),
        Action::Fetch { .. } => Event::VideoFound(clip()),
        _ => panic!("unexpected action"),
    });
    assert_eq!(seen.len(), 2);
    let e = failure(last);
    assert_eq!(e.to_string(), "unknown quality 'hls' (available: hd, sd)");
}

#[test]
fn videos_download_first_takes_the_first_result_or_is_not_found() {
    let args = VideoDownloadFirstArgs {
        search: video_search_args("waves"),
        quality: VideoQuality::Sd,
        video_file_id: None,
        output_dir: "c".to_owned(),
    };
    let cli = Cli { command: Command::Videos { command: VideoCommand::DownloadFirst(args) } };
    let (last, _) = drive(&cli, &api_env(), |a| match a {
        Action::LoadConfig { .. } => Event::ConfigLoaded(StoredConfig::Missing),
        Action::Fetch { .. } => Event::Videos(VideosSearchResponse {
            page: Some(1),
            per_page: Some(1),
            total_results: Some(2),
            videos: vec![clip(), video(6000, Vec::new())],
            next_page: None,
            prev_page: None,
        }),
        Action::Download { .. } => Event::Downloaded,
        _ => panic!("unexpected action"),
    });
    match last {
        Action::Emit(Output::VideoDownload(p)) => {
            assert_eq!((p.video_id, p.video_file_id), (5000, 90001));
            assert_eq!(p.query, some("waves"));
        }
        _ => panic!("expected a video download payload"),
    }

    let args = VideoDownloadFirstArgs {
        search: video_search_args("nothing"),
        quality: VideoQuality::Hd,
        video_file_id: None,
        output_dir: "c".to_owned(),
    };
    let cli = Cli { command: Command::Videos { command: VideoCommand::DownloadFirst(args) } };
    let (last, _) = drive(&cli, &api_env(), |a| match a {
        Action::LoadConfig { .. } => Event::ConfigLoaded(StoredConfig::Missing),
        Action::Fetch { .. } => Event::Videos(VideosSearchResponse {
            page: None,
            per_page: None,
            total_results: Some(0),
            videos: Vec::new(),
            next_page: None,
            prev_page: None,
        }),
        _ => panic!("unexpected action"),
    });
    let e = failure(last);
    assert_eq!((e.kind(), e.exit_code()), ("not_found", 4));
    assert_eq!(e.to_string(), "No videos found for query 'nothing'");
}

#[test]
fn commands_other_than_status_need_a_key() {
    let mut env = api_env();
    env.pexels_api_key = Some("  ".to_owned());
    let cli = Cli { command: Command::Videos { command: VideoCommand::Search(video_search_args("x")) } };
    let (last, seen) = drive(&cli, &env, |_| Event::ConfigLoaded(StoredConfig::Parsed("".to_owned())));
    assert_eq!(seen, vec![format!("load {CONFIG}")]);
    let e = failure(last);
    assert_eq!((e.kind(), e.exit_code()), ("missing_credential", 3));
}

#[test]
fn a_failed_action_ends_the_command_with_its_error() {
    let cli = Cli { command: Command::Videos { command: VideoCommand::Search(video_search_args("x")) } };
    let (last, _) = drive(&cli, &api_env(), |a| match a {
        Action::LoadConfig { .. } => Event::ConfigLoaded(StoredConfig::Missing),
        _ => Event::Failed(AppError::Http("connection reset".to_owned())),
    });
    let e = failure(last);
    assert_eq!((e.kind(), e.to_string()), ("http_error", "connection reset".to_owned()));
}
