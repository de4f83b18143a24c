use std::collections::HashMap;

use pexfetch::cli::{
    help_reply, AuthCommand, Cli, Command, DownloadArgs, DownloadFirstArgs, SearchArgs,
};
use pexfetch::client::{DownloadBudget, HttpRequest};
use pexfetch::error::{AppError, HttpFailure};
use pexfetch::quality::Quality;
use pexfetch::run::{run, Action, Body, Env, Event, Output, State};
use pexfetch::srcmap::SrcMap;
use pexfetch::{Photo, SearchResponse, StoredConfig};

/// A stand-in for the file system, the terminal and the network: config
/// files by path, what was written to stderr, what stdin holds, and how
/// the API answers.
pub struct World {
    pub files: HashMap<String, String>,
    pub corrupt: HashMap<String, String>,
    pub stderr: Vec<String>,
    pub stdin: String,
    pub saved: HashMap<String, String>,
    pub api: Box<dyn FnMut(&HttpRequest, &Body) -> Event>,
    pub probe: Box<dyn FnMut(&HttpRequest) -> Result<(), AppError>>,
    pub downloads: Box<dyn FnMut(&HttpRequest, u64) -> Result<String, AppError>>,
    pub seen: Vec<String>,
}

impl World {
    pub fn new() -> World {
        World {
            files: HashMap::new(),
            corrupt: HashMap::new(),
            stderr: Vec::new(),
            stdin: String::new(),
            saved: HashMap::new(),
            api: Box::new(|_, _| panic!("no API call expected")),
            probe: Box::new(|_| panic!("no probe expected")),
            downloads: Box::new(|_, _| panic!("no download expected")),
            seen: Vec::new(),
        }
    }

    fn respond(&mut self, action: &Action) -> Event {
        match action {
            Action::LoadConfig { path } => {
                self.seen.push(format!("load {path}"));
                if let Some(e) = self.corrupt.get(path) {
                    Event::ConfigLoaded(StoredConfig::Corrupt(e.clone()))
                } else {
                    match self.files.get(path) {
                        Some(k) => Event::ConfigLoaded(StoredConfig::Parsed(k.clone())),
                        None => Event::ConfigLoaded(StoredConfig::Missing),
                    }
                }
            }
            Action::SaveConfig { path, api_key } => {
                self.seen.push(format!("save {path}"));
                self.files.insert(path.clone(), api_key.clone());
                Event::ConfigSaved
            }
            Action::RemoveConfig { path } => {
                self.seen.push(format!("remove {path}"));
                Event::ConfigRemoved(self.files.remove(path).is_some())
            }
            Action::Warn { text } => {
                self.stderr.push(text.clone());
                Event::Warned
            }
            Action::Prompt { lines, prompt } => {
                for line in lines {
                    self.stderr.push(line.clone());
                }
                self.stderr.push(prompt.clone());
                let line = self.stdin.lines().next().unwrap_or("").to_owned();
                Event::Prompted(line)
            }
            Action::Fetch { request, body, timeout_ms } => {
                self.seen.push(format!("fetch {} timeout {timeout_ms}", request.url));
                (self.api)(request, body)
            }
            Action::Probe { request, .. } => {
                self.seen.push(format!("probe {}", request.url));
                Event::Probed((self.probe)(request))
            }
            Action::Download { request, destination, max_bytes, .. } => {
                self.seen.push(format!("download {} to {destination}", request.url));
                match (self.downloads)(request, *max_bytes) {
                    Ok(bytes) => {
                        self.saved.insert(destination.clone(), bytes);
                        Event::Downloaded
                    }
                    Err(e) => Event::Failed(e),
                }
            }
            Action::Emit(_) | Action::Fail(_) => panic!("the command already finished"),
        }
    }
}

/// Runs a command to its end; the last action is `Emit` or `Fail`.
pub fn drive(cli: &Cli, env: &Env, world: &mut World) -> Action {
    let mut state = State::Begin;
    let mut event = Event::Start;
    for _ in 0..32 {
        let (next, action) = run(cli, env, state, event);
        if matches!(action, Action::Emit(_) | Action::Fail(_)) {
            return action;
        }
        event = world.respond(&action);
        state = next;
    }
    panic!("command did not finish");
}

pub fn env_with_config(path: &str) -> Env {
    Env {
        pexels_api_key: None,
        api_base: None,
        http_timeout_ms: None,
        download_max_bytes: None,
        config_path: Some(path.to_owned()),
        xdg_config_home: None,
        home: None,
    }
}

pub fn api_env(path: &str, key: &str, base: &str) -> Env {
    let mut env = env_with_config(path);
    env.pexels_api_key = Some(key.to_owned());
    env.api_base = Some(base.to_owned());
    env
}

pub fn search_args(query: &str) -> SearchArgs {
    SearchArgs {
        query: query.to_owned(),
        page: 1,
        per_page: 15,
        orientation: None,
        size: None,
        color: None,
        locale: None,
    }
}

pub fn photo(id: u64, src: &[(&str, &str)]) -> Photo {
    let mut map = SrcMap::new();
    for (k, v) in src {
        map.insert((*k).to_owned(), (*v).to_owned());
    }
    Photo {
        id,
        width: Some(10),
        height: Some(10),
        url: Some(format!("https://www.pexels.com/photo/{id}/")),
        photographer: Some("Ada".to_owned()),
        src: map,
    }
}

pub fn response(photos: Vec<Photo>, page: u64, per_page: u64, total: Option<u64>) -> SearchResponse {
    SearchResponse { page: Some(page), per_page: Some(per_page), total_results: total, photos, next_page: None }
}

fn failure(action: Action) -> AppError {
    match action {
        Action::Fail(e) => e,
        _ => panic!("expected the command to fail"),
    }
}

fn auth_payload(action: Action) -> pexfetch::AuthStatusPayload {
    match action {
        Action::Emit(Output::AuthStatus(p)) => p,
        _ => panic!("expected an auth payload"),
    }
}

fn pairs(request: &HttpRequest) -> Vec<(String, String)> {
    request.query.clone()
}

fn has_pair(request: &HttpRequest, name: &str, value: &str) -> bool {
    pairs(request).iter().any(|(n, v)| n == name && v == value)
}

const CONFIG: &str = "/tmp/pexfetch-test/config.json";
const BASE: &str = "http://127.0.0.1:5000";

fn cli(command: Command) -> Cli {
    Cli { command }
}

#[test]
fn root_help_mentions_status_and_auth_flows() {
    let stdout = help_reply(&vec!["pexfetch".to_owned(), "--help".to_owned()]);

    assert!(stdout.contains("Authenticate, inspect config state, or remove saved credentials"));
    assert!(stdout.contains("Check configured auth and live API connectivity"));
    assert!(stdout.contains("Search Pexels photos and return JSON results"));
}

#[test]
fn status_help_mentions_api_connectivity_check() {
    let stdout = help_reply(&vec!["pexfetch".to_owned(), "status".to_owned(), "--help".to_owned()]);

    assert!(stdout.contains("Check configured auth and live API connectivity"));
    assert!(stdout.contains("Usage: pexfetch status"));
}

#[test]
fn auth_status_reports_missing_configuration() {
    let mut world = World::new();
    let payload = auth_payload(drive(
        &cli(Command::Auth { command: AuthCommand::Status }),
        &env_with_config(CONFIG),
        &mut world,
    ));

    assert_eq!(payload.configured, false);
    assert_eq!(payload.source, "none");
}

#[test]
fn search_times_out_when_api_is_slow() {
    let mut world = World::new();
    world.api = Box::new(|_, _| {
        Event::Failed(AppError::from_http(HttpFailure {
            timed_out: true,
            connect: false,
            text: "error sending request for url (http://127.0.0.1:5000/v1/search?query=slow): operation timed out".to_owned(),
        }))
    });
    let mut env = api_env(CONFIG, "test-key", BASE);
    env.http_timeout_ms = Some("300".to_owned());
    let error = failure(drive(&cli(Command::Search(search_args("slow"))), &env, &mut world));
    let stderr = error.to_string().to_lowercase();

    assert!(world.seen.iter().any(|s| s.ends_with("timeout 300")));
    assert!(error.exit_code() != 0);
    assert!(
        stderr.contains("timed out") || stderr.contains("timeout"),
        "expected timeout error, got: {stderr:?}"
    );
}

#[test]
fn download_fails_when_body_exceeds_limit() {
    let mut world = World::new();
    let download_url = format!("{BASE}/files/big.jpeg");
    let url = download_url.clone();
    world.api = Box::new(move |request, body| {
        assert_eq!(request.url, format!("{BASE}/v1/photos/1001"));
        assert!(*body == Body::Photo);
        Event::PhotoFound(photo(1001, &[("original", url.as_str())]))
    });
    world.downloads = Box::new(|_, max| {
        let body = "this body is way too big for the cap";
        let mut budget = DownloadBudget::new(max);
        budget.accept(body.len() as u64)?;
        Ok(body.to_owned())
    });
    let mut env = api_env(CONFIG, "test-key", BASE);
    env.download_max_bytes = Some("8".to_owned());
    let output_dir = "/tmp/pexfetch-test/downloads";
    let error = failure(drive(
        &cli(Command::Download(DownloadArgs {
            id: 1001,
            quality: Quality::Original,
            output_dir: output_dir.to_owned(),
        })),
        &env,
        &mut world,
    ));
    let stderr = error.to_string();

    assert!(stderr.contains("exceeds"), "expected size-limit error, got: {stderr:?}");
    let big_file = format!("{output_dir}/1001-original.jpeg");
    assert!(world.seen.iter().any(|s| s == &format!("download {download_url} to {big_file}")));
    assert!(
        !world.saved.contains_key(&big_file),
        "oversized download must not leave a partial file on disk"
    );
}

#[test]
fn search_maps_http_401_to_unauthorized_error() {
    let mut world = World::new();
    world.api = Box::new(|request, _| {
        Event::Failed(AppError::from_status(401, &request.url, &None, &None, &None).unwrap())
    });
    let error = failure(drive(
        &cli(Command::Search(search_args("x"))),
        &api_env(CONFIG, "bad-key", BASE),
        &mut world,
    ));
    let report = error.report();

    assert_eq!(error.exit_code(), 3);
    assert_eq!(report.kind, "unauthorized");
    assert!(report.message.to_lowercase().contains("401"));
}

#[test]
fn search_maps_http_429_to_rate_limited_error() {
    let mut world = World::new();
    world.api = Box::new(|request, _| {
        Event::Failed(
            AppError::from_status(
                429,
                &request.url,
                &None,
                &Some("0".to_owned()),
                &Some("9999999999".to_owned()),
            )
            .unwrap(),
        )
    });
    let error = failure(drive(
        &cli(Command::Search(search_args("x"))),
        &api_env(CONFIG, "test-key", BASE),
        &mut world,
    ));
    let report = error.report();

    assert_eq!(error.exit_code(), 6);
    assert_eq!(report.kind, "rate_limited");
    assert_eq!(report.remaining, Some(0));
    assert_eq!(report.reset_at, Some(9_999_999_999_u64));
}

#[test]
fn download_first_maps_empty_result_to_not_found() {
    let mut world = World::new();
    world.api = Box::new(|_, _| Event::Photos(response(Vec::new(), 1, 15, None)));
    let error = failure(drive(
        &cli(Command::DownloadFirst(DownloadFirstArgs {
            search: search_args("nothing"),
            quality: Quality::Original,
            output_dir: "/tmp/pexfetch-test/downloads".to_owned(),
        })),
        &api_env(CONFIG, "test-key", BASE),
        &mut world,
    ));
    let report = error.report();

    assert_eq!(error.exit_code(), 4);
    assert_eq!(report.kind, "not_found");
    assert!(report.message.contains("nothing"));
}

#[test]
fn download_missing_quality_in_photo_emits_available_list() {
    let mut world = World::new();
    world.api = Box::new(|_, _| {
        Event::PhotoFound(photo(
            1001,
            &[
                ("original", "https://example.test/1001.jpeg"),
                ("large2x", "https://example.test/1001-large2x.jpeg"),
            ],
        ))
    });
    let error = failure(drive(
        &cli(Command::Download(DownloadArgs {
            id: 1001,
            quality: Quality::Medium,
            output_dir: "/tmp/pexfetch-test/downloads".to_owned(),
        })),
        &api_env(CONFIG, "test-key", BASE),
        &mut world,
    ));
    let report = error.report();

    assert_eq!(error.exit_code(), 4);
    assert_eq!(report.kind, "invalid_quality");
    let available: Vec<String> = report.available_qualities.unwrap();
    assert!(available.contains(&"original".to_owned()));
    assert!(available.contains(&"large2x".to_owned()));
}

#[test]
fn missing_api_key_exits_with_auth_code() {
    let mut world = World::new();
    let error = failure(drive(
        &cli(Command::Search(search_args("x"))),
        &env_with_config(CONFIG),
        &mut world,
    ));

    assert_eq!(error.exit_code(), 3);
    assert_eq!(error.report().kind, "missing_credential");
}

#[test]
fn auth_status_gives_actionable_error_on_corrupt_config() {
    let mut world = World::new();
    world.corrupt.insert(CONFIG.to_owned(), "key must be a string at line 1 column 2".to_owned());
    let error = failure(drive(
        &cli(Command::Auth { command: AuthCommand::Status }),
        &env_with_config(CONFIG),
        &mut world,
    ));
    let message = error.report().message;

    assert_eq!(error.exit_code(), 1);
    assert!(message.contains(CONFIG), "error must name the corrupt path, got: {message:?}");
    assert!(message.contains("auth logout"), "error must suggest `auth logout`, got: {message:?}");
}

#[test]
fn search_reports_upstream_total_results() {
    let mut world = World::new();
    world.api = Box::new(|_, _| {
        Event::Photos(response(vec![photo(1, &[]), photo(2, &[])], 1, 2, Some(8000)))
    });
    let mut args = search_args("x");
    args.per_page = 2;
    let action = drive(&cli(Command::Search(args)), &api_env(CONFIG, "test-key", BASE), &mut world);

    match action {
        Action::Emit(Output::Search(p)) => assert_eq!(p.total_results, 8000),
        _ => panic!("expected a search payload"),
    }
}

#[test]
fn search_maps_http_403_to_forbidden() {
    let mut world = World::new();
    world.api = Box::new(|request, _| {
        Event::Failed(AppError::from_status(403, &request.url, &None, &None, &None).unwrap())
    });
    let error = failure(drive(
        &cli(Command::Search(search_args("x"))),
        &api_env(CONFIG, "no-scope", BASE),
        &mut world,
    ));

    assert_eq!(error.exit_code(), 3);
    assert_eq!(error.report().kind, "forbidden");
}

#[test]
fn search_surfaces_malformed_json_response() {
    let mut world = World::new();
    world.api = Box::new(|_, _| {
        Event::Failed(AppError::from_http(HttpFailure {
            timed_out: false,
            connect: false,
            text: "error decoding response body".to_owned(),
        }))
    });
    let error = failure(drive(
        &cli(Command::Search(search_args("x"))),
        &api_env(CONFIG, "test-key", BASE),
        &mut world,
    ));

    assert_eq!(error.exit_code(), 5);
    assert_eq!(error.report().kind, "http_error");
}

#[test]
fn env_api_key_wins_over_stored_config() {
    let mut world = World::new();
    world.files.insert(CONFIG.to_owned(), "stored-key".to_owned());
    let mut env = env_with_config(CONFIG);
    env.pexels_api_key = Some("env-key".to_owned());
    let payload = auth_payload(drive(&cli(Command::Auth { command: AuthCommand::Status }), &env, &mut world));

    assert_eq!(payload.configured, true);
    assert_eq!(payload.source, "env");
}

#[test]
fn xdg_config_home_is_used_when_config_path_unset() {
    let mut world = World::new();
    let mut env = env_with_config(CONFIG);
    env.config_path = None;
    env.xdg_config_home = Some("/tmp/xdg".to_owned());
    env.home = Some("/tmp/home".to_owned());
    let action = drive(
        &cli(Command::Auth { command: AuthCommand::Login { api_key: Some("xdg-key".to_owned()) } }),
        &env,
        &mut world,
    );
    assert!(matches!(action, Action::Emit(_)));

    let expected = "/tmp/xdg/pexfetch/config.json";
    assert!(world.files.contains_key(expected), "config must land at {}", expected);
    assert_eq!(world.files[expected], "xdg-key");
}

#[test]
fn auth_login_empty_stdin_fails_with_missing_credential() {
    let mut world = World::new();
    world.stdin = "\n".to_owned();
    let error = failure(drive(
        &cli(Command::Auth { command: AuthCommand::Login { api_key: None } }),
        &env_with_config(CONFIG),
        &mut world,
    ));

    assert_eq!(error.exit_code(), 3);
    assert_eq!(error.report().kind, "missing_credential");
}

#[test]
fn auth_logout_without_saved_config_reports_removed_false() {
    let mut world = World::new();
    let payload = auth_payload(drive(
        &cli(Command::Auth { command: AuthCommand::Logout }),
        &env_with_config(CONFIG),
        &mut world,
    ));

    assert_eq!(payload.configured, false);
    assert_eq!(payload.removed, Some(false));
}

#[test]
fn auth_status_treats_whitespace_config_key_as_unconfigured() {
    let mut world = World::new();
    world.files.insert(CONFIG.to_owned(), "   ".to_owned());
    let payload = auth_payload(drive(
        &cli(Command::Auth { command: AuthCommand::Status }),
        &env_with_config(CONFIG),
        &mut world,
    ));

    assert_eq!(payload.configured, false);
    assert_eq!(payload.source, "none");
}

#[test]
fn auth_login_overwrites_existing_config() {
    let mut world = World::new();
    let env = env_with_config(CONFIG);
    let first = drive(
        &cli(Command::Auth { command: AuthCommand::Login { api_key: Some("first".to_owned()) } }),
        &env,
        &mut world,
    );
    assert!(matches!(first, Action::Emit(_)));
    let second = drive(
        &cli(Command::Auth { command: AuthCommand::Login { api_key: Some("second".to_owned()) } }),
        &env,
        &mut world,
    );
    assert!(matches!(second, Action::Emit(_)));

    assert_eq!(world.files[CONFIG], "second");
}

#[test]
fn search_rejects_non_https_api_base() {
    let mut world = World::new();
    let error = failure(drive(
        &cli(Command::Search(search_args("mountains"))),
        &api_env(CONFIG, "test-key", "http://evil.example.com"),
        &mut world,
    ));
    let stderr = error.to_string();

    assert!(stderr.contains("https"), "error must mention https, got: {stderr:?}");
    assert!(stderr.contains("PEXFETCH_API_BASE"), "error must name the env var, got: {stderr:?}");
}

#[test]
fn auth_login_with_cli_flag_prints_security_warning() {
    let mut world = World::new();
    let action = drive(
        &cli(Command::Auth { command: AuthCommand::Login { api_key: Some("pexels-secret".to_owned()) } }),
        &env_with_config(CONFIG),
        &mut world,
    );
    assert!(matches!(action, Action::Emit(_)));
    let stderr = world.stderr.join("\n");

    assert!(stderr.to_lowercase().contains("warning"), "expected stderr to contain a warning, got: {stderr:?}");
    assert!(stderr.contains("--api-key"), "warning must name the --api-key flag, got: {stderr:?}");
    assert!(
        stderr.contains("ps") || stderr.contains("shell history"),
        "warning must mention ps/shell-history leak, got: {stderr:?}"
    );
}

#[test]
fn auth_login_saves_key_to_config() {
    let mut world = World::new();
    let payload = auth_payload(drive(
        &cli(Command::Auth { command: AuthCommand::Login { api_key: Some("pexels-secret".to_owned()) } }),
        &env_with_config(CONFIG),
        &mut world,
    ));

    assert_eq!(payload.configured, true);
    assert_eq!(payload.source, "config");
    assert_eq!(world.files[CONFIG], "pexels-secret");
}

#[test]
fn auth_login_without_api_key_prints_link_and_reads_token_from_stdin() {
    let mut world = World::new();
    world.stdin = "pexels-secret\n".to_owned();
    let payload = auth_payload(drive(
        &cli(Command::Auth { command: AuthCommand::Login { api_key: None } }),
        &env_with_config(CONFIG),
        &mut world,
    ));
    let stderr = world.stderr.join("\n");

    assert_eq!(payload.configured, true);
    assert_eq!(payload.source, "config");
    assert!(stderr.contains("https://www.pexels.com/api/key/"));
    assert!(stderr.contains("Pexels API key:"));
    assert_eq!(world.files[CONFIG], "pexels-secret");
}

#[test]
fn auth_logout_removes_saved_config() {
    let mut world = World::new();
    world.files.insert(CONFIG.to_owned(), "pexels-secret".to_owned());
    let payload = auth_payload(drive(
        &cli(Command::Auth { command: AuthCommand::Logout }),
        &env_with_config(CONFIG),
        &mut world,
    ));

    assert_eq!(payload.configured, false);
    assert_eq!(payload.removed, Some(true));
    assert!(!world.files.contains_key(CONFIG));
}

#[test]
fn status_reports_missing_api_key_without_failing() {
    let mut world = World::new();
    let action = drive(&cli(Command::Status), &env_with_config(CONFIG), &mut world);

    match action {
        Action::Emit(Output::Status(payload)) => {
            assert_eq!(payload.configured, false);
            assert_eq!(payload.source, "none");
            assert_eq!(payload.api_reachable, false);
            assert!(payload.api_error.unwrap().contains("PEXELS_API_KEY is not set"));
        }
        _ => panic!("expected a status payload"),
    }
}

#[test]
fn status_checks_api_connectivity() {
    let mut world = World::new();
    world.probe = Box::new(|request| {
        assert_eq!(request.url, format!("{BASE}/v1/search"));
        assert_eq!(request.authorization.as_deref(), Some("test-key"));
        assert!(has_pair(request, "query", "status"));
        assert!(has_pair(request, "page", "1"));
        assert!(has_pair(request, "per_page", "1"));
        Ok(())
    });
    let action = drive(&cli(Command::Status), &api_env(CONFIG, "test-key", BASE), &mut world);

    assert!(world.seen.iter().any(|s| s.starts_with("probe")));
    match action {
        Action::Emit(Output::Status(payload)) => {
            assert_eq!(payload.configured, true);
            assert_eq!(payload.source, "env");
            assert_eq!(payload.api_reachable, true);
            assert_eq!(payload.api_error, None);
            assert_eq!(payload.api_base, BASE);
        }
        _ => panic!("expected a status payload"),
    }
}

#[test]
fn search_prints_machine_readable_json() {
    let mut world = World::new();
    world.api = Box::new(|request, body| {
        assert!(*body == Body::Photos);
        assert_eq!(request.url, format!("{BASE}/v1/search"));
        assert_eq!(request.authorization.as_deref(), Some("test-key"));
        for (n, v) in [
            ("query", "mountains"),
            ("page", "1"),
            ("per_page", "2"),
            ("orientation", "landscape"),
            ("size", "large"),
            ("color", "blue"),
        ] {
            assert!(has_pair(request, n, v), "missing {n}={v}");
        }
        let mut first = photo(
            1001,
            &[
                ("original", "https://images.pexels.com/photos/1001/original.jpeg"),
                ("large2x", "https://images.pexels.com/photos/1001/large2x.jpeg"),
            ],
        );
        first.width = Some(4000);
        first.height = Some(3000);
        let second = photo(
            1002,
            &[
                ("original", "https://images.pexels.com/photos/1002/original.jpeg"),
                ("large2x", "https://images.pexels.com/photos/1002/large2x.jpeg"),
            ],
        );
        let mut resp = response(vec![first, second], 1, 2, None);
        resp.next_page = Some("https://api.pexels.com/v1/search?page=2".to_owned());
        Event::Photos(resp)
    });
    let mut args = search_args("mountains");
    args.orientation = Some("landscape".to_owned());
    args.size = Some("large".to_owned());
    args.color = Some("blue".to_owned());
    args.per_page = 2;
    let action = drive(&cli(Command::Search(args)), &api_env(CONFIG, "test-key", BASE), &mut world);

    match action {
        Action::Emit(Output::Search(payload)) => {
            assert_eq!(payload.query, "mountains");
            assert_eq!(payload.total_results, 2);
            assert_eq!(payload.photos[0].id, 1001);
        }
        _ => panic!("expected a search payload"),
    }
}

#[test]
fn download_by_id_fetches_photo_and_saves_selected_quality() {
    let mut world = World::new();
    let download_url = format!("{BASE}/files/1001-large2x.jpeg");
    let url = download_url.clone();
    world.api = Box::new(move |request, _| {
        assert_eq!(request.url, format!("{BASE}/v1/photos/1001"));
        assert_eq!(request.authorization.as_deref(), Some("test-key"));
        let original = format!("{BASE}/files/1001-original.jpeg");
        Event::PhotoFound(photo(1001, &[("original", original.as_str()), ("large2x", url.as_str())]))
    });
    let expected = download_url.clone();
    world.downloads = Box::new(move |request, _| {
        assert_eq!(request.url, expected);
        assert_eq!(request.authorization, None);
        Ok("image-bytes".to_owned())
    });
    let action = drive(
        &cli(Command::Download(DownloadArgs {
            id: 1001,
            quality: Quality::Large2x,
            output_dir: "/tmp/pexfetch-test/downloads".to_owned(),
        })),
        &api_env(CONFIG, "test-key", BASE),
        &mut world,
    );

    match action {
        Action::Emit(Output::Download(payload)) => {
            assert_eq!(payload.photo_id, 1001);
            let saved_to = payload.saved_to.as_str();
            assert!(saved_to.ends_with("1001-large2x.jpeg"));
            assert_eq!(world.saved[saved_to], "image-bytes");
        }
        _ => panic!("expected a download payload"),
    }
}

#[test]
fn download_first_searches_then_downloads_first_match() {
    let mut world = World::new();
    let download_url = format!("{BASE}/files/1001-original.jpeg");
    let url = download_url.clone();
    world.api = Box::new(move |request, _| {
        assert_eq!(request.url, format!("{BASE}/v1/search"));
        assert_eq!(request.authorization.as_deref(), Some("test-key"));
        assert!(has_pair(request, "query", "mountains"));
        assert!(has_pair(request, "page", "1"));
        assert!(has_pair(request, "per_page", "15"));
        let large = format!("{BASE}/files/1001-large2x.jpeg");
        Event::Photos(response(
            vec![photo(1001, &[("original", url.as_str()), ("large2x", large.as_str())])],
            1,
            15,
            None,
        ))
    });
    world.downloads = Box::new(move |request, _| {
        assert_eq!(request.url, download_url);
        Ok("first-image".to_owned())
    });
    let action = drive(
        &cli(Command::DownloadFirst(DownloadFirstArgs {
            search: search_args("mountains"),
            quality: Quality::Original,
            output_dir: "/tmp/pexfetch-test/downloads".to_owned(),
        })),
        &api_env(CONFIG, "test-key", BASE),
        &mut world,
    );

    match action {
        Action::Emit(Output::Download(payload)) => {
            assert_eq!(payload.photo_id, 1001);
            assert_eq!(payload.query.as_deref(), Some("mountains"));
            assert_eq!(world.saved[payload.saved_to.as_str()], "first-image");
        }
        _ => panic!("expected a download payload"),
    }
}
