//! Running a command as a sequence of steps. Each step takes the state and
//! what the last action gave (an [`Event`]) and returns the next state and
//! the next [`Action`]: reading or writing the config file, prompting,
//! sending a request, downloading, or finishing with a payload or an
//! error. The caller performs the actions; every decision is made here.

use vstd::prelude::*;

use crate::auth::{
    auth_choice, auth_status_payload, build_client, config_path, config_path_spec, load_stored_api_key,
    login_payload, prompted_api_key, prompted_key_spec, resolve_auth_state, stored_key_spec, AuthState,
    StoredConfig,
};
use crate::cli::{AuthCommand, Cli, Command, SearchArgs, VideoCommand, VideoSearchArgs};
use crate::client::{
    api_request_spec, client_spec, connection_query_spec, download_request_spec, optional_pair,
    search_request, video_search_request, ClientView, HttpRequest, PexelsClient, RequestView,
};
use crate::error::{message_of, AppError, ErrorView};
use crate::models::{
    DownloadPayload, Photo, SearchResponse, Video, VideoDownloadPayload, VideosSearchResponse,
};
use crate::models::{AuthStatusPayload, SearchPayload, StatusPayload, VideoSearchPayload};
use crate::payloads::{or_else, search_payload, shown_api_base, status_payload, video_search_payload};
use crate::quality::{
    build_destination, build_video_destination, destination_for, has_quality, is_best_file,
    pick_video_file_by_id, pick_video_file_by_quality, quality_key, quality_present, quality_url,
    strictly_sorted, video_destination_for, video_quality_key, Quality, VideoQuality,
};
use crate::srcmap::{keys_of, lookup};
use crate::text::{decimal, opt_string_view, owned, push_str, trim, trim_owned, views};

verus! {

/// The warning printed when the key is given on the command line.
pub const LOGIN_FLAG_WARNING: &'static str = "warning: --api-key is visible in `ps` and shell history; prefer PEXELS_API_KEY env or interactive stdin";

/// Where to get an API key.
pub const PEXELS_API_KEY_URL: &'static str = "https://www.pexels.com/api/key/";

/// The prompt for the key.
pub const API_KEY_PROMPT: &'static str = "Pexels API key: ";

/// The environment variables that commands read (their values, when set).
pub struct Env {
    pub pexels_api_key: Option<String>,
    pub api_base: Option<String>,
    pub http_timeout_ms: Option<String>,
    pub download_max_bytes: Option<String>,
    pub config_path: Option<String>,
    pub xdg_config_home: Option<String>,
    pub home: Option<String>,
}

/// What a request's body is expected to hold.
#[derive(PartialEq, Eq, Structural)]
pub enum Body {
    Photos,
    Photo,
    Videos,
    Video,
}

/// A payload to print on stdout.
pub enum Output {
    AuthStatus(AuthStatusPayload),
    Status(StatusPayload),
    Search(SearchPayload),
    Download(DownloadPayload),
    VideoSearch(VideoSearchPayload),
    VideoDownload(VideoDownloadPayload),
}

/// What the caller does next.
pub enum Action {
    /// Read the config file; answer [`Event::ConfigLoaded`].
    LoadConfig { path: String },
    /// Write the key to the config file; answer [`Event::ConfigSaved`].
    SaveConfig { path: String, api_key: String },
    /// Delete the config file; answer [`Event::ConfigRemoved`].
    RemoveConfig { path: String },
    /// Print a line on stderr; answer [`Event::Warned`].
    Warn { text: String },
    /// Print the lines on stderr, then read a secret after the prompt;
    /// answer [`Event::Prompted`].
    Prompt { lines: Vec<String>, prompt: String },
    /// Send the request and read its body; answer with the event for the
    /// body.
    Fetch { request: HttpRequest, body: Body, timeout_ms: u64 },
    /// Send the request and report whether it succeeded; answer
    /// [`Event::Probed`].
    Probe { request: HttpRequest, timeout_ms: u64 },
    /// Send the request and save the body to the destination, stopping at
    /// the size cap; answer [`Event::Downloaded`].
    Download { request: HttpRequest, destination: String, timeout_ms: u64, max_bytes: u64 },
    /// Print the payload; the command succeeded.
    Emit(Output),
    /// Report the error; the command failed.
    Fail(AppError),
}

/// What the last action gave.
pub enum Event {
    Start,
    ConfigLoaded(StoredConfig),
    ConfigSaved,
    ConfigRemoved(bool),
    Warned,
    Prompted(String),
    Photos(SearchResponse),
    PhotoFound(Photo),
    Videos(VideosSearchResponse),
    VideoFound(Video),
    Probed(Result<(), AppError>),
    Downloaded,
    Failed(AppError),
}

/// Where a command stands.
pub enum State {
    Begin,
    Resolving { config_path: String, removed: Option<bool> },
    Removing { config_path: String },
    Warning { api_key: String },
    Prompting,
    Saving { config_path: String },
    Probing { auth: AuthState },
    Requesting { client: PexelsClient },
    Downloading { output: Output },
    Done,
}

/// The lines printed before the key prompt.
pub open spec fn prompt_lines_spec() -> Seq<Seq<char>> {
    seq!["Open this page to get your Pexels API key:"@, PEXELS_API_KEY_URL@, "Paste the API key below and press Enter."@]
}

/// The config path from the environment.
pub open spec fn env_config_path(env: Env) -> Result<Seq<char>, ErrorView> {
    config_path_spec(opt_string_view(env.config_path), opt_string_view(env.xdg_config_home), opt_string_view(env.home))
}

/// The client for a key from the environment.
pub open spec fn env_client(env: Env, key: Option<Seq<char>>) -> Result<ClientView, ErrorView> {
    client_spec(key, opt_string_view(env.api_base), opt_string_view(env.http_timeout_ms), opt_string_view(env.download_max_bytes))
}

/// The query string of a photo search for its arguments.
pub open spec fn search_pairs(a: SearchArgs) -> Seq<(Seq<char>, Seq<char>)> {
    seq![("query"@, a.query@), ("page"@, decimal(a.page as nat)), ("per_page"@, decimal(a.per_page as nat))]
        + optional_pair("orientation"@, opt_string_view(a.orientation))
        + optional_pair("size"@, opt_string_view(a.size))
        + optional_pair("color"@, opt_string_view(a.color))
        + optional_pair("locale"@, opt_string_view(a.locale))
}

/// The query string of a video search for its arguments.
pub open spec fn video_search_pairs(a: VideoSearchArgs) -> Seq<(Seq<char>, Seq<char>)> {
    seq![("query"@, a.query@), ("page"@, decimal(a.page as nat)), ("per_page"@, decimal(a.per_page as nat))]
        + optional_pair("orientation"@, opt_string_view(a.orientation))
        + optional_pair("size"@, opt_string_view(a.size))
        + optional_pair("locale"@, opt_string_view(a.locale))
}

/// The step ends the command with the error.
pub open spec fn fails_with(r: (State, Action), e: ErrorView) -> bool {
    r.0 is Done && (r.1 matches Action::Fail(x) && x@ == e)
}

/// The step ends the command with an error.
pub open spec fn fails(r: (State, Action)) -> bool {
    r.0 is Done && r.1 is Fail
}

/// The step sends an API request (or fails to build it) and waits for a
/// body of the given kind.
pub open spec fn fetches(r: (State, Action), c: ClientView, req: Result<RequestView, ErrorView>, body: Body) -> bool {
    match req {
        Err(e) => fails_with(r, e),
        Ok(q) => {
            &&& r.0 matches State::Requesting { client } && client@ == c
            &&& r.1 matches Action::Fetch { request, body: b, timeout_ms } && request@ == q && b == body
                && timeout_ms == c.http_timeout_ms
        },
    }
}

/// The step prints the `auth` payload.
pub open spec fn emits_auth(r: (State, Action), path: Seq<char>, configured: bool, source: Seq<char>, removed: Option<bool>) -> bool {
    r.0 is Done && (r.1 matches Action::Emit(Output::AuthStatus(a)) && a.config_path@ == path
        && a.configured == configured && a.source@ == source && a.removed == removed)
}

/// The step prints the `status` payload.
pub open spec fn emits_status(
    r: (State, Action),
    path: Seq<char>,
    configured: bool,
    source: Seq<char>,
    api_base: Seq<char>,
    error: Option<Seq<char>>,
) -> bool {
    r.0 is Done && (r.1 matches Action::Emit(Output::Status(s)) && s.api_base@ == api_base
        && s.api_reachable == error.is_none() && opt_string_view(s.api_error) == error
        && s.config_path@ == path && s.configured == configured && s.source@ == source)
}

/// The step saves the key to the config file.
pub open spec fn saves(r: (State, Action), env: Env, key: Seq<char>) -> bool {
    match env_config_path(env) {
        Err(e) => fails_with(r, e),
        Ok(p) => {
            &&& r.0 matches State::Saving { config_path } && config_path@ == p
            &&& r.1 matches Action::SaveConfig { path, api_key } && path@ == p && api_key@ == key
        },
    }
}

/// The step reads the config file at the resolved path.
pub open spec fn loads(r: (State, Action), p: Seq<char>, removed: Option<bool>) -> bool {
    &&& r.0 matches State::Resolving { config_path, removed: rm } && config_path@ == p && rm == removed
    &&& r.1 matches Action::LoadConfig { path } && path@ == p
}

/// The first step of a command.
pub open spec fn start_spec(cmd: Command, env: Env, r: (State, Action)) -> bool {
    match cmd {
        Command::Auth { command: AuthCommand::Login { api_key: Some(k) } } => {
            &&& r.0 matches State::Warning { api_key } && api_key@ == trim(k@)
            &&& r.1 matches Action::Warn { text } && text@ == LOGIN_FLAG_WARNING@
        },
        Command::Auth { command: AuthCommand::Login { api_key: None } } => {
            &&& r.0 is Prompting
            &&& r.1 matches Action::Prompt { lines, prompt } && views(lines@) == prompt_lines_spec()
                && prompt@ == API_KEY_PROMPT@
        },
        Command::Auth { command: AuthCommand::Logout } => match env_config_path(env) {
            Err(e) => fails_with(r, e),
            Ok(p) => {
                &&& r.0 matches State::Removing { config_path } && config_path@ == p
                &&& r.1 matches Action::RemoveConfig { path } && path@ == p
            },
        },
        _ => match env_config_path(env) {
            Err(e) => fails_with(r, e),
            Ok(p) => loads(r, p, None),
        },
    }
}

/// The step once the credential is known.
pub open spec fn authenticated_spec(
    cmd: Command,
    env: Env,
    p: Seq<char>,
    key: Option<Seq<char>>,
    source: Seq<char>,
    removed: Option<bool>,
    r: (State, Action),
) -> bool {
    match cmd {
        Command::Auth { .. } => emits_auth(r, p, key.is_some(), source, removed),
        Command::Status => {
            let shown = shown_api_base(opt_string_view(env.api_base));
            match env_client(env, key) {
                Err(e) => emits_status(r, p, key.is_some(), source, shown, Some(message_of(e))),
                Ok(c) => match api_request_spec(c, "/v1/search"@, connection_query_spec()) {
                    Err(e) => emits_status(r, p, key.is_some(), source, shown, Some(message_of(e))),
                    Ok(q) => {
                        &&& r.0 matches State::Probing { auth } && auth.config_path@ == p
                            && opt_string_view(auth.api_key) == key && auth.configured == key.is_some()
                            && auth.source@ == source
                        &&& r.1 matches Action::Probe { request, timeout_ms } && request@ == q
                            && timeout_ms == c.http_timeout_ms
                    },
                },
            }
        },
        _ => match env_client(env, key) {
            Err(e) => fails_with(r, e),
            Ok(c) => match cmd {
                Command::Search(a) => fetches(r, c, api_request_spec(c, "/v1/search"@, search_pairs(a)), Body::Photos),
                Command::Download(a) => fetches(
                    r,
                    c,
                    api_request_spec(c, "/v1/photos/"@ + decimal(a.id as nat), Seq::empty()),
                    Body::Photo,
                ),
                Command::DownloadFirst(a) => fetches(r, c, api_request_spec(c, "/v1/search"@, search_pairs(a.search)), Body::Photos),
                Command::Videos { command: VideoCommand::Search(a) } => fetches(
                    r,
                    c,
                    api_request_spec(c, "/v1/videos/search"@, video_search_pairs(a)),
                    Body::Videos,
                ),
                Command::Videos { command: VideoCommand::Download(a) } => fetches(
                    r,
                    c,
                    api_request_spec(c, "/v1/videos/videos/"@ + decimal(a.id as nat), Seq::empty()),
                    Body::Video,
                ),
                Command::Videos { command: VideoCommand::DownloadFirst(a) } => fetches(
                    r,
                    c,
                    api_request_spec(c, "/v1/videos/search"@, video_search_pairs(a.search)),
                    Body::Videos,
                ),
                _ => true,
            },
        },
    }
}

/// The step once the config file was read at `p`.
pub open spec fn loaded_spec(cmd: Command, env: Env, p: Seq<char>, removed: Option<bool>, stored: StoredConfig, r: (State, Action)) -> bool {
    match stored_key_spec(p, stored) {
        Err(e) => fails_with(r, e),
        Ok(k) => {
            let (key, source) = auth_choice(opt_string_view(env.pexels_api_key), k);
            authenticated_spec(cmd, env, p, key, source, removed, r)
        },
    }
}

/// The step that downloads the chosen quality of a photo.
pub open spec fn photo_step_spec(
    r: (State, Action),
    c: ClientView,
    photo: Photo,
    quality: Quality,
    dir: Seq<char>,
    query: Option<Seq<char>>,
) -> bool {
    match lookup(photo.src@, quality_key(quality)) {
        None => fails_with(
            r,
            ErrorView::InvalidQuality { quality: quality_key(quality), available: keys_of(photo.src@) },
        ),
        Some(u) => {
            let d = destination_for(dir, photo.id, quality, u);
            &&& r.0 matches State::Downloading { output } && output matches Output::Download(p)
                && p.photo_id == photo.id && p.quality@ == quality_key(quality)
                && opt_string_view(p.query) == query && p.saved_to@ == d && p.source_url@ == u
            &&& r.1 matches Action::Download { request, destination, timeout_ms, max_bytes }
                && request@ == download_request_spec(u) && destination@ == d
                && timeout_ms == c.http_timeout_ms && max_bytes == c.download_max_bytes
        },
    }
}

/// The step that downloads a chosen video file.
pub open spec fn video_download_spec(
    r: (State, Action),
    c: ClientView,
    video: Video,
    i: int,
    dir: Seq<char>,
    query: Option<Seq<char>>,
) -> bool {
    let f = video.video_files@[i];
    let d = video_destination_for(dir, video.id, f.id, opt_string_view(f.file_type));
    &&& r.0 matches State::Downloading { output } && output matches Output::VideoDownload(p)
        && p.video_id == video.id && p.video_file_id == f.id
        && opt_string_view(p.quality) == opt_string_view(f.quality)
        && opt_string_view(p.file_type) == opt_string_view(f.file_type)
        && opt_string_view(p.query) == query && p.saved_to@ == d && p.source_url@ == f.link@
    &&& r.1 matches Action::Download { request, destination, timeout_ms, max_bytes }
        && request@ == download_request_spec(f.link@) && destination@ == d
        && timeout_ms == c.http_timeout_ms && max_bytes == c.download_max_bytes
}

/// The step that picks a file of a video, by id when one is given and by
/// quality otherwise, and downloads it.
pub open spec fn video_step_spec(
    r: (State, Action),
    c: ClientView,
    video: Video,
    quality: VideoQuality,
    file_id: Option<u64>,
    dir: Seq<char>,
    query: Option<Seq<char>>,
) -> bool {
    let files = video.video_files@;
    match file_id {
        Some(id) => if forall|i: int| 0 <= i < files.len() ==> #[trigger] files[i].id != id {
            fails_with(r, ErrorView::NotFound(
                "video "@ + decimal(video.id as nat) + " has no file with id "@ + decimal(id as nat),
            ))
        } else {
            exists|i: int|
                0 <= i < files.len() && files[i].id == id
                    && (forall|j: int| 0 <= j < i ==> #[trigger] files[j].id != id)
                    && video_download_spec(r, c, video, i, dir, query)
        },
        None => {
            let key = video_quality_key(quality);
            if forall|i: int| 0 <= i < files.len() ==> !has_quality(#[trigger] files[i], key) {
                &&& fails(r)
                &&& r.1 matches Action::Fail(e) && e@ is InvalidQuality && e@->quality == key
                    && strictly_sorted(e@->available)
                    && forall|q: Seq<char>| #[trigger] e@->available.contains(q) <==> quality_present(files, q)
            } else {
                exists|i: int| is_best_file(files, key, i) && video_download_spec(r, c, video, i, dir, query)
            }
        },
    }
}

/// The step once a search came back.
pub open spec fn photos_spec(cmd: Command, c: ClientView, resp: SearchResponse, r: (State, Action)) -> bool {
    match cmd {
        Command::Search(a) => r.0 is Done && (r.1 matches Action::Emit(Output::Search(p))
            && p.photos == resp.photos && p.next_page == resp.next_page
            && p.page == or_else(resp.page, a.page) && p.per_page == or_else(resp.per_page, a.per_page)
            && p.total_results == or_else(resp.total_results, resp.photos@.len() as u64)
            && p.query@ == a.query@),
        Command::DownloadFirst(a) => if resp.photos@.len() == 0 {
            fails_with(r, ErrorView::NotFound("No "@ + "photos"@ + " found for query '"@ + a.search.query@ + "'"@))
        } else {
            photo_step_spec(r, c, resp.photos@[0], a.quality, a.output_dir@, Some(a.search.query@))
        },
        _ => fails(r),
    }
}

/// The step once a video search came back.
pub open spec fn videos_spec(cmd: Command, c: ClientView, resp: VideosSearchResponse, r: (State, Action)) -> bool {
    match cmd {
        Command::Videos { command: VideoCommand::Search(a) } => r.0 is Done && (r.1 matches Action::Emit(
            Output::VideoSearch(p),
        ) && p.videos == resp.videos && p.next_page == resp.next_page && p.prev_page == resp.prev_page
            && p.page == or_else(resp.page, a.page) && p.per_page == or_else(resp.per_page, a.per_page)
            && p.total_results == or_else(resp.total_results, resp.videos@.len() as u64)
            && p.query@ == a.query@),
        Command::Videos { command: VideoCommand::DownloadFirst(a) } => if resp.videos@.len() == 0 {
            fails_with(r, ErrorView::NotFound("No "@ + "videos"@ + " found for query '"@ + a.search.query@ + "'"@))
        } else {
            video_step_spec(r, c, resp.videos@[0], a.quality, a.video_file_id, a.output_dir@, Some(a.search.query@))
        },
        _ => fails(r),
    }
}

/// One step of a command: what follows each state on the event it waits
/// for. A failed action ends the command with its error; an event that the
/// state does not wait for ends it with an error too.
pub open spec fn step_spec(cmd: Command, env: Env, state: State, event: Event, r: (State, Action)) -> bool {
    match event {
        Event::Failed(e) => fails_with(r, e@),
        _ => match state {
            State::Begin => if event is Start {
                start_spec(cmd, env, r)
            } else {
                fails(r)
            },
            State::Resolving { config_path, removed } => match event {
                Event::ConfigLoaded(stored) => loaded_spec(cmd, env, config_path@, removed, stored, r),
                _ => fails(r),
            },
            State::Removing { config_path } => match event {
                Event::ConfigRemoved(b) => loads(r, config_path@, Some(b)),
                _ => fails(r),
            },
            State::Warning { api_key } => if event is Warned {
                saves(r, env, api_key@)
            } else {
                fails(r)
            },
            State::Prompting => match event {
                Event::Prompted(answer) => match prompted_key_spec(answer@) {
                    Err(e) => fails_with(r, e),
                    Ok(k) => saves(r, env, k),
                },
                _ => fails(r),
            },
            State::Saving { config_path } => if event is ConfigSaved {
                emits_auth(r, config_path@, true, "config"@, None)
            } else {
                fails(r)
            },
            State::Probing { auth } => match event {
                Event::Probed(res) => emits_status(
                    r,
                    auth.config_path@,
                    auth.configured,
                    auth.source@,
                    shown_api_base(opt_string_view(env.api_base)),
                    match res {
                        Ok(_) => None,
                        Err(e) => Some(message_of(e@)),
                    },
                ),
                _ => fails(r),
            },
            State::Requesting { client } => match event {
                Event::Photos(resp) => photos_spec(cmd, client@, resp, r),
                Event::PhotoFound(photo) => match cmd {
                    Command::Download(a) => photo_step_spec(r, client@, photo, a.quality, a.output_dir@, None),
                    _ => fails(r),
                },
                Event::Videos(resp) => videos_spec(cmd, client@, resp, r),
                Event::VideoFound(video) => match cmd {
                    Command::Videos { command: VideoCommand::Download(a) } => video_step_spec(
                        r,
                        client@,
                        video,
                        a.quality,
                        a.video_file_id,
                        a.output_dir@,
                        None,
                    ),
                    _ => fails(r),
                },
                _ => fails(r),
            },
            State::Downloading { output } => if event is Downloaded {
                r.0 is Done && r.1 == Action::Emit(output)
            } else {
                fails(r)
            },
            State::Done => fails(r),
        },
    }
}

fn fail(e: AppError) -> (r: (State, Action))
    ensures
        fails_with(r, e@),
{
    (State::Done, Action::Fail(e))
}

fn unexpected() -> (r: (State, Action))
    ensures
        fails(r),
{
    fail(AppError::Message(owned("unexpected step in command")))
}

fn clone_opt(o: &Option<String>) -> (r: Option<String>)
    ensures
        opt_string_view(r) == opt_string_view(*o),
{
    match o {
        Some(s) => Some(s.clone()),
        None => None,
    }
}

fn env_path(env: &Env) -> (r: Result<String, AppError>)
    ensures
        match r {
            Ok(p) => env_config_path(*env) == Ok::<Seq<char>, ErrorView>(p@),
            Err(e) => env_config_path(*env) == Err::<Seq<char>, ErrorView>(e@),
        },
{
    config_path(&env.config_path, &env.xdg_config_home, &env.home)
}

fn load_step(env: &Env, removed: Option<bool>) -> (r: (State, Action))
    ensures
        match env_config_path(*env) {
            Err(e) => fails_with(r, e),
            Ok(p) => loads(r, p, removed),
        },
{
    match env_path(env) {
        Err(e) => fail(e),
        Ok(p) => {
            let path = p.clone();
            (State::Resolving { config_path: p, removed }, Action::LoadConfig { path })
        },
    }
}

fn save_step(env: &Env, api_key: String) -> (r: (State, Action))
    ensures
        saves(r, *env, api_key@),
{
    match env_path(env) {
        Err(e) => fail(e),
        Ok(p) => {
            let path = p.clone();
            (State::Saving { config_path: p }, Action::SaveConfig { path, api_key })
        },
    }
}

fn resolve(env: &Env, path: &String, stored: StoredConfig) -> (r: Result<AuthState, AppError>)
    ensures
        match stored_key_spec(path@, stored) {
            Err(e) => r matches Err(x) && x@ == e,
            Ok(k) => r matches Ok(a) && {
                let (key, source) = auth_choice(opt_string_view(env.pexels_api_key), k);
                &&& a.config_path@ == path@
                &&& opt_string_view(a.api_key) == key
                &&& a.configured == key.is_some()
                &&& a.source@ == source
            },
        },
{
    let stored_key = load_stored_api_key(path.as_str(), stored);
    resolve_auth_state(Ok(path.clone()), &env.pexels_api_key, stored_key)
}

fn fetch_step(client: PexelsClient, request: Result<HttpRequest, AppError>, body: Body) -> (r: (State, Action))
    ensures
        fetches(r, client@, match request {
            Ok(q) => Ok(q@),
            Err(e) => Err(e@),
        }, body),
{
    match request {
        Err(e) => fail(e),
        Ok(request) => {
            let timeout_ms = client.http_timeout_ms();
            (State::Requesting { client }, Action::Fetch { request, body, timeout_ms })
        },
    }
}

fn photo_step(client: PexelsClient, photo: Photo, quality: Quality, dir: &str, query: Option<String>) -> (r: (
    State,
    Action,
))
    ensures
        photo_step_spec(r, client@, photo, quality, dir@, opt_string_view(query)),
{
    let source_url = match quality_url(&photo, quality) {
        Ok(u) => u,
        Err(e) => return fail(e),
    };
    let destination = match build_destination(dir, photo.id, quality, source_url.as_str()) {
        Ok(d) => d,
        Err(e) => return fail(e),
    };
    let request = client.download_file(source_url.as_str());
    let payload = DownloadPayload {
        photo_id: photo.id,
        quality: owned(quality.as_key()),
        query,
        saved_to: destination.clone(),
        source_url,
    };
    (
        State::Downloading { output: Output::Download(payload) },
        Action::Download {
            request,
            destination,
            timeout_ms: client.http_timeout_ms(),
            max_bytes: client.download_max_bytes(),
        },
    )
}

fn video_step(
    client: PexelsClient,
    video: Video,
    quality: VideoQuality,
    file_id: Option<u64>,
    dir: &str,
    query: Option<String>,
) -> (r: (State, Action))
    ensures
        video_step_spec(r, client@, video, quality, file_id, dir@, opt_string_view(query)),
{
    let picked = match file_id {
        Some(id) => pick_video_file_by_id(&video, id),
        None => pick_video_file_by_quality(&video, quality),
    };
    let file = match picked {
        Ok(f) => f,
        Err(e) => return fail(e),
    };
    let ghost i = match file_id {
        Some(id) => choose|i: int|
            0 <= i < video.video_files@.len() && video.video_files@[i].id == id
                && (forall|j: int| 0 <= j < i ==> #[trigger] video.video_files@[j].id != id)
                && *file == video.video_files@[i],
        None => choose|i: int|
            is_best_file(video.video_files@, video_quality_key(quality), i) && *file == video.video_files@[i],
    };
    let file_type = match &file.file_type {
        Some(t) => Some(t.as_str()),
        None => None,
    };
    let destination = build_video_destination(dir, video.id, file.id, file_type);
    let request = client.download_file(file.link.as_str());
    let payload = VideoDownloadPayload {
        video_id: video.id,
        video_file_id: file.id,
        quality: clone_opt(&file.quality),
        file_type: clone_opt(&file.file_type),
        query,
        saved_to: destination.clone(),
        source_url: file.link.clone(),
    };
    let r = (
        State::Downloading { output: Output::VideoDownload(payload) },
        Action::Download {
            request,
            destination,
            timeout_ms: client.http_timeout_ms(),
            max_bytes: client.download_max_bytes(),
        },
    );
    assert(video_download_spec(r, client@, video, i, dir@, opt_string_view(query)));
    r
}

fn no_results(kind: &str, query: &String) -> (r: AppError)
    ensures
        r@ == ErrorView::NotFound("No "@ + kind@ + " found for query '"@ + query@ + "'"@),
{
    let mut m = owned("No ");
    push_str(&mut m, kind);
    push_str(&mut m, " found for query '");
    push_str(&mut m, query.as_str());
    push_str(&mut m, "'");
    assert(m@ =~= "No "@ + kind@ + " found for query '"@ + query@ + "'"@);
    AppError::NotFound(m)
}

/// The steps of the states that come between reading or writing the
/// config file, whatever the command.
fn credential_step(env: &Env, state: State, event: Event) -> (r: (State, Action))
    requires
        state is Removing || state is Warning || state is Prompting || state is Saving,
        !(event is Failed),
    ensures
        step_spec(Command::Status, *env, state, event, r),
{
    match state {
        State::Removing { config_path } => match event {
            Event::ConfigRemoved(b) => {
                let path = config_path.clone();
                (State::Resolving { config_path, removed: Some(b) }, Action::LoadConfig { path })
            },
            _ => unexpected(),
        },
        State::Warning { api_key } => match event {
            Event::Warned => save_step(env, api_key),
            _ => unexpected(),
        },
        State::Prompting => match event {
            Event::Prompted(answer) => match prompted_api_key(answer.as_str()) {
                Err(e) => fail(e),
                Ok(k) => save_step(env, k),
            },
            _ => unexpected(),
        },
        State::Saving { config_path } => match event {
            Event::ConfigSaved => (State::Done, Action::Emit(Output::AuthStatus(login_payload(config_path)))),
            _ => unexpected(),
        },
        _ => unexpected(),
    }
}

/// The step once the connectivity probe answered.
fn probed(env: &Env, auth: AuthState, event: Event) -> (r: (State, Action))
    ensures
        match event {
            Event::Probed(res) => emits_status(
                r,
                auth.config_path@,
                auth.configured,
                auth.source@,
                shown_api_base(opt_string_view(env.api_base)),
                match res {
                    Ok(_) => None,
                    Err(e) => Some(message_of(e@)),
                },
            ),
            _ => fails(r),
        },
{
    match event {
        Event::Probed(res) => (State::Done, Action::Emit(Output::Status(status_payload(&auth, &env.api_base, res)))),
        _ => unexpected(),
    }
}

/// The step once the download finished.
fn downloaded(output: Output, event: Event) -> (r: (State, Action))
    ensures
        if event is Downloaded {
            r.0 is Done && r.1 == Action::Emit(output)
        } else {
            fails(r)
        },
{
    match event {
        Event::Downloaded => (State::Done, Action::Emit(output)),
        _ => unexpected(),
    }
}

/// One step of an `auth` command.
pub fn run_auth(command: &AuthCommand, env: &Env, state: State, event: Event) -> (r: (State, Action))
    ensures
        step_spec(Command::Auth { command: *command }, *env, state, event, r),
{
    if let Event::Failed(e) = event {
        return fail(e);
    }
    match state {
        State::Begin => match event {
            Event::Start => match command {
                AuthCommand::Login { api_key: Some(k) } => {
                    let key = trim_owned(k.as_str());
                    (State::Warning { api_key: key }, Action::Warn { text: owned(LOGIN_FLAG_WARNING) })
                },
                AuthCommand::Login { api_key: None } => {
                    let mut lines: Vec<String> = Vec::new();
                    lines.push(owned("Open this page to get your Pexels API key:"));
                    lines.push(owned(PEXELS_API_KEY_URL));
                    lines.push(owned("Paste the API key below and press Enter."));
                    assert(views(lines@) =~= prompt_lines_spec());
                    (State::Prompting, Action::Prompt { lines, prompt: owned(API_KEY_PROMPT) })
                },
                AuthCommand::Logout => match env_path(env) {
                    Err(e) => fail(e),
                    Ok(p) => {
                        let path = p.clone();
                        (State::Removing { config_path: p }, Action::RemoveConfig { path })
                    },
                },
                AuthCommand::Status => load_step(env, None),
            },
            _ => unexpected(),
        },
        State::Resolving { config_path, removed } => match event {
            Event::ConfigLoaded(stored) => match resolve(env, &config_path, stored) {
                Err(e) => fail(e),
                Ok(auth) => (State::Done, Action::Emit(Output::AuthStatus(auth_status_payload(&auth, removed)))),
            },
            _ => unexpected(),
        },
        State::Removing { .. } | State::Warning { .. } | State::Prompting | State::Saving { .. } => {
            credential_step(env, state, event)
        },
        State::Probing { auth } => probed(env, auth, event),
        State::Downloading { output } => downloaded(output, event),
        _ => unexpected(),
    }
}

/// The step once the credential of `status` or a photo command is known.
fn authenticated(cmd: &Command, env: &Env, auth: AuthState) -> (r: (State, Action))
    requires
        !(cmd is Auth),
        !(cmd is Videos),
        auth.configured == opt_string_view(auth.api_key).is_some(),
    ensures
        authenticated_spec(*cmd, *env, auth.config_path@, opt_string_view(auth.api_key), auth.source@, None, r),
{
    let built = build_client(&auth, &env.api_base, &env.http_timeout_ms, &env.download_max_bytes);
    match cmd {
        Command::Status => {
            let probe = match built {
                Err(e) => Err(e),
                Ok(client) => match client.check_connection() {
                    Err(e) => Err(e),
                    Ok(request) => {
                        let timeout_ms = client.http_timeout_ms();
                        return (State::Probing { auth }, Action::Probe { request, timeout_ms });
                    },
                },
            };
            (State::Done, Action::Emit(Output::Status(status_payload(&auth, &env.api_base, probe))))
        },
        _ => {
            let client = match built {
                Err(e) => return fail(e),
                Ok(c) => c,
            };
            match cmd {
                Command::Search(a) => {
                    let request = client.search_photos(&search_request(a));
                    fetch_step(client, request, Body::Photos)
                },
                Command::Download(a) => {
                    let request = client.get_photo(a.id);
                    fetch_step(client, request, Body::Photo)
                },
                Command::DownloadFirst(a) => {
                    let request = client.search_photos(&search_request(&a.search));
                    fetch_step(client, request, Body::Photos)
                },
                _ => unexpected(),
            }
        },
    }
}

/// The step once the credential of a `videos` command is known.
fn authenticated_videos(command: &VideoCommand, env: &Env, auth: AuthState) -> (r: (State, Action))
    ensures
        authenticated_spec(
            Command::Videos { command: *command },
            *env,
            auth.config_path@,
            opt_string_view(auth.api_key),
            auth.source@,
            None,
            r,
        ),
{
    let client = match build_client(&auth, &env.api_base, &env.http_timeout_ms, &env.download_max_bytes) {
        Err(e) => return fail(e),
        Ok(c) => c,
    };
    match command {
        VideoCommand::Search(a) => {
            let request = client.search_videos(&video_search_request(a));
            fetch_step(client, request, Body::Videos)
        },
        VideoCommand::Download(a) => {
            let request = client.get_video(a.id);
            fetch_step(client, request, Body::Video)
        },
        VideoCommand::DownloadFirst(a) => {
            let request = client.search_videos(&video_search_request(&a.search));
            fetch_step(client, request, Body::Videos)
        },
    }
}

/// One step of a `videos` command.
pub fn run_videos(command: &VideoCommand, env: &Env, state: State, event: Event) -> (r: (State, Action))
    ensures
        step_spec(Command::Videos { command: *command }, *env, state, event, r),
{
    if let Event::Failed(e) = event {
        return fail(e);
    }
    match state {
        State::Begin => match event {
            Event::Start => load_step(env, None),
            _ => unexpected(),
        },
        State::Resolving { config_path, removed } => match event {
            Event::ConfigLoaded(stored) => match resolve(env, &config_path, stored) {
                Err(e) => fail(e),
                Ok(auth) => authenticated_videos(command, env, auth),
            },
            _ => unexpected(),
        },
        State::Requesting { client } => match event {
            Event::Videos(resp) => match command {
                VideoCommand::Search(a) => (State::Done, Action::Emit(Output::VideoSearch(video_search_payload(a, resp)))),
                VideoCommand::DownloadFirst(a) => {
                    if resp.videos.len() == 0 {
                        return fail(no_results("videos", &a.search.query));
                    }
                    let mut videos = resp.videos;
                    let video = videos.swap_remove(0);
                    video_step(client, video, a.quality, a.video_file_id, a.output_dir.as_str(), Some(a.search.query.clone()))
                },
                _ => unexpected(),
            },
            Event::VideoFound(video) => match command {
                VideoCommand::Download(a) => video_step(client, video, a.quality, a.video_file_id, a.output_dir.as_str(), None),
                _ => unexpected(),
            },
            _ => unexpected(),
        },
        State::Removing { .. } | State::Warning { .. } | State::Prompting | State::Saving { .. } => {
            credential_step(env, state, event)
        },
        State::Probing { auth } => probed(env, auth, event),
        State::Downloading { output } => downloaded(output, event),
        _ => unexpected(),
    }
}

/// One step of `status` or a photo command.
fn run_photos(cmd: &Command, env: &Env, state: State, event: Event) -> (r: (State, Action))
    requires
        !(cmd is Auth),
        !(cmd is Videos),
    ensures
        step_spec(*cmd, *env, state, event, r),
{
    if let Event::Failed(e) = event {
        return fail(e);
    }
    match state {
        State::Begin => match event {
            Event::Start => load_step(env, None),
            _ => unexpected(),
        },
        State::Resolving { config_path, removed } => match event {
            Event::ConfigLoaded(stored) => match resolve(env, &config_path, stored) {
                Err(e) => fail(e),
                Ok(auth) => authenticated(cmd, env, auth),
            },
            _ => unexpected(),
        },
        State::Requesting { client } => match event {
            Event::Photos(resp) => match cmd {
                Command::Search(a) => (
                    State::Done,
                    Action::Emit(
                        Output::Search(
                            search_payload(a, resp.photos, resp.page, resp.per_page, resp.total_results, resp.next_page),
                        ),
                    ),
                ),
                Command::DownloadFirst(a) => {
                    if resp.photos.len() == 0 {
                        return fail(no_results("photos", &a.search.query));
                    }
                    let mut photos = resp.photos;
                    let photo = photos.swap_remove(0);
                    photo_step(client, photo, a.quality, a.output_dir.as_str(), Some(a.search.query.clone()))
                },
                _ => unexpected(),
            },
            Event::PhotoFound(photo) => match cmd {
                Command::Download(a) => photo_step(client, photo, a.quality, a.output_dir.as_str(), None),
                _ => unexpected(),
            },
            _ => unexpected(),
        },
        State::Removing { .. } | State::Warning { .. } | State::Prompting | State::Saving { .. } => {
            credential_step(env, state, event)
        },
        State::Probing { auth } => probed(env, auth, event),
        State::Downloading { output } => downloaded(output, event),
        _ => unexpected(),
    }
}

/// One step of a command: given where it stands and what the last
/// action gave, where it goes and what to do next. Start from
/// [`State::Begin`] with [`Event::Start`] and feed each action's outcome
/// back until the action is [`Action::Emit`] or [`Action::Fail`].
pub fn run(cli: &Cli, env: &Env, state: State, event: Event) -> (r: (State, Action))
    ensures
        step_spec(cli.command, *env, state, event, r),
{
    match &cli.command {
        Command::Auth { command } => run_auth(command, env, state, event),
        Command::Videos { command } => run_videos(command, env, state, event),
        cmd => run_photos(cmd, env, state, event),
    }
}

} // verus!
