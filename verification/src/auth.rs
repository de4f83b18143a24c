//! Where the API key comes from: the config-file location, reading the
//! stored key, the order in which the environment and the config file are
//! consulted, and the payloads that report it.

use vstd::prelude::*;

use crate::client::{client_config_from_env, client_spec, ClientView, PexelsClient};
use crate::error::{AppError, ErrorView};
use crate::models::AuthStatusPayload;
use crate::paths::{join_path, path_join};
use crate::text::{decimal, is_blank, opt_string_view, owned, push_decimal, push_str, trim, trim_owned};

verus! {

/// Where the config file is: `PEXFETCH_CONFIG_PATH` when set, else
/// `$XDG_CONFIG_HOME/pexfetch/config.json`, else
/// `$HOME/.config/pexfetch/config.json`; an error when none is set.
pub open spec fn config_path_spec(
    custom: Option<Seq<char>>,
    xdg_config_home: Option<Seq<char>>,
    home: Option<Seq<char>>,
) -> Result<Seq<char>, ErrorView> {
    match custom {
        Some(c) => Ok(c),
        None => match xdg_config_home {
            Some(x) => Ok(path_join(path_join(x, "pexfetch"@), "config.json"@)),
            None => match home {
                Some(h) => Ok(path_join(path_join(path_join(h, ".config"@), "pexfetch"@), "config.json"@)),
                None => Err(ErrorView::Message("HOME is not set and no config path override was provided"@)),
            },
        },
    }
}

/// The config-file path from the values of `PEXFETCH_CONFIG_PATH`,
/// `XDG_CONFIG_HOME` and `HOME`.
pub fn config_path(custom: &Option<String>, xdg_config_home: &Option<String>, home: &Option<String>) -> (r:
    Result<String, AppError>)
    ensures
        match r {
            Ok(p) => config_path_spec(opt_string_view(*custom), opt_string_view(*xdg_config_home), opt_string_view(*home))
                == Ok::<Seq<char>, ErrorView>(p@),
            Err(e) => config_path_spec(opt_string_view(*custom), opt_string_view(*xdg_config_home), opt_string_view(*home))
                == Err::<Seq<char>, ErrorView>(e@),
        },
{
    match custom {
        Some(c) => Ok(c.clone()),
        None => match xdg_config_home {
            Some(x) => {
                let dir = join_path(x.as_str(), "pexfetch");
                Ok(join_path(dir.as_str(), "config.json"))
            },
            None => match home {
                Some(h) => {
                    let a = join_path(h.as_str(), ".config");
                    let b = join_path(a.as_str(), "pexfetch");
                    Ok(join_path(b.as_str(), "config.json"))
                },
                None => Err(AppError::Message(owned("HOME is not set and no config path override was provided"))),
            },
        },
    }
}

/// What reading the config file gave: no file, a read error, contents
/// that do not hold an `api_key` string (with the JSON error), or the
/// stored key.
pub enum StoredConfig {
    Missing,
    Unreadable(String),
    Corrupt(String),
    Parsed(String),
}

/// The stored key as [`load_stored_api_key`] reports it.
pub open spec fn stored_key_spec(path: Seq<char>, stored: StoredConfig) -> Result<Option<Seq<char>>, ErrorView> {
    match stored {
        StoredConfig::Missing => Ok(None),
        StoredConfig::Unreadable(e) => Err(ErrorView::Io(e@)),
        StoredConfig::Corrupt(e) => Err(ErrorView::Message(
            "config at "@ + path + " is corrupt ("@ + e@ + "); run `pexfetch auth logout` to reset it"@,
        )),
        StoredConfig::Parsed(k) => if trim(k@).len() == 0 {
            Ok(None)
        } else {
            Ok(Some(k@))
        },
    }
}

/// The stored API key from what reading the config file at `path` gave.
/// A blank key counts as none; a corrupt file names itself and suggests
/// `auth logout`.
pub fn load_stored_api_key(path: &str, stored: StoredConfig) -> (r: Result<Option<String>, AppError>)
    ensures
        match r {
            Ok(k) => stored_key_spec(path@, stored) == Ok::<Option<Seq<char>>, ErrorView>(opt_string_view(k)),
            Err(e) => stored_key_spec(path@, stored) == Err::<Option<Seq<char>>, ErrorView>(e@),
        },
{
    match stored {
        StoredConfig::Missing => Ok(None),
        StoredConfig::Unreadable(e) => Err(AppError::Io(e)),
        StoredConfig::Corrupt(e) => {
            let mut m = owned("config at ");
            push_str(&mut m, path);
            push_str(&mut m, " is corrupt (");
            push_str(&mut m, e.as_str());
            push_str(&mut m, "); run `pexfetch auth logout` to reset it");
            assert(m@ =~= "config at "@ + path@ + " is corrupt ("@ + e@ + "); run `pexfetch auth logout` to reset it"@);
            Err(AppError::Message(m))
        },
        StoredConfig::Parsed(k) => if is_blank(k.as_str()) {
            Ok(None)
        } else {
            Ok(Some(k))
        },
    }
}

/// Which credential is in effect and where the config file is.
pub struct AuthState {
    pub api_key: Option<String>,
    pub config_path: String,
    pub configured: bool,
    pub source: String,
}

/// The key from `PEXELS_API_KEY`: its value trimmed, unless that is empty.
pub open spec fn env_key_spec(raw: Option<Seq<char>>) -> Option<Seq<char>> {
    match raw {
        Some(v) => if trim(v).len() == 0 {
            None
        } else {
            Some(trim(v))
        },
        None => None,
    }
}

/// The credential in effect: `PEXELS_API_KEY` first, then the stored key,
/// else none. `source` says which (`env`, `config` or `none`).
pub open spec fn auth_choice(env_key: Option<Seq<char>>, stored: Option<Seq<char>>) -> (Option<Seq<char>>, Seq<char>) {
    match env_key_spec(env_key) {
        Some(k) => (Some(k), "env"@),
        None => match stored {
            Some(k) => (Some(k), "config"@),
            None => (None, "none"@),
        },
    }
}

/// The credential in effect, given the config path, the value of
/// `PEXELS_API_KEY`, and the stored key. The config path and the config
/// file are always consulted, so their errors come first.
pub fn resolve_auth_state(
    config_path: Result<String, AppError>,
    env_key: &Option<String>,
    stored_key: Result<Option<String>, AppError>,
) -> (r: Result<AuthState, AppError>)
    ensures
        config_path matches Err(e0) ==> (r matches Err(e) && e@ == e0@),
        (config_path is Ok && stored_key is Err) ==> (r matches Err(e) && e@ == stored_key->Err_0@),
        config_path matches Ok(p) ==> stored_key matches Ok(k) ==> (r matches Ok(a) && {
            let (key, source) = auth_choice(opt_string_view(*env_key), opt_string_view(k));
            &&& a.config_path@ == p@
            &&& opt_string_view(a.api_key) == key
            &&& a.configured == key.is_some()
            &&& a.source@ == source
        }),
{
    let config_path = config_path?;
    let stored_key = stored_key?;
    let env_value = match env_key {
        Some(v) => if is_blank(v.as_str()) {
            None
        } else {
            Some(trim_owned(v.as_str()))
        },
        None => None,
    };
    match env_value {
        Some(k) => Ok(AuthState { api_key: Some(k), config_path, configured: true, source: owned("env") }),
        None => match stored_key {
            Some(k) => Ok(AuthState { api_key: Some(k), config_path, configured: true, source: owned("config") }),
            None => Ok(AuthState { api_key: None, config_path, configured: false, source: owned("none") }),
        },
    }
}

/// The payload of `auth status` and `auth logout` for a credential state.
pub fn auth_status_payload(state: &AuthState, removed: Option<bool>) -> (r: AuthStatusPayload)
    ensures
        r.config_path@ == state.config_path@,
        r.configured == state.configured,
        r.source@ == state.source@,
        r.removed == removed,
{
    AuthStatusPayload {
        config_path: state.config_path.clone(),
        configured: state.configured,
        source: state.source.clone(),
        removed,
    }
}

/// The payload of a successful `auth login`.
pub fn login_payload(config_path: String) -> (r: AuthStatusPayload)
    ensures
        r.config_path@ == config_path@,
        r.configured,
        r.source@ == "config"@,
        r.removed is None,
{
    AuthStatusPayload { config_path, configured: true, source: owned("config"), removed: None }
}

/// The key typed at the prompt, trimmed; a blank answer is a missing
/// credential.
pub open spec fn prompted_key_spec(answer: Seq<char>) -> Result<Seq<char>, ErrorView> {
    if trim(answer).len() == 0 {
        Err(ErrorView::MissingCredential(
            "API key is required; paste the key from https://www.pexels.com/api/key/"@,
        ))
    } else {
        Ok(trim(answer))
    }
}

/// The key typed at the prompt.
pub fn prompted_api_key(answer: &str) -> (r: Result<String, AppError>)
    ensures
        match r {
            Ok(k) => prompted_key_spec(answer@) == Ok::<Seq<char>, ErrorView>(k@),
            Err(e) => prompted_key_spec(answer@) == Err::<Seq<char>, ErrorView>(e@),
        },
{
    let key = trim_owned(answer);
    if is_blank(answer) {
        return Err(AppError::MissingCredential(
            owned("API key is required; paste the key from https://www.pexels.com/api/key/"),
        ));
    }
    Ok(key)
}

/// The client for a credential state and the values of
/// `PEXFETCH_API_BASE`, `PEXFETCH_HTTP_TIMEOUT_MS` and
/// `PEXFETCH_DOWNLOAD_MAX_BYTES`. Without a key, a missing-credential
/// error.
pub fn build_client(
    state: &AuthState,
    api_base: &Option<String>,
    timeout_ms: &Option<String>,
    max_bytes: &Option<String>,
) -> (r: Result<PexelsClient, AppError>)
    ensures
        match r {
            Ok(c) => client_spec(opt_string_view(state.api_key), opt_string_view(*api_base), opt_string_view(*timeout_ms), opt_string_view(*max_bytes))
                == Ok::<ClientView, ErrorView>(c@),
            Err(e) => client_spec(opt_string_view(state.api_key), opt_string_view(*api_base), opt_string_view(*timeout_ms), opt_string_view(*max_bytes))
                == Err::<ClientView, ErrorView>(e@),
        },
{
    let api_key = match &state.api_key {
        Some(k) => k.clone(),
        None => {
            return Err(AppError::MissingCredential(
                owned("PEXELS_API_KEY is not set and no stored config was found"),
            ))
        },
    };
    let config = client_config_from_env(timeout_ms, max_bytes)?;
    PexelsClient::new(api_key, api_base.clone(), config)
}

/// The name of the temporary file that a config write goes through:
/// `.<file name>.<process id>.tmp` (`config` when the path has no file
/// name).
pub fn secret_temp_name(file_name: &Option<String>, pid: u32) -> (r: String)
    ensures
        r@ == "."@ + match opt_string_view(*file_name) {
            Some(n) => n,
            None => "config"@,
        } + "."@ + decimal(pid as nat) + ".tmp"@,
{
    let mut r = owned(".");
    match file_name {
        Some(n) => push_str(&mut r, n.as_str()),
        None => push_str(&mut r, "config"),
    }
    push_str(&mut r, ".");
    push_decimal(&mut r, pid as u64);
    push_str(&mut r, ".tmp");
    assert(r@ =~= "."@ + match opt_string_view(*file_name) {
        Some(n) => n,
        None => "config"@,
    } + "."@ + decimal(pid as nat) + ".tmp"@);
    r
}

} // verus!
