//! Verified core of `pexfetch`, a command-line client for the Pexels photo
//! and video API. Every command is a sequence of steps decided by
//! [`run::run`]; the program around it performs the file, terminal and
//! network work that each step asks for and reports the outcome back.
//! Commands end with a JSON payload on stdout, or with an error whose
//! stable `kind` and exit code come from [`error::AppError`].

pub mod auth;
pub mod cli;
pub mod client;
pub mod error;
pub mod laws;
pub mod models;
pub mod paths;
pub mod payloads;
pub mod quality;
pub mod run;
pub mod srcmap;
pub mod text;

pub use auth::{config_path, load_stored_api_key, AuthState, StoredConfig};
pub use cli::{Cli, Command};
pub use client::{PexelsClient, SearchRequest, VideoSearchRequest};
pub use error::AppError;
pub use models::{
    AuthStatusPayload, DownloadPayload, Photo, SearchPayload, SearchResponse, StatusPayload, Video,
    VideoDownloadPayload, VideoFile, VideoPicture, VideoSearchPayload, VideoUser, VideosSearchResponse,
};
pub use run::{run, Action, Env, Event, Output, State};
