//! The values that the Pexels API returns (`*Response`, `Photo`, `Video`
//! and their parts) and the JSON payloads that commands print (`*Payload`).

use vstd::prelude::*;

use crate::srcmap::SrcMap;

verus! {

/// A photo as the API returns it. `src` maps quality names ("original",
/// "large2x", ...) to image URLs.
pub struct Photo {
    pub id: u64,
    pub width: Option<u64>,
    pub height: Option<u64>,
    pub url: Option<String>,
    pub photographer: Option<String>,
    pub src: SrcMap,
}

/// Body of a photo search response.
pub struct SearchResponse {
    pub page: Option<u64>,
    pub per_page: Option<u64>,
    pub total_results: Option<u64>,
    pub photos: Vec<Photo>,
    pub next_page: Option<String>,
}

/// Payload of `auth status`, `auth login` and `auth logout`.
pub struct AuthStatusPayload {
    pub config_path: String,
    pub configured: bool,
    pub source: String,
    pub removed: Option<bool>,
}

/// Payload of `status`.
pub struct StatusPayload {
    pub api_base: String,
    pub api_error: Option<String>,
    pub api_reachable: bool,
    pub config_path: String,
    pub configured: bool,
    pub source: String,
}

/// Payload of `search`.
pub struct SearchPayload {
    pub next_page: Option<String>,
    pub page: u64,
    pub per_page: u64,
    pub photos: Vec<Photo>,
    pub query: String,
    pub total_results: u64,
}

/// Payload of `download` and `download-first`.
pub struct DownloadPayload {
    pub photo_id: u64,
    pub quality: String,
    pub query: Option<String>,
    pub saved_to: String,
    pub source_url: String,
}

/// The author credited for a video.
pub struct VideoUser {
    pub id: u64,
    pub name: Option<String>,
    pub url: Option<String>,
}

/// One rendition of a video. The frame rate is kept as the bit pattern of
/// the `f64` the API sends (`f64::to_bits`), so that it passes through
/// unchanged; `score` ranks renditions by width times frame rate (the
/// larger the better), as computed when the file was read.
pub struct VideoFile {
    pub id: u64,
    pub quality: Option<String>,
    pub file_type: Option<String>,
    pub width: Option<u64>,
    pub height: Option<u64>,
    pub fps_bits: Option<u64>,
    pub link: String,
    pub score: u64,
}

/// A still frame of a video.
pub struct VideoPicture {
    pub id: u64,
    pub picture: String,
    pub nr: Option<u64>,
}

/// A video as the API returns it.
pub struct Video {
    pub id: u64,
    pub width: Option<u64>,
    pub height: Option<u64>,
    pub url: Option<String>,
    pub image: Option<String>,
    pub duration: Option<u64>,
    pub user: Option<VideoUser>,
    pub video_files: Vec<VideoFile>,
    pub video_pictures: Vec<VideoPicture>,
}

/// Body of a video search response.
pub struct VideosSearchResponse {
    pub page: Option<u64>,
    pub per_page: Option<u64>,
    pub total_results: Option<u64>,
    pub videos: Vec<Video>,
    pub next_page: Option<String>,
    pub prev_page: Option<String>,
}

/// Payload of `videos search`.
pub struct VideoSearchPayload {
    pub next_page: Option<String>,
    pub prev_page: Option<String>,
    pub page: u64,
    pub per_page: u64,
    pub query: String,
    pub total_results: u64,
    pub videos: Vec<Video>,
}

/// Payload of `videos download` and `videos download-first`.
pub struct VideoDownloadPayload {
    pub video_id: u64,
    pub video_file_id: u64,
    pub quality: Option<String>,
    pub file_type: Option<String>,
    pub query: Option<String>,
    pub saved_to: String,
    pub source_url: String,
}

} // verus!
