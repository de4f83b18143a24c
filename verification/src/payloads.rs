//! Building the JSON payloads that commands print from what the API
//! returned and what the user asked for.

use vstd::prelude::*;

use crate::auth::AuthState;
use crate::cli::{SearchArgs, VideoSearchArgs};
use crate::client::DEFAULT_API_BASE;
use crate::error::{message_of, AppError};
use crate::models::{
    Photo, SearchPayload, StatusPayload, VideoSearchPayload, VideosSearchResponse,
};
use crate::text::{opt_string_view, owned};

verus! {

/// A value reported by the API, or the fallback when it did not say.
pub open spec fn or_else(v: Option<u64>, fallback: u64) -> u64 {
    match v {
        Some(x) => x,
        None => fallback,
    }
}

/// The payload of `search`: the page figures the API reported, falling
/// back to what was asked for, and the total falling back to the number of
/// photos returned.
pub fn search_payload(
    args: &SearchArgs,
    photos: Vec<Photo>,
    page: Option<u64>,
    per_page: Option<u64>,
    total_results: Option<u64>,
    next_page: Option<String>,
) -> (r: SearchPayload)
    ensures
        r.next_page == next_page,
        r.page == or_else(page, args.page),
        r.per_page == or_else(per_page, args.per_page),
        r.total_results == or_else(total_results, photos@.len() as u64),
        r.photos == photos,
        r.query@ == args.query@,
{
    let count = photos.len() as u64;
    SearchPayload {
        next_page,
        page: match page {
            Some(p) => p,
            None => args.page,
        },
        per_page: match per_page {
            Some(p) => p,
            None => args.per_page,
        },
        total_results: match total_results {
            Some(t) => t,
            None => count,
        },
        photos,
        query: args.query.clone(),
    }
}

/// The payload of `videos search`, with the same fallbacks as
/// [`search_payload`].
pub fn video_search_payload(args: &VideoSearchArgs, response: VideosSearchResponse) -> (r: VideoSearchPayload)
    ensures
        r.next_page == response.next_page,
        r.prev_page == response.prev_page,
        r.page == or_else(response.page, args.page),
        r.per_page == or_else(response.per_page, args.per_page),
        r.total_results == or_else(response.total_results, response.videos@.len() as u64),
        r.videos == response.videos,
        r.query@ == args.query@,
{
    let count = response.videos.len() as u64;
    VideoSearchPayload {
        next_page: response.next_page,
        prev_page: response.prev_page,
        page: match response.page {
            Some(p) => p,
            None => args.page,
        },
        per_page: match response.per_page {
            Some(p) => p,
            None => args.per_page,
        },
        total_results: match response.total_results {
            Some(t) => t,
            None => count,
        },
        query: args.query.clone(),
        videos: response.videos,
    }
}

/// The API base that `status` reports: `PEXFETCH_API_BASE` as given, or
/// the default.
pub open spec fn shown_api_base(api_base: Option<Seq<char>>) -> Seq<char> {
    match api_base {
        Some(b) => b,
        None => DEFAULT_API_BASE@,
    }
}

/// The payload of `status`: the credential state, the API base, and the
/// outcome of the connectivity probe (its error message when it failed).
pub fn status_payload(state: &AuthState, api_base: &Option<String>, probe: Result<(), AppError>) -> (r:
    StatusPayload)
    ensures
        r.api_base@ == shown_api_base(opt_string_view(*api_base)),
        r.api_reachable == probe is Ok,
        probe matches Err(e) ==> opt_string_view(r.api_error) == Some(message_of(e@)),
        probe is Ok ==> r.api_error is None,
        r.config_path@ == state.config_path@,
        r.configured == state.configured,
        r.source@ == state.source@,
{
    let shown = match api_base {
        Some(b) => b.clone(),
        None => owned(DEFAULT_API_BASE),
    };
    let (api_reachable, api_error) = match probe {
        Ok(()) => (true, None),
        Err(e) => (false, Some(e.to_string())),
    };
    StatusPayload {
        api_base: shown,
        api_error,
        api_reachable,
        config_path: state.config_path.clone(),
        configured: state.configured,
        source: state.source.clone(),
    }
}

} // verus!
