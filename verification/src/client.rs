//! The Pexels HTTP client's own logic: validating the API base, building
//! endpoint URLs and query strings, describing each request, and holding a
//! download to its size limit. Sending the requests is left to the caller.

use vstd::prelude::*;

use crate::cli::{SearchArgs, VideoSearchArgs};
use crate::error::{AppError, ErrorView};
use crate::paths::{parse_url, url_host, url_parse_error, url_parses, url_scheme, url_text};
use crate::text::{
    ascii_lower, chars_eq, chars_of, decimal, eq_ignore_ascii_case, is_digit, opt_string_view, owned,
    parse_u64, parse_u64_spec, push_decimal, push_str, string_of_range, to_ascii_lower, u64_to_decimal,
};

verus! {

/// Where the API lives unless `PEXFETCH_API_BASE` says otherwise.
pub const DEFAULT_API_BASE: &'static str = "https://api.pexels.com";

/// The `User-Agent` of every request.
pub const USER_AGENT_VALUE: &'static str = "pexels-agent-cli/0.1.0";

/// Default total timeout of a request, in milliseconds.
pub const DEFAULT_HTTP_TIMEOUT_MS: u64 = 60000;

/// Default cap on the size of a download, in bytes (200 MiB).
pub const DEFAULT_DOWNLOAD_MAX_BYTES: u64 = 209715200;

/// Timeout and download cap.
pub struct ClientConfig {
    pub http_timeout_ms: u64,
    pub download_max_bytes: u64,
}

impl Default for ClientConfig {
    fn default() -> (r: ClientConfig)
        ensures
            r.http_timeout_ms == DEFAULT_HTTP_TIMEOUT_MS,
            r.download_max_bytes == DEFAULT_DOWNLOAD_MAX_BYTES,
    {
        ClientConfig {
            http_timeout_ms: DEFAULT_HTTP_TIMEOUT_MS,
            download_max_bytes: DEFAULT_DOWNLOAD_MAX_BYTES,
        }
    }
}

/// The view of an optional string slice.
pub open spec fn opt_str_view(o: Option<&str>) -> Option<Seq<char>> {
    match o {
        Some(s) => Some(s@),
        None => None,
    }
}

/// An environment setting read as a `u64`: the default when unset, the
/// parsed value when well formed, and otherwise an error that names the
/// variable and quotes the value.
pub open spec fn env_number(name: Seq<char>, raw: Option<Seq<char>>, default: u64) -> Result<u64, ErrorView> {
    match raw {
        None => Ok(default),
        Some(r) => match parse_u64_spec(r) {
            Some(n) => Ok(n),
            None => Err(ErrorView::Message(name + " must be a positive integer (got "@ + r + ")"@)),
        },
    }
}

fn env_number_exec(name: &str, raw: &Option<String>, default: u64) -> (r: Result<u64, AppError>)
    ensures
        match r {
            Ok(n) => env_number(name@, opt_string_view(*raw), default) == Ok::<u64, ErrorView>(n),
            Err(e) => env_number(name@, opt_string_view(*raw), default) == Err::<u64, ErrorView>(e@),
        },
{
    match raw {
        None => Ok(default),
        Some(r) => match parse_u64(r.as_str()) {
            Some(n) => Ok(n),
            None => {
                let mut m = owned(name);
                push_str(&mut m, " must be a positive integer (got ");
                push_str(&mut m, r.as_str());
                push_str(&mut m, ")");
                assert(m@ =~= name@ + " must be a positive integer (got "@ + r@ + ")"@);
                Err(AppError::Message(m))
            },
        },
    }
}

/// The client settings from `PEXFETCH_HTTP_TIMEOUT_MS` and
/// `PEXFETCH_DOWNLOAD_MAX_BYTES` (their values, when set).
pub fn client_config_from_env(timeout_ms: &Option<String>, max_bytes: &Option<String>) -> (r: Result<
    ClientConfig,
    AppError,
>)
    ensures
        ({
            let t = env_number("PEXFETCH_HTTP_TIMEOUT_MS"@, opt_string_view(*timeout_ms), DEFAULT_HTTP_TIMEOUT_MS);
            let m = env_number("PEXFETCH_DOWNLOAD_MAX_BYTES"@, opt_string_view(*max_bytes), DEFAULT_DOWNLOAD_MAX_BYTES);
            match r {
                Ok(c) => t == Ok::<u64, ErrorView>(c.http_timeout_ms) && m == Ok::<u64, ErrorView>(c.download_max_bytes),
                Err(e) => t == Err::<u64, ErrorView>(e@) || (t is Ok && m == Err::<u64, ErrorView>(e@)),
            }
        }),
{
    let http_timeout_ms = env_number_exec("PEXFETCH_HTTP_TIMEOUT_MS", timeout_ms, DEFAULT_HTTP_TIMEOUT_MS)?;
    let download_max_bytes = env_number_exec("PEXFETCH_DOWNLOAD_MAX_BYTES", max_bytes, DEFAULT_DOWNLOAD_MAX_BYTES)?;
    Ok(ClientConfig { http_timeout_ms, download_max_bytes })
}

/// Whether `s` starts with `p`.
pub open spec fn starts_with(s: Seq<char>, p: Seq<char>) -> bool {
    p.len() <= s.len() && s.subrange(0, p.len() as int) == p
}

/// An IPv4 address in 127.0.0.0/8 as `url` writes a host: `127.` and
/// three more groups of decimal digits, separated by dots. A host name
/// such as `127.example.com` is not one.
pub open spec fn is_loopback_v4(host: Seq<char>) -> bool {
    &&& starts_with(host, "127."@)
    &&& exists|i: int, j: int|
        #![trigger host[i], host[j]]
        4 < i && i + 1 < j && j + 1 < host.len() && host[i] == '.' && host[j] == '.' && forall|k: int|
            4 <= k < host.len() && k != i && k != j ==> is_digit(#[trigger] host[k])
}

/// A host that stays on this machine: `localhost`, the IPv6 loopback, or
/// an IPv4 address in 127.0.0.0/8.
pub open spec fn is_loopback_host(host: Seq<char>) -> bool {
    host == "localhost"@ || host == "[::1]"@ || is_loopback_v4(host)
}

/// The text starts with `https://`, in any ASCII case.
pub open spec fn has_https_prefix(b: Seq<char>) -> bool {
    "https://"@.len() <= b.len() && eq_ignore_ascii_case(b.subrange(0, "https://"@.len() as int), "https://"@)
}

/// The API base to use: the default when unset; otherwise the given value
/// if it is an `https` URL, or an `http` URL on a loopback host. A value
/// that the URL parser refuses is taken when it is written `https://...`
/// (the requests built on it then report the parse error) and refused
/// otherwise; no other value is refused.
pub open spec fn api_base_spec(raw: Option<Seq<char>>) -> Result<Seq<char>, ErrorView> {
    match raw {
        None => Ok(DEFAULT_API_BASE@),
        Some(b) => if (url_parses(b) && (url_scheme(b) == "https"@ || (url_scheme(b) == "http"@ && match url_host(b) {
            Some(h) => is_loopback_host(h),
            None => false,
        }))) || (!url_parses(b) && has_https_prefix(b)) {
            Ok(b)
        } else {
            Err(ErrorView::Message(
                "PEXFETCH_API_BASE must be an https:// URL (http:// is allowed only for loopback hosts), got "@
                    + b,
            ))
        },
    }
}

fn prefix_is(v: &Vec<char>, p: &str) -> (r: bool)
    ensures
        r == starts_with(v@, p@),
{
    let pc = chars_of(p);
    if pc.len() > v.len() {
        return false;
    }
    let head = string_of_range(v, 0, pc.len());
    let hc = chars_of(head.as_str());
    chars_eq(&hc, &pc)
}

/// Whether `v` spells a loopback IPv4 address, as `is_loopback_v4` says.
fn is_loopback_v4_exec(v: &Vec<char>) -> (r: bool)
    ensures
        r == is_loopback_v4(v@),
{
    if !prefix_is(v, "127.") {
        return false;
    }
    proof {
        reveal_strlit("127.");
    }
    let ghost h = v@;
    let mut dots: usize = 0;
    let mut d1: usize = 0;
    let mut d2: usize = 0;
    let mut k: usize = 4;
    while k < v.len()
        invariant
            h == v@,
            starts_with(h, "127."@),
            4 <= k <= h.len(),
            dots <= 2,
            dots >= 1 ==> 4 <= d1 < k && h[d1 as int] == '.',
            dots == 2 ==> d1 < d2 < k && h[d2 as int] == '.',
            forall|m: int| 4 <= m < k && h[m] == '.' ==> (dots >= 1 && m == d1) || (dots == 2 && m == d2),
            forall|m: int|
                4 <= m < k && h[m] != '.' ==> is_digit(#[trigger] h[m]),
        decreases h.len() - k,
    {
        let c = v[k];
        if c == '.' {
            if dots == 0 {
                d1 = k;
            } else if dots == 1 {
                d2 = k;
            } else {
                proof {
                    lemma_three_dots(h, d1 as int, d2 as int, k as int);
                }
                return false;
            }
            dots = dots + 1;
        } else if !('0' <= c && c <= '9') {
            proof {
                lemma_not_digit(h, k as int);
            }
            return false;
        }
        k = k + 1;
    }
    if dots == 2 && d1 > 4 && d2 > d1 + 1 && d2 + 1 < v.len() {
        assert forall|m: int| 4 <= m < h.len() && m != d1 && m != d2 implies is_digit(#[trigger] h[m]) by {
            if h[m] == '.' {
            }
        }
        assert(h[d1 as int] == '.' && h[d2 as int] == '.');
        true
    } else {
        proof {
            if is_loopback_v4(h) {
                let (i, j) = choose|i: int, j: int|
                    #![trigger h[i], h[j]]
                    4 < i && i + 1 < j && j + 1 < h.len() && h[i] == '.' && h[j] == '.' && forall|m: int|
                        4 <= m < h.len() && m != i && m != j ==> is_digit(#[trigger] h[m]);
                assert(h[i] == '.' && h[j] == '.');
                if dots >= 1 {
                    assert(h[d1 as int] == '.');
                    assert(!is_digit(h[d1 as int]));
                }
                if dots == 2 {
                    assert(!is_digit(h[d2 as int]));
                }
            }
        }
        false
    }
}

/// A character that is neither a digit nor a dot rules the address out.
proof fn lemma_not_digit(h: Seq<char>, k: int)
    requires
        4 <= k < h.len(),
        h[k] != '.',
        !is_digit(h[k]),
    ensures
        !is_loopback_v4(h),
{
    if is_loopback_v4(h) {
        let (i, j) = choose|i: int, j: int|
            #![trigger h[i], h[j]]
            4 < i && i + 1 < j && j + 1 < h.len() && h[i] == '.' && h[j] == '.' && forall|m: int|
                4 <= m < h.len() && m != i && m != j ==> is_digit(#[trigger] h[m]);
        assert(is_digit(h[k]));
    }
}

/// A third dot rules the address out.
proof fn lemma_three_dots(h: Seq<char>, a: int, b: int, c: int)
    requires
        4 <= a < b < c < h.len(),
        h[a] == '.',
        h[b] == '.',
        h[c] == '.',
    ensures
        !is_loopback_v4(h),
{
    if is_loopback_v4(h) {
        let (i, j) = choose|i: int, j: int|
            #![trigger h[i], h[j]]
            4 < i && i + 1 < j && j + 1 < h.len() && h[i] == '.' && h[j] == '.' && forall|m: int|
                4 <= m < h.len() && m != i && m != j ==> is_digit(#[trigger] h[m]);
        assert(!is_digit(h[a]) && !is_digit(h[b]) && !is_digit(h[c]));
        assert(h[a] == h[a]);
    }
}

fn is_loopback(host: &str) -> (r: bool)
    ensures
        r == is_loopback_host(host@),
{
    let h = chars_of(host);
    let localhost = chars_of("localhost");
    let v6 = chars_of("[::1]");
    chars_eq(&h, &localhost) || chars_eq(&h, &v6) || is_loopback_v4_exec(&h)
}

/// Whether `b` starts with `https://`, in any ASCII case.
fn starts_with_https(b: &str) -> (r: bool)
    ensures
        r == has_https_prefix(b@),
{
    let v = chars_of(b);
    let p = chars_of("https://");
    if v.len() < p.len() {
        return false;
    }
    let ghost head = v@.subrange(0, p@.len() as int);
    let mut i: usize = 0;
    while i < p.len()
        invariant
            p@ == "https://"@,
            p@.len() <= v@.len(),
            v@ == b@,
            head == v@.subrange(0, p@.len() as int),
            i <= p@.len(),
            forall|j: int| 0 <= j < i ==> ascii_lower(#[trigger] head[j]) == ascii_lower(p@[j]),
        decreases p@.len() - i,
    {
        if to_ascii_lower(v[i]) != to_ascii_lower(p[i]) {
            assert(head[i as int] == v@[i as int]);
            return false;
        }
        assert(head[i as int] == v@[i as int]);
        i = i + 1;
    }
    true
}

fn str_is(s: &str, word: &str) -> (r: bool)
    ensures
        r == (s@ == word@),
{
    let a = chars_of(s);
    let b = chars_of(word);
    chars_eq(&a, &b)
}

/// The request parameters of a photo search.
pub struct SearchRequest<'a> {
    pub query: &'a str,
    pub page: u64,
    pub per_page: u64,
    pub orientation: Option<&'a str>,
    pub size: Option<&'a str>,
    pub color: Option<&'a str>,
    pub locale: Option<&'a str>,
}

/// The request parameters of a video search.
pub struct VideoSearchRequest<'a> {
    pub query: &'a str,
    pub page: u64,
    pub per_page: u64,
    pub orientation: Option<&'a str>,
    pub size: Option<&'a str>,
    pub locale: Option<&'a str>,
}

fn as_opt_str(o: &Option<String>) -> (r: Option<&str>)
    ensures
        opt_str_view(r) == opt_string_view(*o),
{
    match o {
        Some(s) => Some(s.as_str()),
        None => None,
    }
}

/// The request for the arguments of `search`.
pub fn search_request(args: &SearchArgs) -> (r: SearchRequest<'_>)
    ensures
        r.query@ == args.query@,
        r.page == args.page,
        r.per_page == args.per_page,
        opt_str_view(r.orientation) == opt_string_view(args.orientation),
        opt_str_view(r.size) == opt_string_view(args.size),
        opt_str_view(r.color) == opt_string_view(args.color),
        opt_str_view(r.locale) == opt_string_view(args.locale),
{
    SearchRequest {
        query: args.query.as_str(),
        page: args.page,
        per_page: args.per_page,
        orientation: as_opt_str(&args.orientation),
        size: as_opt_str(&args.size),
        color: as_opt_str(&args.color),
        locale: as_opt_str(&args.locale),
    }
}

/// The request for the arguments of `videos search`.
pub fn video_search_request(args: &VideoSearchArgs) -> (r: VideoSearchRequest<'_>)
    ensures
        r.query@ == args.query@,
        r.page == args.page,
        r.per_page == args.per_page,
        opt_str_view(r.orientation) == opt_string_view(args.orientation),
        opt_str_view(r.size) == opt_string_view(args.size),
        opt_str_view(r.locale) == opt_string_view(args.locale),
{
    VideoSearchRequest {
        query: args.query.as_str(),
        page: args.page,
        per_page: args.per_page,
        orientation: as_opt_str(&args.orientation),
        size: as_opt_str(&args.size),
        locale: as_opt_str(&args.locale),
    }
}

/// A query-string parameter that is sent only when set.
pub open spec fn optional_pair(name: Seq<char>, value: Option<Seq<char>>) -> Seq<(Seq<char>, Seq<char>)> {
    match value {
        Some(v) => seq![(name, v)],
        None => Seq::empty(),
    }
}

/// The views of a list of string pairs.
pub open spec fn pairs_view(v: Seq<(String, String)>) -> Seq<(Seq<char>, Seq<char>)> {
    v.map_values(|p: (String, String)| (p.0@, p.1@))
}

fn push_pair(v: &mut Vec<(String, String)>, name: &str, value: &str)
    ensures
        pairs_view(final(v)@) == pairs_view(old(v)@).push((name@, value@)),
{
    v.push((owned(name), owned(value)));
    assert(pairs_view(v@) =~= pairs_view(old(v)@).push((name@, value@)));
}

fn push_optional_pair(v: &mut Vec<(String, String)>, name: &str, value: Option<&str>)
    ensures
        pairs_view(final(v)@) == pairs_view(old(v)@) + optional_pair(name@, opt_str_view(value)),
{
    match value {
        Some(s) => push_pair(v, name, s),
        None => {},
    }
    assert(pairs_view(v@) =~= pairs_view(old(v)@) + optional_pair(name@, opt_str_view(value)));
}

/// The query string of a photo search, in field order, leaving out the
/// filters that are not set.
pub open spec fn search_query_spec(r: SearchRequest) -> Seq<(Seq<char>, Seq<char>)> {
    seq![("query"@, r.query@), ("page"@, decimal(r.page as nat)), ("per_page"@, decimal(r.per_page as nat))]
        + optional_pair("orientation"@, opt_str_view(r.orientation))
        + optional_pair("size"@, opt_str_view(r.size))
        + optional_pair("color"@, opt_str_view(r.color))
        + optional_pair("locale"@, opt_str_view(r.locale))
}

/// The query string of a video search, in field order, leaving out the
/// filters that are not set.
pub open spec fn video_search_query_spec(r: VideoSearchRequest) -> Seq<(Seq<char>, Seq<char>)> {
    seq![("query"@, r.query@), ("page"@, decimal(r.page as nat)), ("per_page"@, decimal(r.per_page as nat))]
        + optional_pair("orientation"@, opt_str_view(r.orientation))
        + optional_pair("size"@, opt_str_view(r.size))
        + optional_pair("locale"@, opt_str_view(r.locale))
}

fn common_pairs(query: &str, page: u64, per_page: u64) -> (r: Vec<(String, String)>)
    ensures
        pairs_view(r@) == seq![("query"@, query@), ("page"@, decimal(page as nat)), ("per_page"@, decimal(per_page as nat))],
{
    let mut v: Vec<(String, String)> = Vec::new();
    push_pair(&mut v, "query", query);
    let p = u64_to_decimal(page);
    push_pair(&mut v, "page", p.as_str());
    let pp = u64_to_decimal(per_page);
    push_pair(&mut v, "per_page", pp.as_str());
    assert(pairs_view(v@) =~= seq![("query"@, query@), ("page"@, decimal(page as nat)), ("per_page"@, decimal(per_page as nat))]);
    v
}

impl<'a> SearchRequest<'a> {
    /// The query-string parameters, as the URL encoder receives them.
    pub fn query_pairs(&self) -> (r: Vec<(String, String)>)
        ensures
            pairs_view(r@) == search_query_spec(*self),
    {
        let mut v = common_pairs(self.query, self.page, self.per_page);
        push_optional_pair(&mut v, "orientation", self.orientation);
        push_optional_pair(&mut v, "size", self.size);
        push_optional_pair(&mut v, "color", self.color);
        push_optional_pair(&mut v, "locale", self.locale);
        assert(pairs_view(v@) =~= search_query_spec(*self));
        v
    }
}

impl<'a> VideoSearchRequest<'a> {
    /// The query-string parameters, as the URL encoder receives them.
    pub fn query_pairs(&self) -> (r: Vec<(String, String)>)
        ensures
            pairs_view(r@) == video_search_query_spec(*self),
    {
        let mut v = common_pairs(self.query, self.page, self.per_page);
        push_optional_pair(&mut v, "orientation", self.orientation);
        push_optional_pair(&mut v, "size", self.size);
        push_optional_pair(&mut v, "locale", self.locale);
        assert(pairs_view(v@) =~= video_search_query_spec(*self));
        v
    }
}

/// `s.trim_end_matches(c)`.
pub open spec fn trim_end_char(s: Seq<char>, c: char) -> Seq<char>
    decreases s.len(),
{
    if s.len() > 0 && s.last() == c {
        trim_end_char(s.drop_last(), c)
    } else {
        s
    }
}

/// `s.trim_start_matches(c)`.
pub open spec fn trim_start_char(s: Seq<char>, c: char) -> Seq<char>
    decreases s.len(),
{
    if s.len() > 0 && s[0] == c {
        trim_start_char(s.drop_first(), c)
    } else {
        s
    }
}

/// The URL of an API path under the base: the two joined by exactly one
/// `/`, then parsed.
pub open spec fn endpoint_spec(base: Seq<char>, path: Seq<char>) -> Result<Seq<char>, ErrorView> {
    let joined = trim_end_char(base, '/') + "/"@ + trim_start_char(path, '/');
    if url_parses(joined) {
        Ok(url_text(joined))
    } else {
        Err(ErrorView::Url(url_parse_error(joined)))
    }
}

fn trim_slashes(s: &str, at_end: bool) -> (r: String)
    ensures
        at_end ==> r@ == trim_end_char(s@, '/'),
        !at_end ==> r@ == trim_start_char(s@, '/'),
{
    let v = chars_of(s);
    let n = v.len();
    if at_end {
        let mut j: usize = n;
        assert(v@.subrange(0, n as int) =~= s@);
        while j > 0 && v[j - 1] == '/'
            invariant
                j <= n,
                n == v@.len(),
                trim_end_char(s@, '/') == trim_end_char(v@.subrange(0, j as int), '/'),
            decreases j,
        {
            assert(v@.subrange(0, j as int).drop_last() =~= v@.subrange(0, j - 1));
            j = j - 1;
        }
        string_of_range(&v, 0, j)
    } else {
        let mut i: usize = 0;
        assert(v@.subrange(0, n as int) =~= s@);
        while i < n && v[i] == '/'
            invariant
                i <= n,
                n == v@.len(),
                trim_start_char(s@, '/') == trim_start_char(v@.subrange(i as int, n as int), '/'),
            decreases n - i,
        {
            assert(v@.subrange(i as int, n as int).drop_first() =~= v@.subrange(i + 1, n as int));
            i = i + 1;
        }
        string_of_range(&v, i, n)
    }
}

/// A request for the caller to send: `GET url?query` with the given
/// `Authorization` header when present, `Accept: application/json` when
/// asked for, and [`USER_AGENT_VALUE`] as user agent.
pub struct HttpRequest {
    pub url: String,
    pub authorization: Option<String>,
    pub accept_json: bool,
    pub query: Vec<(String, String)>,
}

/// The settings of the Pexels client: where the API is, the key, and the
/// timeout and download cap. Only [`PexelsClient::new`] makes one, so its
/// API base has passed the scheme rule.
pub struct PexelsClient {
    api_base: String,
    api_key: String,
    config: ClientConfig,
}

/// The mathematical value of a client.
pub struct ClientView {
    pub api_base: Seq<char>,
    pub api_key: Seq<char>,
    pub http_timeout_ms: u64,
    pub download_max_bytes: u64,
}

impl View for PexelsClient {
    type V = ClientView;

    closed spec fn view(&self) -> ClientView {
        ClientView {
            api_base: self.api_base@,
            api_key: self.api_key@,
            http_timeout_ms: self.config.http_timeout_ms,
            download_max_bytes: self.config.download_max_bytes,
        }
    }
}

/// The mathematical value of a request.
pub struct RequestView {
    pub url: Seq<char>,
    pub authorization: Option<Seq<char>>,
    pub accept_json: bool,
    pub query: Seq<(Seq<char>, Seq<char>)>,
}

impl View for HttpRequest {
    type V = RequestView;

    open spec fn view(&self) -> RequestView {
        RequestView {
            url: self.url@,
            authorization: opt_string_view(self.authorization),
            accept_json: self.accept_json,
            query: pairs_view(self.query@),
        }
    }
}

/// An authenticated JSON request to an API path.
pub open spec fn api_request_spec(c: ClientView, path: Seq<char>, query: Seq<(Seq<char>, Seq<char>)>) -> Result<RequestView, ErrorView> {
    match endpoint_spec(c.api_base, path) {
        Ok(u) => Ok(RequestView { url: u, authorization: Some(c.api_key), accept_json: true, query }),
        Err(e) => Err(e),
    }
}

/// The plain request that fetches a file.
pub open spec fn download_request_spec(url: Seq<char>) -> RequestView {
    RequestView { url, authorization: None, accept_json: false, query: Seq::empty() }
}

/// The client for a key and the environment settings, or the first
/// error among: no key, a malformed timeout, a malformed cap, a refused
/// API base.
pub open spec fn client_spec(
    key: Option<Seq<char>>,
    api_base: Option<Seq<char>>,
    timeout_ms: Option<Seq<char>>,
    max_bytes: Option<Seq<char>>,
) -> Result<ClientView, ErrorView> {
    match key {
        None => Err(ErrorView::MissingCredential("PEXELS_API_KEY is not set and no stored config was found"@)),
        Some(k) => match env_number("PEXFETCH_HTTP_TIMEOUT_MS"@, timeout_ms, DEFAULT_HTTP_TIMEOUT_MS) {
            Err(e) => Err(e),
            Ok(t) => match env_number("PEXFETCH_DOWNLOAD_MAX_BYTES"@, max_bytes, DEFAULT_DOWNLOAD_MAX_BYTES) {
                Err(e) => Err(e),
                Ok(m) => match api_base_spec(api_base) {
                    Err(e) => Err(e),
                    Ok(b) => Ok(ClientView { api_base: b, api_key: k, http_timeout_ms: t, download_max_bytes: m }),
                },
            },
        },
    }
}

/// The connectivity probe: a one-result search for "status".
pub open spec fn connection_query_spec() -> Seq<(Seq<char>, Seq<char>)> {
    seq![("query"@, "status"@), ("page"@, "1"@), ("per_page"@, "1"@)]
}

impl PexelsClient {
    /// A client for the given key, base URL (the default when `None`) and
    /// settings; the base must be `https`, or `http` on a loopback host.
    pub fn new(api_key: String, api_base: Option<String>, config: ClientConfig) -> (r: Result<PexelsClient, AppError>)
        ensures
            match r {
                Ok(c) => api_base_spec(opt_string_view(api_base)) == Ok::<Seq<char>, ErrorView>(c@.api_base)
                    && c@.api_key == api_key@ && c@.http_timeout_ms == config.http_timeout_ms
                    && c@.download_max_bytes == config.download_max_bytes,
                Err(e) => api_base_spec(opt_string_view(api_base)) == Err::<Seq<char>, ErrorView>(e@),
            },
    {
        let base = match api_base {
            None => owned(DEFAULT_API_BASE),
            Some(b) => {
                let allowed = match parse_url(b.as_str()) {
                    Err(_) => starts_with_https(b.as_str()),
                    Ok(url) => {
                        let https = str_is(url.scheme.as_str(), "https");
                        let local_http = str_is(url.scheme.as_str(), "http") && match &url.host {
                            Some(h) => is_loopback(h.as_str()),
                            None => false,
                        };
                        https || local_http
                    },
                };
                if !allowed {
                    let mut m = owned(
                        "PEXFETCH_API_BASE must be an https:// URL (http:// is allowed only for loopback hosts), got ",
                    );
                    push_str(&mut m, b.as_str());
                    return Err(AppError::Message(m));
                }
                b
            },
        };
        Ok(PexelsClient { api_base: base, api_key, config })
    }

    /// The API base that requests are built on.
    pub fn api_base(&self) -> (r: &str)
        ensures
            r@ == self@.api_base,
    {
        self.api_base.as_str()
    }

    /// The timeout of every request, in milliseconds.
    pub fn http_timeout_ms(&self) -> (r: u64)
        ensures
            r == self@.http_timeout_ms,
    {
        self.config.http_timeout_ms
    }

    /// The size cap of a download, in bytes.
    pub fn download_max_bytes(&self) -> (r: u64)
        ensures
            r == self@.download_max_bytes,
    {
        self.config.download_max_bytes
    }

    /// The URL of an API path.
    pub fn endpoint(&self, path: &str) -> (r: Result<String, AppError>)
        ensures
            match r {
                Ok(u) => endpoint_spec(self@.api_base, path@) == Ok::<Seq<char>, ErrorView>(u@),
                Err(e) => endpoint_spec(self@.api_base, path@) == Err::<Seq<char>, ErrorView>(e@),
            },
    {
        let mut joined = trim_slashes(self.api_base.as_str(), true);
        push_str(&mut joined, "/");
        let tail = trim_slashes(path, false);
        push_str(&mut joined, tail.as_str());
        match parse_url(joined.as_str()) {
            Ok(url) => Ok(url.text),
            Err(text) => Err(AppError::Url(text)),
        }
    }

    fn api_request(&self, path: &str, query: Vec<(String, String)>) -> (r: Result<HttpRequest, AppError>)
        ensures
            match r {
                Ok(q) => api_request_spec(self@, path@, pairs_view(query@)) == Ok::<RequestView, ErrorView>(q@),
                Err(e) => api_request_spec(self@, path@, pairs_view(query@)) == Err::<RequestView, ErrorView>(e@),
            },
    {
        let url = self.endpoint(path)?;
        Ok(HttpRequest { url, authorization: Some(self.api_key.clone()), accept_json: true, query })
    }

    /// The request of a photo search (`GET /v1/search`).
    pub fn search_photos(&self, request: &SearchRequest) -> (r: Result<HttpRequest, AppError>)
        ensures
            match r {
                Ok(q) => api_request_spec(self@, "/v1/search"@, search_query_spec(*request)) == Ok::<RequestView, ErrorView>(q@),
                Err(e) => api_request_spec(self@, "/v1/search"@, search_query_spec(*request)) == Err::<RequestView, ErrorView>(e@),
            },
    {
        self.api_request("/v1/search", request.query_pairs())
    }

    /// The request of a video search (`GET /v1/videos/search`).
    pub fn search_videos(&self, request: &VideoSearchRequest) -> (r: Result<HttpRequest, AppError>)
        ensures
            match r {
                Ok(q) => api_request_spec(self@, "/v1/videos/search"@, video_search_query_spec(*request)) == Ok::<RequestView, ErrorView>(q@),
                Err(e) => api_request_spec(self@, "/v1/videos/search"@, video_search_query_spec(*request)) == Err::<RequestView, ErrorView>(e@),
            },
    {
        self.api_request("/v1/videos/search", request.query_pairs())
    }

    /// The request for one photo (`GET /v1/photos/<id>`).
    pub fn get_photo(&self, photo_id: u64) -> (r: Result<HttpRequest, AppError>)
        ensures
            match r {
                Ok(q) => api_request_spec(self@, "/v1/photos/"@ + decimal(photo_id as nat), Seq::empty()) == Ok::<RequestView, ErrorView>(q@),
                Err(e) => api_request_spec(self@, "/v1/photos/"@ + decimal(photo_id as nat), Seq::empty()) == Err::<RequestView, ErrorView>(e@),
            },
    {
        let mut path = owned("/v1/photos/");
        push_decimal(&mut path, photo_id);
        assert(path@ =~= "/v1/photos/"@ + decimal(photo_id as nat));
        let query: Vec<(String, String)> = Vec::new();
        assert(pairs_view(query@) =~= Seq::empty());
        self.api_request(path.as_str(), query)
    }

    /// The request for one video (`GET /v1/videos/videos/<id>`).
    pub fn get_video(&self, video_id: u64) -> (r: Result<HttpRequest, AppError>)
        ensures
            match r {
                Ok(q) => api_request_spec(self@, "/v1/videos/videos/"@ + decimal(video_id as nat), Seq::empty()) == Ok::<RequestView, ErrorView>(q@),
                Err(e) => api_request_spec(self@, "/v1/videos/videos/"@ + decimal(video_id as nat), Seq::empty()) == Err::<RequestView, ErrorView>(e@),
            },
    {
        let mut path = owned("/v1/videos/videos/");
        push_decimal(&mut path, video_id);
        assert(path@ =~= "/v1/videos/videos/"@ + decimal(video_id as nat));
        let query: Vec<(String, String)> = Vec::new();
        assert(pairs_view(query@) =~= Seq::empty());
        self.api_request(path.as_str(), query)
    }

    /// The connectivity probe: a one-result search for "status".
    pub fn check_connection(&self) -> (r: Result<HttpRequest, AppError>)
        ensures
            match r {
                Ok(q) => api_request_spec(self@, "/v1/search"@, connection_query_spec()) == Ok::<RequestView, ErrorView>(q@),
                Err(e) => api_request_spec(self@, "/v1/search"@, connection_query_spec()) == Err::<RequestView, ErrorView>(e@),
            },
    {
        let mut query: Vec<(String, String)> = Vec::new();
        push_pair(&mut query, "query", "status");
        push_pair(&mut query, "page", "1");
        push_pair(&mut query, "per_page", "1");
        assert(pairs_view(query@) =~= connection_query_spec());
        self.api_request("/v1/search", query)
    }

    /// The request that fetches a file: no API key, no query.
    pub fn download_file(&self, source_url: &str) -> (r: HttpRequest)
        ensures
            r@ == download_request_spec(source_url@),
    {
        let r = HttpRequest { url: owned(source_url), authorization: None, accept_json: false, query: Vec::new() };
        assert(r@.query =~= Seq::empty());
        r
    }
}

/// The error for a download larger than the cap.
pub open spec fn too_large_error(max_bytes: u64) -> ErrorView {
    ErrorView::Message(
        "download exceeds PEXFETCH_DOWNLOAD_MAX_BYTES ("@ + decimal(max_bytes as nat) + " bytes)"@,
    )
}

fn too_large(max_bytes: u64) -> (r: AppError)
    ensures
        r@ == too_large_error(max_bytes),
{
    let mut m = owned("download exceeds PEXFETCH_DOWNLOAD_MAX_BYTES (");
    push_decimal(&mut m, max_bytes);
    push_str(&mut m, " bytes)");
    assert(m@ =~= "download exceeds PEXFETCH_DOWNLOAD_MAX_BYTES ("@ + decimal(max_bytes as nat) + " bytes)"@);
    AppError::Message(m)
}

/// Counts the bytes of a download against the cap; the count never goes
/// past the cap.
pub struct DownloadBudget {
    max_bytes: u64,
    received: u64,
}

impl DownloadBudget {
    #[verifier::type_invariant]
    closed spec fn within_cap(&self) -> bool {
        self.received <= self.max_bytes
    }

    /// The cap, in bytes.
    pub closed spec fn cap(&self) -> u64 {
        self.max_bytes
    }

    /// The bytes accepted so far.
    pub closed spec fn count(&self) -> u64 {
        self.received
    }

    /// A budget of `max_bytes` with nothing received yet.
    pub fn new(max_bytes: u64) -> (r: DownloadBudget)
        ensures
            r.cap() == max_bytes,
            r.count() == 0,
    {
        DownloadBudget { max_bytes, received: 0 }
    }

    /// The bytes accepted so far.
    pub fn received(&self) -> (r: u64)
        ensures
            r == self.count(),
            r <= self.cap(),
    {
        proof {
            use_type_invariant(self);
        }
        self.received
    }

    /// Refuses a response whose declared length is over the cap.
    pub fn check_declared(&self, content_length: Option<u64>) -> (r: Result<(), AppError>)
        ensures
            r is Err <==> (content_length matches Some(n) && n > self.cap()),
            r matches Err(e) ==> e@ == too_large_error(self.cap()),
    {
        match content_length {
            Some(n) => if n > self.max_bytes {
                Err(too_large(self.max_bytes))
            } else {
                Ok(())
            },
            None => Ok(()),
        }
    }

    /// Accepts a chunk of `len` bytes if it keeps the total within the
    /// cap; otherwise refuses it and leaves the count unchanged.
    pub fn accept(&mut self, len: u64) -> (r: Result<(), AppError>)
        ensures
            final(self).cap() == old(self).cap(),
            r is Ok <==> old(self).count() + len <= old(self).cap(),
            r is Ok ==> final(self).count() == old(self).count() + len,
            r is Err ==> final(self).count() == old(self).count(),
            r matches Err(e) ==> e@ == too_large_error(old(self).cap()),
            final(self).count() <= final(self).cap(),
    {
        proof {
            use_type_invariant(&*self);
        }
        if len > self.max_bytes - self.received {
            Err(too_large(self.max_bytes))
        } else {
            self.received = self.received + len;
            Ok(())
        }
    }
}

} // verus!
