//! Properties that span several functions or several steps of a command.

use vstd::prelude::*;

use crate::auth::{auth_choice, env_key_spec, prompted_key_spec, stored_key_spec, StoredConfig};
use crate::cli::{AuthCommand, Command};
use crate::error::ErrorView;
use crate::run::{
    authenticated_spec, emits_status, env_config_path, fails_with, search_pairs, step_spec, video_search_pairs, Action,
    Env, Event, State,
};
use crate::cli::{SearchArgs, VideoSearchArgs};
use crate::payloads::shown_api_base;
use crate::quality::{quality_key, video_quality_key, Quality, VideoQuality};
use crate::client::{
    api_base_spec, opt_str_view, optional_pair, search_query_spec, video_search_query_spec, SearchRequest, VideoSearchRequest,
};
use crate::text::{decimal, is_ws, opt_string_view, trim, trim_end, trim_start};

verus! {

/// `PEXELS_API_KEY` wins over the stored config: whenever it holds a
/// non-blank value, that value (trimmed) is the key and the source is
/// `env`, whatever the config file holds.
pub proof fn law_env_key_wins(env_key: Seq<char>, stored: Option<Seq<char>>)
    requires
        trim(env_key).len() > 0,
    ensures
        auth_choice(Some(env_key), stored) == (Some(trim(env_key)), "env"@),
{
}

/// Without a usable `PEXELS_API_KEY`, the stored key is used when there is
/// one, and otherwise nothing is configured.
pub proof fn law_stored_key_is_fallback(env_key: Option<Seq<char>>, stored: Option<Seq<char>>)
    requires
        env_key_spec(env_key) is None,
    ensures
        auth_choice(env_key, stored) == match stored {
            Some(k) => (Some(k), "config"@),
            None => (None::<Seq<char>>, "none"@),
        },
{
}

/// A config file whose key is blank counts as no credential at all.
pub proof fn law_blank_stored_key_is_unconfigured(path: Seq<char>, stored: StoredConfig)
    requires
        stored matches StoredConfig::Parsed(k) && trim(k@).len() == 0,
    ensures
        stored_key_spec(path, stored) == Ok::<Option<Seq<char>>, ErrorView>(None),
{
}

/// What `auth login` saves is what a later read of the config file gives
/// back: a key typed at the prompt and saved, then read with no usable
/// `PEXELS_API_KEY`, is the key in effect, from the config.
pub proof fn law_login_then_read(answer: Seq<char>, path: Seq<char>, stored: StoredConfig, env_key: Option<Seq<char>>)
    requires
        prompted_key_spec(answer) is Ok,
        stored matches StoredConfig::Parsed(k) && k@ == prompted_key_spec(answer)->Ok_0,
        env_key_spec(env_key) is None,
    ensures
        stored_key_spec(path, stored) matches Ok(k) && auth_choice(env_key, k) == (
            Some(trim(answer)),
            "config"@,
        ),
{
    lemma_trim_idempotent(answer);
}

/// `auth login --api-key k` saves `k`, trimmed, at the config path, and
/// the steps up to the save never read the config file: a later login
/// writes its own key whatever an earlier one saved.
pub proof fn law_login_saves_the_given_key(k: String, env: Env, r1: (State, Action), r2: (State, Action))
    requires
        env_config_path(env) is Ok,
        step_spec(Command::Auth { command: AuthCommand::Login { api_key: Some(k) } }, env, State::Begin, Event::Start, r1),
        step_spec(Command::Auth { command: AuthCommand::Login { api_key: Some(k) } }, env, r1.0, Event::Warned, r2),
    ensures
        r1.1 is Warn,
        r2.1 matches Action::SaveConfig { path, api_key } && api_key@ == trim(k@) && path@ == env_config_path(env)->Ok_0,
{
}

/// After `auth logout` removed the file, reading it again finds nothing,
/// so without `PEXELS_API_KEY` nothing is configured.
pub proof fn law_logout_then_unconfigured(path: Seq<char>, env_key: Option<Seq<char>>)
    requires
        env_key_spec(env_key) is None,
    ensures
        stored_key_spec(path, StoredConfig::Missing) matches Ok(k) && auth_choice(env_key, k) == (
            None::<Seq<char>>,
            "none"@,
        ),
{
}

/// Trimming twice is trimming once.
pub proof fn lemma_trim_idempotent(s: Seq<char>)
    ensures
        trim(trim(s)) == trim(s),
{
    let a = trim_start(s);
    let b = trim_end(a);
    lemma_trim_start_head(s);
    lemma_trim_end_last(a);
    lemma_trim_end_prefix(a);
    if b.len() > 0 {
        assert(b[0] == a[0]);
    }
    assert(trim_start(b) == b);
    assert(trim_end(b) == b);
}

proof fn lemma_trim_start_head(s: Seq<char>)
    ensures
        trim_start(s).len() == 0 || !is_ws(trim_start(s)[0]),
    decreases s.len(),
{
    if s.len() > 0 && is_ws(s[0]) {
        lemma_trim_start_head(s.drop_first());
    }
}

proof fn lemma_trim_end_last(s: Seq<char>)
    ensures
        trim_end(s).len() == 0 || !is_ws(trim_end(s).last()),
    decreases s.len(),
{
    if s.len() > 0 && is_ws(s.last()) {
        lemma_trim_end_last(s.drop_last());
    }
}

proof fn lemma_trim_end_prefix(s: Seq<char>)
    ensures
        trim_end(s).len() <= s.len(),
        trim_end(s) == s.subrange(0, trim_end(s).len() as int),
    decreases s.len(),
{
    if s.len() > 0 && is_ws(s.last()) {
        lemma_trim_end_prefix(s.drop_last());
        let e = trim_end(s.drop_last());
        assert(s.drop_last().subrange(0, e.len() as int) =~= s.subrange(0, e.len() as int));
    } else {
        assert(s.subrange(0, s.len() as int) =~= s);
    }
}

/// `status` never fails for want of a credential: without a key it still
/// prints its payload, unreachable, with the missing-credential message.
pub proof fn law_status_reports_missing_key(env: Env, p: Seq<char>, source: Seq<char>, r: (State, Action))
    requires
        authenticated_spec(Command::Status, env, p, None, source, None, r),
    ensures
        r.1 is Emit,
        emits_status(
            r,
            p,
            false,
            source,
            crate::payloads::shown_api_base(crate::text::opt_string_view(env.api_base)),
            Some("PEXELS_API_KEY is not set and no stored config was found"@),
        ),
{
}

/// Every other command stops at once without a credential, with the
/// missing-credential error.
pub proof fn law_commands_need_a_key(cmd: Command, env: Env, p: Seq<char>, source: Seq<char>, r: (State, Action))
    requires
        !(cmd is Auth),
        !(cmd is Status),
        authenticated_spec(cmd, env, p, None, source, None, r),
    ensures
        fails_with(r, ErrorView::MissingCredential("PEXELS_API_KEY is not set and no stored config was found"@)),
{
}

/// What an optional parameter contributes: the pair when the value is set,
/// nothing otherwise.
proof fn lemma_optional_pair_contains(name: Seq<char>, value: Option<Seq<char>>, x: (Seq<char>, Seq<char>))
    ensures
        optional_pair(name, value).contains(x) <==> (value matches Some(v) && x == (name, v)),
{
    match value {
        Some(v) => {
            if x == (name, v) {
                assert(optional_pair(name, value)[0] == x);
            }
        },
        None => {},
    }
}

/// What a three-element sequence holds.
proof fn lemma_three_contains<A>(a: A, b: A, c: A, x: A)
    ensures
        seq![a, b, c].contains(x) <==> (x == a || x == b || x == c),
{
    if x == a {
        assert(seq![a, b, c][0] == x);
    }
    if x == b {
        assert(seq![a, b, c][1] == x);
    }
    if x == c {
        assert(seq![a, b, c][2] == x);
    }
}

/// The names of the query parameters differ from one another.
proof fn lemma_query_names_distinct()
    ensures
        "query"@ != "page"@,
        "query"@ != "per_page"@,
        "query"@ != "orientation"@,
        "query"@ != "size"@,
        "query"@ != "color"@,
        "query"@ != "locale"@,
        "page"@ != "per_page"@,
        "page"@ != "orientation"@,
        "page"@ != "size"@,
        "page"@ != "color"@,
        "page"@ != "locale"@,
        "per_page"@ != "orientation"@,
        "per_page"@ != "size"@,
        "per_page"@ != "color"@,
        "per_page"@ != "locale"@,
        "orientation"@ != "size"@,
        "orientation"@ != "color"@,
        "orientation"@ != "locale"@,
        "size"@ != "color"@,
        "size"@ != "locale"@,
        "color"@ != "locale"@,
{
    reveal_strlit("query");
    reveal_strlit("page");
    reveal_strlit("per_page");
    reveal_strlit("orientation");
    reveal_strlit("size");
    reveal_strlit("color");
    reveal_strlit("locale");
    assert("page"@.len() == 4 && "per_page"@.len() == 8 && "orientation"@.len() == 11);
    assert("page"@[0] != "size"@[0]);
    assert("query"@[0] != "color"@[0]);
}

/// Membership in a query string made of the three fixed parameters and
/// four optional ones.
proof fn lemma_query_contains(
    base: Seq<(Seq<char>, Seq<char>)>,
    o1: Seq<(Seq<char>, Seq<char>)>,
    o2: Seq<(Seq<char>, Seq<char>)>,
    o3: Seq<(Seq<char>, Seq<char>)>,
    o4: Seq<(Seq<char>, Seq<char>)>,
    x: (Seq<char>, Seq<char>),
)
    ensures
        (base + o1 + o2 + o3 + o4).contains(x) <==> (base.contains(x) || o1.contains(x) || o2.contains(x)
            || o3.contains(x) || o4.contains(x)),
{
    vstd::seq_lib::lemma_seq_concat_contains_all_elements(base, o1, x);
    vstd::seq_lib::lemma_seq_concat_contains_all_elements(base + o1, o2, x);
    vstd::seq_lib::lemma_seq_concat_contains_all_elements(base + o1 + o2, o3, x);
    vstd::seq_lib::lemma_seq_concat_contains_all_elements(base + o1 + o2 + o3, o4, x);
}

/// Which named pair a query string of the three fixed parameters and the
/// four given optional ones holds, for the name `n` and value `v`.
proof fn lemma_query_pair(
    q: Seq<char>,
    page: Seq<char>,
    per_page: Seq<char>,
    n1: Seq<char>,
    v1: Option<Seq<char>>,
    n2: Seq<char>,
    v2: Option<Seq<char>>,
    n3: Seq<char>,
    v3: Option<Seq<char>>,
    n4: Seq<char>,
    v4: Option<Seq<char>>,
    x: (Seq<char>, Seq<char>),
)
    ensures
        (seq![("query"@, q), ("page"@, page), ("per_page"@, per_page)] + optional_pair(n1, v1)
            + optional_pair(n2, v2) + optional_pair(n3, v3) + optional_pair(n4, v4)).contains(x) <==> {
            ||| x == ("query"@, q)
            ||| x == ("page"@, page)
            ||| x == ("per_page"@, per_page)
            ||| (v1 matches Some(w) && x == (n1, w))
            ||| (v2 matches Some(w) && x == (n2, w))
            ||| (v3 matches Some(w) && x == (n3, w))
            ||| (v4 matches Some(w) && x == (n4, w))
        },
{
    lemma_query_contains(
        seq![("query"@, q), ("page"@, page), ("per_page"@, per_page)],
        optional_pair(n1, v1),
        optional_pair(n2, v2),
        optional_pair(n3, v3),
        optional_pair(n4, v4),
        x,
    );
    lemma_three_contains(("query"@, q), ("page"@, page), ("per_page"@, per_page), x);
    lemma_optional_pair_contains(n1, v1, x);
    lemma_optional_pair_contains(n2, v2, x);
    lemma_optional_pair_contains(n3, v3, x);
    lemma_optional_pair_contains(n4, v4, x);
}

/// The query string of a photo search carries every argument, each under
/// its own name: `query`, `page` and `per_page` always, and each filter
/// (`orientation`, `size`, `color`, `locale`) with its value exactly when
/// it is set. No other name is sent.
pub proof fn law_search_query_carries_every_argument<'a>(r: SearchRequest<'a>, v: Seq<char>)
    ensures
        search_query_spec(r).contains(("query"@, v)) <==> v == r.query@,
        search_query_spec(r).contains(("page"@, v)) <==> v == decimal(r.page as nat),
        search_query_spec(r).contains(("per_page"@, v)) <==> v == decimal(r.per_page as nat),
        search_query_spec(r).contains(("orientation"@, v)) <==> opt_str_view(r.orientation) == Some(v),
        search_query_spec(r).contains(("size"@, v)) <==> opt_str_view(r.size) == Some(v),
        search_query_spec(r).contains(("color"@, v)) <==> opt_str_view(r.color) == Some(v),
        search_query_spec(r).contains(("locale"@, v)) <==> opt_str_view(r.locale) == Some(v),
        forall|x: (Seq<char>, Seq<char>)| #[trigger] search_query_spec(r).contains(x) ==> {
            ||| x.0 == "query"@
            ||| x.0 == "page"@
            ||| x.0 == "per_page"@
            ||| x.0 == "orientation"@
            ||| x.0 == "size"@
            ||| x.0 == "color"@
            ||| x.0 == "locale"@
        },
{
    lemma_query_names_distinct();
    assert forall|x: (Seq<char>, Seq<char>)| #[trigger] search_query_spec(r).contains(x) <==> {
        ||| x == ("query"@, r.query@)
        ||| x == ("page"@, decimal(r.page as nat))
        ||| x == ("per_page"@, decimal(r.per_page as nat))
        ||| (opt_str_view(r.orientation) matches Some(w) && x == ("orientation"@, w))
        ||| (opt_str_view(r.size) matches Some(w) && x == ("size"@, w))
        ||| (opt_str_view(r.color) matches Some(w) && x == ("color"@, w))
        ||| (opt_str_view(r.locale) matches Some(w) && x == ("locale"@, w))
    } by {
        lemma_query_pair(
            r.query@,
            decimal(r.page as nat),
            decimal(r.per_page as nat),
            "orientation"@,
            opt_str_view(r.orientation),
            "size"@,
            opt_str_view(r.size),
            "color"@,
            opt_str_view(r.color),
            "locale"@,
            opt_str_view(r.locale),
            x,
        );
    }
}

/// Membership in a query string made of the three fixed parameters and
/// three optional ones.
proof fn lemma_query_contains3(
    base: Seq<(Seq<char>, Seq<char>)>,
    o1: Seq<(Seq<char>, Seq<char>)>,
    o2: Seq<(Seq<char>, Seq<char>)>,
    o3: Seq<(Seq<char>, Seq<char>)>,
    x: (Seq<char>, Seq<char>),
)
    ensures
        (base + o1 + o2 + o3).contains(x) <==> (base.contains(x) || o1.contains(x) || o2.contains(x)
            || o3.contains(x)),
{
    vstd::seq_lib::lemma_seq_concat_contains_all_elements(base, o1, x);
    vstd::seq_lib::lemma_seq_concat_contains_all_elements(base + o1, o2, x);
    vstd::seq_lib::lemma_seq_concat_contains_all_elements(base + o1 + o2, o3, x);
}

/// Which named pair a query string of the three fixed parameters and the
/// three given optional ones holds.
proof fn lemma_query_pair3(
    q: Seq<char>,
    page: Seq<char>,
    per_page: Seq<char>,
    n1: Seq<char>,
    v1: Option<Seq<char>>,
    n2: Seq<char>,
    v2: Option<Seq<char>>,
    n3: Seq<char>,
    v3: Option<Seq<char>>,
    x: (Seq<char>, Seq<char>),
)
    ensures
        (seq![("query"@, q), ("page"@, page), ("per_page"@, per_page)] + optional_pair(n1, v1)
            + optional_pair(n2, v2) + optional_pair(n3, v3)).contains(x) <==> {
            ||| x == ("query"@, q)
            ||| x == ("page"@, page)
            ||| x == ("per_page"@, per_page)
            ||| (v1 matches Some(w) && x == (n1, w))
            ||| (v2 matches Some(w) && x == (n2, w))
            ||| (v3 matches Some(w) && x == (n3, w))
        },
{
    lemma_query_contains3(
        seq![("query"@, q), ("page"@, page), ("per_page"@, per_page)],
        optional_pair(n1, v1),
        optional_pair(n2, v2),
        optional_pair(n3, v3),
        x,
    );
    lemma_three_contains(("query"@, q), ("page"@, page), ("per_page"@, per_page), x);
    lemma_optional_pair_contains(n1, v1, x);
    lemma_optional_pair_contains(n2, v2, x);
    lemma_optional_pair_contains(n3, v3, x);
}

/// The query string of a video search carries every argument, each under
/// its own name: `query`, `page` and `per_page` always, and each filter
/// (`orientation`, `size`, `locale`) with its value exactly when it is
/// set. No other name is sent.
pub proof fn law_video_search_query_carries_every_argument<'a>(r: VideoSearchRequest<'a>, v: Seq<char>)
    ensures
        video_search_query_spec(r).contains(("query"@, v)) <==> v == r.query@,
        video_search_query_spec(r).contains(("page"@, v)) <==> v == decimal(r.page as nat),
        video_search_query_spec(r).contains(("per_page"@, v)) <==> v == decimal(r.per_page as nat),
        video_search_query_spec(r).contains(("orientation"@, v)) <==> opt_str_view(r.orientation) == Some(v),
        video_search_query_spec(r).contains(("size"@, v)) <==> opt_str_view(r.size) == Some(v),
        video_search_query_spec(r).contains(("locale"@, v)) <==> opt_str_view(r.locale) == Some(v),
        forall|x: (Seq<char>, Seq<char>)| #[trigger] video_search_query_spec(r).contains(x) ==> {
            ||| x.0 == "query"@
            ||| x.0 == "page"@
            ||| x.0 == "per_page"@
            ||| x.0 == "orientation"@
            ||| x.0 == "size"@
            ||| x.0 == "locale"@
        },
{
    lemma_query_names_distinct();
    assert forall|x: (Seq<char>, Seq<char>)| #[trigger] video_search_query_spec(r).contains(x) <==> {
        ||| x == ("query"@, r.query@)
        ||| x == ("page"@, decimal(r.page as nat))
        ||| x == ("per_page"@, decimal(r.per_page as nat))
        ||| (opt_str_view(r.orientation) matches Some(w) && x == ("orientation"@, w))
        ||| (opt_str_view(r.size) matches Some(w) && x == ("size"@, w))
        ||| (opt_str_view(r.locale) matches Some(w) && x == ("locale"@, w))
    } by {
        lemma_query_pair3(
            r.query@,
            decimal(r.page as nat),
            decimal(r.per_page as nat),
            "orientation"@,
            opt_str_view(r.orientation),
            "size"@,
            opt_str_view(r.size),
            "locale"@,
            opt_str_view(r.locale),
            x,
        );
    }
}

/// The request that `search` and `download-first` send carries every
/// search argument of the command line, each under its own name, each
/// filter exactly when it was given. No other name is sent.
pub proof fn law_search_command_sends_every_argument(a: SearchArgs, v: Seq<char>)
    ensures
        search_pairs(a).contains(("query"@, v)) <==> v == a.query@,
        search_pairs(a).contains(("page"@, v)) <==> v == decimal(a.page as nat),
        search_pairs(a).contains(("per_page"@, v)) <==> v == decimal(a.per_page as nat),
        search_pairs(a).contains(("orientation"@, v)) <==> opt_string_view(a.orientation) == Some(v),
        search_pairs(a).contains(("size"@, v)) <==> opt_string_view(a.size) == Some(v),
        search_pairs(a).contains(("color"@, v)) <==> opt_string_view(a.color) == Some(v),
        search_pairs(a).contains(("locale"@, v)) <==> opt_string_view(a.locale) == Some(v),
        forall|x: (Seq<char>, Seq<char>)| #[trigger] search_pairs(a).contains(x) ==> {
            ||| x.0 == "query"@
            ||| x.0 == "page"@
            ||| x.0 == "per_page"@
            ||| x.0 == "orientation"@
            ||| x.0 == "size"@
            ||| x.0 == "color"@
            ||| x.0 == "locale"@
        },
{
    lemma_query_names_distinct();
    assert forall|x: (Seq<char>, Seq<char>)| #[trigger] search_pairs(a).contains(x) <==> {
        ||| x == ("query"@, a.query@)
        ||| x == ("page"@, decimal(a.page as nat))
        ||| x == ("per_page"@, decimal(a.per_page as nat))
        ||| (opt_string_view(a.orientation) matches Some(w) && x == ("orientation"@, w))
        ||| (opt_string_view(a.size) matches Some(w) && x == ("size"@, w))
        ||| (opt_string_view(a.color) matches Some(w) && x == ("color"@, w))
        ||| (opt_string_view(a.locale) matches Some(w) && x == ("locale"@, w))
    } by {
        lemma_query_pair(
            a.query@,
            decimal(a.page as nat),
            decimal(a.per_page as nat),
            "orientation"@,
            opt_string_view(a.orientation),
            "size"@,
            opt_string_view(a.size),
            "color"@,
            opt_string_view(a.color),
            "locale"@,
            opt_string_view(a.locale),
            x,
        );
    }
}

/// The request that `videos search` and `videos download-first` send
/// carries every search argument of the command line, each under its own
/// name, each filter exactly when it was given. No other name is sent.
pub proof fn law_video_search_command_sends_every_argument(a: VideoSearchArgs, v: Seq<char>)
    ensures
        video_search_pairs(a).contains(("query"@, v)) <==> v == a.query@,
        video_search_pairs(a).contains(("page"@, v)) <==> v == decimal(a.page as nat),
        video_search_pairs(a).contains(("per_page"@, v)) <==> v == decimal(a.per_page as nat),
        video_search_pairs(a).contains(("orientation"@, v)) <==> opt_string_view(a.orientation) == Some(v),
        video_search_pairs(a).contains(("size"@, v)) <==> opt_string_view(a.size) == Some(v),
        video_search_pairs(a).contains(("locale"@, v)) <==> opt_string_view(a.locale) == Some(v),
        forall|x: (Seq<char>, Seq<char>)| #[trigger] video_search_pairs(a).contains(x) ==> {
            ||| x.0 == "query"@
            ||| x.0 == "page"@
            ||| x.0 == "per_page"@
            ||| x.0 == "orientation"@
            ||| x.0 == "size"@
            ||| x.0 == "locale"@
        },
{
    lemma_query_names_distinct();
    assert forall|x: (Seq<char>, Seq<char>)| #[trigger] video_search_pairs(a).contains(x) <==> {
        ||| x == ("query"@, a.query@)
        ||| x == ("page"@, decimal(a.page as nat))
        ||| x == ("per_page"@, decimal(a.per_page as nat))
        ||| (opt_string_view(a.orientation) matches Some(w) && x == ("orientation"@, w))
        ||| (opt_string_view(a.size) matches Some(w) && x == ("size"@, w))
        ||| (opt_string_view(a.locale) matches Some(w) && x == ("locale"@, w))
    } by {
        lemma_query_pair3(
            a.query@,
            decimal(a.page as nat),
            decimal(a.per_page as nat),
            "orientation"@,
            opt_string_view(a.orientation),
            "size"@,
            opt_string_view(a.size),
            "locale"@,
            opt_string_view(a.locale),
            x,
        );
    }
}

/// Each photo quality asks for the `src` entry of its own name, spelled as
/// on the command line, and no two qualities ask for the same entry.
pub proof fn law_quality_keys_are_their_names(a: Quality, b: Quality)
    ensures
        quality_key(Quality::Original) == "original"@,
        quality_key(Quality::Large2x) == "large2x"@,
        quality_key(Quality::Large) == "large"@,
        quality_key(Quality::Medium) == "medium"@,
        quality_key(Quality::Small) == "small"@,
        quality_key(Quality::Portrait) == "portrait"@,
        quality_key(Quality::Landscape) == "landscape"@,
        quality_key(Quality::Tiny) == "tiny"@,
        quality_key(a) == quality_key(b) ==> a == b,
{
    reveal_strlit("original");
    reveal_strlit("large2x");
    reveal_strlit("large");
    reveal_strlit("medium");
    reveal_strlit("small");
    reveal_strlit("portrait");
    reveal_strlit("landscape");
    reveal_strlit("tiny");
    assert("original"@.len() == 8 && "large2x"@.len() == 7 && "large"@.len() == 5 && "medium"@.len() == 6);
    assert("small"@.len() == 5 && "portrait"@.len() == 8 && "landscape"@.len() == 9 && "tiny"@.len() == 4);
    assert("original"@[0] != "portrait"@[0]);
    assert("large"@[0] != "small"@[0]);
}

/// Each video quality asks for the files whose `quality` is its own name,
/// spelled as on the command line, and no two ask for the same files.
pub proof fn law_video_quality_keys_are_their_names(a: VideoQuality, b: VideoQuality)
    ensures
        video_quality_key(VideoQuality::Hd) == "hd"@,
        video_quality_key(VideoQuality::Sd) == "sd"@,
        video_quality_key(VideoQuality::Hls) == "hls"@,
        video_quality_key(a) == video_quality_key(b) ==> a == b,
{
    reveal_strlit("hd");
    reveal_strlit("sd");
    reveal_strlit("hls");
    assert("hd"@.len() == 2 && "sd"@.len() == 2 && "hls"@.len() == 3);
    assert("hd"@[0] != "sd"@[0]);
}

/// The API base that `status` reports is the one the client uses: the
/// base that the scheme rule accepts, and `https://api.pexels.com` when
/// `PEXFETCH_API_BASE` is unset.
pub proof fn law_status_shows_the_base_in_use(raw: Option<Seq<char>>)
    ensures
        api_base_spec(raw) matches Ok(b) ==> shown_api_base(raw) == b,
        raw is None ==> shown_api_base(raw) == "https://api.pexels.com"@,
{
}

/// The key typed at the login prompt is taken whenever it is not blank:
/// trimmed, whatever its length or characters, and that trimmed key is
/// what the next step saves. Only a blank answer is refused.
pub proof fn law_prompted_key_accepts_every_nonblank_answer(
    answer: Seq<char>,
    env: Env,
    typed: String,
    r: (State, Action),
)
    ensures
        trim(answer).len() > 0 ==> prompted_key_spec(answer) == Ok::<Seq<char>, ErrorView>(trim(answer)),
        trim(answer).len() == 0 ==> prompted_key_spec(answer) is Err,
        (trim(typed@).len() > 0 && env_config_path(env) is Ok && step_spec(
            Command::Auth { command: AuthCommand::Login { api_key: None } },
            env,
            State::Prompting,
            Event::Prompted(typed),
            r,
        )) ==> (r.1 matches Action::SaveConfig { api_key, .. } && api_key@ == trim(typed@)),
{
}

} // verus!
