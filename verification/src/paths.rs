//! Unix path arithmetic on strings (`Path::join`, `Path::file_name`,
//! `Path::extension`) and URL parsing through the `url` crate.

use vstd::prelude::*;

use crate::text::{chars_of, opt_string_view, push_str, string_of_range};

verus! {

/// `Path::new(dir).join(name)` on Unix, for a relative `name`: a
/// separator goes between them unless `dir` is empty or already ends in
/// one.
pub open spec fn path_join(dir: Seq<char>, name: Seq<char>) -> Seq<char> {
    if dir.len() == 0 || dir.last() == '/' {
        dir + name
    } else {
        dir + seq!['/'] + name
    }
}

/// The characters after the last `/` (all of `p` when it has none).
pub open spec fn last_segment(p: Seq<char>) -> Seq<char>
    decreases p.len(),
{
    if p.len() == 0 || p.last() == '/' {
        Seq::empty()
    } else {
        last_segment(p.drop_last()).push(p.last())
    }
}

/// `Path::file_name` on Unix: the last component, skipping trailing
/// separators and `.` components; `None` for a path that ends in `..`, is
/// the root, or is empty.
pub open spec fn file_name_spec(p: Seq<char>) -> Option<Seq<char>>
    decreases p.len(),
{
    if p.len() == 0 {
        None
    } else if p.last() == '/' {
        file_name_spec(p.drop_last())
    } else if last_segment(p) == seq!['.'] {
        file_name_spec(p.drop_last())
    } else if last_segment(p) == seq!['.', '.'] {
        None
    } else {
        Some(last_segment(p))
    }
}

/// Index of the last occurrence of `c` in `s`, or -1.
pub open spec fn last_index_of(s: Seq<char>, c: char) -> int
    decreases s.len(),
{
    if s.len() == 0 {
        -1
    } else if s.last() == c {
        s.len() - 1
    } else {
        last_index_of(s.drop_last(), c)
    }
}

/// The extension of a file name: what follows its last `.`, unless it has
/// none or its only leading part is empty (as in `.profile`).
pub open spec fn name_extension(name: Seq<char>) -> Option<Seq<char>> {
    let i = last_index_of(name, '.');
    if i <= 0 {
        None
    } else {
        Some(name.subrange(i + 1, name.len() as int))
    }
}

/// `Path::extension` on Unix.
pub open spec fn extension_spec(p: Seq<char>) -> Option<Seq<char>> {
    match file_name_spec(p) {
        Some(name) => name_extension(name),
        None => None,
    }
}

proof fn lemma_last_index_of_bounds(s: Seq<char>, c: char)
    ensures
        -1 <= last_index_of(s, c) < s.len(),
        last_index_of(s, c) >= 0 ==> s[last_index_of(s, c)] == c,
        forall|j: int| last_index_of(s, c) < j < s.len() ==> s[j] != c,
    decreases s.len(),
{
    if s.len() > 0 && s.last() != c {
        lemma_last_index_of_bounds(s.drop_last(), c);
        assert forall|j: int| last_index_of(s, c) < j < s.len() implies s[j] != c by {
            if j < s.len() - 1 {
                assert(s[j] == s.drop_last()[j]);
            }
        }
    }
}

/// `last_index_of` found by scanning back from `k`.
proof fn lemma_last_index_of_scan(s: Seq<char>, c: char, k: int)
    requires
        0 <= k <= s.len(),
        forall|j: int| k <= j < s.len() ==> s[j] != c,
    ensures
        last_index_of(s, c) == last_index_of(s.subrange(0, k), c),
    decreases s.len() - k,
{
    if k < s.len() {
        assert(s.drop_last().subrange(0, k) =~= s.subrange(0, k));
        assert forall|j: int| k <= j < s.drop_last().len() implies s.drop_last()[j] != c by {
            assert(s.drop_last()[j] == s[j]);
        }
        lemma_last_index_of_scan(s.drop_last(), c, k);
    } else {
        assert(s.subrange(0, k) =~= s);
    }
}

/// The last segment is what follows the last separator.
proof fn lemma_last_segment(s: Seq<char>)
    ensures
        last_segment(s) == s.subrange(last_index_of(s, '/') + 1, s.len() as int),
    decreases s.len(),
{
    if s.len() > 0 && s.last() != '/' {
        lemma_last_segment(s.drop_last());
        lemma_last_index_of_bounds(s.drop_last(), '/');
        assert(s.subrange(last_index_of(s, '/') + 1, s.len() as int) =~= s.drop_last().subrange(
            last_index_of(s.drop_last(), '/') + 1,
            s.drop_last().len() as int,
        ).push(s.last()));
    } else if s.len() > 0 {
        assert(s.subrange(s.len() as int, s.len() as int) =~= Seq::<char>::empty());
    }
}

/// The position of the last `c` in `v[0..end]`, or -1.
fn find_last(v: &Vec<char>, end: usize, c: char) -> (r: Option<usize>)
    requires
        end <= v@.len(),
    ensures
        r matches Some(i) ==> i == last_index_of(v@.subrange(0, end as int), c),
        r is None ==> last_index_of(v@.subrange(0, end as int), c) == -1,
{
    let mut k: usize = end;
    while k > 0
        invariant
            k <= end <= v@.len(),
            forall|j: int| k <= j < end ==> v@[j] != c,
        decreases k,
    {
        if v[k - 1] == c {
            let ghost s = v@.subrange(0, end as int);
            proof {
                lemma_last_index_of_scan(s, c, k as int);
                assert(s.subrange(0, k as int).last() == c);
            }
            return Some(k - 1);
        }
        k = k - 1;
    }
    proof {
        lemma_last_index_of_scan(v@.subrange(0, end as int), c, 0);
    }
    None
}

/// `Path::new(dir).join(name)` for a relative `name`.
pub fn join_path(dir: &str, name: &str) -> (r: String)
    ensures
        r@ == path_join(dir@, name@),
{
    let v = chars_of(dir);
    let mut r = crate::text::owned(dir);
    if v.len() > 0 && v[v.len() - 1] != '/' {
        push_str(&mut r, "/");
        proof {
            reveal_strlit("/");
        }
    }
    push_str(&mut r, name);
    assert(r@ =~= path_join(dir@, name@));
    r
}

/// `Path::new(path).extension()`.
pub fn path_extension(path: &str) -> (r: Option<String>)
    ensures
        opt_string_view(r) == extension_spec(path@),
{
    let v = chars_of(path);
    let mut j: usize = v.len();
    assert(v@.subrange(0, j as int) =~= path@);
    let mut start: usize = 0;
    loop
        invariant
            j <= v@.len(),
            v@ == path@,
            file_name_spec(path@) == file_name_spec(v@.subrange(0, j as int)),
        ensures
            start <= j <= v@.len(),
            file_name_spec(path@) == Some(v@.subrange(start as int, j as int)),
        decreases j,
    {
        let ghost p = v@.subrange(0, j as int);
        if j == 0 {
            return None;
        }
        if v[j - 1] == '/' {
            assert(p.drop_last() =~= v@.subrange(0, j - 1));
            j = j - 1;
            continue;
        }
        let slash = find_last(&v, j, '/');
        proof {
            lemma_last_segment(p);
            lemma_last_index_of_bounds(p, '/');
        }
        let k = match slash {
            Some(i) => i + 1,
            None => 0,
        };
        let seg_len = j - k;
        assert(last_segment(p) =~= v@.subrange(k as int, j as int));
        if seg_len == 1 && v[k] == '.' {
            assert(last_segment(p) =~= seq!['.']);
            assert(p.drop_last() =~= v@.subrange(0, j - 1));
            j = j - 1;
            continue;
        }
        if seg_len == 2 && v[k] == '.' && v[k + 1] == '.' {
            assert(last_segment(p) =~= seq!['.', '.']);
            return None;
        }
        proof {
            if last_segment(p) == seq!['.'] {
                assert(last_segment(p)[0] == v@[k as int]);
            }
            if last_segment(p) == seq!['.', '.'] {
                assert(last_segment(p)[0] == v@[k as int]);
                assert(last_segment(p)[1] == v@[k + 1]);
            }
        }
        start = k;
        break;
    }
    let ghost name = v@.subrange(start as int, j as int);
    let name_chars = {
        let mut w: Vec<char> = Vec::new();
        let mut i: usize = start;
        while i < j
            invariant
                start <= i <= j <= v@.len(),
                w@ == v@.subrange(start as int, i as int),
            decreases j - i,
        {
            w.push(v[i]);
            i = i + 1;
            assert(w@ =~= v@.subrange(start as int, i as int));
        }
        w
    };
    assert(name_chars@ == name);
    let dot = find_last(&name_chars, name_chars.len(), '.');
    assert(name_chars@.subrange(0, name_chars@.len() as int) =~= name);
    if dot.is_none() || dot == Some(0usize) {
        None
    } else {
        let d = dot.unwrap();
        proof {
            lemma_last_index_of_bounds(name, '.');
        }
        Some(string_of_range(&name_chars, d + 1, name_chars.len()))
    }
}

/// Whether `url::Url::parse` accepts the input.
pub uninterp spec fn url_parses(input: Seq<char>) -> bool;

/// The serialization (`Url::as_str`) of the URL that `Url::parse` reads
/// from the input.
pub uninterp spec fn url_text(input: Seq<char>) -> Seq<char>;

/// The scheme (`Url::scheme`) of the URL that `Url::parse` reads from the
/// input.
pub uninterp spec fn url_scheme(input: Seq<char>) -> Seq<char>;

/// The host (`Url::host_str`) of the URL that `Url::parse` reads from the
/// input.
pub uninterp spec fn url_host(input: Seq<char>) -> Option<Seq<char>>;

/// The path (`Url::path`) of the URL that `Url::parse` reads from the
/// input.
pub uninterp spec fn url_path(input: Seq<char>) -> Seq<char>;

/// The message (`Display` of `url::ParseError`) of the error that
/// `Url::parse` reports for the input.
pub uninterp spec fn url_parse_error(input: Seq<char>) -> Seq<char>;

/// The parts of a parsed URL that the client looks at.
pub struct ParsedUrl {
    pub text: String,
    pub scheme: String,
    pub host: Option<String>,
    pub path: String,
}

/// Parses a URL with `url::Url::parse` and reads back its serialization,
/// scheme, host and path. What these are is named, not stated: each is a
/// function of the input alone. On failure, the parse error's message.
#[verifier::external_body]
pub(crate) fn parse_url(input: &str) -> (r: Result<ParsedUrl, String>)
    ensures
        r is Ok <==> url_parses(input@),
        r matches Ok(u) ==> {
            &&& u.text@ == url_text(input@)
            &&& u.scheme@ == url_scheme(input@)
            &&& opt_string_view(u.host) == url_host(input@)
            &&& u.path@ == url_path(input@)
        },
        r matches Err(e) ==> e@ == url_parse_error(input@),
{
    match url::Url::parse(input) {
        Ok(u) => Ok(ParsedUrl {
            text: u.as_str().to_owned(),
            scheme: u.scheme().to_owned(),
            host: u.host_str().map(|h| h.to_owned()),
            path: u.path().to_owned(),
        }),
        Err(e) => Err(e.to_string()),
    }
}

} // verus!
