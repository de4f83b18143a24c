//! Quality variants of photos and videos, choosing the URL or file to
//! download, and naming the file on disk.

use vstd::prelude::*;

use crate::error::{AppError, ErrorView};
use crate::models::{Photo, Video, VideoFile};
use crate::paths::{extension_spec, join_path, parse_url, path_extension, path_join, url_parses, url_path};
use crate::srcmap::{keys_of, lookup, sorted_keys, SrcMap};
use crate::text::{
    ascii_lower, chars_eq, chars_of, decimal, eq_ignore_ascii_case, opt_string_view, owned, push_decimal,
    push_str, seq_lt, to_ascii_lower, views,
};

verus! {

/// The fixed set of photo sizes that Pexels offers; each matches a key of
/// `Photo::src`.
#[derive(Clone, Copy, PartialEq, Eq, Structural)]
pub enum Quality {
    Original,
    Large2x,
    Large,
    Medium,
    Small,
    Portrait,
    Landscape,
    Tiny,
}

/// The `src` key of a photo quality.
pub open spec fn quality_key(q: Quality) -> Seq<char> {
    match q {
        Quality::Original => "original"@,
        Quality::Large2x => "large2x"@,
        Quality::Large => "large"@,
        Quality::Medium => "medium"@,
        Quality::Small => "small"@,
        Quality::Portrait => "portrait"@,
        Quality::Landscape => "landscape"@,
        Quality::Tiny => "tiny"@,
    }
}

impl Quality {
    /// The `src` key of this quality.
    pub fn as_key(self) -> (r: &'static str)
        ensures
            r@ == quality_key(self),
    {
        match self {
            Quality::Original => "original",
            Quality::Large2x => "large2x",
            Quality::Large => "large",
            Quality::Medium => "medium",
            Quality::Small => "small",
            Quality::Portrait => "portrait",
            Quality::Landscape => "landscape",
            Quality::Tiny => "tiny",
        }
    }
}

/// The coarse quality buckets of the videos API.
#[derive(Clone, Copy, PartialEq, Eq, Structural)]
pub enum VideoQuality {
    Hd,
    Sd,
    Hls,
}

/// The `quality` string of a video bucket.
pub open spec fn video_quality_key(q: VideoQuality) -> Seq<char> {
    match q {
        VideoQuality::Hd => "hd"@,
        VideoQuality::Sd => "sd"@,
        VideoQuality::Hls => "hls"@,
    }
}

impl VideoQuality {
    /// The `quality` string of this bucket.
    pub fn as_key(self) -> (r: &'static str)
        ensures
            r@ == video_quality_key(self),
    {
        match self {
            VideoQuality::Hd => "hd",
            VideoQuality::Sd => "sd",
            VideoQuality::Hls => "hls",
        }
    }
}

/// The URL of the requested quality of a photo, or the error that lists
/// the qualities it has.
pub fn quality_url(photo: &Photo, quality: Quality) -> (r: Result<String, AppError>)
    ensures
        r matches Ok(u) ==> lookup(photo.src@, quality_key(quality)) == Some(u@),
        r is Err ==> lookup(photo.src@, quality_key(quality)) is None,
        r matches Err(e) ==> e@ == (ErrorView::InvalidQuality {
            quality: quality_key(quality),
            available: keys_of(photo.src@),
        }),
{
    let key = quality.as_key();
    match photo.src.get(key) {
        Some(url) => Ok(url.clone()),
        None => Err(AppError::InvalidQuality { quality: owned(key), available: photo.src.keys() }),
    }
}

/// The file-name suffix for a download URL: the extension of its path,
/// dot included, or `.jpeg` when the URL does not parse or its path has
/// no extension.
pub open spec fn suffix_for(source_url: Seq<char>) -> Seq<char> {
    if url_parses(source_url) {
        match extension_spec(url_path(source_url)) {
            Some(e) => "."@ + e,
            None => ".jpeg"@,
        }
    } else {
        ".jpeg"@
    }
}

/// Where a photo download is saved: `<dir>/<id>-<quality><suffix>`.
pub open spec fn destination_for(
    output_dir: Seq<char>,
    photo_id: u64,
    quality: Quality,
    source_url: Seq<char>,
) -> Seq<char> {
    path_join(
        output_dir,
        decimal(photo_id as nat) + "-"@ + quality_key(quality) + suffix_for(source_url),
    )
}

/// The path a photo download is saved to.
pub fn build_destination(output_dir: &str, photo_id: u64, quality: Quality, source_url: &str) -> (r:
    Result<String, AppError>)
    ensures
        r matches Ok(d) && d@ == destination_for(output_dir@, photo_id, quality, source_url@),
{
    let mut suffix = String::new();
    match parse_url(source_url) {
        Ok(url) => match path_extension(url.path.as_str()) {
            Some(ext) => {
                push_str(&mut suffix, ".");
                push_str(&mut suffix, ext.as_str());
            },
            None => push_str(&mut suffix, ".jpeg"),
        },
        Err(_) => push_str(&mut suffix, ".jpeg"),
    }
    let mut name = String::new();
    push_decimal(&mut name, photo_id);
    push_str(&mut name, "-");
    push_str(&mut name, quality.as_key());
    push_str(&mut name, suffix.as_str());
    assert(suffix@ =~= suffix_for(source_url@));
    assert(name@ =~= decimal(photo_id as nat) + "-"@ + quality_key(quality) + suffix_for(source_url@));
    Ok(join_path(output_dir, name.as_str()))
}

/// Index of the first occurrence of `c` in `s`, or -1.
pub open spec fn first_index_of(s: Seq<char>, c: char) -> int
    decreases s.len(),
{
    if s.len() == 0 {
        -1
    } else if s[0] == c {
        0
    } else {
        let i = first_index_of(s.drop_first(), c);
        if i < 0 {
            -1
        } else {
            i + 1
        }
    }
}

/// `t.split('/').nth(1)`: the text between the first and the second `/`
/// (or the end), when there is a first `/`.
pub open spec fn second_piece(t: Seq<char>) -> Option<Seq<char>> {
    let i = first_index_of(t, '/');
    if i < 0 {
        None
    } else {
        let rest = t.subrange(i + 1, t.len() as int);
        let j = first_index_of(rest, '/');
        Some(if j < 0 { rest } else { rest.subrange(0, j) })
    }
}

/// The file extension for a video's MIME type: the subtype, in any ASCII
/// case, picks `webm`, `mov` or `m3u8` (for the HLS types
/// `vnd.apple.mpegurl` and `x-mpegurl`), and anything else, or no type,
/// gives `mp4`.
pub open spec fn video_extension_spec(file_type: Option<Seq<char>>) -> Seq<char> {
    let sub = match file_type {
        Some(t) => second_piece(t),
        None => None,
    };
    match sub {
        Some(p) => if eq_ignore_ascii_case(p, "webm"@) {
            "webm"@
        } else if eq_ignore_ascii_case(p, "quicktime"@) {
            "mov"@
        } else if eq_ignore_ascii_case(p, "vnd.apple.mpegurl"@) || eq_ignore_ascii_case(p, "x-mpegurl"@) {
            "m3u8"@
        } else {
            "mp4"@
        },
        None => "mp4"@,
    }
}

proof fn lemma_first_index_of(s: Seq<char>, c: char)
    ensures
        -1 <= first_index_of(s, c) < s.len(),
        first_index_of(s, c) >= 0 ==> s[first_index_of(s, c)] == c,
        forall|j: int| 0 <= j < s.len() && (first_index_of(s, c) < 0 || j < first_index_of(s, c)) ==> s[j] != c,
    decreases s.len(),
{
    if s.len() > 0 && s[0] != c {
        lemma_first_index_of(s.drop_first(), c);
        assert forall|j: int| 0 <= j < s.len() && (first_index_of(s, c) < 0 || j < first_index_of(s, c)) implies s[j] != c by {
            if j > 0 {
                assert(s[j] == s.drop_first()[j - 1]);
            }
        }
    }
}

/// The first `c` in `v[from..]`, as an index into `v`.
fn find_first(v: &Vec<char>, from: usize, c: char) -> (r: Option<usize>)
    requires
        from <= v@.len(),
    ensures
        r matches Some(i) ==> from + first_index_of(v@.subrange(from as int, v@.len() as int), c) == i
            && from <= i < v@.len() && v@[i as int] == c,
        r is None ==> first_index_of(v@.subrange(from as int, v@.len() as int), c) < 0,
{
    let ghost s = v@.subrange(from as int, v@.len() as int);
    proof {
        lemma_first_index_of(s, c);
    }
    let mut i: usize = from;
    while i < v.len()
        invariant
            from <= i <= v@.len(),
            s == v@.subrange(from as int, v@.len() as int),
            forall|j: int| from <= j < i ==> v@[j] != c,
        decreases v@.len() - i,
    {
        if v[i] == c {
            assert(s[i - from] == c);
            assert forall|j: int| 0 <= j < i - from implies s[j] != c by {
                assert(s[j] == v@[from + j]);
            }
            proof {
                lemma_first_index_of(s, c);
                let f = first_index_of(s, c);
                if f >= 0 && f < i - from {
                    assert(s[f] != c);
                }
                if f < 0 {
                    assert(s[i - from] != c);
                }
            }
            return Some(i);
        }
        i = i + 1;
    }
    assert forall|j: int| 0 <= j < s.len() implies s[j] != c by {
        assert(s[j] == v@[from + j]);
    }
    None
}

/// Whether the characters `v[from..to]` spell `word`, ignoring ASCII case.
fn range_is(v: &Vec<char>, from: usize, to: usize, word: &str) -> (r: bool)
    requires
        from <= to <= v@.len(),
    ensures
        r == eq_ignore_ascii_case(v@.subrange(from as int, to as int), word@),
{
    let w = chars_of(word);
    let ghost sub = v@.subrange(from as int, to as int);
    if w.len() != to - from {
        return false;
    }
    let mut i: usize = 0;
    while i < w.len()
        invariant
            w@ == word@,
            w@.len() == to - from,
            from <= to <= v@.len(),
            sub == v@.subrange(from as int, to as int),
            i <= w@.len(),
            forall|j: int| 0 <= j < i ==> ascii_lower(#[trigger] sub[j]) == ascii_lower(w@[j]),
        decreases w@.len() - i,
    {
        if to_ascii_lower(v[from + i]) != to_ascii_lower(w[i]) {
            assert(sub[i as int] == v@[from + i]);
            return false;
        }
        assert(sub[i as int] == v@[from + i]);
        i = i + 1;
    }
    true
}

/// The file extension for a video's MIME type.
pub fn video_extension_for(file_type: Option<&str>) -> (r: &'static str)
    ensures
        r@ == video_extension_spec(match file_type {
            Some(t) => Some(t@),
            None => None,
        }),
{
    let t = match file_type {
        Some(t) => t,
        None => return "mp4",
    };
    let v = chars_of(t);
    let i = match find_first(&v, 0, '/') {
        Some(i) => i,
        None => {
            assert(v@.subrange(0, v@.len() as int) =~= t@);
            return "mp4";
        },
    };
    assert(v@.subrange(0, v@.len() as int) =~= t@);
    let end = match find_first(&v, i + 1, '/') {
        Some(j) => j,
        None => v.len(),
    };
    let ghost rest = t@.subrange(i + 1, t@.len() as int);
    assert(v@.subrange(i + 1, v@.len() as int) == rest);
    assert(second_piece(t@) == Some(v@.subrange(i + 1, end as int))) by {
        if end < v.len() {
            assert(rest.subrange(0, end - (i + 1)) =~= v@.subrange(i + 1, end as int));
        }
    }
    if range_is(&v, i + 1, end, "webm") {
        "webm"
    } else if range_is(&v, i + 1, end, "quicktime") {
        "mov"
    } else if range_is(&v, i + 1, end, "vnd.apple.mpegurl") || range_is(&v, i + 1, end, "x-mpegurl") {
        "m3u8"
    } else {
        "mp4"
    }
}

/// Where a video download is saved: `<dir>/<video id>-<file id>.<ext>`.
pub open spec fn video_destination_for(
    output_dir: Seq<char>,
    video_id: u64,
    file_id: u64,
    file_type: Option<Seq<char>>,
) -> Seq<char> {
    path_join(
        output_dir,
        decimal(video_id as nat) + "-"@ + decimal(file_id as nat) + "."@ + video_extension_spec(
            file_type,
        ),
    )
}

/// The path a video download is saved to.
pub fn build_video_destination(
    output_dir: &str,
    video_id: u64,
    file_id: u64,
    file_type: Option<&str>,
) -> (r: String)
    ensures
        r@ == video_destination_for(output_dir@, video_id, file_id, match file_type {
            Some(t) => Some(t@),
            None => None,
        }),
{
    let ext = video_extension_for(file_type);
    let mut name = String::new();
    push_decimal(&mut name, video_id);
    push_str(&mut name, "-");
    push_decimal(&mut name, file_id);
    push_str(&mut name, ".");
    push_str(&mut name, ext);
    assert(name@ =~= decimal(video_id as nat) + "-"@ + decimal(file_id as nat) + "."@
        + video_extension_spec(match file_type {
        Some(t) => Some(t@),
        None => None,
    }));
    join_path(output_dir, name.as_str())
}

/// Whether a video file is in the given quality bucket.
pub open spec fn has_quality(f: VideoFile, key: Seq<char>) -> bool {
    opt_string_view(f.quality) == Some(key)
}

/// File `i` is the one to download for quality `key`: in that bucket,
/// with the highest score, and the first such in the order the API listed them.
pub open spec fn is_best_file(files: Seq<VideoFile>, key: Seq<char>, i: int) -> bool {
    &&& 0 <= i < files.len()
    &&& has_quality(files[i], key)
    &&& forall|j: int| 0 <= j < files.len() && has_quality(files[j], key) ==> files[j].score <= files[i].score
    &&& forall|j: int| 0 <= j < i && has_quality(files[j], key) ==> files[j].score < files[i].score
}

/// Some file carries quality `q`.
pub open spec fn quality_present(files: Seq<VideoFile>, q: Seq<char>) -> bool {
    exists|i: int| 0 <= i < files.len() && opt_string_view(#[trigger] files[i].quality) == Some(q)
}

/// Strictly increasing, hence without repetition.
pub open spec fn strictly_sorted(s: Seq<Seq<char>>) -> bool {
    forall|i: int, j: int| 0 <= i < j < s.len() ==> seq_lt(#[trigger] s[i], #[trigger] s[j])
}

proof fn lemma_sorted_keys_strict(e: Seq<(Seq<char>, Seq<char>)>)
    requires
        sorted_keys(e),
    ensures
        strictly_sorted(keys_of(e)),
{
    assert forall|i: int, j: int| 0 <= i < j < keys_of(e).len() implies seq_lt(#[trigger] keys_of(e)[i], #[trigger] keys_of(e)[j]) by {
        assert(keys_of(e)[i] == e[i].0);
        assert(keys_of(e)[j] == e[j].0);
    }
}

/// The file to download for a video quality: the one with the highest
/// score (width times frame rate), the first of equals in the order the
/// API listed them. When no file has that quality, the error lists the
/// qualities the video has, sorted and without repetition.
pub fn pick_video_file_by_quality<'a>(video: &'a Video, quality: VideoQuality) -> (r: Result<
    &'a VideoFile,
    AppError,
>)
    ensures
        r matches Ok(f) ==> exists|i: int|
            is_best_file(video.video_files@, video_quality_key(quality), i)
                && *f == video.video_files@[i],
        r is Err <==> forall|i: int|
            0 <= i < video.video_files@.len() ==> !has_quality(
                #[trigger] video.video_files@[i],
                video_quality_key(quality),
            ),
        r matches Err(e) ==> {
            &&& e@ is InvalidQuality
            &&& e@->quality == video_quality_key(quality)
            &&& strictly_sorted(e@->available)
            &&& forall|q: Seq<char>| #[trigger] e@->available.contains(q) <==> quality_present(
                video.video_files@,
                q,
            )
        },
{
    let files = &video.video_files;
    let key_str = quality.as_key();
    let key = chars_of(key_str);
    let ghost k = video_quality_key(quality);
    let mut best: Option<usize> = None;
    let mut seen = SrcMap::new();
    let mut i: usize = 0;
    while i < files.len()
        invariant
            i <= files@.len(),
            key@ == k,
            sorted_keys(seen@),
            forall|q: Seq<char>| #[trigger] keys_of(seen@).contains(q) <==> exists|j: int|
                0 <= j < i && opt_string_view(#[trigger] files@[j].quality) == Some(q),
            best is None ==> forall|j: int| 0 <= j < i ==> !has_quality(#[trigger] files@[j], k),
            best matches Some(b) ==> {
                &&& b < i
                &&& has_quality(files@[b as int], k)
                &&& forall|j: int| 0 <= j < i && has_quality(#[trigger] files@[j], k) ==> files@[j].score <= files@[b as int].score
                &&& forall|j: int| 0 <= j < b && has_quality(#[trigger] files@[j], k) ==> files@[j].score < files@[b as int].score
            },
        decreases files@.len() - i,
    {
        let ghost old_seen = seen@;
        match &files[i].quality {
            Some(q) => {
                let qc = chars_of(q.as_str());
                if chars_eq(&qc, &key) {
                    match best {
                        None => {
                            best = Some(i);
                        },
                        Some(b) => {
                            if files[i].score > files[b].score {
                                best = Some(i);
                            }
                        },
                    }
                }
                seen.insert(q.clone(), String::new());
                assert forall|p: Seq<char>| #[trigger] keys_of(seen@).contains(p) <==> exists|j: int|
                    0 <= j < i + 1 && opt_string_view(#[trigger] files@[j].quality) == Some(p) by {
                    if keys_of(old_seen).contains(p) {
                        let j = choose|j: int| 0 <= j < i && opt_string_view(#[trigger] files@[j].quality) == Some(p);
                        assert(0 <= j < i + 1 && opt_string_view(files@[j].quality) == Some(p));
                    }
                    if p == q@ {
                        assert(opt_string_view(files@[i as int].quality) == Some(p));
                    }
                    if exists|j: int| 0 <= j < i + 1 && opt_string_view(#[trigger] files@[j].quality) == Some(p) {
                        let j = choose|j: int| 0 <= j < i + 1 && opt_string_view(#[trigger] files@[j].quality) == Some(p);
                        if j < i {
                            assert(keys_of(old_seen).contains(p));
                        }
                    }
                }
            },
            None => {
                assert forall|p: Seq<char>| #[trigger] keys_of(seen@).contains(p) <==> exists|j: int|
                    0 <= j < i + 1 && opt_string_view(#[trigger] files@[j].quality) == Some(p) by {
                    if exists|j: int| 0 <= j < i + 1 && opt_string_view(#[trigger] files@[j].quality) == Some(p) {
                        let j = choose|j: int| 0 <= j < i + 1 && opt_string_view(#[trigger] files@[j].quality) == Some(p);
                        assert(j < i);
                    }
                    if keys_of(old_seen).contains(p) {
                        let j = choose|j: int| 0 <= j < i && opt_string_view(#[trigger] files@[j].quality) == Some(p);
                        assert(0 <= j < i + 1 && opt_string_view(files@[j].quality) == Some(p));
                    }
                }
            },
        }
        i = i + 1;
    }
    match best {
        Some(b) => {
            assert(is_best_file(files@, k, b as int));
            Ok(&files[b])
        },
        None => {
            let available = seen.keys();
            proof {
                lemma_sorted_keys_strict(seen@);
                assert forall|q: Seq<char>| #[trigger] views(available@).contains(q) <==> quality_present(files@, q) by {
                    if views(available@).contains(q) {
                        assert(keys_of(seen@).contains(q));
                    }
                    if quality_present(files@, q) {
                        let j = choose|j: int| 0 <= j < files@.len() && opt_string_view(#[trigger] files@[j].quality) == Some(q);
                        assert(keys_of(seen@).contains(q));
                    }
                }
            }
            Err(AppError::InvalidQuality { quality: owned(key_str), available })
        },
    }
}

/// The video file with the given id (the `--video-file-id` choice), the
/// first in the order the API listed them, or a not-found error.
pub fn pick_video_file_by_id<'a>(video: &'a Video, file_id: u64) -> (r: Result<&'a VideoFile, AppError>)
    ensures
        r matches Ok(f) ==> exists|i: int|
            0 <= i < video.video_files@.len() && video.video_files@[i].id == file_id
                && (forall|j: int| 0 <= j < i ==> #[trigger] video.video_files@[j].id != file_id)
                && *f == video.video_files@[i],
        r is Err <==> forall|i: int|
            0 <= i < video.video_files@.len() ==> #[trigger] video.video_files@[i].id != file_id,
        r matches Err(e) ==> e@ == ErrorView::NotFound(
            "video "@ + decimal(video.id as nat) + " has no file with id "@ + decimal(file_id as nat),
        ),
{
    let mut i: usize = 0;
    while i < video.video_files.len()
        invariant
            i <= video.video_files@.len(),
            forall|j: int| 0 <= j < i ==> #[trigger] video.video_files@[j].id != file_id,
        decreases video.video_files@.len() - i,
    {
        if video.video_files[i].id == file_id {
            assert(video.video_files@[i as int].id == file_id);
            return Ok(&video.video_files[i]);
        }
        i = i + 1;
    }
    let mut m = owned("video ");
    push_decimal(&mut m, video.id);
    push_str(&mut m, " has no file with id ");
    push_decimal(&mut m, file_id);
    assert(m@ =~= "video "@ + decimal(video.id as nat) + " has no file with id "@ + decimal(file_id as nat));
    Err(AppError::NotFound(m))
}

} // verus!
