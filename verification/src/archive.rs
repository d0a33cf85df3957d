//! Helpers for the archive-file endpoints: classifying entries by filename,
//! validating a requested entry path, and locating an archived file on disk
//! from its metadata row.

use vstd::prelude::*;

use crate::db::{bumped, DbError};
use crate::ids::{FileMetaId, PostId};
use crate::state::AppState;
use crate::strfmt::{dec_str, format_u64};

verus! {

/// How many posts share one directory chunk on disk.
pub const POSTS_PER_CHUNK: u32 = 2048;

/// The characters after the last `'.'` of a name; the whole name when it
/// holds no dot, empty when it ends in one.
pub open spec fn ext_of(s: Seq<char>) -> Seq<char>
    decreases s.len(),
{
    if s.len() == 0 {
        s
    } else if s.last() == '.' {
        Seq::empty()
    } else {
        ext_of(s.drop_last()).push(s.last())
    }
}

/// `a` equals `b` up to ASCII case, where `b` is already lower case: either
/// the same character, or exactly the upper-case letter 32 below it.
pub open spec fn eq_ci(a: char, b: char) -> bool {
    a == b || (a as u32) + 32 == (b as u32)
}

/// `s` spells `t` up to ASCII case, where `t` is a lower-case literal.
pub open spec fn matches_ci(s: Seq<char>, t: Seq<char>) -> bool {
    s.len() == t.len() && forall|i: int| 0 <= i < s.len() ==> eq_ci(#[trigger] s[i], t[i])
}

/// Whether a filename names an image, judged by its extension alone,
/// ASCII-case-insensitively.
pub open spec fn is_image_name(s: Seq<char>) -> bool {
    ||| matches_ci(ext_of(s), "jpg"@)
    ||| matches_ci(ext_of(s), "jpeg"@)
    ||| matches_ci(ext_of(s), "png"@)
    ||| matches_ci(ext_of(s), "gif"@)
    ||| matches_ci(ext_of(s), "webp"@)
    ||| matches_ci(ext_of(s), "bmp"@)
    ||| matches_ci(ext_of(s), "svg"@)
}

proof fn lemma_ext_at(s: Seq<char>, d: int)
    requires
        0 <= d <= s.len(),
        forall|j: int| d <= j < s.len() ==> s[j] != '.',
        d == 0 || s[d - 1] == '.',
    ensures
        ext_of(s) =~= s.skip(d),
    decreases s.len(),
{
    if s.len() == 0 {
    } else if s.last() == '.' {
        assert(d == s.len());
    } else {
        assert(d < s.len());
        let t = s.drop_last();
        lemma_ext_at(t, d);
        assert(t.skip(d).push(s.last()) =~= s.skip(d));
    }
}

fn char_eq_ci(a: char, b: char) -> (r: bool)
    ensures
        r == eq_ci(a, b),
{
    if a == b {
        true
    } else {
        let av = a as u32;
        let bv = b as u32;
        av < u32::MAX - 32 && av + 32 == bv
    }
}

fn str_matches_ci(s: &str, t: &str) -> (r: bool)
    ensures
        r == matches_ci(s@, t@),
{
    let sn = s.unicode_len();
    let tn = t.unicode_len();
    if sn != tn {
        return false;
    }
    let mut i: usize = 0;
    while i < sn
        invariant
            i <= sn,
            sn == s@.len(),
            sn == t@.len(),
            forall|j: int| 0 <= j < i ==> eq_ci(#[trigger] s@[j], t@[j]),
        decreases sn - i,
    {
        if !char_eq_ci(s.get_char(i), t.get_char(i)) {
            return false;
        }
        i = i + 1;
    }
    true
}

/// Classifies a filename as an image by its extension, ignoring ASCII case.
pub fn is_image_file(name: &str) -> (r: bool)
    ensures
        r == is_image_name(name@),
{
    let n = name.unicode_len();
    let mut d: usize = n;
    while d > 0 && name.get_char(d - 1) != '.'
        invariant
            d <= n,
            n == name@.len(),
            forall|j: int| d <= j < n ==> name@[j] != '.',
        decreases d,
    {
        d = d - 1;
    }
    proof {
        lemma_ext_at(name@, d as int);
    }
    let ext = name.substring_char(d, n);
    str_matches_ci(ext, "jpg") || str_matches_ci(ext, "jpeg") || str_matches_ci(ext, "png")
        || str_matches_ci(ext, "gif") || str_matches_ci(ext, "webp") || str_matches_ci(ext, "bmp")
        || str_matches_ci(ext, "svg")
}

/// A one-character segment `.` stands at `i`.
pub open spec fn dot_seg_at(s: Seq<char>, i: int) -> bool {
    &&& 0 <= i < s.len()
    &&& s[i] == '.'
    &&& (i == 0 || s[i - 1] == '/')
    &&& (i + 1 == s.len() || s[i + 1] == '/')
}

/// A two-character segment `..` starts at `i`.
pub open spec fn dotdot_seg_at(s: Seq<char>, i: int) -> bool {
    &&& 0 <= i && i + 1 < s.len()
    &&& s[i] == '.'
    &&& s[i + 1] == '.'
    &&& (i == 0 || s[i - 1] == '/')
    &&& (i + 2 == s.len() || s[i + 2] == '/')
}

/// A requested archive-entry path is safe when every `/`-separated segment
/// is a plain name: the path is not empty, not absolute, holds no empty
/// segment and no `.` or `..` segment — nothing that could escape the
/// archive when the entry is extracted.
pub open spec fn safe_entry_path(s: Seq<char>) -> bool {
    &&& s.len() > 0
    &&& s[0] != '/'
    &&& s[s.len() - 1] != '/'
    &&& forall|i: int| 0 <= i < s.len() - 1 ==> !(#[trigger] s[i] == '/' && s[i + 1] == '/')
    &&& forall|i: int| !dot_seg_at(s, i)
    &&& forall|i: int| !dotdot_seg_at(s, i)
}

/// Validates a requested entry path against [`safe_entry_path`].
pub fn is_safe_entry_path(path: &str) -> (r: bool)
    ensures
        r == safe_entry_path(path@),
{
    let n = path.unicode_len();
    if n == 0 {
        return false;
    }
    if path.get_char(0) == '/' {
        return false;
    }
    if path.get_char(n - 1) == '/' {
        return false;
    }
    let mut i: usize = 0;
    while i < n
        invariant
            i <= n,
            n == path@.len(),
            n > 0,
            path@[0] != '/',
            path@[n - 1] != '/',
            forall|j: int| 0 <= j < i && j < n - 1 ==> !(#[trigger] path@[j] == '/' && path@[j + 1]
                == '/'),
            forall|j: int| 0 <= j < i ==> !dot_seg_at(path@, j),
            forall|j: int| 0 <= j < i ==> !dotdot_seg_at(path@, j),
        decreases n - i,
    {
        let c = path.get_char(i);
        if c == '/' && i + 1 < n && path.get_char(i + 1) == '/' {
            return false;
        }
        if c == '.' && (i == 0 || path.get_char(i - 1) == '/') {
            if i + 1 == n || path.get_char(i + 1) == '/' {
                proof {
                    assert(dot_seg_at(path@, i as int));
                }
                return false;
            }
            if path.get_char(i + 1) == '.' && (i + 2 == n || path.get_char(i + 2) == '/') {
                proof {
                    assert(dotdot_seg_at(path@, i as int));
                }
                return false;
            }
        }
        proof {
            assert(!dot_seg_at(path@, i as int));
            assert(!dotdot_seg_at(path@, i as int));
        }
        i = i + 1;
    }
    proof {
        assert forall|j: int| !dot_seg_at(path@, j) by {
            if 0 <= j < n {
                assert(!dot_seg_at(path@, j));
            }
        };
        assert forall|j: int| !dotdot_seg_at(path@, j) by {
            if 0 <= j < n {
                assert(!dotdot_seg_at(path@, j));
            }
        };
    }
    true
}

/// The archive-relative location of a post's file: posts are chunked 2048
/// to a directory, so the path is `<post/2048>/<post%2048>/<filename>`.
pub fn file_rel_path(post: PostId, filename: &str) -> (r: String)
    ensures
        r@ == dec_str((post.0 / 2048u32) as nat) + ("/")@ + dec_str((post.0 % 2048u32) as nat) + (
        "/")@ + filename@,
{
    let mut s = format_u64((post.0 / POSTS_PER_CHUNK) as u64);
    s.append("/");
    let sub = format_u64((post.0 % POSTS_PER_CHUNK) as u64);
    s.append(sub.as_str());
    s.append("/");
    s.append(filename);
    s
}

/// A path of the chunked shape: the owning post's chunk directory and index
/// directory, then a file name.
pub open spec fn chunked_path(p: Seq<char>, post: u32, name: Seq<char>) -> bool {
    p == dec_str((post / 2048u32) as nat) + ("/")@ + dec_str((post % 2048u32) as nat) + ("/")@
        + name
}

/// Some post number and file name give the path its chunked shape.
pub open spec fn is_chunked_path(p: Seq<char>) -> bool {
    exists|post: u32, name: Seq<char>| #[trigger] chunked_path(p, post, name)
}

/// Locates one archived file: looks its filename and owning post up, then
/// computes the archive-relative path, always of the chunked shape. `None`
/// is a valid "no such file".
pub fn get_file_path(st: &mut AppState, id: FileMetaId) -> (r: Result<Option<String>, DbError>)
    ensures
        final(st).caches == old(st).caches,
        final(st).full_text_search == old(st).full_text_search,
        final(st).db.spec_queries() == bumped(old(st).db.spec_queries()),
        r matches Ok(Some(p)) ==> is_chunked_path(p@),
{
    match st.db.run_file_location(id) {
        Ok(Some((filename, post))) => {
            let p = file_rel_path(PostId(post), filename.as_str());
            proof {
                assert(chunked_path(p@, post, filename@));
                assert(is_chunked_path(p@));
            }
            Ok(Some(p))
        },
        Ok(None) => Ok(None),
        Err(e) => Err(e),
    }
}

/// One entry of a compressed archive's listing.
#[derive(Debug, Clone, PartialEq)]
pub struct ArchiveEntry {
    pub name: String,
    pub size: u64,
    pub is_image: bool,
}

/// The listing of a compressed archive.
#[derive(Debug, Clone, PartialEq)]
pub struct ArchiveListResponse {
    pub entries: Vec<ArchiveEntry>,
}

/// The parameter bag of an extract request: which entry to serve.
#[derive(Debug, Clone)]
pub struct ExtractQuery {
    pub file: String,
}

/// The plain values of an entry list.
pub open spec fn entry_views(s: Seq<ArchiveEntry>) -> Seq<(Seq<char>, u64, bool)> {
    s.map_values(|e: ArchiveEntry| (e.name@, e.size, e.is_image))
}

/// The listing a raw entry table (name, size, directory flag) denotes:
/// directories are dropped, files keep their size and are classified as
/// images by extension.
pub open spec fn spec_archive_entries(raw: Seq<(String, u64, bool)>) -> Seq<(Seq<char>, u64, bool)>
    decreases raw.len(),
{
    if raw.len() == 0 {
        Seq::empty()
    } else {
        spec_archive_entries(raw.drop_last()) + (if raw.last().2 {
            Seq::empty()
        } else {
            seq![(raw.last().0@, raw.last().1, is_image_name(raw.last().0@))]
        })
    }
}

/// Builds an archive listing from the raw entry table the container format
/// hands back: each tuple is an entry's name, size and directory flag.
pub fn archive_entries(raw: Vec<(String, u64, bool)>) -> (r: ArchiveListResponse)
    ensures
        entry_views(r.entries@) == spec_archive_entries(raw@),
{
    let mut entries: Vec<ArchiveEntry> = Vec::new();
    let mut i: usize = 0;
    while i < raw.len()
        invariant
            i <= raw.len(),
            entry_views(entries@) == spec_archive_entries(raw@.take(i as int)),
        decreases raw.len() - i,
    {
        let ghost before = entries@;
        if !raw[i].2 {
            let is_image = is_image_file(raw[i].0.as_str());
            entries.push(ArchiveEntry { name: raw[i].0.clone(), size: raw[i].1, is_image });
        }
        proof {
            assert(raw@.take(i + 1).drop_last() =~= raw@.take(i as int));
            assert(raw@.take(i + 1).last() == raw@[i as int]);
            assert(entry_views(entries@) =~= spec_archive_entries(raw@.take(i + 1))) by {
                if !raw@[i as int].2 {
                    assert(entries@ == before.push(entries@.last()));
                    assert forall|j: int| 0 <= j < entries@.len() implies entry_views(entries@)[j]
                        == spec_archive_entries(raw@.take(i + 1))[j] by {
                        if j < before.len() {
                            assert(entry_views(before)[j] == spec_archive_entries(
                                raw@.take(i as int),
                            )[j]);
                            assert(entry_views(entries@)[j] == entry_views(before)[j]);
                        }
                    };
                }
            };
        }
        i = i + 1;
    }
    proof {
        assert(raw@.take(raw@.len() as int) =~= raw@);
    }
    ArchiveListResponse { entries }
}

} // verus!
