//! Folder scanner: from a directory listing, keep the regular files whose
//! extension (compared case-insensitively) names an accepted image format,
//! in listing order.

use vstd::prelude::*;
use crate::strutil::{last_index, lower, str_eq_ci};
use vstd::string::StrSliceExecFns;

verus! {

/// One entry of a directory listing as the file system reports it:
/// the full path and whether it is a regular file.
pub struct DirListing {
    pub path: String,
    pub is_file: bool,
}

/// An eligible image file: its path and whether its format is animated.
/// It is only meaningful for the scan generation that produced it.
pub struct MediaEntry {
    pub path: String,
    pub animated: bool,
}

/// The directory could not be read at all.
#[derive(Debug)]
pub struct ScanError {
    pub unreadable: bool,
}

impl View for DirListing {
    type V = (Seq<char>, bool);

    open spec fn view(&self) -> (Seq<char>, bool) {
        (self.path@, self.is_file)
    }
}

impl View for MediaEntry {
    type V = (Seq<char>, bool);

    open spec fn view(&self) -> (Seq<char>, bool) {
        (self.path@, self.animated)
    }
}

/// The views of a sequence of viewable values.
pub open spec fn views_of<T: View>(s: Seq<T>) -> Seq<T::V> {
    s.map_values(|x: T| x@)
}

/// The path has an extension: a dot after the last path separator, with at
/// least one character between the separator (or the start) and the dot.
pub open spec fn has_ext(p: Seq<char>) -> bool {
    last_index(p, '.') > last_index(p, '/') + 1
}

/// The extension: everything after the last dot.
pub open spec fn ext_of(p: Seq<char>) -> Seq<char> {
    p.subrange(last_index(p, '.') + 1, p.len() as int)
}

/// The extension equals `e` up to ASCII case.
pub open spec fn ext_is(p: Seq<char>, e: Seq<char>) -> bool {
    has_ext(p) && lower(ext_of(p)) == lower(e)
}

/// A still image format accepted by every backend.
pub open spec fn is_static_name(p: Seq<char>) -> bool {
    ext_is(p, "png"@) || ext_is(p, "jpg"@) || ext_is(p, "jpeg"@)
}

/// An animated image format, accepted only when the active backend can
/// play it.
pub open spec fn is_animated_name(p: Seq<char>) -> bool {
    ext_is(p, "gif"@)
}

/// The listing entry belongs in the scan queue.
pub open spec fn eligible(e: (Seq<char>, bool), include_animated: bool) -> bool {
    e.1 && (is_static_name(e.0) || (include_animated && is_animated_name(e.0)))
}

/// The scan queue of a listing: eligible entries, in listing order, each
/// marked animated or not.
pub open spec fn scan_spec(entries: Seq<(Seq<char>, bool)>, include_animated: bool) -> Seq<
    (Seq<char>, bool),
>
    decreases entries.len(),
{
    if entries.len() == 0 {
        Seq::empty()
    } else {
        let prefix = scan_spec(entries.drop_last(), include_animated);
        let e = entries.last();
        if eligible(e, include_animated) {
            prefix.push((e.0, is_animated_name(e.0)))
        } else {
            prefix
        }
    }
}

/// The extension of `path`, when it has one.
pub fn file_extension(path: &str) -> (r: Option<&str>)
    ensures
        r is Some <==> has_ext(path@),
        r is Some ==> r->0@ == ext_of(path@),
{
    let len: usize = path.unicode_len();
    let dot: Option<usize> = crate::strutil::find_last(path, '.');
    let slash: Option<usize> = crate::strutil::find_last(path, '/');
    match dot {
        None => None,
        Some(d) => {
            proof {
                crate::strutil::lemma_last_index_bounds(path@, '.');
                crate::strutil::lemma_last_index_bounds(path@, '/');
            }
            let ok: bool = match slash {
                None => d >= 1,
                Some(sl) => d > sl && d - sl > 1,
            };
            if ok {
                Some(path.substring_char(d + 1, len))
            } else {
                None
            }
        },
    }
}

pub fn name_is_static(path: &str) -> (r: bool)
    ensures
        r == is_static_name(path@),
{
    match file_extension(path) {
        None => false,
        Some(ext) => str_eq_ci(ext, "png") || str_eq_ci(ext, "jpg") || str_eq_ci(ext, "jpeg"),
    }
}

pub fn name_is_animated(path: &str) -> (r: bool)
    ensures
        r == is_animated_name(path@),
{
    match file_extension(path) {
        None => false,
        Some(ext) => str_eq_ci(ext, "gif"),
    }
}

/// Filters a directory listing into the ordered scan queue.
pub fn scan_folder(entries: &Vec<DirListing>, include_animated: bool) -> (r: Vec<MediaEntry>)
    ensures
        views_of(r@) == scan_spec(views_of(entries@), include_animated),
{
    let n: usize = entries.len();
    let mut out: Vec<MediaEntry> = Vec::new();
    let mut i: usize = 0;
    proof {
        assert(views_of(out@) =~= scan_spec(views_of(entries@).take(0), include_animated));
    }
    while i < n
        invariant
            n == entries@.len(),
            i <= n,
            views_of(out@) == scan_spec(views_of(entries@).take(i as int), include_animated),
        decreases n - i,
    {
        let e = &entries[i];
        let ghost pre = views_of(entries@).take(i as int);
        let ghost cur = views_of(entries@).take(i + 1);
        proof {
            assert(cur.drop_last() =~= pre);
            assert(cur.last() == entries@[i as int]@);
        }
        if e.is_file {
            let animated: bool = name_is_animated(e.path.as_str());
            if name_is_static(e.path.as_str()) || (include_animated && animated) {
                let m = MediaEntry { path: e.path.clone(), animated };
                out.push(m);
                proof {
                    assert(views_of(out@) =~= scan_spec(cur, include_animated));
                }
            }
        }
        proof {
            assert(views_of(out@) =~= scan_spec(cur, include_animated));
        }
        i = i + 1;
    }
    proof {
        assert(views_of(entries@).take(n as int) =~= views_of(entries@));
    }
    out
}

/// The final component of a path: everything after the last separator.
pub open spec fn file_name_of(p: Seq<char>) -> Seq<char> {
    p.subrange(last_index(p, '/') + 1, p.len() as int)
}

pub fn file_name(path: &str) -> (r: &str)
    ensures
        r@ == file_name_of(path@),
{
    let len: usize = path.unicode_len();
    proof {
        crate::strutil::lemma_last_index_bounds(path@, '/');
    }
    match crate::strutil::find_last(path, '/') {
        None => path.substring_char(0, len),
        Some(s) => path.substring_char(s + 1, len),
    }
}

/// The visibility filter of the preview grid: an entry stays visible when
/// its file name contains the search text, case-insensitively; an empty
/// search shows everything.
pub fn matches_search(path: &str, query: &str) -> (r: bool)
    ensures
        r == crate::strutil::contains_ci_spec(file_name_of(path@), query@),
{
    crate::strutil::contains_ci(file_name(path), query)
}

/// Relies on rand::random_range: a value drawn from `0..len`, which is
/// never empty here. Nothing more can be said of a random draw.
#[verifier::external_body]
fn random_index(len: usize) -> (r: usize)
    requires
        len >= 1,
    ensures
        r < len,
{
    rand::random_range(0..len)
}

/// Picks a random entry of the scan queue: some index whenever the queue
/// is non-empty, and nothing otherwise.
pub fn choose_random(entries: &Vec<MediaEntry>) -> (r: Option<usize>)
    ensures
        r is Some <==> entries@.len() > 0,
        r is Some ==> r->0 < entries@.len(),
{
    let n: usize = entries.len();
    if n == 0 {
        None
    } else {
        Some(random_index(n))
    }
}

/// Turns the outcome of reading a directory into the scan queue or a scan
/// error: an unreadable directory is reported, never passed off as empty.
pub fn scan_listing(listing: Option<&Vec<DirListing>>, include_animated: bool) -> (r: Result<
    Vec<MediaEntry>,
    ScanError,
>)
    ensures
        match r {
            Ok(q) => listing is Some && views_of(q@) == scan_spec(
                views_of(listing->0@),
                include_animated,
            ),
            Err(_) => listing is None,
        },
{
    match listing {
        None => Err(ScanError { unreadable: true }),
        Some(entries) => Ok(scan_folder(entries, include_animated)),
    }
}

} // verus!
