//! Monitor enumeration: parsing the display server's monitor listing.
//! Lines beginning with the marker `Monitor ` contribute their second
//! whitespace-separated field as a monitor identifier.

use vstd::prelude::*;
use crate::scanner::views_of;
use crate::strutil::{starts_with, str_starts_with};
use vstd::string::StrSliceExecFns;

verus! {

/// Field-separating whitespace inside one listing line.
pub open spec fn is_ws(c: char) -> bool {
    c == ' ' || c == '\t'
}

/// First index at or after `i` that is not whitespace, or the length.
pub open spec fn skip_ws(s: Seq<char>, i: int) -> int
    decreases s.len() - i,
{
    if i < 0 || i >= s.len() {
        s.len() as int
    } else if is_ws(s[i]) {
        skip_ws(s, i + 1)
    } else {
        i
    }
}

/// First index at or after `i` that is whitespace, or the length.
pub open spec fn field_end(s: Seq<char>, i: int) -> int
    decreases s.len() - i,
{
    if i < 0 || i >= s.len() {
        s.len() as int
    } else if is_ws(s[i]) {
        i
    } else {
        field_end(s, i + 1)
    }
}

pub proof fn lemma_skip_ws_bounds(s: Seq<char>, i: int)
    requires
        0 <= i <= s.len(),
    ensures
        i <= skip_ws(s, i) <= s.len(),
    decreases s.len() - i,
{
    if i < s.len() && is_ws(s[i]) {
        lemma_skip_ws_bounds(s, i + 1);
    }
}

/// The monitor identifier a listing line contributes, if any: the second
/// whitespace-separated field of a line that starts with the marker.
pub open spec fn monitor_of_line(line: Seq<char>) -> Option<Seq<char>> {
    if starts_with(line, "Monitor "@) {
        let st = skip_ws(line, "Monitor "@.len() as int);
        if st < line.len() {
            Some(line.subrange(st, field_end(line, st)))
        } else {
            None
        }
    } else {
        None
    }
}

/// All monitor identifiers of a listing, in listing order.
pub open spec fn monitors_of(lines: Seq<Seq<char>>) -> Seq<Seq<char>>
    decreases lines.len(),
{
    if lines.len() == 0 {
        Seq::empty()
    } else {
        let prefix = monitors_of(lines.drop_last());
        match monitor_of_line(lines.last()) {
            Some(m) => prefix.push(m),
            None => prefix,
        }
    }
}

fn is_ws_char(c: char) -> (r: bool)
    ensures
        r == is_ws(c),
{
    c == ' ' || c == '\t'
}

/// Extracts the monitor identifier of one listing line.
pub fn monitor_of(line: &str) -> (r: Option<String>)
    ensures
        match r {
            Some(m) => monitor_of_line(line@) == Some(m@),
            None => monitor_of_line(line@) is None,
        },
{
    if !str_starts_with(line, "Monitor ") {
        return None;
    }
    let len: usize = line.unicode_len();
    let marker_len: usize = "Monitor ".unicode_len();
    let mut st: usize = marker_len;
    proof {
        assert(marker_len <= len);
        lemma_skip_ws_bounds(line@, marker_len as int);
    }
    while st < len && is_ws_char(line.get_char(st))
        invariant
            len == line@.len(),
            st <= len,
            skip_ws(line@, marker_len as int) == skip_ws(line@, st as int),
        decreases len - st,
    {
        st = st + 1;
    }
    proof {
        assert(skip_ws(line@, st as int) == st as int);
    }
    if st >= len {
        return None;
    }
    let mut en: usize = st;
    while en < len && !is_ws_char(line.get_char(en))
        invariant
            len == line@.len(),
            st <= en <= len,
            field_end(line@, st as int) == field_end(line@, en as int),
        decreases len - en,
    {
        en = en + 1;
    }
    proof {
        assert(field_end(line@, en as int) == en as int);
    }
    Some(line.substring_char(st, en).to_owned())
}

/// Parses the whole monitor listing. An empty result is not an error here;
/// the orchestrator treats it as one when the backend needs monitors.
pub fn parse_monitors(lines: &Vec<String>) -> (r: Vec<String>)
    ensures
        views_of(r@) == monitors_of(views_of(lines@)),
{
    let n: usize = lines.len();
    let mut out: Vec<String> = Vec::new();
    let mut i: usize = 0;
    proof {
        assert(views_of(out@) =~= monitors_of(views_of(lines@).take(0)));
    }
    while i < n
        invariant
            n == lines@.len(),
            i <= n,
            views_of(out@) == monitors_of(views_of(lines@).take(i as int)),
        decreases n - i,
    {
        let ghost cur = views_of(lines@).take(i + 1);
        proof {
            assert(cur.drop_last() =~= views_of(lines@).take(i as int));
            assert(cur.last() == views_of(lines@)[i as int]);
        }
        match monitor_of(lines[i].as_str()) {
            Some(m) => {
                out.push(m);
                proof {
                    assert(views_of(out@) =~= views_of(out@.drop_last()).push(
                        monitor_of_line(cur.last())->0,
                    ));
                }
            },
            None => {},
        }
        proof {
            assert(views_of(out@) =~= monitors_of(cur));
        }
        i = i + 1;
    }
    proof {
        assert(views_of(lines@).take(n as int) =~= views_of(lines@));
    }
    out
}

} // verus!
