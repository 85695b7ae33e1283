//! Settings-file logic: splitting file contents into lines, reading and
//! rewriting `key = value` lines, and the default settings text. Reading
//! and writing the file itself is left to the caller.

use vstd::prelude::*;
use crate::scanner::views_of;
use crate::strutil::{starts_with, str_starts_with};
use vstd::string::{StrSliceExecFns, StringExecFns};

verus! {

/// Index of the first occurrence of `c` in `s`, or -1 when `c` does not
/// occur.
pub open spec fn first_index(s: Seq<char>, c: char) -> int
    decreases s.len(),
{
    if s.len() == 0 {
        -1
    } else if s[0] == c {
        0
    } else {
        let r = first_index(s.drop_first(), c);
        if r < 0 {
            -1
        } else {
            r + 1
        }
    }
}

pub proof fn lemma_first_index_none(s: Seq<char>, c: char)
    requires
        forall|j: int| 0 <= j < s.len() ==> s[j] != c,
    ensures
        first_index(s, c) == -1,
    decreases s.len(),
{
    if s.len() > 0 {
        lemma_first_index_none(s.drop_first(), c);
    }
}

pub proof fn lemma_first_index_at(s: Seq<char>, c: char, k: int)
    requires
        0 <= k < s.len(),
        s[k] == c,
        forall|j: int| 0 <= j < k ==> s[j] != c,
    ensures
        first_index(s, c) == k,
    decreases s.len(),
{
    if k > 0 {
        lemma_first_index_at(s.drop_first(), c, k - 1);
    }
}

/// The lines of `s`: segments between newlines, a trailing newline closing
/// the last line rather than opening an empty one.
pub open spec fn split_nl(s: Seq<char>) -> Seq<Seq<char>>
    decreases s.len(),
{
    if s.len() == 0 {
        Seq::empty()
    } else {
        let i = first_index(s, '\n');
        if i < 0 || i >= s.len() {
            seq![s]
        } else {
            seq![s.take(i)] + split_nl(s.subrange(i + 1, s.len() as int))
        }
    }
}

/// Splits file contents into lines.
pub fn split_lines(s: &str) -> (r: Vec<String>)
    ensures
        views_of(r@) == split_nl(s@),
{
    let len: usize = s.unicode_len();
    let mut out: Vec<String> = Vec::new();
    let mut start: usize = 0;
    proof {
        assert(s@.subrange(0, len as int) =~= s@);
        assert(views_of(out@) + split_nl(s@) =~= split_nl(s@));
    }
    while start < len
        invariant
            len == s@.len(),
            start <= len,
            views_of(out@) + split_nl(s@.subrange(start as int, len as int)) == split_nl(s@),
        decreases len - start,
    {
        let ghost rem = s@.subrange(start as int, len as int);
        let mut i: usize = start;
        while i < len && s.get_char(i) != '\n'
            invariant
                len == s@.len(),
                start <= i <= len,
                forall|j: int| start <= j < i ==> s@[j] != '\n',
            decreases len - i,
        {
            i = i + 1;
        }
        if i < len {
            proof {
                assert(s@[i as int] == '\n');
                assert forall|j: int| 0 <= j < i - start implies rem[j] != '\n' by {
                    assert(rem[j] == s@[start + j]);
                }
                assert(rem[i - start] == '\n');
                lemma_first_index_at(rem, '\n', i - start);
                assert(rem.take(i - start) =~= s@.subrange(start as int, i as int));
                assert(rem.subrange(i - start + 1, rem.len() as int) =~= s@.subrange(
                    i + 1,
                    len as int,
                ));
            }
            let seg: String = s.substring_char(start, i).to_owned();
            out.push(seg);
            proof {
                assert(views_of(out@) =~= views_of(out@.drop_last()).push(s@.subrange(
                    start as int,
                    i as int,
                )));
                assert(views_of(out@) + split_nl(s@.subrange(i + 1, len as int)) =~= split_nl(s@));
            }
            start = i + 1;
        } else {
            proof {
                assert forall|j: int| 0 <= j < rem.len() implies rem[j] != '\n' by {
                    assert(rem[j] == s@[start + j]);
                }
                lemma_first_index_none(rem, '\n');
                assert(split_nl(rem) == seq![rem]);
            }
            let seg: String = s.substring_char(start, len).to_owned();
            out.push(seg);
            proof {
                assert(views_of(out@) =~= views_of(out@.drop_last()).push(rem));
                assert(views_of(out@) + split_nl(s@.subrange(len as int, len as int)) =~= split_nl(
                    s@,
                ));
            }
            start = len;
        }
    }
    proof {
        assert(s@.subrange(start as int, len as int) =~= Seq::<char>::empty());
        assert(views_of(out@) + split_nl(Seq::<char>::empty()) =~= views_of(out@));
    }
    out
}

/// The lines joined with single newlines, no trailing newline.
pub open spec fn join_nl(lines: Seq<Seq<char>>) -> Seq<char>
    decreases lines.len(),
{
    if lines.len() == 0 {
        Seq::empty()
    } else if lines.len() == 1 {
        lines[0]
    } else {
        lines[0] + seq!['\n'] + join_nl(lines.drop_first())
    }
}

/// Joins lines with newlines; the caller appends the final newline when it
/// writes the file.
pub fn join_lines(lines: &Vec<String>) -> (r: String)
    ensures
        r@ == join_nl(views_of(lines@)),
{
    let n: usize = lines.len();
    let mut out: String = String::new();
    if n == 0 {
        return out;
    }
    let mut i: usize = 0;
    proof {
        assert(views_of(lines@).subrange(0, n as int) =~= views_of(lines@));
        assert(out@ + join_nl(views_of(lines@)) =~= join_nl(views_of(lines@)));
    }
    while i < n
        invariant
            n == lines@.len(),
            n >= 1,
            i <= n,
            out@ + join_nl(views_of(lines@).subrange(i as int, n as int)) == join_nl(
                views_of(lines@),
            ),
        decreases n - i,
    {
        let ghost tail = views_of(lines@).subrange(i as int, n as int);
        let ghost out0 = out@;
        out.append(lines[i].as_str());
        proof {
            assert(tail[0] == views_of(lines@)[i as int]);
        }
        if i + 1 < n {
            out.append("\n");
            proof {
                reveal_strlit("\n");
                assert("\n"@ =~= seq!['\n']);
                assert(tail.drop_first() =~= views_of(lines@).subrange(i + 1, n as int));
                assert(join_nl(tail) == tail[0] + seq!['\n'] + join_nl(tail.drop_first()));
                assert(out@ + join_nl(tail.drop_first()) =~= out0 + join_nl(tail));
            }
        } else {
            proof {
                assert(tail.len() == 1);
                assert(join_nl(tail) == tail[0]);
                assert(views_of(lines@).subrange(i + 1, n as int) =~= Seq::<Seq<char>>::empty());
                assert(out@ + join_nl(Seq::<Seq<char>>::empty()) =~= out0 + join_nl(tail));
            }
        }
        i = i + 1;
    }
    out
}

/// Writing the settings back — the joined lines plus a final newline —
/// and splitting what was written recovers exactly the same lines, as
/// long as there is at least one line and none contains a newline itself.
pub proof fn lemma_join_then_split(lines: Seq<Seq<char>>)
    requires
        lines.len() >= 1,
        forall|i: int, j: int|
            0 <= i < lines.len() && 0 <= j < lines[i].len() ==> #[trigger] lines[i][j] != '\n',
    ensures
        split_nl(join_nl(lines) + seq!['\n']) == lines,
    decreases lines.len(),
{
    let s = join_nl(lines) + seq!['\n'];
    if lines.len() == 1 {
        assert(join_nl(lines) == lines[0]);
        assert forall|j: int| 0 <= j < lines[0].len() implies s[j] != '\n' by {
            assert(s[j] == lines[0][j]);
        }
        assert(s[lines[0].len() as int] == '\n');
        lemma_first_index_at(s, '\n', lines[0].len() as int);
        assert(s.take(lines[0].len() as int) =~= lines[0]);
        assert(s.subrange(lines[0].len() as int + 1, s.len() as int) =~= Seq::<char>::empty());
        assert(split_nl(s) == seq![s.take(lines[0].len() as int)] + split_nl(
            s.subrange(lines[0].len() as int + 1, s.len() as int),
        ));
        assert(split_nl(Seq::<char>::empty()) =~= Seq::<Seq<char>>::empty());
        assert(split_nl(s) =~= lines);
    } else {
        let rest = lines.drop_first();
        assert(join_nl(lines) == lines[0] + seq!['\n'] + join_nl(rest));
        assert forall|j: int| 0 <= j < lines[0].len() implies s[j] != '\n' by {
            assert(s[j] == lines[0][j]);
        }
        assert(s[lines[0].len() as int] == '\n');
        lemma_first_index_at(s, '\n', lines[0].len() as int);
        assert(s.take(lines[0].len() as int) =~= lines[0]);
        assert(s.subrange(lines[0].len() as int + 1, s.len() as int) =~= join_nl(rest) + seq!['\n']);
        assert forall|i: int, j: int|
            0 <= i < rest.len() && 0 <= j < rest[i].len() implies #[trigger] rest[i][j]
            != '\n' by {
            assert(rest[i] == lines[i + 1]);
        }
        lemma_join_then_split(rest);
        assert(split_nl(s) =~= seq![lines[0]] + rest);
        assert(seq![lines[0]] + rest =~= lines);
    }
}

/// The `key = ` prefix that a setting line carries.
pub open spec fn key_prefix(key: Seq<char>) -> Seq<char> {
    key + " = "@
}

/// Index of the first line that starts with `pfx`, or -1.
pub open spec fn find_line(lines: Seq<Seq<char>>, pfx: Seq<char>) -> int
    decreases lines.len(),
{
    if lines.len() == 0 {
        -1
    } else if starts_with(lines[0], pfx) {
        0
    } else {
        let r = find_line(lines.drop_first(), pfx);
        if r < 0 {
            -1
        } else {
            r + 1
        }
    }
}

pub proof fn lemma_find_line_none(lines: Seq<Seq<char>>, pfx: Seq<char>)
    requires
        forall|j: int| 0 <= j < lines.len() ==> !starts_with(lines[j], pfx),
    ensures
        find_line(lines, pfx) == -1,
    decreases lines.len(),
{
    if lines.len() > 0 {
        lemma_find_line_none(lines.drop_first(), pfx);
    }
}

pub proof fn lemma_find_line_at(lines: Seq<Seq<char>>, pfx: Seq<char>, k: int)
    requires
        0 <= k < lines.len(),
        starts_with(lines[k], pfx),
        forall|j: int| 0 <= j < k ==> !starts_with(lines[j], pfx),
    ensures
        find_line(lines, pfx) == k,
    decreases lines.len(),
{
    if k > 0 {
        lemma_find_line_at(lines.drop_first(), pfx, k - 1);
    }
}

/// Value of `key` in the settings lines: the remainder of the first
/// `key = ` line, or nothing when no such line exists.
pub open spec fn config_get_spec(lines: Seq<Seq<char>>, key: Seq<char>) -> Option<Seq<char>> {
    let i = find_line(lines, key_prefix(key));
    if i < 0 {
        None
    } else {
        Some(lines[i].skip(key_prefix(key).len() as int))
    }
}

/// The settings lines after `key` is set to `value`: the first `key = `
/// line rewritten, or a new line appended when none exists.
pub open spec fn config_set_spec(lines: Seq<Seq<char>>, key: Seq<char>, value: Seq<char>) -> Seq<
    Seq<char>,
> {
    let line = key_prefix(key) + value;
    let i = find_line(lines, key_prefix(key));
    if i < 0 {
        lines.push(line)
    } else {
        lines.update(i, line)
    }
}

/// Reads `key`'s value from the settings lines. A missing key is "not
/// present", never an error.
pub fn config_get(lines: &Vec<String>, key: &str) -> (r: Option<String>)
    ensures
        match r {
            Some(v) => config_get_spec(views_of(lines@), key@) == Some(v@),
            None => config_get_spec(views_of(lines@), key@) is None,
        },
{
    let mut pfx: String = key.to_owned();
    pfx.append(" = ");
    let plen: usize = pfx.unicode_len();
    let n: usize = lines.len();
    let mut i: usize = 0;
    while i < n
        invariant
            n == lines@.len(),
            i <= n,
            pfx@ == key_prefix(key@),
            plen == pfx@.len(),
            forall|j: int| 0 <= j < i ==> !starts_with(views_of(lines@)[j], pfx@),
        decreases n - i,
    {
        let line: &String = &lines[i];
        if str_starts_with(line.as_str(), pfx.as_str()) {
            let llen: usize = line.as_str().unicode_len();
            let v: String = line.as_str().substring_char(plen, llen).to_owned();
            proof {
                lemma_find_line_at(views_of(lines@), pfx@, i as int);
                assert(v@ =~= views_of(lines@)[i as int].skip(plen as int));
            }
            return Some(v);
        }
        i = i + 1;
    }
    proof {
        lemma_find_line_none(views_of(lines@), pfx@);
    }
    None
}

/// Sets `key` to `value` in the settings lines, rewriting the first
/// `key = ` line or appending one.
pub fn config_set(lines: &mut Vec<String>, key: &str, value: &str)
    ensures
        views_of(final(lines)@) == config_set_spec(views_of(old(lines)@), key@, value@),
{
    let mut pfx: String = key.to_owned();
    pfx.append(" = ");
    let mut line: String = pfx.clone();
    line.append(value);
    let n: usize = lines.len();
    let mut i: usize = 0;
    while i < n
        invariant
            lines == old(lines),
            n == lines@.len(),
            i <= n,
            pfx@ == key_prefix(key@),
            line@ == key_prefix(key@) + value@,
            forall|j: int| 0 <= j < i ==> !starts_with(views_of(lines@)[j], pfx@),
        decreases n - i,
    {
        if str_starts_with(lines[i].as_str(), pfx.as_str()) {
            proof {
                lemma_find_line_at(views_of(lines@), pfx@, i as int);
            }
            lines.set(i, line);
            proof {
                assert(views_of(lines@) =~= views_of(old(lines)@).update(
                    i as int,
                    key_prefix(key@) + value@,
                ));
            }
            return ;
        }
        i = i + 1;
    }
    proof {
        lemma_find_line_none(views_of(lines@), pfx@);
    }
    lines.push(line);
    proof {
        assert(views_of(lines@) =~= views_of(old(lines)@).push(key_prefix(key@) + value@));
    }
}

/// Setting a key then reading it back yields exactly the written value,
/// whether or not the key was present before.
pub proof fn lemma_config_set_get(lines: Seq<Seq<char>>, key: Seq<char>, value: Seq<char>)
    ensures
        config_get_spec(config_set_spec(lines, key, value), key) == Some(value),
{
    let pfx = key_prefix(key);
    let line = pfx + value;
    assert(starts_with(line, pfx)) by {
        assert(line.subrange(0, pfx.len() as int) =~= pfx);
    }
    let i = find_line(lines, pfx);
    if i < 0 {
        let post = lines.push(line);
        assert forall|j: int| 0 <= j < lines.len() implies !starts_with(post[j], pfx) by {
            lemma_find_line_absent(lines, pfx, j);
        }
        lemma_find_line_at(post, pfx, lines.len() as int);
        assert(post[lines.len() as int].skip(pfx.len() as int) =~= value);
    } else {
        lemma_find_line_bounds(lines, pfx);
        let post = lines.update(i, line);
        assert forall|j: int| 0 <= j < i implies !starts_with(post[j], pfx) by {
            lemma_find_line_first(lines, pfx, j);
        }
        lemma_find_line_at(post, pfx, i);
        assert(post[i].skip(pfx.len() as int) =~= value);
    }
}

/// `find_line` is in range when it is not -1.
pub proof fn lemma_find_line_bounds(lines: Seq<Seq<char>>, pfx: Seq<char>)
    ensures
        -1 <= find_line(lines, pfx) < lines.len(),
        find_line(lines, pfx) >= 0 ==> starts_with(lines[find_line(lines, pfx)], pfx),
    decreases lines.len(),
{
    if lines.len() > 0 && !starts_with(lines[0], pfx) {
        lemma_find_line_bounds(lines.drop_first(), pfx);
    }
}

/// No line before `find_line` starts with the prefix.
pub proof fn lemma_find_line_first(lines: Seq<Seq<char>>, pfx: Seq<char>, j: int)
    requires
        0 <= j < find_line(lines, pfx),
    ensures
        !starts_with(lines[j], pfx),
    decreases lines.len(),
{
    lemma_find_line_bounds(lines, pfx);
    if j > 0 {
        lemma_find_line_first(lines.drop_first(), pfx, j - 1);
        assert(lines.drop_first()[j - 1] == lines[j]);
    }
}

/// When no line matches, no line starts with the prefix.
pub proof fn lemma_find_line_absent(lines: Seq<Seq<char>>, pfx: Seq<char>, j: int)
    requires
        find_line(lines, pfx) == -1,
        0 <= j < lines.len(),
    ensures
        !starts_with(lines[j], pfx),
    decreases lines.len(),
{
    if j > 0 {
        lemma_find_line_absent(lines.drop_first(), pfx, j - 1);
        assert(lines.drop_first()[j - 1] == lines[j]);
    }
}

/// The settings text a fresh installation starts from.
pub fn default_config() -> (r: String)
    ensures
        r@ == "[Settings]\nfolder = none\nbackend = none\nlast_wallpaper = none\n"@,
{
    String::from_str("[Settings]\nfolder = none\nbackend = none\nlast_wallpaper = none\n")
}

} // verus!
