use vstd::prelude::*;
use vstd::string::StrSliceExecFns;
use vstd::string::StringExecFns;

use crate::decimal::{i64_to_string, spec_idecimal};

verus! {

/// A path separator on either platform.
pub open spec fn is_sep(c: char) -> bool {
    c == '/' || c == '\\'
}

/// The path names a file with the tracked `.clip` extension: it ends in
/// `.clip`, and the dot is not the first character of the file name.
pub open spec fn is_tracked_path(s: Seq<char>) -> bool {
    &&& s.len() >= 6
    &&& s[s.len() - 5] == '.'
    &&& s[s.len() - 4] == 'c'
    &&& s[s.len() - 3] == 'l'
    &&& s[s.len() - 2] == 'i'
    &&& s[s.len() - 1] == 'p'
    &&& !is_sep(s[s.len() - 6])
}

/// Whether the path carries the tracked extension.
pub fn has_tracked_extension(path: &str) -> (b: bool)
    ensures
        b == is_tracked_path(path@),
{
    let n = path.unicode_len();
    if n < 6 {
        return false;
    }
    if path.get_char(n - 5) != '.' || path.get_char(n - 4) != 'c' || path.get_char(n - 3) != 'l'
        || path.get_char(n - 2) != 'i' || path.get_char(n - 1) != 'p' {
        return false;
    }
    let c = path.get_char(n - 6);
    !(c == '/' || c == '\\')
}

/// The debounce key of a canonical path string: the same string with any
/// extended-path prefix `\\?\` stripped.
pub open spec fn normalized_key(s: Seq<char>) -> Seq<char> {
    if s.len() >= 4 && s[0] == '\\' && s[1] == '\\' && s[2] == '?' && s[3] == '\\' {
        s.subrange(4, s.len() as int)
    } else {
        s
    }
}

/// Strips the extended-path prefix, if any, to obtain the debounce key.
pub fn normalize_key(path: &str) -> (r: String)
    ensures
        r@ == normalized_key(path@),
{
    let n = path.unicode_len();
    if n >= 4 && path.get_char(0) == '\\' && path.get_char(1) == '\\' && path.get_char(2) == '?'
        && path.get_char(3) == '\\' {
        path.substring_char(4, n).to_owned()
    } else {
        path.to_owned()
    }
}

/// Index just after the last separator, 0 when there is none.
pub open spec fn last_sep_end(s: Seq<char>) -> int
    decreases s.len(),
{
    if s.len() == 0 {
        0
    } else if is_sep(s[s.len() - 1]) {
        s.len() as int
    } else {
        last_sep_end(s.drop_last())
    }
}

pub proof fn lemma_last_sep_end_bounds(s: Seq<char>)
    ensures
        0 <= last_sep_end(s) <= s.len(),
    decreases s.len(),
{
    if s.len() != 0 && !is_sep(s[s.len() - 1]) {
        lemma_last_sep_end_bounds(s.drop_last());
    }
}

proof fn lemma_last_sep_end_at(s: Seq<char>, k: int)
    requires
        0 <= k <= s.len(),
        forall|j: int| k <= j < s.len() ==> !is_sep(s[j]),
        k == 0 || is_sep(s[k - 1]),
    ensures
        last_sep_end(s) == k,
    decreases s.len(),
{
    if s.len() == 0 {
    } else if is_sep(s[s.len() - 1]) {
        assert(k == s.len());
    } else {
        assert(k < s.len());
        lemma_last_sep_end_at(s.drop_last(), k);
    }
}

/// Index of the last `.`, -1 when there is none.
pub open spec fn last_dot(s: Seq<char>) -> int
    decreases s.len(),
{
    if s.len() == 0 {
        -1
    } else if s[s.len() - 1] == '.' {
        s.len() - 1
    } else {
        last_dot(s.drop_last())
    }
}

proof fn lemma_last_dot_at(s: Seq<char>, d: int)
    requires
        0 <= d < s.len(),
        s[d] == '.',
        forall|j: int| d < j < s.len() ==> s[j] != '.',
    ensures
        last_dot(s) == d,
    decreases s.len(),
{
    if s[s.len() - 1] == '.' {
        assert(d == s.len() - 1);
    } else {
        assert(d < s.len() - 1);
        lemma_last_dot_at(s.drop_last(), d);
    }
}

proof fn lemma_last_dot_none(s: Seq<char>)
    requires
        forall|j: int| 0 <= j < s.len() ==> s[j] != '.',
    ensures
        last_dot(s) == -1,
    decreases s.len(),
{
    if s.len() != 0 {
        lemma_last_dot_none(s.drop_last());
    }
}

/// The file stem: the final path component without its extension; the whole
/// component when it has no dot past its first character.
pub open spec fn stem_of(s: Seq<char>) -> Seq<char> {
    let comp = s.subrange(last_sep_end(s), s.len() as int);
    let d = last_dot(comp);
    if d > 0 {
        comp.subrange(0, d)
    } else {
        comp
    }
}

/// The stem used to derive output names; "unknown" when the path yields none.
pub open spec fn base_name_of(s: Seq<char>) -> Seq<char> {
    if stem_of(s).len() == 0 {
        "unknown"@
    } else {
        stem_of(s)
    }
}

/// Index just after the last separator of the path.
pub fn component_start(path: &str) -> (start: usize)
    ensures
        start as int == last_sep_end(path@),
        start <= path@.len(),
{
    let n = path.unicode_len();
    let mut start: usize = 0;
    let mut i: usize = 0;
    while i < n
        invariant
            i <= n,
            n == path@.len(),
            start <= i,
            forall|j: int| start <= j < i ==> !is_sep(path@[j]),
            start == 0 || is_sep(path@[start - 1]),
        decreases n - i,
    {
        let c = path.get_char(i);
        if c == '/' || c == '\\' {
            start = i + 1;
        }
        i += 1;
    }
    proof {
        lemma_last_sep_end_at(path@, start as int);
    }
    start
}

/// Index of the last dot of the component, if any.
fn find_last_dot(comp: &str) -> (r: Option<usize>)
    ensures
        match r {
            Some(d) => last_dot(comp@) == d as int && d < comp@.len(),
            None => last_dot(comp@) == -1,
        },
{
    let n = comp.unicode_len();
    let mut dot: usize = 0;
    let mut has_dot = false;
    let mut i: usize = 0;
    while i < n
        invariant
            i <= n,
            n == comp@.len(),
            has_dot ==> dot < i && comp@[dot as int] == '.' && forall|j: int|
                dot < j < i ==> comp@[j] != '.',
            !has_dot ==> forall|j: int| 0 <= j < i ==> comp@[j] != '.',
        decreases n - i,
    {
        if comp.get_char(i) == '.' {
            dot = i;
            has_dot = true;
        }
        i += 1;
    }
    if has_dot {
        proof {
            lemma_last_dot_at(comp@, dot as int);
        }
        Some(dot)
    } else {
        proof {
            lemma_last_dot_none(comp@);
        }
        None
    }
}

/// The stem of the path's file name, possibly empty.
pub fn raw_file_stem(path: &str) -> (r: String)
    ensures
        r@ == stem_of(path@),
{
    let n = path.unicode_len();
    let start = component_start(path);
    let comp = path.substring_char(start, n);
    let stem: &str = match find_last_dot(comp) {
        Some(d) if d > 0 => comp.substring_char(0, d),
        _ => comp,
    };
    stem.to_owned()
}

/// The stem of the path's file name, or "unknown" when the path has none.
pub fn file_stem_of(path: &str) -> (r: String)
    ensures
        r@ == base_name_of(path@),
{
    let stem = raw_file_stem(path);
    if stem.as_str().unicode_len() == 0 {
        proof {
            reveal_strlit("unknown");
        }
        "unknown".to_owned()
    } else {
        stem
    }
}

/// `dir` and `name` joined with a separator, unless `dir` is empty or already
/// ends in one.
pub open spec fn joined(dir: Seq<char>, name: Seq<char>) -> Seq<char> {
    if dir.len() == 0 {
        name
    } else if is_sep(dir[dir.len() - 1]) {
        dir + name
    } else {
        dir + seq!['/'] + name
    }
}

/// Joins a directory and a file name into one path string.
pub fn join_path(dir: &str, name: &str) -> (r: String)
    ensures
        r@ == joined(dir@, name@),
{
    let n = dir.unicode_len();
    if n == 0 {
        return name.to_owned();
    }
    let c = dir.get_char(n - 1);
    let mut s = dir.to_owned();
    if !(c == '/' || c == '\\') {
        s.append("/");
        proof {
            reveal_strlit("/");
            assert("/"@ =~= seq!['/']);
            assert(s@ =~= dir@ + seq!['/']);
        }
    }
    s.append(name);
    proof {
        assert(s@ =~= joined(dir@, name@));
    }
    s
}

/// The name of the full-resolution output image.
pub open spec fn full_image_name(stem: Seq<char>, ts: int) -> Seq<char> {
    stem + "_"@ + spec_idecimal(ts) + "_full.png"@
}

/// The name of the downscaled output image.
pub open spec fn thumb_image_name(stem: Seq<char>, ts: int) -> Seq<char> {
    stem + "_"@ + spec_idecimal(ts) + "_thumb.png"@
}

/// Builds the full-resolution image file name.
pub fn make_full_image_name(stem: &str, ts: i64) -> (r: String)
    ensures
        r@ == full_image_name(stem@, ts as int),
{
    let mut s = stem.to_owned();
    s.append("_");
    let t = i64_to_string(ts);
    s.append(t.as_str());
    s.append("_full.png");
    proof {
        assert(s@ =~= full_image_name(stem@, ts as int));
    }
    s
}

/// Builds the downscaled image file name.
pub fn make_thumb_image_name(stem: &str, ts: i64) -> (r: String)
    ensures
        r@ == thumb_image_name(stem@, ts as int),
{
    let mut s = stem.to_owned();
    s.append("_");
    let t = i64_to_string(ts);
    s.append(t.as_str());
    s.append("_thumb.png");
    proof {
        assert(s@ =~= thumb_image_name(stem@, ts as int));
    }
    s
}

} // verus!
