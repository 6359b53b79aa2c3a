use vstd::prelude::*;
use vstd::string::StrSliceExecFns;
use vstd::string::StringExecFns;

use crate::decimal::{spec_udecimal, u64_to_string};
use crate::pathnames::{
    component_start, is_sep, joined, join_path, last_sep_end, raw_file_stem, stem_of,
};

verus! {

/// The path names a `.gif` file: it ends in `.gif`, and the dot is not the
/// first character of the file name.
pub open spec fn is_gif_path(s: Seq<char>) -> bool {
    &&& s.len() >= 5
    &&& s[s.len() - 4] == '.'
    &&& s[s.len() - 3] == 'g'
    &&& s[s.len() - 2] == 'i'
    &&& s[s.len() - 1] == 'f'
    &&& !is_sep(s[s.len() - 5])
}

/// Whether the requested output path already names a `.gif` file.
pub fn has_gif_extension(path: &str) -> (b: bool)
    ensures
        b == is_gif_path(path@),
{
    let n = path.unicode_len();
    if n < 5 {
        return false;
    }
    if path.get_char(n - 4) != '.' || path.get_char(n - 3) != 'g' || path.get_char(n - 2) != 'i'
        || path.get_char(n - 1) != 'f' {
        return false;
    }
    let c = path.get_char(n - 5);
    !(c == '/' || c == '\\')
}

/// The generated name of an exported animation file.
pub open spec fn gif_file_name(ts: nat) -> Seq<char> {
    "oekakusa_"@ + spec_udecimal(ts) + ".gif"@
}

/// Builds the generated animation file name for the given timestamp.
pub fn make_gif_file_name(ts: u64) -> (r: String)
    ensures
        r@ == gif_file_name(ts as nat),
{
    let mut s = "oekakusa_".to_owned();
    let t = u64_to_string(ts);
    s.append(t.as_str());
    s.append(".gif");
    proof {
        assert(s@ =~= gif_file_name(ts as nat));
    }
    s
}

/// Where the exported animation lands: the requested path itself when it
/// already names a `.gif` file, else a generated file name under it.
pub open spec fn gif_target(requested: Seq<char>, ts: nat) -> Seq<char> {
    if is_gif_path(requested) {
        requested
    } else {
        joined(requested, gif_file_name(ts))
    }
}

/// Decides the final output path of one animation export.
pub fn gif_output_path(requested: &String, ts: u64) -> (r: String)
    ensures
        r@ == gif_target(requested@, ts as nat),
{
    if has_gif_extension(requested.as_str()) {
        requested.clone()
    } else {
        let name = make_gif_file_name(ts);
        join_path(requested.as_str(), name.as_str())
    }
}

/// The stem already carries the `_full` suffix of a full-resolution copy.
pub open spec fn ends_with_full(s: Seq<char>) -> bool {
    &&& s.len() >= 5
    &&& s[s.len() - 5] == '_'
    &&& s[s.len() - 4] == 'f'
    &&& s[s.len() - 3] == 'u'
    &&& s[s.len() - 2] == 'l'
    &&& s[s.len() - 1] == 'l'
}

fn stem_ends_with_full(stem: &str) -> (b: bool)
    ensures
        b == ends_with_full(stem@),
{
    let n = stem.unicode_len();
    if n < 5 {
        return false;
    }
    stem.get_char(n - 5) == '_' && stem.get_char(n - 4) == 'f' && stem.get_char(n - 3) == 'u'
        && stem.get_char(n - 2) == 'l' && stem.get_char(n - 1) == 'l'
}

/// The sibling path under which a frame's full-resolution copy would have
/// been materialized: the same directory and stem with `_full.png`
/// appended; nothing when the stem already carries the suffix.
pub open spec fn fallback_full_path(path: Seq<char>) -> Option<Seq<char>> {
    if ends_with_full(stem_of(path)) {
        None
    } else {
        Some(path.subrange(0, last_sep_end(path)) + stem_of(path) + "_full.png"@)
    }
}

/// Builds the fallback path tried when a frame's image file is missing.
pub fn fallback_full_name(path: &str) -> (r: Option<String>)
    ensures
        r matches Some(s) ==> fallback_full_path(path@) == Some(s@),
        r is None ==> fallback_full_path(path@) is None,
{
    let stem = raw_file_stem(path);
    if stem_ends_with_full(stem.as_str()) {
        return None;
    }
    let start = component_start(path);
    let mut s = path.substring_char(0, start).to_owned();
    s.append(stem.as_str());
    s.append("_full.png");
    proof {
        assert(s@ =~= path@.subrange(0, last_sep_end(path@)) + stem_of(path@) + "_full.png"@);
    }
    Some(s)
}

} // verus!
