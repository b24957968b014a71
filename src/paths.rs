//! Paths are held as strings. Joining and splitting them follows the
//! platform's path rules, which std implements; the results are named here.
use vstd::prelude::*;

verus! {

/// The path `rel` pushed onto `base`.
pub uninterp spec fn joined(base: Seq<char>, rel: Seq<char>) -> Seq<char>;

/// The path without its final component, if it has one.
pub uninterp spec fn parent_of(path: Seq<char>) -> Option<Seq<char>>;

/// The final component of the path, if it has one.
pub uninterp spec fn file_name_of(path: Seq<char>) -> Option<Seq<char>>;

/// The final component of the path without its extension, if it has one.
pub uninterp spec fn file_stem_of(path: Seq<char>) -> Option<Seq<char>>;

pub open spec fn view_of_opt(o: Option<String>) -> Option<Seq<char>> {
    match o {
        Some(s) => Some(s@),
        None => None,
    }
}

/// Relies on std::path::PathBuf::push to append `rel` to `base`.
#[verifier::external_body]
pub fn join(base: &str, rel: &str) -> (r: String)
    ensures
        r@ == joined(base@, rel@),
{
    let mut p = std::path::PathBuf::from(base);
    p.push(rel);
    p.to_string_lossy().into_owned()
}

/// Relies on std::path::Path::parent for the path without its final component.
#[verifier::external_body]
pub fn parent(path: &str) -> (r: Option<String>)
    ensures
        view_of_opt(r) == parent_of(path@),
{
    match std::path::Path::new(path).parent() {
        Some(p) => Some(p.to_string_lossy().into_owned()),
        None => None,
    }
}

/// Relies on std::path::Path::file_name for the final component of a path.
#[verifier::external_body]
pub fn file_name(path: &str) -> (r: Option<String>)
    ensures
        view_of_opt(r) == file_name_of(path@),
{
    match std::path::Path::new(path).file_name() {
        Some(n) => Some(n.to_string_lossy().into_owned()),
        None => None,
    }
}

/// Relies on std::path::Path::file_stem for the final component without its extension.
#[verifier::external_body]
pub fn file_stem(path: &str) -> (r: Option<String>)
    ensures
        view_of_opt(r) == file_stem_of(path@),
{
    match std::path::Path::new(path).file_stem() {
        Some(n) => Some(n.to_string_lossy().into_owned()),
        None => None,
    }
}

/// Whether `pattern` occurs in `text` as a contiguous run of characters.
pub open spec fn occurs_in(text: Seq<char>, pattern: Seq<char>) -> bool {
    exists|i: int| 0 <= i <= text.len() - pattern.len() && #[trigger] text.subrange(i, i + pattern.len()) == pattern
}

/// Whether `pattern` occurs at position `i` of `text`.
fn occurs_at(text: &str, pattern: &str, i: usize, text_len: usize, pattern_len: usize) -> (r: bool)
    requires
        text_len == text@.len(),
        pattern_len == pattern@.len(),
        i + pattern_len <= text_len,
    ensures
        r == (text@.subrange(i as int, i + pattern_len) == pattern@),
{
    let mut j: usize = 0;
    while j < pattern_len
        invariant
            text_len == text@.len(),
            pattern_len == pattern@.len(),
            i + pattern_len <= text_len,
            j <= pattern_len,
            forall|k: int| 0 <= k < j ==> text@[i + k] == pattern@[k],
        decreases pattern_len - j,
    {
        if text.get_char(i + j) != pattern.get_char(j) {
            assert(text@.subrange(i as int, i + pattern_len)[j as int] != pattern@[j as int]);
            return false;
        }
        j = j + 1;
    }
    assert(text@.subrange(i as int, i + pattern_len) =~= pattern@);
    true
}

/// Whether `pattern` occurs in `text`.
pub fn contains_text(text: &str, pattern: &str) -> (r: bool)
    ensures
        r == occurs_in(text@, pattern@),
{
    let text_len = text.unicode_len();
    let pattern_len = pattern.unicode_len();
    if pattern_len > text_len {
        return false;
    }
    let last = text_len - pattern_len;
    let mut i: usize = 0;
    loop
        invariant
            text_len == text@.len(),
            pattern_len == pattern@.len(),
            last == text_len - pattern_len,
            i <= last,
            forall|k: int| 0 <= k < i ==> #[trigger] text@.subrange(k, k + pattern_len) != pattern@,
        decreases last - i,
    {
        if occurs_at(text, pattern, i, text_len, pattern_len) {
            return true;
        }
        if i == last {
            return false;
        }
        i = i + 1;
    }
}

/// The name under which the metadata of the asset file `asset_file_name` is
/// placed: the whole file name, extension included, followed by `.unitymeta`.
pub fn metadata_file_name(asset_file_name: &str) -> (r: String)
    ensures
        r@ == asset_file_name@ + ".unitymeta"@,
{
    let name = asset_file_name.to_owned();
    name.concat(".unitymeta")
}

} // verus!
