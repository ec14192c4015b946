//! Input validation for user-supplied paths, identifiers and numbers:
//! path traversal, relative paths, file extensions, identifier characters and ranges.
use crate::text::{
    chars_of, contains, contains_exec, decimal, is_alphanumeric, lowercase, owned, push_all,
    push_decimal, str_eq, string_from_chars, to_lowercase, unicode_alphanumeric,
};
use vstd::prelude::*;

verus! {

/// Validation errors.
#[derive(Debug)]
pub enum SecurityError {
    PathTraversal { path: String },
    InvalidPath { reason: String },
    InvalidExtension { ext: String, allowed: Vec<String> },
    NotAbsolutePath { path: String },
    PathNotFound { path: String },
    InvalidString { reason: String },
    InvalidNumeric { reason: String },
    /// A value outside `[min, max]` (whole numbers in this crate).
    OutOfRange { value: u64, min: u64, max: u64 },
}

// ========================================================================
// Path model
// ========================================================================

// The path rules are those of `std::path` on Windows, the platform the
// application runs on: `\` and `/` both separate components, and a path may
// start with a prefix (a drive `C:`, a UNC share `\\server\share`, a device
// `\\.\name`, or a verbatim `\\?\...` form).

/// Path separators on Windows: `\` and `/`.
pub open spec fn is_sep(c: char) -> bool {
    c == '/' || c == '\\'
}

/// An ASCII letter, as a drive letter.
pub open spec fn is_drive_letter(c: char) -> bool {
    ('a' <= c && c <= 'z') || ('A' <= c && c <= 'Z')
}

/// End of the component of `s` that starts at `i`: the next separator (only
/// `\` in a verbatim path), or the end of `s`.
pub open spec fn comp_end(s: Seq<char>, i: int, verbatim: bool) -> int
    decreases s.len() - i,
{
    if i < 0 || i >= s.len() {
        s.len() as int
    } else if (if verbatim {
        s[i] == '\\'
    } else {
        is_sep(s[i])
    }) {
        i
    } else {
        comp_end(s, i + 1, verbatim)
    }
}

/// The two characters starting a UNC, device or verbatim prefix.
pub open spec fn starts_double_sep(s: Seq<char>) -> bool {
    s.len() >= 2 && is_sep(s[0]) && is_sep(s[1])
}

/// Length of the Windows prefix of `s` (0 when it has none), as `std` parses
/// it: `\\?\UNC\server\share`, `\\?\C:`, `\\?\name`, `\\.\name`,
/// `\\server\share` (server and share not empty) or `C:`. In the marks of a
/// prefix `/` reads as `\`; inside a verbatim prefix only `\` separates.
pub open spec fn prefix_len(s: Seq<char>) -> int {
    if starts_double_sep(s) {
        if s.len() >= 4 && s[2] == '?' && is_sep(s[3]) {
            if s.len() >= 8 && s[4] == 'U' && s[5] == 'N' && s[6] == 'C' && is_sep(s[7]) {
                let se = comp_end(s, 8, true);
                if se < s.len() && comp_end(s, se + 1, true) > se + 1 {
                    comp_end(s, se + 1, true)
                } else {
                    se
                }
            } else if comp_end(s, 4, true) == 6 && is_drive_letter(s[4]) && s[5] == ':' {
                6
            } else {
                comp_end(s, 4, true)
            }
        } else if s.len() >= 4 && s[2] == '.' && is_sep(s[3]) {
            comp_end(s, 4, false)
        } else {
            let se = comp_end(s, 2, false);
            if se > 2 && se < s.len() && comp_end(s, se + 1, false) > se + 1 {
                comp_end(s, se + 1, false)
            } else {
                0
            }
        }
    } else if s.len() >= 2 && is_drive_letter(s[0]) && s[1] == ':' {
        2
    } else {
        0
    }
}

/// An absolute path on Windows (`Path::is_absolute`): a UNC, device or
/// verbatim prefix, or a drive `C:` followed by a separator. A path rooted
/// without a prefix (`\a`, `/a`) is relative to the current drive.
pub open spec fn is_absolute_path(s: Seq<char>) -> bool {
    prefix_len(s) > 0 && (starts_double_sep(s) || (s.len() >= 3 && is_sep(s[2])))
}

/// The part of a path after its prefix.
pub open spec fn path_tail(s: Seq<char>) -> Seq<char> {
    s.subrange(prefix_len(s), s.len() as int)
}

/// A component ends within `s`.
pub proof fn lemma_comp_end_bounds(s: Seq<char>, i: int, verbatim: bool)
    requires
        0 <= i <= s.len(),
    ensures
        i <= comp_end(s, i, verbatim) <= s.len(),
    decreases s.len() - i,
{
    if i < s.len() && !(if verbatim {
        s[i] == '\\'
    } else {
        is_sep(s[i])
    }) {
        lemma_comp_end_bounds(s, i + 1, verbatim);
    }
}

/// A prefix lies within the path.
pub proof fn lemma_prefix_len_bounds(s: Seq<char>)
    ensures
        0 <= prefix_len(s) <= s.len(),
{
    if starts_double_sep(s) {
        lemma_comp_end_bounds(s, 2, false);
        if s.len() >= 4 {
            lemma_comp_end_bounds(s, 4, true);
            lemma_comp_end_bounds(s, 4, false);
        }
        if s.len() >= 8 {
            lemma_comp_end_bounds(s, 8, true);
            let se = comp_end(s, 8, true);
            if se < s.len() {
                lemma_comp_end_bounds(s, se + 1, true);
            }
        }
        let se = comp_end(s, 2, false);
        if se < s.len() {
            lemma_comp_end_bounds(s, se + 1, false);
        }
    }
}

/// `base` joined with `part` by the rule of `Path::join` on Windows: a `part`
/// with a prefix replaces `base`; a `part` rooted without a prefix (`\x`)
/// keeps only the prefix of `base`; otherwise a `\` goes between them unless
/// `base` is empty, ends with a separator, or is a bare drive `C:`. (For a
/// verbatim `base`, `\\?\...`, std also resolves `.` and `..` in `part`; this
/// rule does not.)
pub open spec fn joined(base: Seq<char>, part: Seq<char>) -> Seq<char> {
    if prefix_len(part) > 0 {
        part
    } else if part.len() > 0 && is_sep(part[0]) {
        base.subrange(0, prefix_len(base)) + part
    } else if base.len() == 0 || is_sep(base.last()) || (prefix_len(base) == base.len()
        && !is_sep(base[0])) {
        base + part
    } else {
        base + "\\"@ + part
    }
}

/// Index of the last separator in `s`, or -1.
pub open spec fn last_sep(s: Seq<char>) -> int
    decreases s.len(),
{
    if s.len() == 0 {
        -1
    } else if is_sep(s.last()) {
        s.len() - 1
    } else {
        last_sep(s.drop_last())
    }
}

/// Index of the last `.` in `s`, or -1.
pub open spec fn last_dot(s: Seq<char>) -> int
    decreases s.len(),
{
    if s.len() == 0 {
        -1
    } else if s.last() == '.' {
        s.len() - 1
    } else {
        last_dot(s.drop_last())
    }
}

/// The final component of a path, as `Path::file_name` gives it: trailing
/// separators and `.` components are skipped, `..` has no file name.
pub open spec fn file_name(s: Seq<char>) -> Option<Seq<char>>
    decreases s.len(),
{
    if s.len() == 0 {
        None
    } else if is_sep(s.last()) {
        file_name(s.drop_last())
    } else {
        let k = last_sep(s);
        let comp = s.subrange(k + 1, s.len() as int);
        if comp == seq!['.'] {
            if 0 <= k < s.len() {
                file_name(s.subrange(0, k))
            } else {
                None
            }
        } else if comp == seq!['.', '.'] {
            None
        } else {
            Some(comp)
        }
    }
}

/// The extension of a file name: the part after the last `.`, none when there is
/// no `.` or the only `.` starts the name.
pub open spec fn name_extension(name: Seq<char>) -> Option<Seq<char>> {
    let k = last_dot(name);
    if name == seq!['.', '.'] || k <= 0 {
        None
    } else {
        Some(name.subrange(k + 1, name.len() as int))
    }
}

/// The file name of a path, as `Path::file_name` gives it: that of the part
/// after the prefix (a prefix is never a file name).
pub open spec fn path_file_name(s: Seq<char>) -> Option<Seq<char>> {
    file_name(path_tail(s))
}

/// The extension of the file name of a path without prefix.
pub open spec fn file_extension(s: Seq<char>) -> Option<Seq<char>> {
    match file_name(s) {
        Some(n) => name_extension(n),
        None => None,
    }
}

/// The extension of a path, as `Path::extension` gives it.
pub open spec fn path_extension(s: Seq<char>) -> Option<Seq<char>> {
    file_extension(path_tail(s))
}

/// `e` is one of the allowed extensions, compared in lowercase.
pub open spec fn extension_allowed(allowed: Seq<Seq<char>>, e: Seq<char>) -> bool {
    exists|i: int| 0 <= i < allowed.len() && lowercase(#[trigger] allowed[i]) == lowercase(e)
}

/// The views of a list of string slices.
pub open spec fn str_views(v: Seq<&str>) -> Seq<Seq<char>> {
    v.map_values(|s: &str| s@)
}

/// The views of an optional list of extensions.
pub open spec fn allowed_views(a: Option<&[&str]>) -> Option<Seq<Seq<char>>> {
    match a {
        Some(v) => Some(str_views(v@)),
        None => None,
    }
}

/// The views of a list of strings.
pub open spec fn string_views(v: Seq<String>) -> Seq<Seq<char>> {
    v.map_values(|s: String| s@)
}

/// The result of validating `path` against `allowed` extensions, when the file
/// system says `exists` about it. The checks run in order: `..` anywhere, not
/// absolute, missing or disallowed extension, missing file when `must_exist`.
pub open spec fn path_check(
    path: Seq<char>,
    allowed: Option<Seq<Seq<char>>>,
    must_exist: bool,
    exists: bool,
    r: Result<String, SecurityError>,
) -> bool {
    if contains(path, ".."@) {
        r matches Err(SecurityError::PathTraversal { path: p }) && p@ == path
    } else if !is_absolute_path(path) {
        r matches Err(SecurityError::NotAbsolutePath { path: p }) && p@ == path
    } else if allowed is Some && path_extension(path) is None {
        r matches Err(SecurityError::InvalidPath { reason }) && reason@
            == "No file extension found"@
    } else if allowed is Some && !extension_allowed(allowed->0, path_extension(path)->0) {
        r matches Err(SecurityError::InvalidExtension { ext, allowed: listed }) && ext@
            == lowercase(path_extension(path)->0) && string_views(listed@) == allowed->0
    } else if must_exist && !exists {
        r matches Err(SecurityError::PathNotFound { path: p }) && p@ == path
    } else {
        r matches Ok(p) && p@ == path
    }
}

pub(crate) fn is_sep_exec(c: char) -> (r: bool)
    ensures
        r == is_sep(c),
{
    c == '/' || c == '\\'
}

fn is_drive_letter_exec(c: char) -> (r: bool)
    ensures
        r == is_drive_letter(c),
{
    ('a' <= c && c <= 'z') || ('A' <= c && c <= 'Z')
}

fn comp_end_exec(v: &[char], i: usize, verbatim: bool) -> (r: usize)
    requires
        i <= v@.len(),
    ensures
        r == comp_end(v@, i as int, verbatim),
        i <= r <= v@.len(),
{
    let mut k = i;
    while k < v.len()
        invariant
            i <= k <= v@.len(),
            comp_end(v@, i as int, verbatim) == comp_end(v@, k as int, verbatim),
        decreases v@.len() - k,
    {
        let c = v[k];
        let stop = if verbatim {
            c == '\\'
        } else {
            is_sep_exec(c)
        };
        if stop {
            return k;
        }
        k += 1;
    }
    k
}

/// Length of the Windows prefix of a path.
pub(crate) fn prefix_len_exec(v: &[char]) -> (r: usize)
    ensures
        r == prefix_len(v@),
        r <= v@.len(),
{
    proof {
        lemma_prefix_len_bounds(v@);
    }
    let n = v.len();
    if n >= 2 && is_sep_exec(v[0]) && is_sep_exec(v[1]) {
        if n >= 4 && v[2] == '?' && is_sep_exec(v[3]) {
            if n >= 8 && v[4] == 'U' && v[5] == 'N' && v[6] == 'C' && is_sep_exec(v[7]) {
                let se = comp_end_exec(v, 8, true);
                if se < n {
                    let sh = comp_end_exec(v, se + 1, true);
                    if sh > se + 1 {
                        return sh;
                    }
                }
                se
            } else {
                let ce = comp_end_exec(v, 4, true);
                if ce == 6 && is_drive_letter_exec(v[4]) && v[5] == ':' {
                    6
                } else {
                    ce
                }
            }
        } else if n >= 4 && v[2] == '.' && is_sep_exec(v[3]) {
            comp_end_exec(v, 4, false)
        } else {
            let se = comp_end_exec(v, 2, false);
            if se > 2 && se < n {
                let sh = comp_end_exec(v, se + 1, false);
                if sh > se + 1 {
                    return sh;
                }
            }
            0
        }
    } else if n >= 2 && is_drive_letter_exec(v[0]) && v[1] == ':' {
        2
    } else {
        0
    }
}

fn is_absolute_exec(s: &[char]) -> (r: bool)
    ensures
        r == is_absolute_path(s@),
{
    let p = prefix_len_exec(s);
    if p == 0 {
        return false;
    }
    let n = s.len();
    (n >= 2 && is_sep_exec(s[0]) && is_sep_exec(s[1])) || (n >= 3 && is_sep_exec(s[2]))
}

/// Last separator in `v[..end]`.
fn last_sep_exec(v: &[char], end: usize) -> (r: Option<usize>)
    requires
        end <= v@.len(),
    ensures
        r matches Some(i) ==> last_sep(v@.subrange(0, end as int)) == i && i < end,
        r is None ==> last_sep(v@.subrange(0, end as int)) == -1,
{
    let mut j = end;
    while j > 0
        invariant
            j <= end <= v@.len(),
            last_sep(v@.subrange(0, end as int)) == last_sep(v@.subrange(0, j as int)),
        decreases j,
    {
        assert(v@.subrange(0, j as int).drop_last() =~= v@.subrange(0, j - 1));
        if is_sep_exec(v[j - 1]) {
            return Some(j - 1);
        }
        j -= 1;
    }
    None
}

/// Last `.` in `v[a..b]`, as an index into `v`.
pub(crate) fn last_dot_exec(v: &[char], a: usize, b: usize) -> (r: Option<usize>)
    requires
        a <= b <= v@.len(),
    ensures
        r matches Some(i) ==> last_dot(v@.subrange(a as int, b as int)) == i - a && a <= i < b,
        r is None ==> last_dot(v@.subrange(a as int, b as int)) == -1,
{
    let mut j = b;
    while j > a
        invariant
            a <= j <= b <= v@.len(),
            last_dot(v@.subrange(a as int, b as int)) == last_dot(v@.subrange(a as int, j as int)),
        decreases j - a,
    {
        assert(v@.subrange(a as int, j as int).drop_last() =~= v@.subrange(a as int, j - 1));
        if v[j - 1] == '.' {
            return Some(j - 1);
        }
        j -= 1;
    }
    None
}

/// File name of `v[..end]`, as bounds into `v`.
pub(crate) fn file_name_range(v: &[char], end: usize) -> (r: Option<(usize, usize)>)
    requires
        end <= v@.len(),
    ensures
        r matches Some((a, b)) ==> a <= b <= end && file_name(v@.subrange(0, end as int)) == Some(
            v@.subrange(a as int, b as int),
        ),
        r is None ==> file_name(v@.subrange(0, end as int)) is None,
    decreases end,
{
    let ghost s = v@.subrange(0, end as int);
    if end == 0 {
        return None;
    }
    if is_sep_exec(v[end - 1]) {
        assert(s.drop_last() =~= v@.subrange(0, end - 1));
        return file_name_range(v, end - 1);
    }
    let k = last_sep_exec(v, end);
    let start = match k {
        Some(i) => i + 1,
        None => 0,
    };
    let ghost comp = s.subrange(last_sep(s) + 1, s.len() as int);
    assert(comp =~= v@.subrange(start as int, end as int));
    if end - start == 1 && v[start] == '.' {
        assert(comp =~= seq!['.']);
        match k {
            Some(i) => {
                assert(s.subrange(0, i as int) =~= v@.subrange(0, i as int));
                return file_name_range(v, i);
            },
            None => {
                return None;
            },
        }
    }
    assert(comp != seq!['.']) by {
        if comp == seq!['.'] {
            assert(comp.len() == 1 && comp[0] == '.');
        }
    }
    if end - start == 2 && v[start] == '.' && v[start + 1] == '.' {
        assert(comp =~= seq!['.', '.']);
        return None;
    }
    assert(comp != seq!['.', '.']) by {
        if comp == seq!['.', '.'] {
            assert(comp.len() == 2 && comp[0] == '.' && comp[1] == '.');
        }
    }
    Some((start, end))
}

/// Extension of the file name of `v` (a path without prefix), as bounds into `v`.
fn tail_extension_range(v: &[char]) -> (r: Option<(usize, usize)>)
    ensures
        r matches Some((a, b)) ==> a <= b <= v@.len() && file_extension(v@) == Some(
            v@.subrange(a as int, b as int),
        ),
        r is None ==> file_extension(v@) is None,
{
    let n = v.len();
    assert(v@.subrange(0, n as int) =~= v@);
    match file_name_range(v, n) {
        None => None,
        Some((a, b)) => {
            let ghost name = v@.subrange(a as int, b as int);
            if b - a == 2 && v[a] == '.' && v[a + 1] == '.' {
                assert(name =~= seq!['.', '.']);
                return None;
            }
            assert(name != seq!['.', '.']) by {
                if name == seq!['.', '.'] {
                    assert(name.len() == 2 && name[0] == '.' && name[1] == '.');
                }
            }
            match last_dot_exec(v, a, b) {
                None => None,
                Some(d) => {
                    if d == a {
                        None
                    } else {
                        assert(name.subrange(d - a + 1, name.len() as int) =~= v@.subrange(
                            d + 1,
                            b as int,
                        ));
                        Some((d + 1, b))
                    }
                },
            }
        },
    }
}

/// Extension of the path `v`, as bounds into `v`.
pub(crate) fn extension_range(v: &[char]) -> (r: Option<(usize, usize)>)
    ensures
        r matches Some((a, b)) ==> a <= b <= v@.len() && path_extension(v@) == Some(
            v@.subrange(a as int, b as int),
        ),
        r is None ==> path_extension(v@) is None,
{
    let p = prefix_len_exec(v);
    let tail = &v[p..v.len()];
    assert(tail@ == path_tail(v@));
    match tail_extension_range(tail) {
        None => None,
        Some((a, b)) => {
            assert(tail@.subrange(a as int, b as int) =~= v@.subrange(p + a, p + b));
            Some((p + a, p + b))
        },
    }
}

/// Joins two paths as `Path::join` does on Windows (see `joined`).
pub fn join_path(base: &str, part: &str) -> (r: String)
    ensures
        r@ == joined(base@, part@),
{
    let b = chars_of(base);
    let p = chars_of(part);
    if prefix_len_exec(p.as_slice()) > 0 {
        return owned(part);
    }
    proof {
        lemma_prefix_len_bounds(base@);
    }
    if p.len() > 0 && is_sep_exec(p[0]) {
        let bp = prefix_len_exec(b.as_slice());
        let mut r = string_from_chars(&b.as_slice()[0..bp]);
        push_all(&mut r, part);
        return r;
    }
    let bl = b.len();
    let mut r = owned(base);
    if !(bl == 0 || is_sep_exec(b[bl - 1]) || (prefix_len_exec(b.as_slice()) == bl && !is_sep_exec(
        b[0],
    ))) {
        push_all(&mut r, "\\");
    }
    push_all(&mut r, part);
    r
}

/// Calls `Path::exists` on the path: whether the file system holds something
/// there at the time of the call. Nothing is claimed of the answer.
#[verifier::external_body]
pub(crate) fn path_exists(path: &str) -> bool {
    std::path::Path::new(path).exists()
}

fn copy_strs(a: &[&str]) -> (r: Vec<String>)
    ensures
        string_views(r@) == str_views(a@),
{
    let mut r: Vec<String> = Vec::new();
    let mut i: usize = 0;
    while i < a.len()
        invariant
            i <= a@.len(),
            string_views(r@) == str_views(a@.subrange(0, i as int)),
        decreases a@.len() - i,
    {
        let item = owned(a[i]);
        let ghost prev = r@;
        r.push(item);
        assert(string_views(r@) =~= string_views(prev).push(a@[i as int]@));
        assert(str_views(a@.subrange(0, i + 1)) =~= str_views(a@.subrange(0, i as int)).push(
            a@[i as int]@,
        ));
        i += 1;
    }
    assert(a@.subrange(0, a@.len() as int) =~= a@);
    r
}

/// Validate a file path, given whether the file exists.
///
/// Checks, in order: `..` anywhere in the path, an absolute path, an allowed
/// extension (compared in lowercase) when a list is given, existence when required.
pub fn check_path(path: &str, allowed_extensions: Option<&[&str]>, must_exist: bool, exists: bool) -> (r:
    Result<String, SecurityError>)
    ensures
        path_check(
            path@,
            allowed_views(allowed_extensions),
            must_exist,
            exists,
            r,
        ),
{
    let chars = chars_of(path);
    let dots = chars_of("..");
    if contains_exec(chars.as_slice(), dots.as_slice()) {
        return Err(SecurityError::PathTraversal { path: owned(path) });
    }
    if !is_absolute_exec(chars.as_slice()) {
        return Err(SecurityError::NotAbsolutePath { path: owned(path) });
    }
    if let Some(allowed) = allowed_extensions {
        match extension_range(chars.as_slice()) {
            None => {
                return Err(SecurityError::InvalidPath { reason: owned("No file extension found") });
            },
            Some((a, b)) => {
                let ext = string_from_chars(&chars.as_slice()[a..b]);
                proof {
                    assert(chars@.subrange(a as int, b as int) == ext@);
                }
                let ext_lower = to_lowercase(ext.as_str());
                let mut i: usize = 0;
                let mut found = false;
                while i < allowed.len()
                    invariant
                        i <= allowed@.len(),
                        ext_lower@ == lowercase(path_extension(path@)->0),
                        found ==> extension_allowed(str_views(allowed@), path_extension(path@)->0),
                        !found ==> forall|j: int|
                            0 <= j < i ==> lowercase(#[trigger] str_views(allowed@)[j])
                                != lowercase(path_extension(path@)->0),
                    decreases allowed@.len() - i,
                {
                    let lower = to_lowercase(allowed[i]);
                    if str_eq(lower.as_str(), ext_lower.as_str()) {
                        assert(lowercase(str_views(allowed@)[i as int]) == lowercase(
                            path_extension(path@)->0,
                        ));
                        found = true;
                    }
                    i += 1;
                }
                if !found {
                    return Err(
                        SecurityError::InvalidExtension { ext: ext_lower, allowed: copy_strs(allowed) },
                    );
                }
            },
        }
    }
    if must_exist && !exists {
        return Err(SecurityError::PathNotFound { path: owned(path) });
    }
    Ok(owned(path))
}

/// Validate a file path for security issues, consulting the file system when
/// `must_exist` is set.
pub fn validate_path(path: &str, allowed_extensions: Option<&[&str]>, must_exist: bool) -> (r:
    Result<String, SecurityError>)
    ensures
        exists|e: bool|
            #[trigger] path_check(
                path@,
                allowed_views(allowed_extensions),
                must_exist,
                e,
                r,
            ),
{
    let exists = if must_exist {
        path_exists(path)
    } else {
        true
    };
    check_path(path, allowed_extensions, must_exist, exists)
}

/// Extensions accepted for input videos.
pub open spec fn video_input_extensions() -> Seq<Seq<char>> {
    seq!["mp4"@, "avi"@, "mkv"@, "mov"@, "flv"@, "webm"@]
}

/// Extensions accepted for output videos.
pub open spec fn video_output_extensions() -> Seq<Seq<char>> {
    seq!["mp4"@, "avi"@, "mkv"@, "mov"@]
}

/// Extensions accepted for audio files.
pub open spec fn audio_extensions() -> Seq<Seq<char>> {
    seq!["mp3"@, "wav"@, "m4a"@, "aac"@, "ogg"@, "flac"@]
}

/// Extensions accepted for images.
pub open spec fn image_extensions() -> Seq<Seq<char>> {
    seq!["png"@, "jpg"@, "jpeg"@, "gif"@, "bmp"@, "svg"@]
}

/// Extensions accepted for thumbnails.
pub open spec fn thumbnail_extensions() -> Seq<Seq<char>> {
    seq!["png"@, "jpg"@, "jpeg"@]
}

/// Validate an input video path (must exist).
pub fn validate_video_input_path(path: &str) -> (r: Result<String, SecurityError>)
    ensures
        exists|e: bool| #[trigger] path_check(path@, Some(video_input_extensions()), true, e, r),
{
    let exts: [&str; 6] = ["mp4", "avi", "mkv", "mov", "flv", "webm"];
    let r = validate_path(path, Some(exts.as_slice()), true);
    assert(str_views(exts@) =~= video_input_extensions());
    r
}

/// Validate an output video path (need not exist yet).
pub fn validate_video_output_path(path: &str) -> (r: Result<String, SecurityError>)
    ensures
        path_check(path@, Some(video_output_extensions()), false, true, r),
{
    let exts: [&str; 4] = ["mp4", "avi", "mkv", "mov"];
    let r = check_path(path, Some(exts.as_slice()), false, true);
    assert(str_views(exts@) =~= video_output_extensions());
    r
}

/// Validate an audio file path (must exist).
pub fn validate_audio_path(path: &str) -> (r: Result<String, SecurityError>)
    ensures
        exists|e: bool| #[trigger] path_check(path@, Some(audio_extensions()), true, e, r),
{
    let exts: [&str; 6] = ["mp3", "wav", "m4a", "aac", "ogg", "flac"];
    let r = validate_path(path, Some(exts.as_slice()), true);
    assert(str_views(exts@) =~= audio_extensions());
    r
}

/// Validate an image file path (must exist).
pub fn validate_image_path(path: &str) -> (r: Result<String, SecurityError>)
    ensures
        exists|e: bool| #[trigger] path_check(path@, Some(image_extensions()), true, e, r),
{
    let exts: [&str; 6] = ["png", "jpg", "jpeg", "gif", "bmp", "svg"];
    let r = validate_path(path, Some(exts.as_slice()), true);
    assert(str_views(exts@) =~= image_extensions());
    r
}

/// Validate a thumbnail output path (need not exist yet).
pub fn validate_thumbnail_path(path: &str) -> (r: Result<String, SecurityError>)
    ensures
        path_check(path@, Some(thumbnail_extensions()), false, true, r),
{
    let exts: [&str; 3] = ["png", "jpg", "jpeg"];
    let r = check_path(path, Some(exts.as_slice()), false, true);
    assert(str_views(exts@) =~= thumbnail_extensions());
    r
}

// ========================================================================
// String Validation
// ========================================================================

/// Characters allowed in identifiers: alphanumerics, `-` and `_`.
pub open spec fn id_char_ok(c: char) -> bool {
    unicode_alphanumeric(c) || c == '-' || c == '_'
}

/// The result of validating `id` with a limit of `max_length` bytes: empty, too
/// long (in UTF-8 bytes) and invalid characters are checked in that order.
pub open spec fn id_check(id: &str, max_length: nat, r: Result<String, SecurityError>) -> bool {
    if id@.len() == 0 {
        r matches Err(SecurityError::InvalidString { reason }) && reason@ == "ID cannot be empty"@
    } else if id.len() > max_length {
        r matches Err(SecurityError::InvalidString { reason }) && reason@ == "ID too long: "@
            + decimal(id.len() as nat) + " > "@ + decimal(max_length)
    } else if exists|i: int| 0 <= i < id@.len() && !id_char_ok(#[trigger] id@[i]) {
        r matches Err(SecurityError::InvalidString { reason }) && reason@
            == "ID contains invalid characters (only alphanumeric, -, _ allowed)"@
    } else {
        r matches Ok(v) && v@ == id@
    }
}

/// Validate a string ID (alphanumeric, dashes, underscores only) of at most
/// `max_length` bytes.
pub fn validate_id(id: &str, max_length: usize) -> (r: Result<String, SecurityError>)
    ensures
        id_check(id, max_length as nat, r),
{
    if id.is_empty() {
        return Err(SecurityError::InvalidString { reason: owned("ID cannot be empty") });
    }
    let len = id.len();
    if len > max_length {
        let mut reason = owned("ID too long: ");
        push_decimal(&mut reason, len as u64);
        push_all(&mut reason, " > ");
        push_decimal(&mut reason, max_length as u64);
        return Err(SecurityError::InvalidString { reason });
    }
    let chars = chars_of(id);
    let mut i: usize = 0;
    while i < chars.len()
        invariant
            chars@ == id@,
            id@.len() != 0,
            id.len() <= max_length,
            i <= chars@.len(),
            forall|j: int| 0 <= j < i ==> id_char_ok(#[trigger] id@[j]),
        decreases chars@.len() - i,
    {
        let c = chars[i];
        if !(is_alphanumeric(c) || c == '-' || c == '_') {
            assert(!id_char_ok(id@[i as int]));
            assert(exists|k: int| 0 <= k < id@.len() && !id_char_ok(#[trigger] id@[k]));
            return Err(
                SecurityError::InvalidString {
                    reason: owned("ID contains invalid characters (only alphanumeric, -, _ allowed)"),
                },
            );
        }
        i += 1;
    }
    Ok(owned(id))
}

/// Validate a game ID (at most 100 bytes).
pub fn validate_game_id(game_id: &str) -> (r: Result<String, SecurityError>)
    ensures
        id_check(game_id, 100, r),
{
    validate_id(game_id, 100)
}

/// Validate a template ID (at most 100 bytes).
pub fn validate_template_id(template_id: &str) -> (r: Result<String, SecurityError>)
    ensures
        id_check(template_id, 100, r),
{
    validate_id(template_id, 100)
}

// ========================================================================
// Numeric Validation
// ========================================================================

/// Validate a target duration: only 60, 120 or 180 seconds.
pub fn validate_target_duration(duration: u32) -> (r: Result<u32, SecurityError>)
    ensures
        (duration == 60 || duration == 120 || duration == 180) ==> r == Ok::<u32, SecurityError>(
            duration,
        ),
        !(duration == 60 || duration == 120 || duration == 180) ==> (r matches Err(
            SecurityError::InvalidNumeric { reason },
        ) && reason@ == "Invalid target duration: "@ + decimal(duration as nat)
            + ". Must be 60, 120, or 180 seconds"@),
{
    if duration != 60 && duration != 120 && duration != 180 {
        let mut reason = owned("Invalid target duration: ");
        push_decimal(&mut reason, duration as u64);
        push_all(&mut reason, ". Must be 60, 120, or 180 seconds");
        return Err(SecurityError::InvalidNumeric { reason });
    }
    Ok(duration)
}

/// Validate an audio level (0-100).
pub fn validate_audio_level(level: u32) -> (r: Result<u32, SecurityError>)
    ensures
        level <= 100 ==> r == Ok::<u32, SecurityError>(level),
        level > 100 ==> r == Err::<u32, SecurityError>(
            SecurityError::OutOfRange { value: level as u64, min: 0, max: 100 },
        ),
{
    if level > 100 {
        return Err(SecurityError::OutOfRange { value: level as u64, min: 0, max: 100 });
    }
    Ok(level)
}

} // verus!
