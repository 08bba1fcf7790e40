//! Path logic of the server, modelled over sequences of characters.
//!
//! A path is a plain string whose segments are separated by `/`. The model
//! fixes what the rest of the library means by a file name, an extension, a
//! hidden segment, and by joining a request path onto the served root.

use vstd::prelude::*;
use vstd::string::*;
use crate::strutil::{last_index_of, rfind_char, str_eq};

verus! {

/// The part of `s` after its last `/`; the whole of `s` when it has none.
pub open spec fn file_name_of(s: Seq<char>) -> Seq<char> {
    s.subrange(last_index_of(s, '/') + 1, s.len() as int)
}

/// The extension of the file name of `s`: what follows the last `.` of the
/// name, unless the name has no `.` or starts with its only `.` (a hidden
/// file).
pub open spec fn extension_of(s: Seq<char>) -> Option<Seq<char>> {
    let name = file_name_of(s);
    let d = last_index_of(name, '.');
    if d <= 0 {
        None
    } else {
        Some(name.subrange(d + 1, name.len() as int))
    }
}

/// True when some `/`-separated segment of `s` begins with `.`.
pub open spec fn has_hidden_segment(s: Seq<char>) -> bool {
    exists|i: int|
        0 <= i < s.len() && s[i] == '.' && #[trigger] segment_starts_at(s, i)
}

/// True when position `i` begins a segment of `s`: it is the start of the
/// string or follows a `/`.
pub open spec fn segment_starts_at(s: Seq<char>, i: int) -> bool {
    i == 0 || s[i - 1] == '/'
}

/// `s` with its longest leading run of `/` and `.` characters removed.
pub open spec fn trim_leading(s: Seq<char>) -> Seq<char>
    decreases s.len(),
{
    if s.len() > 0 && is_trimmed_char(s[0]) {
        trim_leading(s.subrange(1, s.len() as int))
    } else {
        s
    }
}

/// The characters stripped from the front of a request path before it is
/// joined onto the root.
pub open spec fn is_trimmed_char(c: char) -> bool {
    c == '/' || c == '.'
}

/// `rel` appended under `root` with a single separator between them; an empty
/// root leaves `rel` alone.
pub open spec fn join_path(root: Seq<char>, rel: Seq<char>) -> Seq<char> {
    if root.len() == 0 {
        rel
    } else if root[root.len() - 1] == '/' {
        root + rel
    } else {
        root + seq!['/'] + rel
    }
}

/// The extension of `path`, as `extension_of` fixes it.
pub fn extension<'a>(path: &'a str) -> (r: Option<&'a str>)
    ensures
        match r {
            Some(e) => extension_of(path@) == Some(e@),
            None => extension_of(path@) is None,
        },
{
    let n = path.unicode_len();
    let name_start: usize = match rfind_char(path, '/') {
        Some(i) => i + 1,
        None => 0,
    };
    let name = path.substring_char(name_start, n);
    proof {
        assert(name@ =~= file_name_of(path@));
    }
    let name_len = name.unicode_len();
    match rfind_char(name, '.') {
        Some(d) if d > 0 => Some(name.substring_char(d + 1, name_len)),
        _ => None,
    }
}

/// True when the file name of `filepath` has the extension `html`.
pub fn is_html_file(filepath: &str) -> (r: bool)
    ensures
        r == (extension_of(filepath@) == Some("html"@)),
{
    match extension(filepath) {
        Some(e) => str_eq(e, "html"),
        None => false,
    }
}

/// True when some segment of `path` begins with `.`.
pub fn path_is_hidden(path: &str) -> (r: bool)
    ensures
        r == has_hidden_segment(path@),
{
    let n = path.unicode_len();
    let mut i: usize = 0;
    while i < n
        invariant
            n == path@.len(),
            i <= n,
            forall|j: int|
                0 <= j < i ==> !(path@[j] == '.' && #[trigger] segment_starts_at(path@, j)),
        decreases n - i,
    {
        if path.get_char(i) == '.' {
            if i == 0 || path.get_char(i - 1) == '/' {
                proof {
                    assert(segment_starts_at(path@, i as int));
                }
                return true;
            }
        }
        i += 1;
    }
    false
}

/// Helper for `trim_leading`: the trimmed sequence is the suffix from the
/// first position that holds neither `/` nor `.`.
proof fn lemma_trim_leading_suffix(s: Seq<char>, i: int)
    requires
        0 <= i <= s.len(),
        forall|j: int| 0 <= j < i ==> is_trimmed_char(s[j]),
        i < s.len() ==> !is_trimmed_char(s[i]),
    ensures
        trim_leading(s) == s.subrange(i, s.len() as int),
    decreases i,
{
    if i == 0 {
        assert(s.subrange(0, s.len() as int) =~= s);
    } else {
        let t = s.subrange(1, s.len() as int);
        lemma_trim_leading_suffix(t, i - 1);
        assert(t.subrange(i - 1, t.len() as int) =~= s.subrange(i, s.len() as int));
    }
}

/// `path` with its longest leading run of `/` and `.` characters removed.
pub fn trim_request_path<'a>(path: &'a str) -> (r: &'a str)
    ensures
        r@ == trim_leading(path@),
{
    let n = path.unicode_len();
    let mut i: usize = 0;
    while i < n
        invariant
            n == path@.len(),
            i <= n,
            forall|j: int| 0 <= j < i ==> is_trimmed_char(path@[j]),
        ensures
            i <= n,
            forall|j: int| 0 <= j < i ==> is_trimmed_char(path@[j]),
            i < n ==> !is_trimmed_char(path@[i as int]),
        decreases n - i,
    {
        let c = path.get_char(i);
        if c != '/' && c != '.' {
            break;
        }
        i += 1;
    }
    proof {
        lemma_trim_leading_suffix(path@, i as int);
    }
    path.substring_char(i, n)
}

/// `rel` joined under `root`, as `join_path` fixes it.
pub fn join(root: &str, rel: &str) -> (r: String)
    ensures
        r@ == join_path(root@, rel@),
{
    let n = root.unicode_len();
    if n == 0 {
        return rel.to_owned();
    }
    let mut out = root.to_owned();
    if root.get_char(n - 1) != '/' {
        proof {
            reveal_strlit("/");
            assert("/"@ =~= seq!['/']);
        }
        out.append("/");
    }
    out.append(rel);
    out
}

/// The file under `root_dir` that the request path `path` names: the path is
/// stripped of leading `/` and `.` characters and joined under the root.
pub fn build_file_path(path: &str, root_dir: &str) -> (r: String)
    ensures
        r@ == join_path(root_dir@, trim_leading(path@)),
{
    let trimmed = trim_request_path(path);
    join(root_dir, trimmed)
}

/// The `index.html` entry under the directory `dir`: what is served when a
/// request path names a directory.
pub fn directory_index_path(dir: &str) -> (r: String)
    ensures
        r@ == join_path(dir@, "index.html"@),
{
    join(dir, "index.html")
}

} // verus!
