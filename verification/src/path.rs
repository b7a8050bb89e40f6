//! Paths as text: components, file names, stems, extensions and joining.

use crate::platform::Platform;
use vstd::prelude::*;
use vstd::string::*;

verus! {

/// Whether `c` separates two components of a path.
pub open spec fn is_separator(platform: Platform, c: char) -> bool {
    c == '/' || (platform == Platform::Windows && c == '\\')
}

/// The separator that is written between two components when they are joined.
pub open spec fn main_separator(platform: Platform) -> char {
    if platform == Platform::Windows {
        '\\'
    } else {
        '/'
    }
}

/// The index at which the last component of `path` begins: one past the last
/// separator, or 0 where the path holds none.
pub open spec fn name_start(platform: Platform, path: Seq<char>) -> nat
    decreases path.len(),
{
    if path.len() == 0 || is_separator(platform, path.last()) {
        path.len()
    } else {
        name_start(platform, path.drop_last())
    }
}

/// The last component of `path`: the text after its last separator.
pub open spec fn file_name_of(platform: Platform, path: Seq<char>) -> Seq<char> {
    path.subrange(name_start(platform, path) as int, path.len() as int)
}

/// Whether the character at `k` adds nothing at the end of a directory: a
/// separator, or a `.` that is a component of its own. The first character of
/// a path, be it the root or a leading `.`, always counts.
pub open spec fn is_padding_at(platform: Platform, dir: Seq<char>, k: int) -> bool {
    k >= 1 && (is_separator(platform, dir[k]) || (dir[k] == '.' && is_separator(
        platform,
        dir[k - 1],
    )))
}

/// `dir` without the separators and `.` components at its end.
pub open spec fn without_padding(platform: Platform, dir: Seq<char>) -> Seq<char>
    decreases dir.len(),
{
    if dir.len() > 0 && is_padding_at(platform, dir, dir.len() - 1) {
        without_padding(platform, dir.drop_last())
    } else {
        dir
    }
}

/// The directory that holds the last component of `path`: the text before the
/// last separator, without the separators and `.` components at its end, or
/// the empty text where the path holds no separator.
pub open spec fn parent_of(platform: Platform, path: Seq<char>) -> Seq<char> {
    without_padding(platform, path.subrange(0, name_start(platform, path) as int))
}

/// The index of the last `.` in `name`, or -1 where it holds none.
pub open spec fn last_dot(name: Seq<char>) -> int
    decreases name.len(),
{
    if name.len() == 0 {
        -1
    } else if name.last() == '.' {
        name.len() - 1
    } else {
        last_dot(name.drop_last())
    }
}

/// The extension of a file name: the text after its last `.`. A name without
/// a `.`, or whose only `.` is its first character, has none.
pub open spec fn name_extension(name: Seq<char>) -> Option<Seq<char>> {
    if last_dot(name) <= 0 {
        None
    } else {
        Some(name.subrange(last_dot(name) + 1, name.len() as int))
    }
}

/// The stem of a file name: the text before its last `.`, or the whole name
/// where it has no extension.
pub open spec fn name_stem(name: Seq<char>) -> Seq<char> {
    if last_dot(name) <= 0 {
        name
    } else {
        name.subrange(0, last_dot(name))
    }
}

/// The extension of the last component of `path`.
pub open spec fn extension_of(platform: Platform, path: Seq<char>) -> Option<Seq<char>> {
    name_extension(file_name_of(platform, path))
}

/// The stem of the last component of `path`.
pub open spec fn file_stem_of(platform: Platform, path: Seq<char>) -> Seq<char> {
    name_stem(file_name_of(platform, path))
}

/// `base` extended by the component `name`: a separator is written between
/// them unless `base` is empty or already ends with one.
pub open spec fn joined(platform: Platform, base: Seq<char>, name: Seq<char>) -> Seq<char> {
    if base.len() == 0 || is_separator(platform, base.last()) {
        base + name
    } else {
        base + seq![main_separator(platform)] + name
    }
}

/// The last component begins at `i` where a separator stands just before `i`,
/// or `i` is 0, and none stands after it.
pub proof fn lemma_name_start(platform: Platform, path: Seq<char>, i: int)
    requires
        0 <= i <= path.len(),
        i == 0 || is_separator(platform, path[i - 1]),
        forall|k: int| i <= k < path.len() ==> !is_separator(platform, path[k]),
    ensures
        name_start(platform, path) == i,
    decreases path.len() - i,
{
    if path.len() > i {
        lemma_name_start(platform, path.drop_last(), i);
    }
}

/// The padding at the end of `dir` begins at `j` where every character from
/// `j` on is padding and the one before `j` is not.
pub proof fn lemma_without_padding(platform: Platform, dir: Seq<char>, j: int)
    requires
        0 <= j <= dir.len(),
        j == 0 || !is_padding_at(platform, dir, j - 1),
        forall|k: int| j <= k < dir.len() ==> is_padding_at(platform, dir, k),
    ensures
        without_padding(platform, dir) == dir.subrange(0, j),
    decreases dir.len() - j,
{
    if dir.len() > j {
        let shorter = dir.drop_last();
        assert forall|k: int| j <= k < shorter.len() implies is_padding_at(
            platform,
            shorter,
            k,
        ) by {
            assert(is_padding_at(platform, dir, k));
        }
        lemma_without_padding(platform, shorter, j);
        assert(shorter.subrange(0, j) =~= dir.subrange(0, j));
    } else {
        assert(dir.subrange(0, j) =~= dir);
    }
}

/// The last `.` stands at `k - 1` where one stands there, or `k` is 0, and
/// none follows.
pub proof fn lemma_last_dot(name: Seq<char>, k: int)
    requires
        0 <= k <= name.len(),
        k == 0 || name[k - 1] == '.',
        forall|i: int| k <= i < name.len() ==> name[i] != '.',
    ensures
        last_dot(name) == k - 1,
    decreases name.len() - k,
{
    if name.len() > k {
        lemma_last_dot(name.drop_last(), k);
    }
}

/// Whether `c` separates two components of a path.
pub fn is_separator_char(platform: Platform, c: char) -> (r: bool)
    ensures
        r == is_separator(platform, c),
{
    c == '/' || (platform == Platform::Windows && c == '\\')
}

/// The index of the first character of the last component of `path`.
pub fn find_name_start(platform: Platform, path: &str) -> (r: usize)
    ensures
        r == name_start(platform, path@),
        r <= path@.len(),
{
    let n: usize = path.unicode_len();
    let mut i: usize = n;
    while i > 0 && !is_separator_char(platform, path.get_char(i - 1))
        invariant
            n == path@.len(),
            i <= n,
            forall|k: int| i <= k < n ==> !is_separator(platform, path@[k]),
        decreases i,
    {
        i -= 1;
    }
    proof {
        lemma_name_start(platform, path@, i as int);
    }
    i
}

/// The last component of `path`.
pub fn file_name(platform: Platform, path: &str) -> (r: &str)
    ensures
        r@ == file_name_of(platform, path@),
{
    let start: usize = find_name_start(platform, path);
    path.substring_char(start, path.unicode_len())
}

/// The directory that holds the last component of `path`.
pub fn parent(platform: Platform, path: &str) -> (r: &str)
    ensures
        r@ == parent_of(platform, path@),
{
    let start: usize = find_name_start(platform, path);
    let ghost dir = path@.subrange(0, start as int);
    let mut j: usize = start;
    while j > 1 && (is_separator_char(platform, path.get_char(j - 1)) || (path.get_char(j - 1)
        == '.' && is_separator_char(platform, path.get_char(j - 2))))
        invariant
            start <= path@.len(),
            j <= start,
            dir == path@.subrange(0, start as int),
            forall|k: int| j <= k < start ==> is_padding_at(platform, dir, k),
        decreases j,
    {
        j -= 1;
    }
    proof {
        lemma_without_padding(platform, dir, j as int);
        assert(dir.subrange(0, j as int) =~= path@.subrange(0, j as int));
    }
    path.substring_char(0, j)
}

/// The place of the `.` that parts the stem of `name` from its extension, if
/// the name has an extension.
pub fn find_extension_dot(name: &str) -> (r: Option<usize>)
    ensures
        match r {
            Some(k) => 0 < k < name@.len() && k == last_dot(name@),
            None => last_dot(name@) <= 0,
        },
{
    let n: usize = name.unicode_len();
    let mut k: usize = n;
    while k > 0 && name.get_char(k - 1) != '.'
        invariant
            n == name@.len(),
            k <= n,
            forall|i: int| k <= i < n ==> name@[i] != '.',
        decreases k,
    {
        k -= 1;
    }
    proof {
        lemma_last_dot(name@, k as int);
    }
    if k > 1 {
        Some(k - 1)
    } else {
        None
    }
}

/// The extension of the last component of `path`, without its `.`.
pub fn extension(platform: Platform, path: &str) -> (r: Option<&str>)
    ensures
        match r {
            Some(e) => extension_of(platform, path@) == Some(e@),
            None => extension_of(platform, path@).is_none(),
        },
{
    let name = file_name(platform, path);
    let n: usize = name.unicode_len();
    match find_extension_dot(name) {
        Some(k) => Some(name.substring_char(k + 1, n)),
        None => None,
    }
}

/// The last component of `path` without its extension.
pub fn file_stem(platform: Platform, path: &str) -> (r: &str)
    ensures
        r@ == file_stem_of(platform, path@),
{
    let name = file_name(platform, path);
    match find_extension_dot(name) {
        Some(k) => name.substring_char(0, k),
        None => name,
    }
}

/// `base` extended by the component `name`.
pub fn join(platform: Platform, base: &str, name: &str) -> (r: String)
    ensures
        r@ == joined(platform, base@, name@),
{
    let n: usize = base.unicode_len();
    let start = String::from_str(base);
    if n == 0 || is_separator_char(platform, base.get_char(n - 1)) {
        start.concat(name)
    } else {
        proof {
            reveal_strlit("\\");
            reveal_strlit("/");
            assert("\\"@ =~= seq!['\\']);
            assert("/"@ =~= seq!['/']);
        }
        let separator = match platform {
            Platform::Windows => "\\",
            Platform::Linux => "/",
        };
        start.concat(separator).concat(name)
    }
}

/// Whether no character of `name` is a separator.
pub open spec fn is_single_component(platform: Platform, name: Seq<char>) -> bool {
    forall|i: int| 0 <= i < name.len() ==> !is_separator(platform, #[trigger] name[i])
}

/// Whether `dir` is written without padding at its end: the empty path, the
/// root, or a path that ends with a component other than `.`.
pub open spec fn is_plain_directory(platform: Platform, dir: Seq<char>) -> bool {
    dir.len() == 0 || !is_padding_at(platform, dir, dir.len() - 1)
}

/// Joining a directory and a name can be undone: the name is the file name of
/// the joined path, and the directory is its parent.
pub proof fn lemma_joined_splits(platform: Platform, dir: Seq<char>, name: Seq<char>)
    requires
        is_plain_directory(platform, dir),
        is_single_component(platform, name),
    ensures
        file_name_of(platform, joined(platform, dir, name)) == name,
        parent_of(platform, joined(platform, dir, name)) == dir,
{
    let path = joined(platform, dir, name);
    let start = path.len() - name.len();
    assert forall|k: int| start <= k < path.len() implies !is_separator(platform, path[k]) by {
        assert(path[k] == name[k - start]);
    }
    lemma_name_start(platform, path, start);
    assert(path.subrange(start, path.len() as int) =~= name);
    let head = path.subrange(0, start);
    if dir.len() > 0 {
        assert(is_padding_at(platform, head, dir.len() - 1) == is_padding_at(
            platform,
            dir,
            dir.len() - 1,
        ));
    }
    lemma_without_padding(platform, head, dir.len() as int);
    assert(head.subrange(0, dir.len() as int) =~= dir);
}

/// A name made of a stem, a `.` and an extension without a `.` is parted
/// again into that stem and that extension.
pub proof fn lemma_name_parts(stem: Seq<char>, ext: Seq<char>)
    requires
        stem.len() > 0,
        forall|i: int| 0 <= i < ext.len() ==> ext[i] != '.',
    ensures
        name_stem(stem + seq!['.'] + ext) == stem,
        name_extension(stem + seq!['.'] + ext) == Some(ext),
{
    let name = stem + seq!['.'] + ext;
    let dot = stem.len() as int;
    assert forall|i: int| dot + 1 <= i < name.len() implies name[i] != '.' by {
        assert(name[i] == ext[i - dot - 1]);
    }
    lemma_last_dot(name, dot + 1);
    assert(name.subrange(0, dot) =~= stem);
    assert(name.subrange(dot + 1, name.len() as int) =~= ext);
}

} // verus!
