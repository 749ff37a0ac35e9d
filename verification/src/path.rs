//! Paths as text: how a file's path is composed and how its extension is read.

use vstd::prelude::*;
use vstd::string::StringExecFns;
use vstd::string::StrSliceExecFns;
use crate::text::{lower_case, to_lower_case};

verus! {

/// The path of `name` as seen from the directory `dir`. A name that starts
/// at the root stands for itself. Any other name follows the directory, with
/// one `/` between them unless the directory is empty or ends in `/` already:
/// `<dir>/<name>`.
pub open spec fn joined(dir: Seq<char>, name: Seq<char>) -> Seq<char> {
    if name.len() > 0 && name[0] == '/' {
        name
    } else if dir.len() == 0 || dir[dir.len() - 1] == '/' {
        dir + name
    } else {
        dir + seq!['/'] + name
    }
}

/// The name of a file from its base name and its extension: `<stem>.<extension>`.
pub open spec fn file_name(stem: Seq<char>, extension: Seq<char>) -> Seq<char> {
    stem + seq!['.'] + extension
}

/// Whether the character at `at` is the first of its component: the first
/// of the path, or the one just behind a `/`.
pub open spec fn opens_component(path: Seq<char>, at: int) -> bool {
    at == 0 || path[at - 1] == '/'
}

/// Where the last component of `path[..end]` ends. Slashes at the end, and
/// components at the end that are a single dot, belong to no component and
/// are passed over. 0 where nothing is left.
pub open spec fn name_end(path: Seq<char>, end: int) -> int
    decreases end,
{
    if end <= 0 || end > path.len() {
        0
    } else if path[end - 1] == '/' || (path[end - 1] == '.' && opens_component(path, end - 1)) {
        name_end(path, end - 1)
    } else {
        end
    }
}

/// Where the text behind the last dot of the component that ends at `end`
/// begins, if that component holds a dot.
pub open spec fn extension_start(path: Seq<char>, end: int) -> Option<int>
    decreases end,
{
    if end <= 0 || end > path.len() {
        None
    } else if path[end - 1] == '.' {
        Some(end)
    } else if path[end - 1] == '/' {
        None
    } else {
        extension_start(path, end - 1)
    }
}

/// The extension of the file that `path` names as it is written there,
/// without its dot: what stands behind the last dot of the path's last
/// component. It is empty where that component holds no dot, where its only
/// dot is its first character, and where the path has no last component.
pub open spec fn written_extension(path: Seq<char>) -> Seq<char> {
    let end = name_end(path, path.len() as int);
    match extension_start(path, end) {
        Some(start) => if opens_component(path, start - 1) {
            Seq::empty()
        } else {
            path.subrange(start, end)
        },
        None => Seq::empty(),
    }
}

/// The extension of the file that `path` names: what is written behind the
/// last dot of the file's name, in lower case.
pub open spec fn extension_of(path: Seq<char>) -> Seq<char> {
    lower_case(written_extension(path))
}

/// The text holds neither a dot nor a slash.
pub open spec fn is_plain(text: Seq<char>) -> bool {
    forall|i: int| 0 <= i < text.len() ==> text[i] != '.' && text[i] != '/'
}

/// Composes the path of `name` as seen from `dir`.
pub fn join(dir: &str, name: &str) -> (path: String)
    ensures
        path@ == joined(dir@, name@),
{
    proof {
        reveal_strlit("/");
    }
    if !name.is_empty() && name.get_char(0) == '/' {
        return name.to_owned();
    }
    let len = dir.unicode_len();
    let mut path = dir.to_owned();
    if len > 0 && dir.get_char(len - 1) != '/' {
        path.append("/");
    }
    path.append(name);
    path
}

/// Composes a file's name from its base name and its extension.
pub fn with_extension(stem: &str, extension: &str) -> (name: String)
    ensures
        name@ == file_name(stem@, extension@),
{
    proof {
        reveal_strlit(".");
    }
    let mut name = stem.to_owned();
    name.append(".");
    name.append(extension);
    name
}

/// Reads the extension off a path: lower-case, without the dot.
pub fn extension(path: &str) -> (ext: String)
    ensures
        ext@ == extension_of(path@),
{
    let len = path.unicode_len();
    let mut seen: usize = 0;
    let mut at_opening = true;
    let mut running: Option<(usize, bool)> = None;
    let mut end: usize = 0;
    let mut kept: Option<(usize, bool)> = None;
    for c in it: path.chars()
        invariant
            it.seq() == path@,
            seen == it.index(),
            len == path@.len(),
            at_opening == opens_component(path@, seen as int),
            end <= seen,
            end == name_end(path@, seen as int),
            match running {
                Some((start, opening)) => {
                    &&& 1 <= start <= seen
                    &&& extension_start(path@, seen as int) == Some(start as int)
                    &&& opening == opens_component(path@, start - 1)
                },
                None => extension_start(path@, seen as int) is None,
            },
            match kept {
                Some((start, opening)) => {
                    &&& 1 <= start <= end
                    &&& extension_start(path@, end as int) == Some(start as int)
                    &&& opening == opens_component(path@, start - 1)
                },
                None => extension_start(path@, end as int) is None,
            },
    {
        let opening = at_opening;
        seen = seen + 1;
        if c == '/' {
            running = None;
            at_opening = true;
        } else {
            if c == '.' {
                running = Some((seen, opening));
            }
            at_opening = false;
            if !(c == '.' && opening) {
                end = seen;
                kept = running;
            }
        }
    }
    match kept {
        Some((start, false)) => to_lower_case(path.substring_char(start, end)),
        _ => String::new(),
    }
}

/// Scanning back over text without dot or slash does not find the start of
/// the extension: it lies where it lies for the text before.
proof fn lemma_extension_start_skips_plain(head: Seq<char>, tail: Seq<char>)
    requires
        is_plain(tail),
    ensures
        extension_start(head + tail, (head + tail).len() as int) == extension_start(
            head + tail,
            head.len() as int,
        ),
    decreases tail.len(),
{
    if tail.len() > 0 {
        let whole = head + tail;
        let shorter = tail.drop_last();
        lemma_extension_start_skips_plain(head, shorter);
        lemma_extension_start_within(head + shorter, whole, (head + shorter).len() as int);
        lemma_extension_start_within(head + shorter, whole, head.len() as int);
    }
}

/// Where the extension of `path[..end]` begins depends on `path[..end]` alone.
proof fn lemma_extension_start_within(a: Seq<char>, b: Seq<char>, end: int)
    requires
        0 <= end <= a.len(),
        end <= b.len(),
        forall|i: int| 0 <= i < end ==> a[i] == b[i],
    ensures
        extension_start(a, end) == extension_start(b, end),
    decreases end,
{
    if end > 0 {
        lemma_extension_start_within(a, b, end - 1);
    }
}

/// What stands behind a dot is the extension, where it holds neither a dot
/// nor a slash itself and the dot is not the first character of its
/// component: the text before the dot is not empty and does not end in `/`.
pub proof fn lemma_written_extension(head: Seq<char>, extension: Seq<char>)
    requires
        is_plain(extension),
        head.len() > 0,
        head.last() != '/',
    ensures
        written_extension(head + seq!['.'] + extension) == extension,
{
    let dotted = head + seq!['.'];
    let path = dotted + extension;
    lemma_extension_start_skips_plain(dotted, extension);
    assert(name_end(path, path.len() as int) == path.len());
    assert(extension_start(path, path.len() as int) == Some(dotted.len() as int));
}

/// A dot that is the first character of the last component begins no
/// extension: a name such as `.json` has none, in whatever directory it lies.
pub proof fn lemma_leading_dot_is_no_extension(head: Seq<char>, rest: Seq<char>)
    requires
        is_plain(rest),
        rest.len() > 0,
        head.len() == 0 || head.last() == '/',
    ensures
        written_extension(head + seq!['.'] + rest) == Seq::<char>::empty(),
{
    let dotted = head + seq!['.'];
    let path = dotted + rest;
    lemma_extension_start_skips_plain(dotted, rest);
    assert(name_end(path, path.len() as int) == path.len());
    assert(extension_start(path, path.len() as int) == Some(dotted.len() as int));
    assert(opens_component(path, dotted.len() - 1));
}

/// A file that is named `<stem>.<extension>` has the extension `extension`,
/// from whatever directory it is seen, where the extension holds neither a
/// dot nor a slash and the base name is not empty and does not end in `/`.
pub proof fn lemma_extension_of_named_file(dir: Seq<char>, stem: Seq<char>, extension: Seq<char>)
    requires
        is_plain(extension),
        stem.len() > 0,
        stem.last() != '/',
    ensures
        written_extension(joined(dir, file_name(stem, extension))) == extension,
        extension_of(joined(dir, file_name(stem, extension))) == lower_case(extension),
{
    let name = file_name(stem, extension);
    let head = if name[0] == '/' {
        stem
    } else if dir.len() == 0 || dir[dir.len() - 1] == '/' {
        dir + stem
    } else {
        dir + seq!['/'] + stem
    };
    assert(joined(dir, name) == head + seq!['.'] + extension);
    lemma_written_extension(head, extension);
}

} // verus!
