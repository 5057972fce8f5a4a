//! Where a download puts its bytes until it is complete.
//!
//! How a path is taken apart differs between platforms, so the functions that
//! ask `std::path` claim only what holds on each of them.

use crate::text::{append_unsigned, characters, decimal, decimal_nat};
use std::path::Path;
use vstd::prelude::*;

verus! {

broadcast use vstd::string::group_string_axioms;

/// The name of the temporary file for a download to a file called `name`.
pub open spec fn temp_file_name(name: Seq<char>, nonce: u128) -> Seq<char> {
    "."@ + name + ".drive9-tmp-"@ + decimal(nonce as int)
}

/// What every temporary file name of a download with this nonce ends with.
pub open spec fn temp_suffix(nonce: u128) -> Seq<char> {
    ".drive9-tmp-"@ + decimal(nonce as int)
}

/// `text` ends with `end`.
pub open spec fn ends_with(text: Seq<char>, end: Seq<char>) -> bool {
    end.len() <= text.len() && text.skip(text.len() - end.len()) == end
}

/// A character that separates components on some platform.
pub open spec fn separator(c: char) -> bool {
    c == '/' || c == '\\'
}

/// `text` holds no separator of any platform.
pub open spec fn unseparated(text: Seq<char>) -> bool {
    forall|i: int| 0 <= i < text.len() ==> !separator(#[trigger] text[i])
}

/// `text` holds nothing but separators and single dots.
pub open spec fn filler(text: Seq<char>) -> bool {
    &&& forall|i: int| 0 <= i < text.len() ==> separator(#[trigger] text[i]) || text[i] == '.'
    &&& forall|i: int|
        0 < i < text.len() ==> separator(#[trigger] text[i]) || separator(text[i - 1])
}

/// `text` adds nothing to a component that stands before it.
pub open spec fn trailing(text: Seq<char>) -> bool {
    filler(text) && (text.len() > 0 ==> separator(text[0]))
}

/// `path` begins as a path with a drive does.
pub open spec fn begins_with_drive(path: Seq<char>) -> bool {
    path.len() >= 2 && path[1] == ':'
}

/// `path` begins as a network share, a device or a verbatim path does.
pub open spec fn begins_with_share(path: Seq<char>) -> bool {
    path.len() >= 2 && separator(path[0]) && separator(path[1])
}

/// `path` begins as a verbatim path does, whose parts are taken literally.
pub open spec fn verbatim(path: Seq<char>) -> bool {
    "\\\\?\\"@.is_prefix_of(path)
}

/// `path` consists of two separators, `server`, `gap`, `share`, and `rest`, where
/// `gap` separates and `rest` adds nothing.
pub open spec fn is_share(
    path: Seq<char>,
    server: Seq<char>,
    gap: Seq<char>,
    share: Seq<char>,
    rest: Seq<char>,
) -> bool {
    &&& begins_with_share(path)
    &&& path.skip(2) == server + gap + share + rest
    &&& unseparated(server)
    &&& gap.len() > 0 && filler(gap)
    &&& unseparated(share)
    &&& trailing(rest)
}

/// A path that may be a root, or a drive or share and nothing else.
pub open spec fn rootlike(path: Seq<char>) -> bool {
    ||| filler(path)
    ||| begins_with_drive(path) && filler(path.skip(2))
    ||| verbatim(path)
    ||| exists|server: Seq<char>, gap: Seq<char>, share: Seq<char>, rest: Seq<char>| #[trigger]
        is_share(path, server, gap, share, rest)
}

/// `path` ends in a separator or a dot.
pub open spec fn ends_in_filler(path: Seq<char>) -> bool {
    path.len() > 0 && (separator(path.last()) || path.last() == '.')
}

/// A path that may be without a file name.
pub open spec fn nameless(path: Seq<char>) -> bool {
    ||| rootlike(path)
    ||| ends_in_filler(path)
}

/// A component can follow `front`.
pub open spec fn before_component(front: Seq<char>) -> bool {
    ||| front.len() == 0
    ||| separator(front.last())
    ||| front.len() == 2 && front[1] == ':'
}

/// `path` consists of `front`, the component `name`, and `rest`, which adds
/// nothing.
pub open spec fn splits(path: Seq<char>, front: Seq<char>, name: Seq<char>, rest: Seq<char>) -> bool {
    &&& path == front + name + rest
    &&& name.len() > 0
    &&& name != "."@
    &&& name != ".."@
    &&& before_component(front)
    &&& trailing(rest)
}

/// `name` can be the last component of `path`: it ends the path, but for
/// separators and dots, and a separator stands before it.
pub open spec fn ends_in(path: Seq<char>, name: Seq<char>) -> bool {
    &&& exists|front: Seq<char>, rest: Seq<char>| #[trigger] splits(path, front, name, rest)
    &&& name.contains('/') ==> verbatim(path)
}

/// `path` consists of `dir` and the component `name`, between `gap` and `rest`,
/// which add nothing.
pub open spec fn adds_component(
    path: Seq<char>,
    dir: Seq<char>,
    gap: Seq<char>,
    name: Seq<char>,
    rest: Seq<char>,
) -> bool {
    &&& path == dir + gap + name + rest
    &&& name.len() > 0
    &&& before_component(dir + gap)
    &&& filler(gap)
    &&& gap.len() > 0 ==> before_component(dir) || separator(gap[0])
    &&& trailing(rest)
    &&& name == "."@ ==> dir.len() == 0 || (dir.len() == 2 && dir[1] == ':') || verbatim(path)
    &&& name.contains('/') ==> verbatim(path) && !name.contains('\\')
}

/// `dir` can be what is left of `path` without its last component.
pub open spec fn drops_last(path: Seq<char>, dir: Seq<char>) -> bool {
    exists|gap: Seq<char>, name: Seq<char>, rest: Seq<char>| #[trigger]
        adds_component(path, dir, gap, name, rest)
}

/// A file name that every platform takes for one.
pub open spec fn plain_name(name: Seq<char>) -> bool {
    &&& name.len() > 0
    &&& !name.contains('/')
    &&& !name.contains('\\')
    &&& name != "."@
    &&& name != ".."@
}

/// `dir` is a directory below what may be a network share: two slashes, the
/// server, the share, and something behind them.
pub open spec fn below_share(dir: Seq<char>) -> bool {
    exists|server: Seq<char>, share: Seq<char>, rest: Seq<char>| #[trigger]
        is_below_share(dir, server, share, rest)
}

/// `dir` is `rest` on the share `share` of `server`.
pub open spec fn is_below_share(
    dir: Seq<char>,
    server: Seq<char>,
    share: Seq<char>,
    rest: Seq<char>,
) -> bool {
    &&& dir == "//"@ + server + "/"@ + share + "/"@ + rest
    &&& server.len() > 0 && !server.contains('/')
    &&& share.len() > 0 && !share.contains('/')
    &&& rest.len() > 0
}

/// A directory that every platform takes for one: no drive, no network share but
/// below it, and nothing at its end that goes without saying.
pub open spec fn plain_directory(dir: Seq<char>) -> bool {
    &&& dir.len() > 0
    &&& !dir.contains('\\')
    &&& !begins_with_drive(dir)
    &&& begins_with_share(dir) ==> below_share(dir)
    &&& dir.last() != '/'
    &&& !ends_with(dir, "/."@)
}

/// The path of the file `name` in the directory `dir`.
pub open spec fn in_directory(dir: Seq<char>, name: Seq<char>) -> Seq<char> {
    dir + "/"@ + name
}

/// `path` is `name` behind `dir`, with the separator of this platform where one
/// is needed.
pub open spec fn adjoined(path: Seq<char>, dir: Seq<char>, name: Seq<char>) -> bool {
    path == dir + name || path == in_directory(dir, name) || path == dir + "\\"@ + name
}

/// `path` is the file `name` in the directory `dir`, which is plain or the root.
pub open spec fn is_joined(path: Seq<char>, dir: Seq<char>, name: Seq<char>) -> bool {
    if dir == "/"@ {
        path == dir + name
    } else {
        path == in_directory(dir, name) || path == dir + "\\"@ + name
    }
}

/// `path` is the file `name` in the directory `dir`, on every platform.
pub open spec fn lies_in(path: Seq<char>, dir: Seq<char>, name: Seq<char>) -> bool {
    &&& plain_name(name)
    &&& {
        ||| plain_directory(dir) && path == in_directory(dir, name)
        ||| dir == "/"@ && path == dir + name
    }
}

/// `path` is a file name and nothing else, on every platform.
pub open spec fn lone_name(path: Seq<char>) -> bool {
    plain_name(path) && !begins_with_drive(path)
}

/// `found` can be the last component of `path`, if `path` has one; and if `path`
/// is a plain name in a plain directory or in the root, then `found` is the name.
pub open spec fn names_last_component(path: Seq<char>, found: Option<Seq<char>>) -> bool {
    &&& match found {
        Some(name) => ends_in(path, name),
        None => nameless(path),
    }
    &&& forall|dir: Seq<char>, name: Seq<char>| #[trigger]
        lies_in(path, dir, name) ==> found == Some(name)
}

/// `found` can be what is left of `path` without its last component, if `path`
/// has one; and if `path` is a plain name in a plain directory or in the root,
/// then `found` is the directory.
pub open spec fn names_directory(path: Seq<char>, found: Option<Seq<char>>) -> bool {
    &&& match found {
        Some(dir) => drops_last(path, dir),
        None => rootlike(path),
    }
    &&& forall|dir: Seq<char>, name: Seq<char>| #[trigger]
        lies_in(path, dir, name) ==> found == Some(dir)
}

/// `path` ends as `name` does, up to the last separator.
pub open spec fn keeps_end(path: Seq<char>, name: Seq<char>) -> bool {
    forall|tail: Seq<char>| #[trigger]
        ends_with(name, tail) && tail.len() > 2 && unseparated(tail) ==> ends_with(path, tail)
}

/// The last component of a path.
///
/// Calls `Path::file_name` and `OsStr::to_str`. Trusted: a component ends the
/// path, but for separators and dots, and a separator or a drive stands before
/// it; only in a verbatim path does it hold a slash. A path without one ends in a
/// dot or a separator, or is a root, a drive or a share. A plain name is its own
/// last component, and it is the last component of its path in a plain directory
/// or in the root. Left unsaid is which characters separate, which depends on the
/// platform.
#[verifier::external_body]
fn file_name_of(path: &str) -> (name: Option<String>)
    ensures
        lone_name(path@) ==> name.deep_view() == Some(path@),
        names_last_component(path@, name.deep_view()),
{
    Path::new(path).file_name().and_then(|name| name.to_str()).map(|name| name.to_string())
}

/// A path without its last component.
///
/// Calls `Path::parent`. Trusted: what is left is the beginning of the path, and
/// what is dropped is a single component with separators and dots around it; a
/// separator or a drive stands before the component, unless it begins the path. A
/// path that has no parent is empty, a root, a drive or a share. Of a plain name
/// nothing is left, and of a plain name in a plain directory or in the root the
/// directory. Left unsaid is which characters separate, which depends on the
/// platform.
#[verifier::external_body]
fn parent_of(path: &str) -> (parent: Option<String>)
    ensures
        lone_name(path@) ==> parent.deep_view() == Some(Seq::<char>::empty()),
        names_directory(path@, parent.deep_view()),
{
    Path::new(path).parent().and_then(|parent| parent.to_str()).map(|parent| parent.to_string())
}

/// The path of the file `name` in the directory `dir`.
///
/// Calls `Path::join`. Trusted: a name that begins with a dot is relative, so it
/// is put behind the directory, and the last component keeps its end. Where the
/// directory is not verbatim, both are taken over as they are; behind a plain
/// directory comes a separator, behind the root none. Left unsaid is which
/// separator that is, which depends on the platform.
#[verifier::external_body]
fn join(dir: &str, name: &str) -> (path: String)
    requires
        name@.len() > 0 && name@[0] == '.',
    ensures
        keeps_end(path@, name@),
        !verbatim(dir@) ==> adjoined(path@, dir@, name@),
        plain_directory(dir@) || dir@ == "/"@ ==> is_joined(path@, dir@, name@),
{
    Path::new(dir).join(name).to_string_lossy().to_string()
}

/// The name of the temporary file for a download to a file called `file_name`,
/// or "download" where the destination has no name.
pub fn temp_name(file_name: Option<&str>, nonce: u128) -> (name: String)
    ensures
        name@ == temp_file_name(
            match file_name {
                Some(given) => given@,
                None => "download"@,
            },
            nonce,
        ),
{
    let stem = match file_name {
        Some(given) => given,
        None => "download",
    };
    let mut name = ".".to_string();
    name.append(stem);
    name.append(".drive9-tmp-");
    append_unsigned(&mut name, nonce);
    name
}

/// The directory that the temporary file has to be put in explicitly: the
/// parent of the destination, unless that is empty.
pub fn temp_directory(parent: Option<String>) -> (dir: Option<String>)
    ensures
        dir == match parent {
            Some(given) => if given@.len() > 0 {
                Some(given)
            } else {
                None
            },
            None => None,
        },
{
    match parent {
        Some(given) => if given.as_str().is_empty() {
            None
        } else {
            Some(given)
        },
        None => None,
    }
}

/// Whether `path` ends in a separator or a dot.
fn is_filler_end(path: &str) -> (loose: bool)
    ensures
        loose == ends_in_filler(path@),
{
    let chars = characters(path);
    if chars.len() == 0 {
        return false;
    }
    let last = chars[chars.len() - 1];
    last == '/' || last == '\\' || last == '.'
}

/// `path` is the temporary file that is called after `name` and lies in `dir`,
/// where these can be the name and the directory of `local_path`. An empty `dir`
/// is the current directory.
pub open spec fn lies_beside(
    path: Seq<char>,
    local_path: Seq<char>,
    dir: Seq<char>,
    name: Seq<char>,
    nonce: u128,
) -> bool {
    &&& ends_in(local_path, name) || (name == "download"@ && nameless(local_path))
    &&& drops_last(local_path, dir) || (dir.len() == 0 && rootlike(local_path))
    &&& if dir.len() == 0 {
        path == temp_file_name(name, nonce)
    } else {
        adjoined(path, dir, temp_file_name(name, nonce))
    }
}

/// `path` is where a download to `local_path` may put its bytes: a hidden file
/// that is named after the destination and lies next to it, and that is not the
/// destination. What the name and the directory of the destination are depends on
/// the platform, but not where they are plain.
pub open spec fn is_temp_path(path: Seq<char>, local_path: Seq<char>, nonce: u128) -> bool {
    &&& lone_name(local_path) ==> path == temp_file_name(local_path, nonce)
    &&& forall|dir: Seq<char>, name: Seq<char>| #[trigger]
        lies_in(local_path, dir, name) ==> is_joined(path, dir, temp_file_name(name, nonce))
    &&& !verbatim(local_path) ==> exists|dir: Seq<char>, name: Seq<char>| #[trigger]
        lies_beside(path, local_path, dir, name, nonce)
    &&& ends_with(path, temp_suffix(nonce))
    &&& path != local_path
}

/// A decimal numeral consists of digits.
proof fn lemma_numeral(n: nat)
    ensures
        decimal_nat(n).len() > 0,
        forall|i: int|
            0 <= i < decimal_nat(n).len() ==> '0' <= (#[trigger] decimal_nat(n)[i]) <= '9',
    decreases n,
{
    if n >= 10 {
        lemma_numeral(n / 10);
    }
}

/// The end of a temporary file name holds no separator, and ends in a digit.
proof fn lemma_temp_suffix(nonce: u128)
    ensures
        temp_suffix(nonce).len() > 12,
        unseparated(temp_suffix(nonce)),
        '0' <= temp_suffix(nonce).last() <= '9',
{
    reveal_strlit(".drive9-tmp-");
    lemma_numeral(nonce as nat);
    assert(unseparated(".drive9-tmp-"@));
}

/// Where the last run of characters without a separator begins.
proof fn lemma_last_run(name: Seq<char>) -> (from: int)
    ensures
        0 <= from <= name.len(),
        unseparated(name.skip(from)),
        from > 0 ==> separator(name[from - 1]),
    decreases name.len(),
{
    if name.len() == 0 || separator(name.last()) {
        name.len() as int
    } else {
        let from = lemma_last_run(name.drop_last());
        assert forall|i: int| 0 <= i < name.skip(from).len() implies !separator(
            #[trigger] name.skip(from)[i],
        ) by {
            if i < name.skip(from).len() - 1 {
                assert(name.skip(from)[i] == name.drop_last().skip(from)[i]);
            }
        }
        from
    }
}

/// A file that is called as the temporary file for a destination with this last
/// component is not that destination.
proof fn lemma_another_file(path: Seq<char>, local_path: Seq<char>, name: Seq<char>, nonce: u128)
    requires
        ends_in(local_path, name),
        keeps_end(path, temp_file_name(name, nonce)),
    ensures
        path != local_path,
{
    let full = temp_file_name(name, nonce);
    let suffix = temp_suffix(nonce);
    let from = lemma_last_run(name);
    let run = name.skip(from);
    let tail = run + suffix;
    lemma_temp_suffix(nonce);
    reveal_strlit(".");
    assert(full =~= "."@ + name + suffix);
    assert(full.skip(full.len() - tail.len()) =~= tail);
    assert(unseparated(tail));
    assert(ends_with(full, tail));
    if path == local_path {
        let (front, rest) = choose|front: Seq<char>, rest: Seq<char>| #[trigger]
            splits(local_path, front, name, rest);
        assert(ends_with(path, tail));
        let at = path.len() - tail.len();
        assert(path.skip(at)[tail.len() - 1] == tail.last());
        assert(path.last() == tail.last());
        if rest.len() > 0 {
            assert(path.last() == rest.last());
            assert(separator(rest[rest.len() - 1]) || rest[rest.len() - 1] == '.');
        }
        assert(rest.len() == 0);
        let before = front.len() + from - 1;
        assert(path.len() == front.len() + name.len());
        assert(before >= 0);
        assert(path[before] == path.skip(at)[before - at]);
        assert(!separator(tail[before - at]));
        if from > 0 {
            assert(path[before] == name[from - 1]);
        } else {
            assert(path[before] == front.last());
        }
    }
}

/// What is called as a temporary file ends in a digit, and holds no separator
/// where the name that it is called after holds none.
proof fn lemma_temp_name(name: Seq<char>, nonce: u128)
    ensures
        temp_file_name(name, nonce) == "."@ + name + temp_suffix(nonce),
        ends_with(temp_file_name(name, nonce), temp_suffix(nonce)),
        ends_with(temp_file_name(name, nonce), temp_file_name(name, nonce)),
        temp_file_name(name, nonce).len() > name.len() + 12,
        '0' <= temp_file_name(name, nonce).last() <= '9',
        unseparated(name) ==> unseparated(temp_file_name(name, nonce)),
{
    let full = temp_file_name(name, nonce);
    reveal_strlit(".");
    lemma_temp_suffix(nonce);
    assert(full =~= "."@ + name + temp_suffix(nonce));
    assert(full.skip(full.len() - temp_suffix(nonce).len()) =~= temp_suffix(nonce));
    assert(full.skip(0) =~= full);
}

/// A file that is called as a temporary file is not a destination that ends in a
/// separator or a dot.
proof fn lemma_not_filler(path: Seq<char>, local_path: Seq<char>, nonce: u128)
    requires
        ends_in_filler(local_path),
        ends_with(path, temp_suffix(nonce)),
    ensures
        path != local_path,
{
    let suffix = temp_suffix(nonce);
    lemma_temp_suffix(nonce);
    assert(path.skip(path.len() - suffix.len())[suffix.len() - 1] == suffix.last());
    assert(path.last() == suffix.last());
}

/// A path that begins as a hidden file does and ends in a digit has a file name.
proof fn lemma_hidden_file_has_name(path: Seq<char>)
    requires
        path.len() > 2,
        path[0] == '.',
        path[1] == 'd',
        '0' <= path.last() <= '9',
    ensures
        !nameless(path),
{
    reveal_strlit("\\\\?\\");
    if verbatim(path) {
        assert("\\\\?\\"@[0] == path[0]);
    }
    if filler(path) {
        assert(separator(path[1]) || path[1] == '.');
    }
}

/// A name that is put behind a directory is the temporary file.
proof fn lemma_temp_path(
    path: Seq<char>,
    local_path: Seq<char>,
    dir: Seq<char>,
    found: Option<Seq<char>>,
    name: Seq<char>,
    nonce: u128,
)
    requires
        names_last_component(local_path, found),
        name == match found {
            Some(given) => given,
            None => "download"@,
        },
        names_directory(local_path, Some(dir)),
        dir.len() > 0,
        !lone_name(local_path),
        found is None ==> ends_in_filler(local_path),
        keeps_end(path, temp_file_name(name, nonce)),
        !verbatim(dir) ==> adjoined(path, dir, temp_file_name(name, nonce)),
        plain_directory(dir) || dir == "/"@ ==> is_joined(path, dir, temp_file_name(name, nonce)),
    ensures
        is_temp_path(path, local_path, nonce),
{
    let full = temp_file_name(name, nonce);
    lemma_temp_name(name, nonce);
    lemma_temp_suffix(nonce);
    assert(ends_with(full, temp_suffix(nonce)));
    match found {
        Some(_) => lemma_another_file(path, local_path, name, nonce),
        None => lemma_not_filler(path, local_path, nonce),
    }
    if !verbatim(local_path) {
        assert(dir.is_prefix_of(local_path)) by {
            let (gap, last, rest) = choose|gap: Seq<char>, last: Seq<char>, rest: Seq<char>|
                #[trigger] adds_component(local_path, dir, gap, last, rest);
            assert(local_path =~= dir + (gap + last + rest));
        }
        if verbatim(dir) {
            assert("\\\\?\\"@.is_prefix_of(local_path));
        }
        assert(lies_beside(path, local_path, dir, name, nonce));
    }
}

/// A name that stands for itself is the temporary file.
proof fn lemma_bare_temp_path(
    local_path: Seq<char>,
    parent: Option<Seq<char>>,
    found: Option<Seq<char>>,
    name: Seq<char>,
    nonce: u128,
)
    requires
        names_last_component(local_path, found),
        lone_name(local_path) ==> found == Some(local_path),
        name == match found {
            Some(given) => given,
            None => "download"@,
        },
        names_directory(local_path, parent) || (parent is None && found is None && !ends_in_filler(
            local_path,
        )),
        parent matches Some(dir) ==> dir.len() == 0,
    ensures
        is_temp_path(temp_file_name(name, nonce), local_path, nonce),
{
    let path = temp_file_name(name, nonce);
    lemma_temp_name(name, nonce);
    assert(keeps_end(path, path));
    reveal_strlit("/");
    match found {
        Some(_) => lemma_another_file(path, local_path, name, nonce),
        None => {
            reveal_strlit(".");
            reveal_strlit("download");
            assert(path[0] == '.');
            assert(path[1] == 'd');
            lemma_hidden_file_has_name(path);
        },
    }
    let dir = Seq::<char>::empty();
    if parent is Some {
        assert(parent->0 =~= dir);
    }
    assert(lies_beside(path, local_path, dir, name, nonce));
}

/// The path of the temporary file for a download to `local_path`: a hidden file
/// that is named after the destination and lies next to it.
pub fn temp_path(local_path: &str, nonce: u128) -> (path: String)
    ensures
        is_temp_path(path@, local_path@, nonce),
{
    let file_name = file_name_of(local_path);
    let stem = match &file_name {
        Some(given) => Some(given.as_str()),
        None => None,
    };
    let name = temp_name(stem, nonce);
    let ghost stem_text = match stem {
        Some(given) => given@,
        None => "download"@,
    };
    proof {
        reveal_strlit(".");
        assert(name@[0] == '.');
    }
    // A path that has no file name and ends in neither a separator nor a dot is
    // empty, or a drive or share and nothing else: it has no parent.
    let parent = if file_name.is_some() || is_filler_end(local_path) {
        parent_of(local_path)
    } else {
        None
    };
    let ghost parent_text = parent.deep_view();
    match temp_directory(parent) {
        Some(dir) => {
            let path = join(dir.as_str(), name.as_str());
            proof {
                lemma_temp_path(
                    path@,
                    local_path@,
                    dir@,
                    file_name.deep_view(),
                    stem_text,
                    nonce,
                );
            }
            path
        },
        None => {
            proof {
                lemma_bare_temp_path(
                    local_path@,
                    parent_text,
                    file_name.deep_view(),
                    stem_text,
                    nonce,
                );
            }
            name
        },
    }
}

/// The temporary file is never the destination, so what happens to it does not
/// touch the destination; and it is told by the end of its name.
pub proof fn law_temp_file_is_another_file(path: Seq<char>, local_path: Seq<char>, nonce: u128)
    requires
        is_temp_path(path, local_path, nonce),
    ensures
        path != local_path,
        ends_with(path, ".drive9-tmp-"@ + decimal(nonce as int)),
{
}

/// The name of the temporary file is that of the destination between a dot and the
/// nonce.
pub proof fn law_temp_file_name(name: Seq<char>, nonce: u128)
    ensures
        temp_file_name(name, nonce) == "."@ + name + ".drive9-tmp-"@ + decimal(nonce as int),
{
}

/// The temporary file for a destination that is a name and nothing else lies beside
/// it and is named after it.
pub proof fn law_temp_file_of_a_name(path: Seq<char>, name: Seq<char>, nonce: u128)
    requires
        is_temp_path(path, name, nonce),
        name.len() > 0,
        forall|i: int|
            0 <= i < name.len() ==> (#[trigger] name[i]) != '/' && name[i] != '\\',
        name != "."@,
        name != ".."@,
        name.len() < 2 || name[1] != ':',
    ensures
        path == "."@ + name + ".drive9-tmp-"@ + decimal(nonce as int),
{
    assert(!name.contains('/'));
    assert(!name.contains('\\'));
}

/// The temporary file for a destination in a directory lies in that directory and
/// is named after the destination.
pub proof fn law_temp_file_in_a_directory(
    path: Seq<char>,
    dir: Seq<char>,
    name: Seq<char>,
    nonce: u128,
)
    requires
        is_temp_path(path, dir + "/"@ + name, nonce),
        name.len() > 0,
        forall|i: int|
            0 <= i < name.len() ==> (#[trigger] name[i]) != '/' && name[i] != '\\',
        name != "."@,
        name != ".."@,
        dir.len() > 0,
        forall|i: int| 0 <= i < dir.len() ==> (#[trigger] dir[i]) != '\\',
        dir.last() != '/',
        dir.len() < 2 || !(dir[dir.len() - 2] == '/' && dir.last() == '.'),
        dir.len() < 2 || dir[1] != ':',
        dir.len() < 2 || dir[0] != '/' || dir[1] != '/',
    ensures
        path == dir + "/"@ + ("."@ + name + ".drive9-tmp-"@ + decimal(nonce as int)) || path == dir
            + "\\"@ + ("."@ + name + ".drive9-tmp-"@ + decimal(nonce as int)),
{
    reveal_strlit("/");
    reveal_strlit("/.");
    assert(!name.contains('/'));
    assert(!name.contains('\\'));
    assert(!dir.contains('\\'));
    if ends_with(dir, "/."@) {
        assert(dir.skip(dir.len() - 2)[0] == "/."@[0]);
        assert(dir.skip(dir.len() - 2)[1] == "/."@[1]);
    }
    assert(plain_directory(dir));
    assert(dir != "/"@) by {
        if dir == "/"@ {
            assert(dir.last() == '/');
        }
    }
    assert(lies_in(dir + "/"@ + name, dir, name));
}

/// The temporary file for a destination in the root lies in the root.
pub proof fn law_temp_file_in_the_root(path: Seq<char>, name: Seq<char>, nonce: u128)
    requires
        is_temp_path(path, "/"@ + name, nonce),
        name.len() > 0,
        forall|i: int|
            0 <= i < name.len() ==> (#[trigger] name[i]) != '/' && name[i] != '\\',
        name != "."@,
        name != ".."@,
    ensures
        path == "/"@ + ("."@ + name + ".drive9-tmp-"@ + decimal(nonce as int)),
{
    assert(!name.contains('/'));
    assert(!name.contains('\\'));
    assert(lies_in("/"@ + name, "/"@, name));
}

/// The temporary file for a destination below what may be a network share lies in
/// the directory of the destination.
pub proof fn law_temp_file_below_a_share(
    path: Seq<char>,
    server: Seq<char>,
    share: Seq<char>,
    rest: Seq<char>,
    name: Seq<char>,
    nonce: u128,
)
    requires
        is_temp_path(
            path,
            ("//"@ + server + "/"@ + share + "/"@ + rest) + "/"@ + name,
            nonce,
        ),
        name.len() > 0,
        forall|i: int|
            0 <= i < name.len() ==> (#[trigger] name[i]) != '/' && name[i] != '\\',
        name != "."@,
        name != ".."@,
        server.len() > 0,
        share.len() > 0,
        rest.len() > 0,
        forall|i: int|
            0 <= i < server.len() ==> (#[trigger] server[i]) != '/' && server[i] != '\\',
        forall|i: int|
            0 <= i < share.len() ==> (#[trigger] share[i]) != '/' && share[i] != '\\',
        forall|i: int| 0 <= i < rest.len() ==> (#[trigger] rest[i]) != '\\',
        rest.last() != '/',
        rest.last() != '.',
    ensures
        ({
            let dir = "//"@ + server + "/"@ + share + "/"@ + rest;
            let temp = "."@ + name + ".drive9-tmp-"@ + decimal(nonce as int);
            path == dir + "/"@ + temp || path == dir + "\\"@ + temp
        }),
{
    let dir = "//"@ + server + "/"@ + share + "/"@ + rest;
    reveal_strlit("/");
    reveal_strlit("//");
    reveal_strlit("/.");
    assert(!name.contains('/'));
    assert(!name.contains('\\'));
    assert(!server.contains('/'));
    assert(!share.contains('/'));
    assert(is_below_share(dir, server, share, rest));
    assert(dir.last() == rest.last());
    assert forall|i: int| 0 <= i < dir.len() implies (#[trigger] dir[i]) != '\\' by {
        let a = 2 + server.len();
        let b = a + 1 + share.len();
        if i < 2 {
            assert(dir[i] == '/');
        } else if i < a {
            assert(dir[i] == server[i - 2]);
        } else if i == a {
            assert(dir[i] == '/');
        } else if i < b {
            assert(dir[i] == share[i - a - 1]);
        } else if i == b {
            assert(dir[i] == '/');
        } else {
            assert(dir[i] == rest[i - b - 1]);
        }
    }
    assert(!dir.contains('\\'));
    assert(dir[1] == '/');
    if ends_with(dir, "/."@) {
        assert(dir.skip(dir.len() - 2)[1] == "/."@[1]);
    }
    assert(plain_directory(dir));
    assert(dir != "/"@);
    assert(lies_in(dir + "/"@ + name, dir, name));
}

/// However the directory of a destination is written, with repeated slashes or
/// with dots that add nothing, the temporary file is named after the last part of
/// the destination and lies in what stands before it.
pub proof fn law_temp_file_lies_beside(
    path: Seq<char>,
    front: Seq<char>,
    name: Seq<char>,
    nonce: u128,
) -> (dir: Seq<char>)
    requires
        is_temp_path(path, front + name, nonce),
        front.len() == 0 || front.last() == '/',
        name.len() > 0,
        forall|i: int| 0 <= i < name.len() ==> (#[trigger] name[i]) != '/',
        name.last() != '.',
        forall|i: int| 0 <= i < (front + name).len() ==> (#[trigger] (front + name)[i]) != '\\',
        (front + name).len() < 2 || (front + name)[1] != ':',
        (front + name).len() < 2 || (front + name)[0] != '/' || (front + name)[1] != '/',
    ensures
        ({
            let temp = "."@ + name + ".drive9-tmp-"@ + decimal(nonce as int);
            &&& dir.is_prefix_of(front)
            &&& forall|i: int| dir.len() <= i < front.len() ==> (#[trigger] front[i]) == '/'
                || front[i] == '.'
            &&& forall|i: int|
                dir.len() < i < front.len() ==> (#[trigger] front[i]) == '/' || front[i - 1] == '/'
            &&& dir.len() == 0 ==> path == temp
            &&& dir.len() > 0 ==> path == dir + temp || path == dir + "/"@ + temp || path == dir
                + "\\"@ + temp
        }),
{
    let local = front + name;
    assert(local.last() == name.last());
    assert(local[local.len() - 1] == name[name.len() - 1]);
    reveal_strlit("\\\\?\\");
    if verbatim(local) {
        assert(local[0] == "\\\\?\\"@[0]);
    }
    if filler(local) {
        assert(separator(local[local.len() - 1]) || local[local.len() - 1] == '.');
    }
    assert(!begins_with_share(local)) by {
        if begins_with_share(local) {
            assert(local[0] == '/' && local[1] == '/');
        }
    }
    assert(!rootlike(local));
    let (dir, found) = choose|dir: Seq<char>, found: Seq<char>| #[trigger]
        lies_beside(path, local, dir, found, nonce);
    assert(found == name) by {
        let (before, rest) = choose|before: Seq<char>, rest: Seq<char>| #[trigger]
            splits(local, before, found, rest);
        lemma_last_part(local, front, name, before, found, rest);
    }
    let (gap, last, rest) = choose|gap: Seq<char>, last: Seq<char>, rest: Seq<char>| #[trigger]
        adds_component(local, dir, gap, last, rest);
    assert(local == (dir + gap) + last + rest);
    lemma_last_part(local, front, name, dir + gap, last, rest);
    assert(front =~= dir + gap);
    assert forall|i: int| dir.len() <= i < front.len() implies (#[trigger] front[i]) == '/'
        || front[i] == '.' by {
        assert(front[i] == gap[i - dir.len()]);
        assert(local[i] == front[i]);
    }
    assert forall|i: int| dir.len() < i < front.len() implies (#[trigger] front[i]) == '/'
        || front[i - 1] == '/' by {
        assert(front[i] == gap[i - dir.len()]);
        assert(front[i - 1] == gap[i - dir.len() - 1]);
        assert(local[i] == front[i]);
        assert(local[i - 1] == front[i - 1]);
    }
    dir
}

/// What stands behind the last slash is the last component.
proof fn lemma_last_part(
    local: Seq<char>,
    front: Seq<char>,
    name: Seq<char>,
    before: Seq<char>,
    found: Seq<char>,
    rest: Seq<char>,
)
    requires
        local == front + name,
        front.len() == 0 || front.last() == '/',
        name.len() > 0,
        forall|i: int| 0 <= i < name.len() ==> (#[trigger] name[i]) != '/',
        name.last() != '.',
        forall|i: int| 0 <= i < local.len() ==> (#[trigger] local[i]) != '\\',
        local.len() < 2 || local[1] != ':',
        local == before + found + rest,
        found.len() > 0,
        !found.contains('/'),
        before_component(before),
        trailing(rest),
    ensures
        front == before,
        found == name,
{
    assert(local[local.len() - 1] == name[name.len() - 1]);
    if rest.len() > 0 {
        assert(local[local.len() - 1] == rest[rest.len() - 1]);
        assert(separator(rest[rest.len() - 1]) || rest[rest.len() - 1] == '.');
    }
    assert(local =~= before + found);
    if before.len() == 2 && before[1] == ':' {
        assert(local[1] == ':');
    }
    if before.len() > front.len() {
        assert(local[before.len() - 1] == before.last());
        assert(local[before.len() - 1] == name[before.len() - 1 - front.len()]);
    }
    if front.len() > before.len() {
        assert(local[front.len() - 1] == '/');
        assert(local[front.len() - 1] == found[front.len() - 1 - before.len()]);
    }
    assert(front.len() == before.len());
    assert(front =~= local.take(front.len() as int));
    assert(before =~= local.take(front.len() as int));
    assert(name =~= local.skip(front.len() as int));
    assert(found =~= local.skip(front.len() as int));
}

/// One way to take a destination apart: `front`, `name` and `rest` for its file
/// name; `dir`, `gap`, `last` and `tail` for its directory.
pub struct Reading {
    pub front: Seq<char>,
    pub name: Seq<char>,
    pub rest: Seq<char>,
    pub dir: Seq<char>,
    pub gap: Seq<char>,
    pub last: Seq<char>,
    pub tail: Seq<char>,
}

/// Whatever the destination is, there is a way to take it apart by which the
/// temporary file is named after it and lies beside it. The file name stands behind
/// a separator, behind a drive or at the start, and nothing but separators and
/// single dots follows it; without a file name it is "download". The directory is
/// what is left without one component. Left out are verbatim paths.
pub proof fn law_temp_file_follows_a_reading(
    path: Seq<char>,
    local_path: Seq<char>,
    nonce: u128,
) -> (reading: Reading)
    requires
        is_temp_path(path, local_path, nonce),
        !"\\\\?\\"@.is_prefix_of(local_path),
    ensures
        ({
            let name = reading.name;
            let rest = reading.rest;
            ||| {
                &&& local_path == reading.front + name + rest
                &&& name.len() > 0 && name != "."@ && name != ".."@
                &&& forall|i: int| 0 <= i < name.len() ==> (#[trigger] name[i]) != '/'
                &&& {
                    ||| reading.front.len() == 0
                    ||| reading.front.last() == '/'
                    ||| reading.front.last() == '\\'
                    ||| reading.front.len() == 2 && reading.front[1] == ':'
                }
                &&& rest.len() > 0 ==> rest[0] == '/' || rest[0] == '\\'
                &&& forall|i: int|
                    0 <= i < rest.len() ==> (#[trigger] rest[i]) == '/' || rest[i] == '\\'
                        || rest[i] == '.'
            }
            ||| {
                &&& name == "download"@
                &&& {
                    ||| local_path.len() == 0
                    ||| local_path.last() == '/'
                    ||| local_path.last() == '\\'
                    ||| local_path.last() == '.'
                    ||| local_path.len() == 2 && local_path[1] == ':'
                    ||| local_path.len() > 2 && (local_path[0] == '/' || local_path[0] == '\\')
                        && (local_path[1] == '/' || local_path[1] == '\\')
                }
            }
        }),
        ({
            let dir = reading.dir;
            let gap = reading.gap;
            let tail = reading.tail;
            ||| {
                &&& local_path == dir + gap + reading.last + tail
                &&& reading.last.len() > 0
                &&& forall|i: int|
                    0 <= i < reading.last.len() ==> (#[trigger] reading.last[i]) != '/'
                &&& {
                    ||| (dir + gap).len() == 0
                    ||| (dir + gap).last() == '/'
                    ||| (dir + gap).last() == '\\'
                    ||| (dir + gap).len() == 2 && (dir + gap)[1] == ':'
                }
                &&& forall|i: int|
                    0 <= i < gap.len() ==> (#[trigger] gap[i]) == '/' || gap[i] == '\\' || gap[i]
                        == '.'
                &&& forall|i: int|
                    0 < i < gap.len() ==> (#[trigger] gap[i]) != '.' || gap[i - 1] != '.'
                &&& tail.len() > 0 ==> tail[0] == '/' || tail[0] == '\\'
                &&& forall|i: int|
                    0 <= i < tail.len() ==> (#[trigger] tail[i]) == '/' || tail[i] == '\\'
                        || tail[i] == '.'
            }
            ||| {
                &&& dir.len() == 0
                &&& {
                    ||| forall|i: int|
                        0 <= i < local_path.len() ==> (#[trigger] local_path[i]) == '/'
                            || local_path[i] == '\\' || local_path[i] == '.'
                    ||| local_path.len() >= 2 && local_path[1] == ':' && forall|i: int|
                        2 <= i < local_path.len() ==> (#[trigger] local_path[i]) == '/'
                            || local_path[i] == '\\' || local_path[i] == '.'
                    ||| local_path.len() > 2 && (local_path[0] == '/' || local_path[0] == '\\')
                        && (local_path[1] == '/' || local_path[1] == '\\')
                }
            }
        }),
        ({
            let dir = reading.dir;
            let temp = "."@ + reading.name + ".drive9-tmp-"@ + decimal(nonce as int);
            &&& dir.len() == 0 ==> path == temp
            &&& dir.len() > 0 ==> path == dir + temp || path == dir + "/"@ + temp || path == dir
                + "\\"@ + temp
        }),
{
    let (dir, name) = choose|dir: Seq<char>, name: Seq<char>| #[trigger]
        lies_beside(path, local_path, dir, name, nonce);
    let (front, rest) = if ends_in(local_path, name) {
        choose|front: Seq<char>, rest: Seq<char>| #[trigger] splits(local_path, front, name, rest)
    } else {
        (Seq::empty(), Seq::empty())
    };
    let (gap, last, tail) = if drops_last(local_path, dir) {
        choose|gap: Seq<char>, last: Seq<char>, tail: Seq<char>| #[trigger]
            adds_component(local_path, dir, gap, last, tail)
    } else {
        (Seq::empty(), Seq::empty(), Seq::empty())
    };
    if ends_in(local_path, name) {
        assert forall|i: int| 0 <= i < name.len() implies (#[trigger] name[i]) != '/' by {
            if name[i] == '/' {
                assert(name.contains('/'));
            }
        }
    }
    if drops_last(local_path, dir) {
        assert forall|i: int| 0 <= i < last.len() implies (#[trigger] last[i]) != '/' by {
            if last[i] == '/' {
                assert(last.contains('/'));
            }
        }
    }
    if rootlike(local_path) {
        lemma_rootlike(local_path);
    }
    Reading { front, name, rest, dir, gap, last, tail }
}

/// What a path looks like that may be a root, or a drive or share and nothing else.
proof fn lemma_rootlike(path: Seq<char>)
    requires
        !verbatim(path),
        rootlike(path),
    ensures
        ({
            ||| path.len() == 0
            ||| separator(path.last())
            ||| path.last() == '.'
            ||| path.len() == 2 && path[1] == ':'
            ||| path.len() > 2 && begins_with_share(path)
        }),
        ({
            ||| filler(path)
            ||| begins_with_drive(path) && forall|i: int|
                2 <= i < path.len() ==> separator(#[trigger] path[i]) || path[i] == '.'
            ||| path.len() > 2 && begins_with_share(path)
        }),
{
    if filler(path) {
        if path.len() > 0 {
            assert(separator(path[path.len() - 1]) || path[path.len() - 1] == '.');
        }
    } else if begins_with_drive(path) && filler(path.skip(2)) {
        assert forall|i: int| 2 <= i < path.len() implies separator(#[trigger] path[i]) || path[i]
            == '.' by {
            assert(path.skip(2)[i - 2] == path[i]);
        }
    }
}

} // verus!
