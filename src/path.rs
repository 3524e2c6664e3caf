//! The `PATH` search: candidate locations of a command, and the choice among
//! them.

use vstd::prelude::*;
use crate::text::strings_view;

verus! {

/// The state of a left-to-right scan of a colon-separated list: the entries
/// completed so far and the entry under way.
pub open spec fn scan_colons(s: Seq<char>) -> (Seq<Seq<char>>, Seq<char>)
    decreases s.len(),
{
    if s.len() == 0 {
        (Seq::empty(), Seq::empty())
    } else {
        let (done, cur) = scan_colons(s.drop_last());
        if s.last() == ':' {
            (done.push(cur), Seq::empty())
        } else {
            (done, cur.push(s.last()))
        }
    }
}

/// The entries of a colon-separated list, empty ones included; an empty list
/// has one empty entry.
pub open spec fn path_dirs(s: Seq<char>) -> Seq<Seq<char>> {
    let (done, cur) = scan_colons(s);
    done.push(cur)
}

/// The location of `command` in directory `dir`.
pub open spec fn in_dir(dir: Seq<char>, command: Seq<char>) -> Seq<char> {
    dir + seq!['/'] + command
}

/// The locations of `command` in each directory of `dirs`, in order.
pub open spec fn locations(dirs: Seq<Seq<char>>, command: Seq<char>) -> Seq<Seq<char>> {
    dirs.map_values(|d: Seq<char>| in_dir(d, command))
}

/// The candidate locations of `command` under the search list `path`.
pub open spec fn candidates(path: Seq<char>, command: Seq<char>) -> Seq<Seq<char>> {
    locations(path_dirs(path), command)
}

/// Lists, in search order, where `command` may be found under the
/// colon-separated search list `path`.
pub fn candidate_paths(path: &str, command: &str) -> (r: Vec<String>)
    ensures
        strings_view(r@) == candidates(path@, command@),
{
    let n = path.unicode_len();
    let mut out: Vec<String> = Vec::new();
    let mut start: usize = 0;
    let mut i: usize = 0;
    proof {
        reveal_strlit("/");
    }
    assert("/"@ =~= seq!['/']);
    while i < n
        invariant
            n == path@.len(),
            start <= i <= n,
            "/"@ == seq!['/'],
            locations(scan_colons(path@.subrange(0, i as int)).0, command@) == strings_view(
                out@,
            ),
            scan_colons(path@.subrange(0, i as int)).1 == path@.subrange(start as int, i as int),
        decreases n - i,
    {
        let c = path.get_char(i);
        let ghost prefix = path@.subrange(0, i as int);
        assert(path@.subrange(0, i + 1).drop_last() =~= prefix);
        if c == ':' {
            let mut entry = path.substring_char(start, i).to_owned();
            entry.append("/");
            entry.append(command);
            let ghost before = out@;
            let ghost done = scan_colons(prefix).0;
            out.push(entry);
            assert(strings_view(out@) =~= strings_view(before).push(entry@));
            assert(locations(done.push(path@.subrange(start as int, i as int)), command@)
                =~= locations(done, command@).push(entry@));
            start = i + 1;
            assert(path@.subrange(start as int, i + 1) =~= Seq::<char>::empty());
        } else {
            assert(path@.subrange(start as int, i + 1) =~= path@.subrange(
                start as int,
                i as int,
            ).push(c));
        }
        i = i + 1;
    }
    assert(path@.subrange(0, n as int) =~= path@);
    let mut entry = path.substring_char(start, n).to_owned();
    entry.append("/");
    entry.append(command);
    let ghost before = out@;
    let ghost done = scan_colons(path@).0;
    out.push(entry);
    assert(strings_view(out@) =~= strings_view(before).push(entry@));
    assert(locations(done.push(path@.subrange(start as int, n as int)), command@) =~= locations(
        done,
        command@,
    ).push(entry@));
    out
}

/// The first of `paths` whose entry in `exists` is true.
pub open spec fn first_found(paths: Seq<Seq<char>>, exists: Seq<bool>) -> Option<Seq<char>>
    decreases paths.len(),
{
    if paths.len() == 0 || exists.len() == 0 {
        None
    } else if exists[0] {
        Some(paths[0])
    } else {
        first_found(paths.drop_first(), exists.drop_first())
    }
}

/// The view of an optional string.
pub open spec fn opt_view(o: Option<String>) -> Option<Seq<char>> {
    match o {
        Some(s) => Some(s@),
        None => None,
    }
}

/// Picks the earliest candidate that exists; `exists[i]` tells whether
/// `candidates[i]` was found on the file system.
pub fn first_existing(candidates: &Vec<String>, exists: &Vec<bool>) -> (r: Option<String>)
    requires
        exists@.len() == candidates@.len(),
    ensures
        opt_view(r) == first_found(strings_view(candidates@), exists@),
        r is Some ==> exists|i: int|
            0 <= i < exists@.len() && exists@[i] && r->Some_0@ == candidates@[i]@ && forall|j: int|
                0 <= j < i ==> !exists@[j],
        r is None ==> forall|i: int| 0 <= i < exists@.len() ==> !exists@[i],
{
    let n = candidates.len();
    let mut i: usize = 0;
    assert(strings_view(candidates@).subrange(0, n as int) =~= strings_view(candidates@));
    assert(exists@.subrange(0, n as int) =~= exists@);
    while i < n
        invariant
            n == candidates@.len(),
            n == exists@.len(),
            i <= n,
            first_found(strings_view(candidates@), exists@) == first_found(
                strings_view(candidates@).subrange(i as int, n as int),
                exists@.subrange(i as int, n as int),
            ),
            forall|j: int| 0 <= j < i ==> !exists@[j],
        decreases n - i,
    {
        assert(strings_view(candidates@).subrange(i as int, n as int).drop_first()
            =~= strings_view(candidates@).subrange(i + 1, n as int));
        assert(exists@.subrange(i as int, n as int).drop_first() =~= exists@.subrange(
            i + 1,
            n as int,
        ));
        if exists[i] {
            let found = candidates[i].clone();
            assert(found@ == candidates@[i as int]@);
            return Some(found);
        }
        i = i + 1;
    }
    assert(exists@.subrange(n as int, n as int).len() == 0);
    None
}

/// The first existing entry is the one at the smallest index whose entry in
/// `exists` is true.
pub proof fn lemma_first_found_at(paths: Seq<Seq<char>>, exists: Seq<bool>, i: int)
    requires
        exists.len() == paths.len(),
        0 <= i < paths.len(),
        exists[i],
        forall|j: int| 0 <= j < i ==> !exists[j],
    ensures
        first_found(paths, exists) == Some(paths[i]),
    decreases i,
{
    if i > 0 {
        assert(!exists[0]);
        lemma_first_found_at(paths.drop_first(), exists.drop_first(), i - 1);
    }
}

/// Search order: when several directories of the search list hold an entry
/// named `command`, the location in the earliest of them is chosen, and it is
/// that directory followed by `/` and the command name.
pub proof fn lemma_earliest_directory_wins(
    path: Seq<char>,
    command: Seq<char>,
    exists: Seq<bool>,
    i: int,
)
    requires
        exists.len() == path_dirs(path).len(),
        0 <= i < exists.len(),
        exists[i],
        forall|j: int| 0 <= j < i ==> !exists[j],
    ensures
        first_found(candidates(path, command), exists) == Some(
            path_dirs(path)[i] + seq!['/'] + command,
        ),
{
    lemma_first_found_at(candidates(path, command), exists, i);
}

} // verus!
