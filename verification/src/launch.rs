//! Which of a game's installed files launches it.
//!
//! A storefront may name the file in its manifest. GOG instead ships a
//! `goggame-<id>.info` document among the files, whose `playTasks` name it. Where
//! neither says so, the file is guessed from the list of installed files, and not
//! guessed at all when more than one would do.

use vstd::prelude::*;
use crate::json::{flag_of, list_of, member, parse, parsed, read_flag, read_text, content, Json};
use crate::path::{
    file_name, file_stem, join, joined, name_of, parent, parent_of, stem_of,
};
use crate::text::{
    begins, chars_of, ends, first_where, holds, join3, lemma_filter_take, lemma_first_where, lower,
    lowered, occurs, replaced, same, swapped, text_of, texts,
};

verus! {

/// One entry of a `playTasks` list: its `isPrimary` and its `path`, where they are a
/// truth value and a text.
#[derive(Debug)]
pub struct PlayTask {
    pub is_primary: Option<bool>,
    pub path: Option<String>,
}

/// What a `PlayTask` holds.
pub struct PlayTaskView {
    pub is_primary: Option<bool>,
    pub path: Option<Seq<char>>,
}

impl View for PlayTask {
    type V = PlayTaskView;

    open spec fn view(&self) -> PlayTaskView {
        PlayTaskView {
            is_primary: self.is_primary,
            path: match self.path {
                Some(p) => Some(p@),
                None => None,
            },
        }
    }
}

/// What the entries of a list of play tasks hold.
pub open spec fn task_views(tasks: Seq<PlayTask>) -> Seq<PlayTaskView> {
    tasks.map_values(|t: PlayTask| t@)
}

/// A path whose file name is `goggame-*.info`, in any case.
pub open spec fn is_goggame_info(p: Seq<char>) -> bool {
    match file_name(p) {
        Some(name) => "goggame-"@.is_prefix_of(lower(name)) && ".info"@.is_suffix_of(lower(name)),
        None => false,
    }
}

/// The first goggame document among some installed files.
pub open spec fn goggame_info(paths: Seq<Seq<char>>) -> Option<Seq<char>> {
    first_where(paths, |p: Seq<char>| is_goggame_info(p))
}

/// A JSON value read as a play task.
pub open spec fn play_task(doc: Json) -> PlayTaskView {
    PlayTaskView {
        is_primary: flag_of(doc, "isPrimary"@),
        path: crate::json::text_of(doc, "path"@),
    }
}

/// The play tasks of a goggame document.
pub open spec fn play_tasks(doc: Json) -> Option<Seq<PlayTaskView>> {
    match list_of(doc, "playTasks"@) {
        Some(items) => Some(items.map_values(|item: Json| play_task(item))),
        None => None,
    }
}

/// The path that the first primary task names, read as lying next to the document
/// that names it.
pub open spec fn primary_path(info: Seq<char>, tasks: Seq<PlayTaskView>) -> Option<Seq<char>> {
    match first_where(tasks, |t: PlayTaskView| t.is_primary == Some(true)) {
        Some(task) => match task.path {
            Some(executable) => Some(
                replaced(joined(parent(info), replaced(executable, '\\', '/')), '\\', '/'),
            ),
            None => None,
        },
        None => None,
    }
}

/// The executable that the bytes of a goggame document name.
pub open spec fn goggame_executable(info: Seq<char>, bytes: Seq<u8>) -> Option<Seq<char>> {
    match parsed(bytes) {
        Some(doc) => match play_tasks(doc) {
            Some(tasks) => primary_path(info, tasks),
            None => None,
        },
        None => None,
    }
}

/// The directory below the drive that a game is installed in.
pub open spec fn install_root(dir: Seq<char>) -> Seq<char> {
    "Program Files/"@ + dir
}

/// A file that lies directly in the install directory and ends in `.exe`, in any case.
pub open spec fn is_candidate(p: Seq<char>, dir: Seq<char>) -> bool {
    let root = install_root(dir) + "/"@;
    let rest = p.skip(root.len() as int);
    root.is_prefix_of(p) && !rest.contains('/') && ".exe"@.is_suffix_of(lower(rest))
}

/// A file whose stem is the install directory's name, in any case.
pub open spec fn named_after(p: Seq<char>, dir: Seq<char>) -> bool {
    match file_stem(p) {
        Some(s) => lower(s) == lower(dir),
        None => false,
    }
}

/// A file name that a crash handler, an uninstaller or an installer has.
pub open spec fn helper_name(name: Seq<char>) -> bool {
    ||| occurs(lower(name), "crashhandler"@)
    ||| occurs(lower(name), "crashpad"@)
    ||| occurs(lower(name), "unins"@)
    ||| occurs(lower(name), "redist"@)
    ||| occurs(lower(name), "vcredist"@)
    ||| occurs(lower(name), "setup"@)
    ||| occurs(lower(name), "helper"@)
}

/// A path with a file name that is no helper's.
pub open spec fn is_no_helper(p: Seq<char>) -> bool {
    match file_name(p) {
        Some(name) => !helper_name(name),
        None => false,
    }
}

/// The candidates among some installed files.
pub open spec fn candidates(paths: Seq<Seq<char>>, dir: Seq<char>) -> Seq<Seq<char>> {
    paths.filter(|p: Seq<char>| is_candidate(p, dir))
}

/// The guess: the first candidate that is named after the directory, or else the
/// only candidate that is no helper.
pub open spec fn guessed(paths: Seq<Seq<char>>, dir: Seq<char>) -> Option<Seq<char>> {
    let all = candidates(paths, dir);
    match first_where(all, |p: Seq<char>| named_after(p, dir)) {
        Some(p) => Some(p),
        None => {
            let rest = all.filter(|p: Seq<char>| is_no_helper(p));
            if rest.len() == 1 {
                Some(rest[0])
            } else {
                None
            }
        },
    }
}

fn goggame_named(p: &[char]) -> (r: bool)
    ensures
        r == is_goggame_info(p@),
{
    match name_of(p) {
        Some(name) => {
            let name = lowered(name.as_slice());
            begins(name.as_slice(), chars_of("goggame-").as_slice()) && ends(
                name.as_slice(),
                chars_of(".info").as_slice(),
            )
        },
        None => false,
    }
}

/// Finds the goggame document among the installed files.
pub fn goggame_info_path(relative_paths: &[String]) -> (r: Option<String>)
    ensures
        match r {
            Some(p) => goggame_info(texts(relative_paths@)) == Some(p@),
            None => goggame_info(texts(relative_paths@)) is None,
        },
{
    let ghost pred = |p: Seq<char>| is_goggame_info(p);
    let ghost all = texts(relative_paths@);
    let mut i: usize = 0;
    while i < relative_paths.len()
        invariant
            i <= relative_paths@.len(),
            all == texts(relative_paths@),
            pred == (|p: Seq<char>| is_goggame_info(p)),
            forall|j: int| 0 <= j < i ==> !pred(#[trigger] all[j]),
        decreases relative_paths@.len() - i,
    {
        let p = chars_of(relative_paths[i].as_str());
        if goggame_named(p.as_slice()) {
            proof {
                lemma_first_where(all, pred, i as int);
            }
            return Some(relative_paths[i].clone());
        }
        i += 1;
    }
    proof {
        lemma_first_where(all, pred, i as int);
    }
    None
}

/// The executable that the play tasks of a goggame document at `info_path` name.
pub fn primary_task_path(info_path: &str, tasks: &[PlayTask]) -> (r: Option<String>)
    ensures
        match r {
            Some(p) => primary_path(info_path@, task_views(tasks@)) == Some(p@),
            None => primary_path(info_path@, task_views(tasks@)) is None,
        },
{
    let ghost pred = |t: PlayTaskView| t.is_primary == Some(true);
    let ghost all = task_views(tasks@);
    let mut i: usize = 0;
    while i < tasks.len()
        invariant
            i <= tasks@.len(),
            all == task_views(tasks@),
            pred == (|t: PlayTaskView| t.is_primary == Some(true)),
            forall|j: int| 0 <= j < i ==> !pred(#[trigger] all[j]),
        decreases tasks@.len() - i,
    {
        let primary: bool = match tasks[i].is_primary {
            Some(b) => b,
            None => false,
        };
        if primary {
            proof {
                lemma_first_where(all, pred, i as int);
                assert(all[i as int] == tasks@[i as int]@);
            }
            return match &tasks[i].path {
                Some(executable) => {
                    let dir = parent_of(chars_of(info_path).as_slice());
                    let below = swapped(chars_of(executable.as_str()).as_slice(), '\\', '/');
                    let whole = join(dir.as_slice(), below.as_slice());
                    Some(text_of(swapped(whole.as_slice(), '\\', '/').as_slice()))
                },
                None => None,
            };
        }
        i += 1;
    }
    proof {
        lemma_first_where(all, pred, i as int);
    }
    None
}

/// Reads the play tasks of a parsed goggame document.
pub fn read_play_tasks(info: &serde_json::Value) -> (r: Option<Vec<PlayTask>>)
    ensures
        match r {
            Some(tasks) => play_tasks(content(*info)) == Some(task_views(tasks@)),
            None => play_tasks(content(*info)) is None,
        },
{
    match member(info, "playTasks") {
        Some(found) => match found.as_array() {
            Some(items) => {
                let ghost list = list_of(content(*info), "playTasks"@)->0;
                let ghost wanted = list.map_values(|item: Json| play_task(item));
                let mut tasks: Vec<PlayTask> = Vec::new();
                let mut i: usize = 0;
                while i < items.len()
                    invariant
                        i <= items@.len(),
                        items@.len() == list.len(),
                        forall|j: int| 0 <= j < list.len() ==> content(#[trigger] items@[j])
                            == list[j],
                        wanted == list.map_values(|item: Json| play_task(item)),
                        task_views(tasks@) == wanted.take(i as int),
                    decreases items@.len() - i,
                {
                    let ghost before = tasks@;
                    tasks.push(
                        PlayTask {
                            is_primary: read_flag(&items[i], "isPrimary"),
                            path: read_text(&items[i], "path"),
                        },
                    );
                    assert(tasks@.last()@ == wanted[i as int]);
                    assert(task_views(tasks@) =~= task_views(before).push(wanted[i as int]));
                    assert(wanted.take(i + 1) =~= wanted.take(i as int).push(wanted[i as int]));
                    i += 1;
                }
                assert(wanted.take(i as int) =~= wanted);
                Some(tasks)
            },
            None => None,
        },
        None => None,
    }
}

/// The launch executable that a goggame document names, from the document's path and
/// its bytes. Best effort: nothing on any surprise in the document's shape.
pub fn find_goggame_primary_executable(info_path: &str, contents: &[u8]) -> (r: Option<String>)
    ensures
        match r {
            Some(p) => goggame_executable(info_path@, contents@) == Some(p@),
            None => goggame_executable(info_path@, contents@) is None,
        },
{
    match parse(contents) {
        Some(info) => match read_play_tasks(&info) {
            Some(tasks) => primary_task_path(info_path, tasks.as_slice()),
            None => None,
        },
        None => None,
    }
}

/// The name of the install directory below the drive.
pub fn install_root_name(install_directory: &str) -> (r: String)
    ensures
        r@ == install_root(install_directory@),
{
    crate::text::join2("Program Files/", install_directory)
}

fn has_slash(s: &[char]) -> (r: bool)
    ensures
        r == s@.contains('/'),
{
    let mut i: usize = 0;
    while i < s.len()
        invariant
            i <= s@.len(),
            forall|j: int| 0 <= j < i ==> s@[j] != '/',
        decreases s@.len() - i,
    {
        if s[i] == '/' {
            return true;
        }
        i += 1;
    }
    false
}

fn candidate(p: &[char], root: &[char], install_directory: &str) -> (r: bool)
    requires
        root@ == install_root(install_directory@) + "/"@,
    ensures
        r == is_candidate(p@, install_directory@),
{
    if !begins(p, root) {
        return false;
    }
    let rest = vstd::slice::slice_subrange(p, root.len(), p.len());
    assert(rest@ =~= p@.skip(root@.len() as int));
    !has_slash(rest) && ends(lowered(rest).as_slice(), chars_of(".exe").as_slice())
}

fn named_after_directory(p: &[char], install_directory: &[char]) -> (r: bool)
    ensures
        r == named_after(p@, install_directory@),
{
    match stem_of(p) {
        Some(s) => same(lowered(s.as_slice()).as_slice(), lowered(install_directory).as_slice()),
        None => false,
    }
}

/// Whether a file name is one that a crash handler, an uninstaller or an installer
/// has.
pub fn looks_like_helper(name: &str) -> (r: bool)
    ensures
        r == helper_name(name@),
{
    let name = lowered(chars_of(name).as_slice());
    let name = name.as_slice();
    holds(name, chars_of("crashhandler").as_slice())
        || holds(name, chars_of("crashpad").as_slice())
        || holds(name, chars_of("unins").as_slice())
        || holds(name, chars_of("redist").as_slice())
        || holds(name, chars_of("vcredist").as_slice())
        || holds(name, chars_of("setup").as_slice())
        || holds(name, chars_of("helper").as_slice())
}

fn no_helper(p: &[char]) -> (r: bool)
    ensures
        r == is_no_helper(p@),
{
    match name_of(p) {
        Some(name) => !looks_like_helper(text_of(name.as_slice()).as_str()),
        None => false,
    }
}

/// Guesses the launch executable from the list of installed files. Only files that
/// lie directly in the install directory count. One that is named after the directory
/// is taken first; otherwise the one that is left when helpers are put aside, and
/// nothing where more than one is left.
pub fn find_primary_executable_heuristic(
    relative_paths: &[String],
    install_directory: &str,
) -> (r: Option<String>)
    ensures
        match r {
            Some(p) => guessed(texts(relative_paths@), install_directory@) == Some(p@),
            None => guessed(texts(relative_paths@), install_directory@) is None,
        },
{
    let ghost dir = install_directory@;
    let ghost all = texts(relative_paths@);
    let ghost is_cand = |p: Seq<char>| is_candidate(p, dir);
    let ghost after = |p: Seq<char>| named_after(p, dir);
    let ghost plain = |p: Seq<char>| is_no_helper(p);

    let root = chars_of(join3("Program Files/", install_directory, "/").as_str());
    let wanted = chars_of(install_directory);

    let mut found: Vec<String> = Vec::new();
    let mut i: usize = 0;
    proof {
        reveal(Seq::filter);
        assert(texts(found@) =~= all.take(0).filter(is_cand));
    }
    while i < relative_paths.len()
        invariant
            i <= relative_paths@.len(),
            dir == install_directory@,
            root@ == install_root(dir) + "/"@,
            all == texts(relative_paths@),
            is_cand == (|p: Seq<char>| is_candidate(p, dir)),
            texts(found@) == all.take(i as int).filter(is_cand),
        decreases relative_paths@.len() - i,
    {
        proof {
            lemma_filter_take(all, is_cand, i as int);
        }
        let p = chars_of(relative_paths[i].as_str());
        if candidate(p.as_slice(), root.as_slice(), install_directory) {
            let ghost before = found@;
            found.push(relative_paths[i].clone());
            assert(texts(found@) =~= texts(before).push(all[i as int]));
        }
        i += 1;
    }
    assert(all.take(i as int) =~= all);
    let ghost cands = texts(found@);
    assert(cands == candidates(all, dir));

    let mut rest: Vec<String> = Vec::new();
    let mut k: usize = 0;
    proof {
        reveal(Seq::filter);
        assert(texts(rest@) =~= cands.take(0).filter(plain));
    }
    while k < found.len()
        invariant
            k <= found@.len(),
            dir == install_directory@,
            wanted@ == dir,
            cands == texts(found@),
            cands == candidates(texts(relative_paths@), dir),
            after == (|p: Seq<char>| named_after(p, dir)),
            plain == (|p: Seq<char>| is_no_helper(p)),
            forall|j: int| 0 <= j < k ==> !after(#[trigger] cands[j]),
            texts(rest@) == cands.take(k as int).filter(plain),
        decreases found@.len() - k,
    {
        proof {
            lemma_filter_take(cands, plain, k as int);
        }
        let p = chars_of(found[k].as_str());
        if named_after_directory(p.as_slice(), wanted.as_slice()) {
            proof {
                lemma_first_where(cands, after, k as int);
            }
            return Some(found[k].clone());
        }
        if no_helper(p.as_slice()) {
            let ghost before = rest@;
            rest.push(found[k].clone());
            assert(texts(rest@) =~= texts(before).push(cands[k as int]));
        }
        k += 1;
    }
    proof {
        lemma_first_where(cands, after, k as int);
        assert(cands.take(k as int) =~= cands);
    }
    if rest.len() == 1 {
        assert(texts(rest@)[0] == rest@[0]@);
        Some(rest[0].clone())
    } else {
        assert(texts(rest@).len() == rest@.len());
        None
    }
}

proof fn lemma_filter_from<T>(items: Seq<T>, pred: spec_fn(T) -> bool, k: int)
    requires
        0 <= k < items.filter(pred).len(),
    ensures
        items.contains(items.filter(pred)[k]),
        pred(items.filter(pred)[k]),
    decreases items.len(),
{
    reveal(Seq::filter);
    let before = items.drop_last();
    if k < before.filter(pred).len() {
        lemma_filter_from(before, pred, k);
        let i = choose|i: int| 0 <= i < before.len() && before[i] == before.filter(pred)[k];
        assert(items[i] == items.filter(pred)[k]);
    } else {
        assert(items[items.len() - 1] == items.filter(pred)[k]);
    }
}

proof fn lemma_filter_holds_two<T>(items: Seq<T>, pred: spec_fn(T) -> bool, i: int, j: int)
    requires
        0 <= i < items.len(),
        i <= j < items.len(),
        pred(items[i]),
        pred(items[j]),
    ensures
        items.filter(pred).len() >= if i == j {
            1int
        } else {
            2
        },
    decreases items.len(),
{
    reveal(Seq::filter);
    let before = items.drop_last();
    if j < before.len() {
        lemma_filter_holds_two(before, pred, i, j);
    } else if i < j {
        lemma_filter_holds_two(before, pred, i, i);
    }
}

proof fn lemma_first_where_found<T>(items: Seq<T>, pred: spec_fn(T) -> bool)
    ensures
        match first_where(items, pred) {
            Some(item) => items.contains(item) && pred(item),
            None => forall|i: int| 0 <= i < items.len() ==> !pred(#[trigger] items[i]),
        },
{
    crate::text::first_is_the_first(items, pred);
}

/// A guess is one of the installed files, lies directly in the install directory and is
/// an executable.
pub proof fn guess_is_installed(paths: Seq<Seq<char>>, dir: Seq<char>, p: Seq<char>)
    requires
        guessed(paths, dir) == Some(p),
    ensures
        paths.contains(p),
        is_candidate(p, dir),
{
    let is_cand = |q: Seq<char>| is_candidate(q, dir);
    let after = |q: Seq<char>| named_after(q, dir);
    let plain = |q: Seq<char>| is_no_helper(q);
    let all = candidates(paths, dir);
    lemma_first_where_found(all, after);
    if first_where(all, after) is None {
        lemma_filter_from(all, plain, 0);
    }
    let k = choose|k: int| 0 <= k < all.len() && all[k] == p;
    lemma_filter_from(paths, is_cand, k);
}

/// An executable that is named after the install directory is preferred to every other.
pub proof fn guess_prefers_the_directorys_name(
    paths: Seq<Seq<char>>,
    dir: Seq<char>,
    i: int,
)
    requires
        0 <= i < paths.len(),
        is_candidate(paths[i], dir),
        named_after(paths[i], dir),
    ensures
        guessed(paths, dir) matches Some(p) && named_after(p, dir),
{
    let is_cand = |q: Seq<char>| is_candidate(q, dir);
    let after = |q: Seq<char>| named_after(q, dir);
    let all = candidates(paths, dir);
    lemma_first_where_found(all, after);
    paths.lemma_filter_contains(is_cand, i);
    assert(is_cand(paths[i]));
    let k = choose|k: int| 0 <= k < all.len() && all[k] == paths[i];
    assert(after(all[k]));
}

/// A helper is guessed only where it is named after the install directory.
pub proof fn guess_is_no_helper(paths: Seq<Seq<char>>, dir: Seq<char>, p: Seq<char>)
    requires
        guessed(paths, dir) == Some(p),
        !named_after(p, dir),
    ensures
        is_no_helper(p),
{
    let after = |q: Seq<char>| named_after(q, dir);
    let plain = |q: Seq<char>| is_no_helper(q);
    let all = candidates(paths, dir);
    lemma_first_where_found(all, after);
    if first_where(all, after) is None {
        lemma_filter_from(all, plain, 0);
    }
}

/// Nothing is guessed where two executables would do, and neither they nor any other is
/// named after the install directory.
pub proof fn no_guess_between_two(paths: Seq<Seq<char>>, dir: Seq<char>, i: int, j: int)
    requires
        0 <= i < j < paths.len(),
        is_candidate(paths[i], dir),
        is_candidate(paths[j], dir),
        is_no_helper(paths[i]),
        is_no_helper(paths[j]),
        forall|k: int|
            0 <= k < paths.len() && is_candidate(#[trigger] paths[k], dir) ==> !named_after(
                paths[k],
                dir,
            ),
    ensures
        guessed(paths, dir) is None,
{
    let is_cand = |q: Seq<char>| is_candidate(q, dir);
    let after = |q: Seq<char>| named_after(q, dir);
    let plain = |q: Seq<char>| is_no_helper(q);
    let both = |q: Seq<char>| is_candidate(q, dir) && is_no_helper(q);
    let all = candidates(paths, dir);
    lemma_first_where_found(all, after);
    if let Some(p) = first_where(all, after) {
        let k = choose|k: int| 0 <= k < all.len() && all[k] == p;
        lemma_filter_from(paths, is_cand, k);
    }
    lemma_filter_twice(paths, is_cand, plain, both);
    lemma_filter_holds_two(paths, both, i, j);
}

proof fn lemma_filter_twice<T>(
    items: Seq<T>,
    first: spec_fn(T) -> bool,
    second: spec_fn(T) -> bool,
    both: spec_fn(T) -> bool,
)
    requires
        forall|t: T| #[trigger] both(t) == (first(t) && second(t)),
    ensures
        items.filter(first).filter(second) == items.filter(both),
    decreases items.len(),
{
    reveal(Seq::filter);
    if items.len() > 0 {
        lemma_filter_twice(items.drop_last(), first, second, both);
        let kept = items.drop_last().filter(first);
        assert(both(items.last()) == (first(items.last()) && second(items.last())));
        if first(items.last()) {
            assert(kept.push(items.last()).drop_last() =~= kept);
        }
    }
}

/// What a goggame document names is written without a backslash.
pub proof fn goggame_path_has_no_backslash(info: Seq<char>, tasks: Seq<PlayTaskView>, p: Seq<char>)
    requires
        primary_path(info, tasks) == Some(p),
    ensures
        !p.contains('\\'),
{
}

proof fn lemma_small_exe(rest: Seq<char>)
    requires
        ".exe"@.is_suffix_of(lower(rest)),
    ensures
        rest.len() >= 4,
        rest[rest.len() - 4] == '.',
        forall|j: int| rest.len() - 4 < j < rest.len() ==> #[trigger] rest[j] != '.',
        lower(rest) == lower(rest.take(rest.len() - 4)) + ".exe"@,
{
    reveal_strlit(".exe");
    let small = lower(rest);
    let n = rest.len() as int;
    assert(small.len() == n && n >= 4);
    let tail = small.skip(n - 4);
    assert(tail =~= ".exe"@);
    assert(tail[0] == small[n - 4] && tail[1] == small[n - 3] && tail[2] == small[n - 2] && tail[3]
        == small[n - 1]);
    assert(lower(rest) =~= lower(rest.take(n - 4)) + ".exe"@);
}

/// The name of an executable in the install directory is what stands behind the
/// directory, and its stem is that without `.exe`, unless nothing is left then.
proof fn lemma_candidate_name(p: Seq<char>, dir: Seq<char>)
    requires
        is_candidate(p, dir),
    ensures
        ({
            let rest = p.skip(("Program Files/"@ + dir + "/"@).len() as int);
            &&& file_name(p) == Some(rest)
            &&& file_stem(p) == Some(
                if rest.len() == 4 {
                    rest
                } else {
                    rest.take(rest.len() - 4)
                },
            )
        }),
{
    reveal_strlit("/");
    let root = "Program Files/"@ + dir + "/"@;
    let m = root.len() as int;
    let rest = p.skip(m);
    lemma_small_exe(rest);
    assert(root.last() == '/');
    assert(p[m - 1] == p.take(m)[m - 1]);
    assert(p.take(m) =~= root);
    assert forall|j: int| m - 1 < j < p.len() implies p[j] != '/' by {
        assert(p[j] == rest[j - m]);
        if rest[j - m] == '/' {
            assert(rest.contains('/'));
        }
    }
    crate::path::lemma_last_mark(p, '/', 0, m - 1);
    assert(rest != seq!['.']);
    assert(rest != seq!['.', '.']);
    crate::path::lemma_last_mark(rest, '.', 0, rest.len() - 4);
}

proof fn lemma_named_after(p: Seq<char>, dir: Seq<char>)
    requires
        is_candidate(p, dir),
    ensures
        ({
            let rest = p.skip(("Program Files/"@ + dir + "/"@).len() as int);
            named_after(p, dir) <==> (dir.len() > 0 && lower(rest) == lower(dir) + ".exe"@) || (
            lower(dir) == ".exe"@ && lower(rest) == ".exe"@)
        }),
{
    reveal_strlit(".exe");
    let rest = p.skip(("Program Files/"@ + dir + "/"@).len() as int);
    lemma_candidate_name(p, dir);
    lemma_small_exe(rest);
    let front = rest.take(rest.len() - 4);
    if rest.len() == 4 {
        assert(front =~= seq![]);
        assert(lower(front) =~= seq![]);
        assert(lower(rest) =~= ".exe"@);
        if lower(rest) == lower(dir) + ".exe"@ {
            assert(lower(rest).len() == dir.len() + 4);
        }
    } else {
        if lower(rest) == lower(dir) + ".exe"@ {
            assert(lower(rest).len() == dir.len() + 4);
            assert((lower(front) + ".exe"@).take(dir.len() as int) =~= lower(front));
            assert((lower(dir) + ".exe"@).take(dir.len() as int) =~= lower(dir));
        }
        assert(lower(front).len() == front.len());
        if lower(front) == lower(dir) {
            assert(dir.len() == front.len());
        }
        if lower(rest) == ".exe"@ {
            assert(lower(rest).len() == 4);
        }
    }
}

/// What is guessed is an installed file that is written as the install directory below
/// `Program Files`, a slash, and a name without a slash that ends in `.exe`, in any case.
pub proof fn guess_is_written_as_an_executable(
    paths: Seq<Seq<char>>,
    dir: Seq<char>,
    p: Seq<char>,
)
    requires
        guessed(paths, dir) == Some(p),
    ensures
        paths.contains(p),
        ({
            let root = "Program Files/"@ + dir + "/"@;
            let rest = p.skip(root.len() as int);
            &&& p == root + rest
            &&& !rest.contains('/')
            &&& rest.len() >= 4
            &&& lower(rest.skip(rest.len() - 4)) == ".exe"@
        }),
{
    guess_is_installed(paths, dir, p);
    let root = "Program Files/"@ + dir + "/"@;
    let rest = p.skip(root.len() as int);
    lemma_small_exe(rest);
    reveal_strlit(".exe");
    assert(p.take(root.len() as int) =~= root);
    assert(p =~= root + rest);
    assert(lower(rest.skip(rest.len() - 4)) =~= ".exe"@) by {
        let n = rest.len() as int;
        let end = rest.skip(n - 4);
        assert(lower(rest).skip(n - 4) =~= lower(end));
        assert(lower(rest).skip(n - 4) =~= ".exe"@);
    }
}

/// A file in the install directory that is the directory's name and `.exe`, in any case
/// and with no other character, is guessed before every other: what is guessed is the
/// first such file. A directory named `.exe` has one more name that counts, which is
/// `.exe` alone.
pub proof fn file_named_as_the_directory_is_guessed(
    paths: Seq<Seq<char>>,
    dir: Seq<char>,
    i: int,
)
    requires
        dir.len() > 0,
        0 <= i < paths.len(),
        !dir.contains('/'),
        ({
            let root = "Program Files/"@ + dir + "/"@;
            &&& root.is_prefix_of(paths[i])
            &&& lower(paths[i].skip(root.len() as int)) == lower(dir) + ".exe"@
        }),
    ensures
        guessed(paths, dir) matches Some(p) && ({
            let root = "Program Files/"@ + dir + "/"@;
            &&& root.is_prefix_of(p)
            &&& lower(dir) != ".exe"@ ==> p.len() == root.len() + dir.len() + 4 && lower(
                p.skip(root.len() as int),
            ) == lower(dir) + ".exe"@
            &&& lower(dir) == ".exe"@ ==> lower(p.skip(root.len() as int)) == lower(dir) + ".exe"@
                || lower(p.skip(root.len() as int)) == ".exe"@
        }),
        ({
            let root = "Program Files/"@ + dir + "/"@;
            lower(dir) != ".exe"@ && (forall|j: int|
                0 <= j < i && root.is_prefix_of(#[trigger] paths[j]) ==> lower(
                    paths[j].skip(root.len() as int),
                ) != lower(dir) + ".exe"@) ==> guessed(paths, dir) == Some(paths[i])
        }),
{
    let root = "Program Files/"@ + dir + "/"@;
    let rest = paths[i].skip(root.len() as int);
    let after = |q: Seq<char>| named_after(q, dir);
    let is_cand = |q: Seq<char>| is_candidate(q, dir);
    lemma_written_candidate(paths[i], dir);
    lemma_named_after(paths[i], dir);
    guess_prefers_the_directorys_name(paths, dir, i);
    let p = guessed(paths, dir)->0;
    guess_is_installed(paths, dir, p);
    lemma_named_after(p, dir);
    if lower(p.skip(root.len() as int)) == lower(dir) + ".exe"@ {
        reveal_strlit(".exe");
        assert(lower(p.skip(root.len() as int)).len() == dir.len() + 4);
    }
    if lower(dir) != ".exe"@ && forall|j: int|
        0 <= j < i && root.is_prefix_of(#[trigger] paths[j]) ==> lower(
            paths[j].skip(root.len() as int),
        ) != lower(dir) + ".exe"@ {
        let all = candidates(paths, dir);
        lemma_first_where_found(all, after);
        assert forall|j: int| 0 <= j < i implies !(is_cand(#[trigger] paths[j]) && after(
            paths[j],
        )) by {
            if is_cand(paths[j]) {
                lemma_named_after(paths[j], dir);
            }
        }
        lemma_first_of_filter(paths, is_cand, after, i);
    }
}

proof fn lemma_written_candidate(p: Seq<char>, dir: Seq<char>)
    requires
        !dir.contains('/'),
        ("Program Files/"@ + dir + "/"@).is_prefix_of(p),
        lower(p.skip(("Program Files/"@ + dir + "/"@).len() as int)) == lower(dir) + ".exe"@,
    ensures
        is_candidate(p, dir),
{
    reveal_strlit(".exe");
    let root = "Program Files/"@ + dir + "/"@;
    let rest = p.skip(root.len() as int);
    let small = lower(rest);
    assert(small.len() == dir.len() + 4);
    assert(small.skip(dir.len() as int) =~= ".exe"@);
    if rest.contains('/') {
        let j = choose|j: int| 0 <= j < rest.len() && rest[j] == '/';
        assert(small[j] == '/');
        if j < dir.len() {
            assert(small[j] == lower(dir)[j]);
            assert(dir[j] == '/');
        } else {
            assert(small[j] == ".exe"@[j - dir.len()]);
        }
    }
}

proof fn lemma_first_of_filter<T>(
    items: Seq<T>,
    kept: spec_fn(T) -> bool,
    wanted: spec_fn(T) -> bool,
    i: int,
)
    requires
        0 <= i < items.len(),
        kept(items[i]),
        wanted(items[i]),
        forall|j: int| 0 <= j < i ==> !(kept(#[trigger] items[j]) && wanted(items[j])),
    ensures
        first_where(items.filter(kept), wanted) == Some(items[i]),
{
    let front = items.take(i);
    let back = items.skip(i + 1);
    let one = seq![items[i]];
    assert(items =~= front + one + back);
    Seq::filter_distributes_over_add(front + one, back, kept);
    Seq::filter_distributes_over_add(front, one, kept);
    let f = front.filter(kept);
    assert(one.filter(kept) =~= one) by {
        reveal(Seq::filter);
        assert(one.drop_last() =~= seq![]);
        assert(one.drop_last().filter(kept) =~= seq![]);
        assert(one.filter(kept) =~= Seq::<T>::empty().push(items[i]));
    }
    let all = items.filter(kept);
    assert(all =~= f + one + back.filter(kept));
    let k = f.len() as int;
    assert(all[k] == items[i]);
    assert forall|j: int| 0 <= j < k implies !wanted(#[trigger] all[j]) by {
        assert(all[j] == f[j]);
        lemma_filter_from(front, kept, j);
        let q = choose|q: int| 0 <= q < front.len() && front[q] == f[j];
        assert(items[q] == f[j]);
    }
    lemma_first_where(all, wanted, k);
}

/// A guess that is not the directory's name and `.exe` has none of the words of a helper
/// in its name, in any case.
pub proof fn guess_has_no_helpers_name(paths: Seq<Seq<char>>, dir: Seq<char>, p: Seq<char>)
    requires
        guessed(paths, dir) == Some(p),
        ({
            let rest = p.skip(("Program Files/"@ + dir + "/"@).len() as int);
            lower(rest) != lower(dir) + ".exe"@ && !(lower(dir) == ".exe"@ && lower(rest)
                == ".exe"@)
        }),
    ensures
        ({
            let rest = lower(p.skip(("Program Files/"@ + dir + "/"@).len() as int));
            &&& !occurs(rest, "crashhandler"@)
            &&& !occurs(rest, "crashpad"@)
            &&& !occurs(rest, "unins"@)
            &&& !occurs(rest, "redist"@)
            &&& !occurs(rest, "vcredist"@)
            &&& !occurs(rest, "setup"@)
            &&& !occurs(rest, "helper"@)
        }),
{
    guess_is_installed(paths, dir, p);
    lemma_named_after(p, dir);
    lemma_candidate_name(p, dir);
    guess_is_no_helper(paths, dir, p);
}

/// Nothing is guessed where two executables in the install directory have none of the
/// words of a helper in their names, and no executable there is the directory's name and
/// `.exe`.
pub proof fn no_guess_between_two_plain_names(
    paths: Seq<Seq<char>>,
    dir: Seq<char>,
    i: int,
    j: int,
)
    requires
        0 <= i < j < paths.len(),
        forall|k: int|
            k == i || k == j ==> ({
                let root = "Program Files/"@ + dir + "/"@;
                let rest = (#[trigger] paths[k]).skip(root.len() as int);
                &&& root.is_prefix_of(paths[k])
                &&& !rest.contains('/')
                &&& ".exe"@.is_suffix_of(lower(rest))
                &&& !occurs(lower(rest), "crashhandler"@)
                &&& !occurs(lower(rest), "crashpad"@)
                &&& !occurs(lower(rest), "unins"@)
                &&& !occurs(lower(rest), "redist"@)
                &&& !occurs(lower(rest), "vcredist"@)
                &&& !occurs(lower(rest), "setup"@)
                &&& !occurs(lower(rest), "helper"@)
            }),
        forall|k: int|
            0 <= k < paths.len() && ("Program Files/"@ + dir + "/"@).is_prefix_of(
                #[trigger] paths[k],
            ) ==> ({
                let rest = paths[k].skip(("Program Files/"@ + dir + "/"@).len() as int);
                &&& dir.len() > 0 ==> lower(rest) != lower(dir) + ".exe"@
                &&& lower(dir) == ".exe"@ ==> lower(rest) != ".exe"@
            }),
    ensures
        guessed(paths, dir) is None,
{
    assert(is_candidate(paths[i], dir));
    assert(is_candidate(paths[j], dir));
    lemma_candidate_name(paths[i], dir);
    lemma_candidate_name(paths[j], dir);
    assert forall|k: int|
        0 <= k < paths.len() && is_candidate(#[trigger] paths[k], dir) implies !named_after(
        paths[k],
        dir,
    ) by {
        lemma_named_after(paths[k], dir);
    }
    no_guess_between_two(paths, dir, i, j);
}

/// The one executable in the install directory whose name has none of the words of a
/// helper is guessed, where each other executable there has one of them and none is the
/// directory's name and `.exe`.
pub proof fn only_plain_name_is_guessed(paths: Seq<Seq<char>>, dir: Seq<char>, i: int)
    requires
        0 <= i < paths.len(),
        ({
            let root = "Program Files/"@ + dir + "/"@;
            let rest = paths[i].skip(root.len() as int);
            &&& root.is_prefix_of(paths[i])
            &&& !rest.contains('/')
            &&& ".exe"@.is_suffix_of(lower(rest))
            &&& !occurs(lower(rest), "crashhandler"@)
            &&& !occurs(lower(rest), "crashpad"@)
            &&& !occurs(lower(rest), "unins"@)
            &&& !occurs(lower(rest), "redist"@)
            &&& !occurs(lower(rest), "vcredist"@)
            &&& !occurs(lower(rest), "setup"@)
            &&& !occurs(lower(rest), "helper"@)
        }),
        forall|k: int|
            0 <= k < paths.len() && k != i && ("Program Files/"@ + dir + "/"@).is_prefix_of(
                #[trigger] paths[k],
            ) ==> ({
                let rest = paths[k].skip(("Program Files/"@ + dir + "/"@).len() as int);
                ||| rest.contains('/')
                ||| !".exe"@.is_suffix_of(lower(rest))
                ||| occurs(lower(rest), "crashhandler"@)
                ||| occurs(lower(rest), "crashpad"@)
                ||| occurs(lower(rest), "unins"@)
                ||| occurs(lower(rest), "redist"@)
                ||| occurs(lower(rest), "vcredist"@)
                ||| occurs(lower(rest), "setup"@)
                ||| occurs(lower(rest), "helper"@)
            }),
        forall|k: int|
            0 <= k < paths.len() && ("Program Files/"@ + dir + "/"@).is_prefix_of(
                #[trigger] paths[k],
            ) ==> ({
                let rest = paths[k].skip(("Program Files/"@ + dir + "/"@).len() as int);
                &&& dir.len() > 0 ==> lower(rest) != lower(dir) + ".exe"@
                &&& lower(dir) == ".exe"@ ==> lower(rest) != ".exe"@
            }),
    ensures
        guessed(paths, dir) == Some(paths[i]),
{
    let is_cand = |q: Seq<char>| is_candidate(q, dir);
    let after = |q: Seq<char>| named_after(q, dir);
    let plain = |q: Seq<char>| is_no_helper(q);
    let both = |q: Seq<char>| is_candidate(q, dir) && is_no_helper(q);
    let all = candidates(paths, dir);
    assert(is_candidate(paths[i], dir));
    lemma_candidate_name(paths[i], dir);
    lemma_first_where_found(all, after);
    if let Some(p) = first_where(all, after) {
        let k = choose|k: int| 0 <= k < all.len() && all[k] == p;
        lemma_filter_from(paths, is_cand, k);
        let q = choose|q: int| 0 <= q < paths.len() && paths[q] == p;
        lemma_named_after(paths[q], dir);
        assert(false);
    }
    lemma_filter_twice(paths, is_cand, plain, both);
    assert forall|k: int| 0 <= k < paths.len() && k != i implies !both(#[trigger] paths[k]) by {
        if is_candidate(paths[k], dir) {
            lemma_candidate_name(paths[k], dir);
        }
    }
    lemma_filter_one(paths, both, i);
}

proof fn lemma_filter_one<T>(items: Seq<T>, pred: spec_fn(T) -> bool, i: int)
    requires
        0 <= i < items.len(),
        pred(items[i]),
        forall|k: int| 0 <= k < items.len() && k != i ==> !pred(#[trigger] items[k]),
    ensures
        items.filter(pred) == seq![items[i]],
    decreases items.len(),
{
    reveal(Seq::filter);
    let before = items.drop_last();
    if i < items.len() - 1 {
        assert(before[i] == items[i]);
        lemma_filter_one(before, pred, i);
    } else {
        lemma_filter_none(before, pred);
        assert(items.filter(pred) =~= seq![items[i]]);
    }
}

proof fn lemma_filter_none<T>(items: Seq<T>, pred: spec_fn(T) -> bool)
    requires
        forall|k: int| 0 <= k < items.len() ==> !pred(#[trigger] items[k]),
    ensures
        items.filter(pred) == Seq::<T>::empty(),
    decreases items.len(),
{
    reveal(Seq::filter);
    if items.len() > 0 {
        lemma_filter_none(items.drop_last(), pred);
    } else {
        assert(items =~= Seq::<T>::empty());
    }
}

/// The goggame document is the first installed file whose name is `goggame-`, something
/// and `.info`, in any case; there is none where no file has such a name.
pub proof fn goggame_document_is_told_by_its_name(paths: Seq<Seq<char>>, i: int)
    requires
        0 <= i <= paths.len(),
        forall|j: int|
            0 <= j < i ==> match file_name(#[trigger] paths[j]) {
                Some(name) => forall|x: Seq<char>|
                    lower(name) != #[trigger] ("goggame-"@ + x + ".info"@),
                None => true,
            },
    ensures
        i == paths.len() ==> goggame_info(paths) is None,
        i < paths.len() ==> (file_name(paths[i]) matches Some(name) && exists|x: Seq<char>|
            lower(name) == #[trigger] ("goggame-"@ + x + ".info"@)) ==> goggame_info(paths) == Some(
            paths[i],
        ),
{
    let pred = |p: Seq<char>| is_goggame_info(p);
    assert forall|j: int| 0 <= j < i implies !pred(#[trigger] paths[j]) by {
        if pred(paths[j]) {
            let name = file_name(paths[j])->0;
            lemma_goggame_name(lower(name));
        }
    }
    if i < paths.len() && (file_name(paths[i]) matches Some(name) && exists|x: Seq<char>|
        lower(name) == #[trigger] ("goggame-"@ + x + ".info"@)) {
        let name = lower(file_name(paths[i])->0);
        let x = choose|x: Seq<char>| name == #[trigger] ("goggame-"@ + x + ".info"@);
        assert(name.take("goggame-"@.len() as int) =~= "goggame-"@);
        assert(name.skip(name.len() - ".info"@.len()) =~= ".info"@);
    }
    lemma_first_where(paths, pred, i);
}

proof fn lemma_goggame_name(name: Seq<char>)
    requires
        "goggame-"@.is_prefix_of(name),
        ".info"@.is_suffix_of(name),
    ensures
        exists|x: Seq<char>| name == #[trigger] ("goggame-"@ + x + ".info"@),
{
    reveal_strlit("goggame-");
    reveal_strlit(".info");
    let n = name.len() as int;
    assert(name.take(8) =~= "goggame-"@);
    assert(name.skip(n - 5) =~= ".info"@);
    if n < 13 {
        assert(name[n - 5] == name.skip(n - 5)[0]);
        assert(name[n - 5] == name.take(8)[n - 5]);
        assert(false);
    }
    let x = name.subrange(8, n - 5);
    assert(name =~= "goggame-"@ + x + ".info"@) by {
        assert forall|k: int| 0 <= k < n implies name[k] == ("goggame-"@ + x + ".info"@)[k] by {
            if k < 8 {
                assert(name[k] == name.take(8)[k]);
            } else if k >= n - 5 {
                assert(name[k] == name.skip(n - 5)[k - (n - 5)]);
            }
        }
    }
}

/// The play tasks of a document are the items of its list `playTasks`, each in its place:
/// primary where its `isPrimary` is true, and with the text of its `path`. A document
/// without such a list has none.
pub proof fn play_tasks_are_read_item_by_item(doc: Json)
    ensures
        match doc {
            Json::Object(members) => if members.contains_key("playTasks"@) {
                match members["playTasks"@] {
                    Json::List(items) => play_tasks(doc) matches Some(tasks) && tasks.len()
                        == items.len() && forall|k: int|
                        0 <= k < items.len() ==> match items[k] {
                            Json::Object(own) => {
                                &&& (#[trigger] tasks[k]).is_primary == Some(true) <==> (
                                own.contains_key("isPrimary"@) && own["isPrimary"@] == Json::Bool(
                                    true,
                                ))
                                &&& tasks[k].path is Some <==> (own.contains_key("path"@)
                                    && own["path"@] is Text)
                                &&& tasks[k].path matches Some(text) ==> own["path"@] == Json::Text(
                                    text,
                                )
                            },
                            _ => tasks[k].is_primary is None && tasks[k].path is None,
                        },
                    _ => play_tasks(doc) is None,
                }
            } else {
                play_tasks(doc) is None
            },
            _ => play_tasks(doc) is None,
        },
{
    if let Json::Object(members) = doc {
        if members.contains_key("playTasks"@) {
            if let Json::List(items) = members["playTasks"@] {
                let tasks = play_tasks(doc)->0;
                assert(tasks.len() == items.len());
                assert forall|k: int| 0 <= k < items.len() implies #[trigger] tasks[k] == play_task(
                    items[k],
                ) by {}
            }
        }
    }
}

/// The first play task that is primary decides. Its path, read as lying in the directory
/// of the document, is written with slashes only; a rooted one stands alone. Where that
/// task has no path, or no task is primary, nothing is named.
pub proof fn first_primary_task_decides(info: Seq<char>, tasks: Seq<PlayTaskView>, i: int)
    requires
        0 <= i <= tasks.len(),
        forall|j: int| 0 <= j < i ==> (#[trigger] tasks[j]).is_primary != Some(true),
    ensures
        i == tasks.len() ==> primary_path(info, tasks) is None,
        i < tasks.len() && tasks[i].is_primary == Some(true) ==> match tasks[i].path {
            None => primary_path(info, tasks) is None,
            Some(executable) => primary_path(info, tasks) matches Some(p) && {
                let dir = parent(info);
                let rooted = executable.len() > 0 && (executable[0] == '/' || executable[0]
                    == '\\');
                let start = if rooted || dir.len() == 0 {
                    Seq::<char>::empty()
                } else if dir.last() == '/' {
                    dir
                } else {
                    dir + seq!['/']
                };
                &&& p.len() == start.len() + executable.len()
                &&& forall|k: int|
                    0 <= k < p.len() ==> ({
                        let own = (start + executable)[k];
                        #[trigger] p[k] == if own == '\\' {
                            '/'
                        } else {
                            own
                        }
                    })
            },
        },
{
    let pred = |t: PlayTaskView| t.is_primary == Some(true);
    lemma_first_where(tasks, pred, i);
    if i < tasks.len() && tasks[i].is_primary == Some(true) {
        if let Some(executable) = tasks[i].path {
            let dir = parent(info);
            let below = replaced(executable, '\\', '/');
            let rooted = executable.len() > 0 && (executable[0] == '/' || executable[0] == '\\');
            assert(rooted <==> below.len() > 0 && below[0] == '/');
            let start = if rooted || dir.len() == 0 {
                Seq::<char>::empty()
            } else if dir.last() == '/' {
                dir
            } else {
                dir + seq!['/']
            };
            assert(joined(dir, below) =~= start + below);
            let p = primary_path(info, tasks)->0;
            assert forall|k: int| 0 <= k < p.len() implies #[trigger] p[k] == (if (start
                + executable)[k] == '\\' {
                '/'
            } else {
                (start + executable)[k]
            }) by {
                if k >= start.len() {
                    assert(below[k - start.len()] == if executable[k - start.len()] == '\\' {
                        '/'
                    } else {
                        executable[k - start.len()]
                    });
                }
            }
        }
    }
}

/// A goggame document names what its play tasks do, and nothing where its bytes are no
/// document or the document has no list of play tasks.
pub proof fn goggame_document_names_what_its_tasks_do(info: Seq<char>, bytes: Seq<u8>)
    ensures
        parsed(bytes) is None ==> goggame_executable(info, bytes) is None,
        parsed(bytes) matches Some(doc) ==> (play_tasks(doc) is None ==> goggame_executable(
            info,
            bytes,
        ) is None),
        parsed(bytes) matches Some(doc) ==> (play_tasks(doc) matches Some(tasks)
            ==> goggame_executable(info, bytes) == primary_path(info, tasks)),
{
}

/// A name is a helper's exactly where one of the words of a helper occurs in it, in any
/// case.
pub proof fn helpers_are_told_by_their_words(name: &str, helper: bool)
    requires
        call_ensures(looks_like_helper, (name,), helper),
    ensures
        helper <==> {
            ||| occurs(lower(name@), "crashhandler"@)
            ||| occurs(lower(name@), "crashpad"@)
            ||| occurs(lower(name@), "unins"@)
            ||| occurs(lower(name@), "redist"@)
            ||| occurs(lower(name@), "vcredist"@)
            ||| occurs(lower(name@), "setup"@)
            ||| occurs(lower(name@), "helper"@)
        },
{
}

/// A game is installed in its own directory below `Program Files`.
pub proof fn games_are_installed_in_program_files(install_directory: &str, root: String)
    requires
        call_ensures(install_root_name, (install_directory,), root),
    ensures
        root@ == "Program Files/"@ + install_directory@,
{
}

/// What is found of installed files is what is stated of their texts: the guess, and the
/// goggame document.
pub proof fn findings_are_those_of_the_texts(
    relative_paths: &[String],
    install_directory: &str,
    guess: Option<String>,
    info: Option<String>,
)
    requires
        call_ensures(
            find_primary_executable_heuristic,
            (relative_paths, install_directory),
            guess,
        ),
        call_ensures(goggame_info_path, (relative_paths,), info),
    ensures
        guess is Some <==> guessed(texts(relative_paths@), install_directory@) is Some,
        guess matches Some(p) ==> guessed(texts(relative_paths@), install_directory@) == Some(p@),
        info is Some <==> goggame_info(texts(relative_paths@)) is Some,
        info matches Some(p) ==> goggame_info(texts(relative_paths@)) == Some(p@),
{
}

/// An installed file that is the install directory's name and `.exe`, in any case, is what
/// is found to launch the game, where it is the first such file.
pub proof fn file_named_as_the_directory_is_found(
    relative_paths: &[String],
    install_directory: &str,
    guess: Option<String>,
    i: int,
)
    requires
        call_ensures(
            find_primary_executable_heuristic,
            (relative_paths, install_directory),
            guess,
        ),
        install_directory@.len() > 0,
        !install_directory@.contains('/'),
        lower(install_directory@) != ".exe"@,
        0 <= i < relative_paths@.len(),
        ({
            let root = "Program Files/"@ + install_directory@ + "/"@;
            &&& root.is_prefix_of(relative_paths@[i]@)
            &&& lower(relative_paths@[i]@.skip(root.len() as int)) == lower(install_directory@)
                + ".exe"@
            &&& forall|j: int|
                0 <= j < i && root.is_prefix_of((#[trigger] relative_paths@[j])@) ==> lower(
                    relative_paths@[j]@.skip(root.len() as int),
                ) != lower(install_directory@) + ".exe"@
        }),
    ensures
        guess matches Some(p) && p@ == relative_paths@[i]@,
{
    let paths = texts(relative_paths@);
    let root = "Program Files/"@ + install_directory@ + "/"@;
    assert(paths[i] == relative_paths@[i]@);
    assert forall|j: int| 0 <= j < i && root.is_prefix_of(#[trigger] paths[j]) implies lower(
        paths[j].skip(root.len() as int),
    ) != lower(install_directory@) + ".exe"@ by {
        assert(paths[j] == relative_paths@[j]@);
    }
    file_named_as_the_directory_is_guessed(paths, install_directory@, i);
}

/// What a goggame document names is found from its path and its bytes, and from its play
/// tasks, as it is stated of them; and the play tasks are those of the document.
pub proof fn goggame_findings_are_those_of_the_document(
    info_path: &str,
    contents: &[u8],
    named: Option<String>,
    tasks: &[PlayTask],
    by_tasks: Option<String>,
    info: serde_json::Value,
    read: Option<Vec<PlayTask>>,
)
    requires
        call_ensures(find_goggame_primary_executable, (info_path, contents), named),
        call_ensures(primary_task_path, (info_path, tasks), by_tasks),
        call_ensures(read_play_tasks, (&info,), read),
    ensures
        named is Some <==> goggame_executable(info_path@, contents@) is Some,
        named matches Some(p) ==> goggame_executable(info_path@, contents@) == Some(p@),
        by_tasks is Some <==> primary_path(info_path@, task_views(tasks@)) is Some,
        by_tasks matches Some(p) ==> primary_path(info_path@, task_views(tasks@)) == Some(p@),
        read is Some <==> play_tasks(content(info)) is Some,
        read matches Some(own) ==> play_tasks(content(info)) == Some(task_views(own@)),
{
}

/// A play task is seen as it is: primary where it says so, and with the characters of its
/// path.
pub proof fn play_tasks_are_seen_as_they_are(tasks: Seq<PlayTask>, k: int)
    requires
        0 <= k < tasks.len(),
    ensures
        task_views(tasks).len() == tasks.len(),
        task_views(tasks)[k].is_primary == tasks[k].is_primary,
        task_views(tasks)[k].path is Some <==> tasks[k].path is Some,
        tasks[k].path matches Some(text) ==> task_views(tasks)[k].path == Some(text@),
{
}

} // verus!
