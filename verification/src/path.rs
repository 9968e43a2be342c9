//! Slash-separated paths as text: the last name of a path, its stem, the
//! directory that holds it, and a path put behind a directory.
//!
//! A path is a run of segments between slashes. Empty segments and `.` segments
//! count for nothing, except that a leading slash and a leading `.` belong to the
//! path's start.

use vstd::prelude::*;

verus! {

/// The position of the last `mark` at or behind `from`, or `from - 1`.
pub open spec fn last_mark(p: Seq<char>, mark: char, from: int) -> int
    decreases p.len(),
{
    if p.len() <= from || p.len() == 0 {
        from - 1
    } else if p.last() == mark {
        p.len() - 1
    } else {
        last_mark(p.drop_last(), mark, from)
    }
}

/// A segment that counts for nothing.
pub open spec fn blank(segment: Seq<char>) -> bool {
    segment.len() == 0 || segment == seq!['.']
}

/// The last segment of `p` behind the start `from`.
pub open spec fn last_segment(p: Seq<char>, from: int) -> Seq<char> {
    p.skip(last_mark(p, '/', from) + 1)
}

/// `p` without its last segment and the slash before it.
pub open spec fn without_segment(p: Seq<char>, from: int) -> Seq<char> {
    let i = last_mark(p, '/', from);
    p.take(if i < from { from } else { i })
}

/// The last segment of a path that is not blank, unless it is `..`.
pub open spec fn file_name(p: Seq<char>) -> Option<Seq<char>>
    decreases p.len(),
{
    if p.len() == 0 {
        None
    } else if !blank(last_segment(p, 0)) {
        if last_segment(p, 0) == seq!['.', '.'] {
            None
        } else {
            Some(last_segment(p, 0))
        }
    } else if without_segment(p, 0).len() < p.len() {
        file_name(without_segment(p, 0))
    } else {
        None
    }
}

/// A file name up to its last dot; all of it where no dot stands behind its first
/// character.
pub open spec fn stem(name: Seq<char>) -> Seq<char> {
    if last_mark(name, '.', 0) <= 0 {
        name
    } else {
        name.take(last_mark(name, '.', 0))
    }
}

/// The stem of a path's file name.
pub open spec fn file_stem(p: Seq<char>) -> Option<Seq<char>> {
    match file_name(p) {
        Some(name) => Some(stem(name)),
        None => None,
    }
}

/// How many characters belong to a path's start: a leading slash, or a `.` that is
/// the first segment.
pub open spec fn start_len(p: Seq<char>) -> int {
    if p.len() > 0 && p[0] == '/' {
        1
    } else if p.len() > 0 && p[0] == '.' && (p.len() == 1 || p[1] == '/') {
        1
    } else {
        0
    }
}

/// `p` without the blank segments at its end.
pub open spec fn trimmed(p: Seq<char>, from: int) -> Seq<char>
    decreases p.len(),
{
    if p.len() > from && blank(last_segment(p, from)) && without_segment(p, from).len() < p.len() {
        trimmed(without_segment(p, from), from)
    } else {
        p
    }
}

/// The directory that holds what a path names: the path without its last segment
/// that is not blank, and without the blank segments around it. A path that is
/// nothing but its start lies in no directory.
pub open spec fn parent(p: Seq<char>) -> Seq<char> {
    let from = start_len(p);
    let whole = trimmed(p, from);
    if whole.len() <= from {
        seq![]
    } else {
        trimmed(without_segment(whole, from), from)
    }
}

/// A path put behind a directory; one that begins with a slash stands alone.
pub open spec fn joined(dir: Seq<char>, p: Seq<char>) -> Seq<char> {
    if p.len() > 0 && p[0] == '/' {
        p
    } else if dir.len() == 0 || dir.last() == '/' {
        dir + p
    } else {
        dir + seq!['/'] + p
    }
}

pub(crate) proof fn lemma_last_mark(p: Seq<char>, mark: char, from: int, i: int)
    requires
        0 <= from,
        from - 1 <= i < p.len() || (i == from - 1),
        from <= i ==> p[i] == mark,
        forall|j: int| i < j < p.len() ==> p[j] != mark,
    ensures
        last_mark(p, mark, from) == i,
    decreases p.len(),
{
    if p.len() > from && p.len() > 0 && p.last() != mark {
        lemma_last_mark(p.drop_last(), mark, from, i);
    }
}

/// The position right behind the last `mark` in `p[..end]` at or behind `from`, or
/// `from`.
fn behind_mark(p: &[char], end: usize, mark: char, from: usize) -> (i: usize)
    requires
        end <= p@.len(),
        from <= end,
    ensures
        i == last_mark(p@.take(end as int), mark, from as int) + 1,
        from <= i <= end,
{
    let mut i: usize = end;
    while i > from
        invariant
            from <= i <= end,
            end <= p@.len(),
            forall|j: int| i <= j < end ==> p@[j] != mark,
        decreases i,
    {
        if p[i - 1] == mark {
            proof {
                lemma_last_mark(p@.take(end as int), mark, from as int, i - 1);
            }
            return i;
        }
        i -= 1;
    }
    proof {
        lemma_last_mark(p@.take(end as int), mark, from as int, i - 1);
    }
    i
}

fn is_blank(segment: &[char]) -> (r: bool)
    ensures
        r == blank(segment@),
{
    if segment.len() == 0 {
        true
    } else if segment.len() == 1 && segment[0] == '.' {
        assert(segment@ =~= seq!['.']);
        true
    } else {
        assert(segment@ == seq!['.'] ==> segment@.len() == 1 && segment@[0] == '.');
        false
    }
}

/// The file name of a path.
pub fn name_of(p: &[char]) -> (r: Option<Vec<char>>)
    ensures
        match r {
            Some(name) => file_name(p@) == Some(name@),
            None => file_name(p@) is None,
        },
{
    let mut end: usize = p.len();
    assert(p@.take(end as int) =~= p@);
    while end > 0
        invariant
            end <= p@.len(),
            file_name(p@.take(end as int)) == file_name(p@),
        decreases end,
    {
        let ghost q = p@.take(end as int);
        let i: usize = behind_mark(p, end, '/', 0);
        let segment = vstd::slice::slice_subrange(p, i, end);
        assert(segment@ =~= last_segment(q, 0));
        if !is_blank(segment) {
            if segment.len() == 2 && segment[0] == '.' && segment[1] == '.' {
                assert(segment@ =~= seq!['.', '.']);
                return None;
            }
            assert(segment@ == seq!['.', '.'] ==> segment@.len() == 2 && segment@[0] == '.'
                && segment@[1] == '.');
            return Some(copied(segment));
        }
        let cut: usize = if i == 0 { 0 } else { i - 1 };
        assert(without_segment(q, 0) =~= p@.take(cut as int));
        end = cut;
    }
    None
}

fn copied(p: &[char]) -> (v: Vec<char>)
    ensures
        v@ == p@,
{
    let mut v: Vec<char> = Vec::new();
    let mut i: usize = 0;
    while i < p.len()
        invariant
            i <= p@.len(),
            v@ == p@.take(i as int),
        decreases p@.len() - i,
    {
        v.push(p[i]);
        assert(p@.take(i + 1) =~= p@.take(i as int).push(p@[i as int]));
        i += 1;
    }
    assert(p@.take(i as int) =~= p@);
    v
}

/// The stem of a path's file name.
pub fn stem_of(p: &[char]) -> (r: Option<Vec<char>>)
    ensures
        match r {
            Some(s) => file_stem(p@) == Some(s@),
            None => file_stem(p@) is None,
        },
{
    match name_of(p) {
        None => None,
        Some(name) => {
            let i: usize = behind_mark(name.as_slice(), name.len(), '.', 0);
            assert(name@.take(name@.len() as int) =~= name@);
            if i <= 1 {
                Some(name)
            } else {
                let s = vstd::slice::slice_subrange(name.as_slice(), 0, i - 1);
                assert(s@ =~= stem(name@));
                Some(copied(s))
            }
        },
    }
}

/// Where the blank segments at the end of `p[..end]` begin.
fn trim_end(p: &[char], end: usize, from: usize) -> (r: usize)
    requires
        from <= end <= p@.len(),
    ensures
        from <= r <= end,
        p@.take(r as int) == trimmed(p@.take(end as int), from as int),
{
    let mut r: usize = end;
    while r > from
        invariant
            from <= r <= end <= p@.len(),
            trimmed(p@.take(r as int), from as int) == trimmed(p@.take(end as int), from as int),
        decreases r,
    {
        let ghost q = p@.take(r as int);
        let i: usize = behind_mark(p, r, '/', from);
        let segment = vstd::slice::slice_subrange(p, i, r);
        assert(segment@ =~= last_segment(q, from as int));
        if !is_blank(segment) {
            return r;
        }
        let cut: usize = if i == from { from } else { i - 1 };
        assert(without_segment(q, from as int) =~= p@.take(cut as int));
        r = cut;
    }
    r
}

/// The directory that holds what a path names.
pub fn parent_of(p: &[char]) -> (r: Vec<char>)
    ensures
        r@ == parent(p@),
{
    let from: usize = if p.len() > 0 && p[0] == '/' {
        1
    } else if p.len() > 0 && p[0] == '.' && (p.len() == 1 || p[1] == '/') {
        1
    } else {
        0
    };
    assert(p@.take(p@.len() as int) =~= p@);
    let end: usize = trim_end(p, p.len(), from);
    if end <= from {
        return Vec::new();
    }
    let i: usize = behind_mark(p, end, '/', from);
    let cut: usize = if i == from { from } else { i - 1 };
    assert(without_segment(p@.take(end as int), from as int) =~= p@.take(cut as int));
    let stop: usize = trim_end(p, cut, from);
    let v = copied(vstd::slice::slice_subrange(p, 0, stop));
    assert(v@ =~= p@.take(stop as int));
    v
}

/// A path put behind a directory.
pub fn join(dir: &[char], p: &[char]) -> (r: Vec<char>)
    ensures
        r@ == joined(dir@, p@),
{
    if p.len() > 0 && p[0] == '/' {
        return copied(p);
    }
    let mut r = copied(dir);
    if dir.len() > 0 && dir[dir.len() - 1] != '/' {
        r.push('/');
    }
    let mut rest = copied(p);
    r.append(&mut rest);
    assert(r@ =~= joined(dir@, p@));
    r
}

/// A name without a slash that is neither blank nor `..` is the file name of a path that
/// is nothing else, and of every path that ends in a slash and that name.
pub proof fn last_name_is_the_file_name(dir: Seq<char>, name: Seq<char>)
    requires
        !name.contains('/'),
        name.len() > 0,
        name != seq!['.'],
        name != seq!['.', '.'],
    ensures
        file_name(name) == Some(name),
        file_name(dir + seq!['/'] + name) == Some(name),
{
    lemma_no_slash(name);
    lemma_last_mark(name, '/', 0, -1);
    assert(name.skip(0) =~= name);
    let p = dir + seq!['/'] + name;
    assert forall|j: int| dir.len() < j < p.len() implies p[j] != '/' by {
        assert(p[j] == name[j - dir.len() - 1]);
    }
    lemma_last_mark(p, '/', 0, dir.len() as int);
    assert(p.skip(dir.len() as int + 1) =~= name);
}

proof fn lemma_no_slash(name: Seq<char>)
    requires
        !name.contains('/'),
    ensures
        forall|j: int| 0 <= j < name.len() ==> #[trigger] name[j] != '/',
{
    assert forall|j: int| 0 <= j < name.len() implies #[trigger] name[j] != '/' by {
        if name[j] == '/' {
            assert(name.contains('/'));
        }
    }
}

/// A slash at the end of a path, or a slash and a dot, do not change its file name; a
/// slash and two dots leave it none.
pub proof fn blank_ends_do_not_name_a_file(p: Seq<char>)
    ensures
        file_name(p + seq!['/']) == file_name(p),
        file_name(p + seq!['/', '.']) == file_name(p),
        file_name(p + seq!['/', '.', '.']) is None,
        file_name(Seq::<char>::empty()) is None,
{
    let a = p + seq!['/'];
    lemma_last_mark(a, '/', 0, p.len() as int);
    assert(a.skip(p.len() as int + 1) =~= seq![]);
    assert(a.take(p.len() as int) =~= p);
    let b = p + seq!['/', '.'];
    lemma_last_mark(b, '/', 0, p.len() as int);
    assert(b.skip(p.len() as int + 1) =~= seq!['.']);
    assert(b.take(p.len() as int) =~= p);
    let c = p + seq!['/', '.', '.'];
    lemma_last_mark(c, '/', 0, p.len() as int);
    assert(c.skip(p.len() as int + 1) =~= seq!['.', '.']);
    assert(seq!['.', '.'].len() == 2);
}

/// The stem of a name is what stands before its last dot, where that is not its first
/// character; a name whose only dot is its first character, or that has none, is its own
/// stem.
pub proof fn stem_ends_at_the_last_dot(front: Seq<char>, end: Seq<char>)
    requires
        !end.contains('.'),
    ensures
        front.len() > 0 ==> stem(front + seq!['.'] + end) == front,
        stem(seq!['.'] + end) == seq!['.'] + end,
        stem(end) == end,
{
    assert forall|j: int| 0 <= j < end.len() implies #[trigger] end[j] != '.' by {
        if end[j] == '.' {
            assert(end.contains('.'));
        }
    }
    let name = front + seq!['.'] + end;
    assert forall|j: int| front.len() < j < name.len() implies name[j] != '.' by {
        assert(name[j] == end[j - front.len() - 1]);
    }
    lemma_last_mark(name, '.', 0, front.len() as int);
    assert(name.take(front.len() as int) =~= front);
    let hidden = seq!['.'] + end;
    assert forall|j: int| 0 < j < hidden.len() implies hidden[j] != '.' by {
        assert(hidden[j] == end[j - 1]);
    }
    lemma_last_mark(hidden, '.', 0, 0);
    lemma_last_mark(end, '.', 0, -1);
}

/// The stem of a path is that of its file name, and there is none without the other.
pub proof fn stem_is_of_the_file_name(p: Seq<char>)
    ensures
        file_stem(p) is Some <==> file_name(p) is Some,
        file_name(p) matches Some(name) ==> file_stem(p) == Some(stem(name)),
{
}

/// A name below the root lies in the root, and a name alone lies in no directory.
pub proof fn plain_name_lies_in_its_start(name: Seq<char>)
    requires
        !name.contains('/'),
        name.len() > 0,
        name != seq!['.'],
    ensures
        parent(name) == Seq::<char>::empty(),
        parent(seq!['/'] + name) == seq!['/'],
{
    lemma_no_slash(name);
    lemma_last_mark(name, '/', 0, -1);
    assert(name.skip(0) =~= name);
    assert(name.len() == 1 && name[0] == '.' ==> name =~= seq!['.']);
    assert(start_len(name) == 0);
    assert(trimmed(name, 0) == name);
    assert(name.take(0) =~= seq![]);
    let p = seq!['/'] + name;
    assert forall|j: int| 1 <= j < p.len() implies p[j] != '/' by {
        assert(p[j] == name[j - 1]);
    }
    lemma_last_mark(p, '/', 1, 0);
    assert(p.skip(1) =~= name);
    assert(trimmed(p, 1) == p);
    assert(p.take(1) =~= seq!['/']);
    assert(without_segment(p, 1) == seq!['/']);
}

/// A name in a directory lies in that directory, where the directory's own path has no
/// blank segment at its end.
pub proof fn name_lies_in_its_directory(front: Seq<char>, last: Seq<char>, name: Seq<char>)
    requires
        !name.contains('/'),
        name.len() > 0,
        name != seq!['.'],
        !last.contains('/'),
        last.len() > 0,
        last != seq!['.'],
    ensures
        parent(last + seq!['/'] + name) == last,
        parent(front + seq!['/'] + last + seq!['/'] + name) == front + seq!['/'] + last,
{
    lemma_no_slash(last);
    assert(last.len() == 1 && last[0] == '.' ==> last =~= seq!['.']);
    lemma_parent(last, 0, last, name);
    let dir = front + seq!['/'] + last;
    let p = dir + seq!['/'] + name;
    assert(dir[front.len() as int] == '/');
    assert(front.len() > 0 ==> dir[0] == front[0]);
    assert(front.len() > 1 ==> dir[1] == front[1]);
    let from = start_len(p);
    assert(p[0] == dir[0] && p[1] == dir[1]);
    lemma_parent(dir, from, last, name);
}

proof fn lemma_parent(dir: Seq<char>, from: int, last: Seq<char>, name: Seq<char>)
    requires
        !name.contains('/'),
        name.len() > 0,
        name != seq!['.'],
        !last.contains('/'),
        last.len() > 0,
        last != seq!['.'],
        last.is_suffix_of(dir),
        dir.len() == last.len() || dir[dir.len() - last.len() - 1] == '/',
        from == start_len(dir + seq!['/'] + name),
        from <= dir.len() - last.len(),
    ensures
        parent(dir + seq!['/'] + name) == dir,
{
    lemma_no_slash(last);
    lemma_no_slash(name);
    let p = dir + seq!['/'] + name;
    let n = dir.len() as int;
    assert forall|j: int| n < j < p.len() implies p[j] != '/' by {
        assert(p[j] == name[j - n - 1]);
    }
    lemma_last_mark(p, '/', from, n);
    assert(p.skip(n + 1) =~= name);
    assert(trimmed(p, from) == p);
    assert(p.take(n) =~= dir);
    assert(without_segment(p, from) == dir);
    let m = n - last.len();
    assert forall|j: int| m <= j < n implies dir[j] != '/' by {
        assert(dir[j] == dir.skip(m)[j - m]);
        assert(dir.skip(m) =~= last);
    }
    lemma_last_mark(dir, '/', from, if m - 1 < from { from - 1 } else { m - 1 });
    if m - 1 < from {
        assert(m == from);
    }
    assert(dir.skip(m) =~= last);
    assert(last_segment(dir, from) == last);
    assert(trimmed(dir, from) == dir);
}

/// A path put behind a directory ends in that path. One that begins with a slash is all
/// there is; any other stands behind the directory and one slash, which is not written
/// twice, nor behind no directory at all.
pub proof fn joined_path_holds_both(dir: Seq<char>, p: Seq<char>)
    ensures
        p.is_suffix_of(joined(dir, p)),
        p.len() > 0 && p[0] == '/' ==> joined(dir, p).len() == p.len(),
        p.len() == 0 || p[0] != '/' ==> dir.is_prefix_of(joined(dir, p)),
        (p.len() == 0 || p[0] != '/') && dir.len() > 0 && dir.last() != '/' ==> joined(dir, p).len()
            == dir.len() + 1 + p.len() && joined(dir, p)[dir.len() as int] == '/',
        (p.len() == 0 || p[0] != '/') && (dir.len() == 0 || dir.last() == '/') ==> joined(
            dir,
            p,
        ).len() == dir.len() + p.len(),
{
    let r = joined(dir, p);
    assert(r.skip(r.len() - p.len()) =~= p);
}

/// What is found of a path is what is stated of its characters.
pub proof fn path_findings_are_those_of_the_characters(
    p: &[char],
    name: Option<Vec<char>>,
    s: Option<Vec<char>>,
    dir: Vec<char>,
    behind: &[char],
    whole: Vec<char>,
)
    requires
        call_ensures(name_of, (p,), name),
        call_ensures(stem_of, (p,), s),
        call_ensures(parent_of, (p,), dir),
        call_ensures(join, (p, behind), whole),
    ensures
        name is Some <==> file_name(p@) is Some,
        name matches Some(own) ==> file_name(p@) == Some(own@),
        s is Some <==> file_stem(p@) is Some,
        s matches Some(own) ==> file_stem(p@) == Some(own@),
        dir@ == parent(p@),
        whole@ == joined(p@, behind@),
{
}

} // verus!
