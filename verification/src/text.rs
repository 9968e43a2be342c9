//! Text as sequences of characters: the few string operations that the rest of
//! the library needs, each proved against its meaning on `Seq<char>`.

use vstd::prelude::*;

verus! {

/// `std::string::String::push`: appends one character at the end.
pub assume_specification[ std::string::String::push ](s: &mut String, c: char)
    ensures
        final(s)@ == old(s)@.push(c),
;

/// An ASCII capital becomes the small letter; every other character stays.
pub open spec fn lower_char(c: char) -> char {
    if 'A' <= c && c <= 'Z' {
        ((c as u32) + 32) as char
    } else {
        c
    }
}

/// A text with its ASCII capitals made small.
pub open spec fn lower(s: Seq<char>) -> Seq<char> {
    s.map_values(|c: char| lower_char(c))
}

/// A text with every occurrence of one character replaced by another.
pub open spec fn replaced(s: Seq<char>, from: char, to: char) -> Seq<char> {
    s.map_values(|c: char| if c == from { to } else { c })
}

/// `pattern` stands in `s` from position `i` on.
pub open spec fn occurs_at(s: Seq<char>, pattern: Seq<char>, i: int) -> bool {
    0 <= i && i + pattern.len() <= s.len() && s.subrange(i, i + pattern.len()) == pattern
}

/// `pattern` stands somewhere in `s`.
pub open spec fn occurs(s: Seq<char>, pattern: Seq<char>) -> bool {
    exists|i: int| occurs_at(s, pattern, i)
}

/// What each string of a list holds.
pub open spec fn texts(list: Seq<String>) -> Seq<Seq<char>> {
    list.map_values(|t: String| t@)
}

/// The first item that satisfies `pred`.
pub open spec fn first_where<T>(items: Seq<T>, pred: spec_fn(T) -> bool) -> Option<T>
    decreases items.len(),
{
    if items.len() == 0 {
        None
    } else if pred(items[0]) {
        Some(items[0])
    } else {
        first_where(items.skip(1), pred)
    }
}

/// The first item that satisfies a predicate is the one at `i` where no item
/// before `i` satisfies it.
pub(crate) proof fn lemma_first_where<T>(items: Seq<T>, pred: spec_fn(T) -> bool, i: int)
    requires
        0 <= i <= items.len(),
        forall|j: int| 0 <= j < i ==> !pred(items[j]),
    ensures
        i == items.len() ==> first_where(items, pred) is None,
        i < items.len() && pred(items[i]) ==> first_where(items, pred) == Some(items[i]),
    decreases i,
{
    if i > 0 {
        let rest = items.skip(1);
        assert forall|j: int| 0 <= j < i - 1 implies !pred(rest[j]) by {
            assert(rest[j] == items[j + 1]);
        }
        lemma_first_where(rest, pred, i - 1);
    }
}

/// Filtering one more item appends it or leaves it out.
pub(crate) proof fn lemma_filter_take<T>(items: Seq<T>, pred: spec_fn(T) -> bool, i: int)
    requires
        0 <= i < items.len(),
    ensures
        items.take(i + 1).filter(pred) == if pred(items[i]) {
            items.take(i).filter(pred).push(items[i])
        } else {
            items.take(i).filter(pred)
        },
{
    reveal(Seq::filter);
    assert(items.take(i + 1).drop_last() =~= items.take(i));
}

/// The characters of a text.
pub(crate) fn chars_of(s: &str) -> (v: Vec<char>)
    ensures
        v@ == s@,
{
    let mut v: Vec<char> = Vec::new();
    for c in it: s.chars()
        invariant
            v@ == it.seq().take(it.index() as int),
            it.seq() == s@,
    {
        v.push(c);
    }
    v
}

/// The text made of some characters.
pub(crate) fn text_of(v: &[char]) -> (s: String)
    ensures
        s@ == v@,
{
    let mut s = String::new();
    let mut i: usize = 0;
    while i < v.len()
        invariant
            i <= v@.len(),
            s@ == v@.take(i as int),
        decreases v@.len() - i,
    {
        s.push(v[i]);
        assert(v@.take(i + 1) =~= v@.take(i as int).push(v@[i as int]));
        i += 1;
    }
    assert(v@.take(i as int) =~= v@);
    s
}

/// Two texts in a row.
pub(crate) fn join2(a: &str, b: &str) -> (s: String)
    ensures
        s@ == a@ + b@,
{
    let mut s = String::new();
    s.append(a);
    s.append(b);
    s
}

/// Three texts in a row.
pub(crate) fn join3(a: &str, b: &str, c: &str) -> (s: String)
    ensures
        s@ == a@ + b@ + c@,
{
    let mut s = join2(a, b);
    s.append(c);
    s
}

/// Whether two runs of characters are the same.
pub(crate) fn same(a: &[char], b: &[char]) -> (r: bool)
    ensures
        r == (a@ == b@),
{
    if a.len() != b.len() {
        return false;
    }
    let mut i: usize = 0;
    while i < a.len()
        invariant
            a@.len() == b@.len(),
            i <= a@.len(),
            forall|j: int| 0 <= j < i ==> a@[j] == b@[j],
        decreases a@.len() - i,
    {
        if a[i] != b[i] {
            return false;
        }
        i += 1;
    }
    assert(a@ =~= b@);
    true
}

/// Whether `pattern` stands in `s` from position `i` on.
pub(crate) fn stands_at(s: &[char], pattern: &[char], i: usize) -> (r: bool)
    ensures
        r == occurs_at(s@, pattern@, i as int),
{
    if i > s.len() || pattern.len() > s.len() - i {
        return false;
    }
    let mut j: usize = 0;
    while j < pattern.len()
        invariant
            i + pattern.len() <= s.len(),
            j <= pattern@.len(),
            forall|k: int| 0 <= k < j ==> s@[i + k] == pattern@[k],
        decreases pattern@.len() - j,
    {
        if s[i + j] != pattern[j] {
            assert(s@.subrange(i as int, i + pattern@.len())[j as int] == s@[i + j]);
            return false;
        }
        j += 1;
    }
    assert(s@.subrange(i as int, i + pattern@.len()) =~= pattern@);
    true
}

/// Whether `pattern` stands somewhere in `s`.
pub(crate) fn holds(s: &[char], pattern: &[char]) -> (r: bool)
    ensures
        r == occurs(s@, pattern@),
{
    let mut i: usize = 0;
    while i < s.len()
        invariant
            i <= s@.len(),
            forall|k: int| 0 <= k < i ==> !occurs_at(s@, pattern@, k),
        decreases s@.len() - i,
    {
        if stands_at(s, pattern, i) {
            return true;
        }
        i += 1;
    }
    if stands_at(s, pattern, i) {
        return true;
    }
    assert forall|k: int| !occurs_at(s@, pattern@, k) by {
        if occurs_at(s@, pattern@, k) {
            assert(k <= s@.len());
        }
    }
    false
}

/// Whether `s` begins with `pattern`.
pub(crate) fn begins(s: &[char], pattern: &[char]) -> (r: bool)
    ensures
        r == pattern@.is_prefix_of(s@),
{
    stands_at(s, pattern, 0)
}

/// Whether `s` ends with `pattern`.
pub(crate) fn ends(s: &[char], pattern: &[char]) -> (r: bool)
    ensures
        r == pattern@.is_suffix_of(s@),
{
    if pattern.len() > s.len() {
        return false;
    }
    stands_at(s, pattern, s.len() - pattern.len())
}

/// One character with an ASCII capital made small.
pub(crate) fn small(c: char) -> (r: char)
    ensures
        r == lower_char(c),
{
    if 'A' <= c && c <= 'Z' {
        let code: u8 = c as u8;
        (code + 32) as char
    } else {
        c
    }
}

/// A run of characters with its ASCII capitals made small.
pub(crate) fn lowered(s: &[char]) -> (v: Vec<char>)
    ensures
        v@ == lower(s@),
{
    let mut v: Vec<char> = Vec::new();
    let mut i: usize = 0;
    while i < s.len()
        invariant
            i <= s@.len(),
            v@ == lower(s@).take(i as int),
        decreases s@.len() - i,
    {
        v.push(small(s[i]));
        assert(lower(s@).take(i + 1) =~= lower(s@).take(i as int).push(lower(s@)[i as int]));
        i += 1;
    }
    assert(lower(s@).take(i as int) =~= lower(s@));
    v
}

/// A run of characters with every `from` replaced by `to`.
pub(crate) fn swapped(s: &[char], from: char, to: char) -> (v: Vec<char>)
    ensures
        v@ == replaced(s@, from, to),
{
    let mut v: Vec<char> = Vec::new();
    let mut i: usize = 0;
    while i < s.len()
        invariant
            i <= s@.len(),
            v@ == replaced(s@, from, to).take(i as int),
        decreases s@.len() - i,
    {
        let c: char = s[i];
        v.push(if c == from { to } else { c });
        assert(replaced(s@, from, to).take(i + 1) =~= replaced(s@, from, to).take(i as int).push(
            replaced(s@, from, to)[i as int],
        ));
        i += 1;
    }
    assert(replaced(s@, from, to).take(i as int) =~= replaced(s@, from, to));
    v
}

/// Making letters small leaves no capital, changes nothing but capitals, and makes two
/// characters the same exactly where they are the same letter.
pub proof fn small_letters_tell_case_apart_from_nothing_else(a: char, b: char)
    ensures
        !('A' <= lower_char(a) && lower_char(a) <= 'Z'),
        lower_char(a) != a ==> 'A' <= a && a <= 'Z',
        lower_char(a) == lower_char(b) <==> (a == b || ('A' <= a && a <= 'Z' && b as u32 == a as u32
            + 32) || ('A' <= b && b <= 'Z' && a as u32 == b as u32 + 32)),
{
}

/// A text keeps its length when its letters are made small, and each character is made
/// small on its own.
pub proof fn lower_works_on_each_character(s: Seq<char>)
    ensures
        lower(s).len() == s.len(),
        forall|i: int| 0 <= i < s.len() ==> #[trigger] lower(s)[i] == lower_char(s[i]),
{
}

/// Replacing a character keeps the length of a text and every other character, and
/// leaves none of those that are replaced, unless they are replaced by themselves.
pub proof fn replacing_touches_one_character(s: Seq<char>, from: char, to: char)
    ensures
        replaced(s, from, to).len() == s.len(),
        forall|i: int|
            0 <= i < s.len() && s[i] != from ==> #[trigger] replaced(s, from, to)[i] == s[i],
        forall|i: int|
            0 <= i < s.len() && s[i] == from ==> #[trigger] replaced(s, from, to)[i] == to,
        from != to ==> !replaced(s, from, to).contains(from),
{
}

/// A pattern occurs in a text exactly where the text is something, the pattern and
/// something more.
pub proof fn occurrence_splits_the_text(s: Seq<char>, pattern: Seq<char>)
    ensures
        occurs(s, pattern) <==> exists|front: Seq<char>, back: Seq<char>|
            s == #[trigger] (front + pattern + back),
{
    if occurs(s, pattern) {
        let i = choose|i: int| occurs_at(s, pattern, i);
        let front = s.take(i);
        let back = s.skip(i + pattern.len());
        assert(s =~= front + pattern + back) by {
            assert forall|k: int| 0 <= k < s.len() implies s[k] == (front + pattern + back)[k] by {
                if i <= k < i + pattern.len() {
                    assert(s.subrange(i, i + pattern.len())[k - i] == s[k]);
                }
            }
        }
    }
    if exists|front: Seq<char>, back: Seq<char>| s == #[trigger] (front + pattern + back) {
        let (front, back): (Seq<char>, Seq<char>) = choose|front: Seq<char>, back: Seq<char>|
            s == #[trigger] (front + pattern + back);
        let i = front.len() as int;
        assert(s.subrange(i, i + pattern.len()) =~= pattern);
        assert(occurs_at(s, pattern, i));
    }
}

/// The first item that satisfies a predicate satisfies it, and none before it does;
/// where there is none, no item does.
pub proof fn first_is_the_first<T>(items: Seq<T>, pred: spec_fn(T) -> bool)
    ensures
        match first_where(items, pred) {
            Some(item) => exists|i: int|
                0 <= i < items.len() && #[trigger] items[i] == item && pred(item) && forall|j: int|
                    0 <= j < i ==> !pred(#[trigger] items[j]),
            None => forall|i: int| 0 <= i < items.len() ==> !pred(#[trigger] items[i]),
        },
    decreases items.len(),
{
    if items.len() > 0 && pred(items[0]) {
        assert(items[0] == first_where(items, pred)->0);
    } else if items.len() > 0 {
        let rest = items.skip(1);
        first_is_the_first(rest, pred);
        match first_where(rest, pred) {
            Some(item) => {
                let i = choose|i: int|
                    0 <= i < rest.len() && #[trigger] rest[i] == item && pred(item) && forall|
                        j: int,
                    |
                        0 <= j < i ==> !pred(#[trigger] rest[j]);
                assert(items[i + 1] == item);
                assert forall|j: int| 0 <= j < i + 1 implies !pred(#[trigger] items[j]) by {
                    if j > 0 {
                        assert(items[j] == rest[j - 1]);
                    }
                }
            },
            None => {
                assert forall|i: int| 0 <= i < items.len() implies !pred(#[trigger] items[i]) by {
                    if i > 0 {
                        assert(items[i] == rest[i - 1]);
                    }
                }
            },
        }
    }
}

/// The texts of a list are those of its strings, each in its place.
pub proof fn texts_stay_in_place(list: Seq<String>)
    ensures
        texts(list).len() == list.len(),
        forall|i: int| 0 <= i < list.len() ==> #[trigger] texts(list)[i] == list[i]@,
{
}

} // verus!
