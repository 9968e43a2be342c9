//! Identifiers: 128-bit numbers, read and written by the `uuid` crate.

use vstd::prelude::*;
use crate::text::{lower, lower_char};

verus! {

/// The hexadecimal digit of a number below sixteen.
pub open spec fn hex_char(n: int) -> char {
    if n < 10 {
        (n + 48) as char
    } else {
        (n + 87) as char
    }
}

/// The last `len` hexadecimal digits of a number.
pub open spec fn digits(n: nat, len: nat) -> Seq<char>
    decreases len,
{
    if len == 0 {
        seq![]
    } else {
        digits(n / 16, (len - 1) as nat).push(hex_char((n % 16) as int))
    }
}

/// An identifier as five groups of digits with hyphens between them.
pub open spec fn hyphenated(id: u128) -> Seq<char> {
    let d = digits(id as nat, 32);
    d.subrange(0, 8) + seq!['-'] + d.subrange(8, 12) + seq!['-'] + d.subrange(12, 16) + seq!['-']
        + d.subrange(16, 20) + seq!['-'] + d.subrange(20, 32)
}

/// The texts that stand for an identifier, in any case: its digits, its hyphenated
/// form, and that form as a URN or in braces.
pub open spec fn denotes(s: Seq<char>, id: u128) -> bool {
    let t = lower(s);
    ||| t == digits(id as nat, 32)
    ||| t == hyphenated(id)
    ||| t == seq!['u', 'r', 'n', ':', 'u', 'u', 'i', 'd', ':'] + hyphenated(id)
    ||| t == seq!['{'] + hyphenated(id) + seq!['}']
}

/// A random identifier of version 4.
pub open spec fn is_version_4(id: u128) -> bool {
    (id >> 76) & 0xf == 4 && (id >> 62) & 0x3 == 2
}

/// `uuid::Uuid::parse_str`: a text is accepted where it denotes an identifier, and
/// then read as that one.
#[verifier::external_body]
pub(crate) fn parse_id(s: &str) -> (r: Option<u128>)
    ensures
        match r {
            Some(id) => denotes(s@, id),
            None => forall|id: u128| !denotes(s@, id),
        },
{
    uuid::Uuid::parse_str(s).ok().map(|id| id.as_u128())
}

/// `uuid::Uuid`'s `to_string`: the hyphenated form.
#[verifier::external_body]
pub(crate) fn id_text(id: u128) -> (r: String)
    ensures
        r@ == hyphenated(id),
{
    uuid::Uuid::from_u128(id).to_string()
}

/// `uuid::Uuid::new_v4`: a random identifier, of which only the version and variant
/// bits are fixed. It panics where the system gives no random bytes.
#[verifier::external_body]
pub(crate) fn fresh_id() -> (r: u128)
    ensures
        is_version_4(r),
{
    uuid::Uuid::new_v4().as_u128()
}

spec fn pow16(len: nat) -> nat
    decreases len,
{
    if len == 0 {
        1
    } else {
        16 * pow16((len - 1) as nat)
    }
}

proof fn lemma_digits_len(n: nat, len: nat)
    ensures
        digits(n, len).len() == len,
    decreases len,
{
    if len > 0 {
        lemma_digits_len(n / 16, (len - 1) as nat);
    }
}

proof fn lemma_hex_char(a: int, b: int)
    requires
        0 <= a < 16,
        0 <= b < 16,
        hex_char(a) == hex_char(b),
    ensures
        a == b,
{
}

proof fn lemma_digits_injective(a: nat, b: nat, len: nat)
    requires
        a < pow16(len),
        b < pow16(len),
        digits(a, len) == digits(b, len),
    ensures
        a == b,
    decreases len,
{
    if len > 0 {
        let rest = (len - 1) as nat;
        let da = digits(a / 16, rest);
        let db = digits(b / 16, rest);
        lemma_digits_len(a / 16, rest);
        lemma_digits_len(b / 16, rest);
        assert(da.push(hex_char((a % 16) as int)).last() == hex_char((a % 16) as int));
        assert(db.push(hex_char((b % 16) as int)).last() == hex_char((b % 16) as int));
        lemma_hex_char((a % 16) as int, (b % 16) as int);
        assert(da =~= digits(a, len).drop_last());
        assert(db =~= digits(b, len).drop_last());
        lemma_digits_injective(a / 16, b / 16, rest);
    }
}

proof fn lemma_digits_lower(n: nat, len: nat)
    ensures
        lower(digits(n, len)) == digits(n, len),
    decreases len,
{
    if len > 0 {
        lemma_digits_lower(n / 16, (len - 1) as nat);
        lemma_digits_len(n / 16, (len - 1) as nat);
        let d = digits(n / 16, (len - 1) as nat);
        let c = hex_char((n % 16) as int);
        assert(lower_char(c) == c);
        assert forall|i: int| 0 <= i < len implies lower(d.push(c))[i] == d.push(c)[i] by {
            if i < d.len() {
                assert(lower(d)[i] == d[i]);
            }
        }
        assert(lower(d.push(c)) =~= d.push(c));
    } else {
        assert(lower(digits(n, len)) =~= digits(n, len));
    }
}

proof fn lemma_digits_of_hyphenated(a: u128, b: u128)
    requires
        hyphenated(a) == hyphenated(b),
    ensures
        digits(a as nat, 32) == digits(b as nat, 32),
{
    let x = digits(a as nat, 32);
    let y = digits(b as nat, 32);
    lemma_digits_len(a as nat, 32);
    lemma_digits_len(b as nat, 32);
    let h = hyphenated(a);
    assert forall|i: int| 0 <= i < 32 implies x[i] == y[i] by {
        let at = if i < 8 {
            i
        } else if i < 12 {
            i + 1
        } else if i < 16 {
            i + 2
        } else if i < 20 {
            i + 3
        } else {
            i + 4
        };
        assert(hyphenated(a)[at] == x[i]);
        assert(hyphenated(b)[at] == y[i]);
    }
    assert(x =~= y);
}

proof fn lemma_pow16_32()
    ensures
        u128::MAX < pow16(32),
{
    reveal_with_fuel(pow16, 33);
}

/// A text stands for one identifier at most.
pub proof fn text_denotes_one_id(s: Seq<char>, a: u128, b: u128)
    requires
        denotes(s, a),
        denotes(s, b),
    ensures
        a == b,
{
    lemma_digits_len(a as nat, 32);
    lemma_digits_len(b as nat, 32);
    lemma_pow16_32();
    let t = lower(s);
    assert(hyphenated(a).len() == 36 && hyphenated(b).len() == 36);
    if t.len() == 45 {
        let urn = seq!['u', 'r', 'n', ':', 'u', 'u', 'i', 'd', ':'];
        assert((urn + hyphenated(a)).skip(9) =~= hyphenated(a));
        assert((urn + hyphenated(b)).skip(9) =~= hyphenated(b));
        lemma_digits_of_hyphenated(a, b);
    } else if t.len() == 38 {
        assert((seq!['{'] + hyphenated(a) + seq!['}']).subrange(1, 37) =~= hyphenated(a));
        assert((seq!['{'] + hyphenated(b) + seq!['}']).subrange(1, 37) =~= hyphenated(b));
        lemma_digits_of_hyphenated(a, b);
    } else if t.len() == 36 {
        lemma_digits_of_hyphenated(a, b);
    }
    lemma_digits_injective(a as nat, b as nat, 32);
}

/// What an identifier is written as stands for that identifier and for no other:
/// reading back what was written gives the same identifier.
pub proof fn written_id_reads_back(id: u128, read: u128)
    ensures
        denotes(hyphenated(id), read) <==> read == id,
{
    let h = hyphenated(id);
    let d = digits(id as nat, 32);
    lemma_digits_len(id as nat, 32);
    lemma_digits_lower(id as nat, 32);
    assert forall|i: int| 0 <= i < 36 implies lower(h)[i] == h[i] by {
        assert(forall|k: int| 0 <= k < 32 ==> lower(d)[k] == #[trigger] d[k]);
        assert(forall|k: int| 0 <= k < 32 ==> lower_char(#[trigger] d[k]) == d[k]);
    }
    assert(lower(h) =~= h);
    assert(denotes(h, id));
    if denotes(h, read) {
        text_denotes_one_id(h, id, read);
    }
}

proof fn lemma_digits_are_hex(n: nat, len: nat, i: int)
    requires
        0 <= i < len,
    ensures
        digits(n, len).len() == len,
        ('0' <= digits(n, len)[i] && digits(n, len)[i] <= '9') || ('a' <= digits(n, len)[i]
            && digits(n, len)[i] <= 'f'),
    decreases len,
{
    lemma_digits_len(n, len);
    lemma_digits_len(n / 16, (len - 1) as nat);
    if i < len - 1 {
        lemma_digits_are_hex(n / 16, (len - 1) as nat, i);
        assert(digits(n, len)[i] == digits(n / 16, (len - 1) as nat)[i]);
    }
}

/// An identifier is written as five groups of eight, four, four, four and twelve digits,
/// small ones, with hyphens between them.
pub proof fn identifier_is_written_in_five_groups(id: u128, i: int)
    requires
        0 <= i < 36,
    ensures
        hyphenated(id).len() == 36,
        hyphenated(id)[i] == '-' <==> (i == 8 || i == 13 || i == 18 || i == 23),
        hyphenated(id)[i] != '-' ==> ('0' <= hyphenated(id)[i] && hyphenated(id)[i] <= '9') || (
        'a' <= hyphenated(id)[i] && hyphenated(id)[i] <= 'f'),
{
    lemma_digits_len(id as nat, 32);
    let at = if i < 8 {
        i
    } else if i < 13 {
        i - 1
    } else if i < 18 {
        i - 2
    } else if i < 23 {
        i - 3
    } else {
        i - 4
    };
    if i != 8 && i != 13 && i != 18 && i != 23 {
        lemma_digits_are_hex(id as nat, 32, at);
        assert(hyphenated(id)[i] == digits(id as nat, 32)[at]);
    }
}

/// A text that denotes an identifier is one of four lengths, and holds no character but
/// letters, digits, hyphens, colons and braces.
pub proof fn identifiers_are_of_four_lengths(s: Seq<char>, id: u128)
    requires
        denotes(s, id),
    ensures
        s.len() == 32 || s.len() == 36 || s.len() == 38 || s.len() == 45,
        !s.contains(' '),
{
    lemma_digits_len(id as nat, 32);
    let t = lower(s);
    let d = digits(id as nat, 32);
    let h = hyphenated(id);
    assert(h.len() == 36);
    if s.contains(' ') {
        let k = choose|k: int| 0 <= k < s.len() && s[k] == ' ';
        assert(t[k] == ' ');
        if t == d {
            lemma_digits_are_hex(id as nat, 32, k);
        } else if t == h {
            identifier_is_written_in_five_groups(id, k);
        } else if t.len() == 45 {
            if k >= 9 {
                identifier_is_written_in_five_groups(id, k - 9);
                assert(t[k] == h[k - 9]);
            }
        } else {
            if 1 <= k < 37 {
                identifier_is_written_in_five_groups(id, k - 1);
                assert(t[k] == h[k - 1]);
            }
        }
    }
}

} // verus!
