//! Strings as sequences of characters and of bytes.

use vstd::prelude::*;
use vstd::string::StringExecFns;
use vstd::string::StringSliceAdditionalSpecFns;
use vstd::utf8::{decode_utf8, encode_utf8, encode_utf8_decode_utf8};

verus! {

/// The characters of a string, one by one.
pub fn chars_of(s: &str) -> (chars: Vec<char>)
    ensures
        chars@ == s@,
{
    let mut chars: Vec<char> = Vec::new();
    for c in it: s.chars()
        invariant
            it.seq() == s@,
            chars@ == s@.take(it.index()),
    {
        chars.push(c);
    }
    chars
}

/// Whether `a` stands at or before `b` in the order of the dictionary:
/// at the first place where they differ `a` has the smaller byte, or `a`
/// ends there.
pub open spec fn bytes_le(a: Seq<u8>, b: Seq<u8>) -> bool
    decreases a.len(),
{
    if a.len() == 0 {
        true
    } else if b.len() == 0 {
        false
    } else if a[0] != b[0] {
        a[0] < b[0]
    } else {
        bytes_le(a.drop_first(), b.drop_first())
    }
}

/// Whether the text `a` stands at or before the text `b`. Texts are
/// ordered as strings are: by the bytes of their UTF-8 form.
pub open spec fn text_le(a: Seq<char>, b: Seq<char>) -> bool {
    bytes_le(encode_utf8(a), encode_utf8(b))
}

/// Whether the text `a` stands before the text `b`.
pub open spec fn text_lt(a: Seq<char>, b: Seq<char>) -> bool {
    text_le(a, b) && a != b
}

pub proof fn bytes_le_reflexive(a: Seq<u8>)
    ensures
        bytes_le(a, a),
    decreases a.len(),
{
    if a.len() > 0 {
        bytes_le_reflexive(a.drop_first());
    }
}

pub proof fn bytes_le_total(a: Seq<u8>, b: Seq<u8>)
    ensures
        bytes_le(a, b) || bytes_le(b, a),
    decreases a.len(),
{
    if a.len() > 0 && b.len() > 0 && a[0] == b[0] {
        bytes_le_total(a.drop_first(), b.drop_first());
    }
}

pub proof fn bytes_le_antisymmetric(a: Seq<u8>, b: Seq<u8>)
    requires
        bytes_le(a, b),
        bytes_le(b, a),
    ensures
        a == b,
    decreases a.len(),
{
    if a.len() > 0 {
        bytes_le_antisymmetric(a.drop_first(), b.drop_first());
        assert(a == seq![a[0]] + a.drop_first());
        assert(b == seq![b[0]] + b.drop_first());
    } else {
        assert(a =~= b);
    }
}

pub proof fn bytes_le_transitive(a: Seq<u8>, b: Seq<u8>, c: Seq<u8>)
    requires
        bytes_le(a, b),
        bytes_le(b, c),
    ensures
        bytes_le(a, c),
    decreases a.len(),
{
    if a.len() > 0 && a[0] == b[0] && b[0] == c[0] {
        bytes_le_transitive(a.drop_first(), b.drop_first(), c.drop_first());
    }
}

/// The order of texts is a total order: every text stands at or before
/// itself, of two texts one stands at or before the other, two texts that
/// stand at or before each other are one text, and what stands at or
/// before a text stands at or before all that this text stands before.
pub proof fn text_order_is_total(a: Seq<char>, b: Seq<char>, c: Seq<char>)
    ensures
        text_le(a, a),
        text_le(a, b) || text_le(b, a),
        text_le(a, b) && text_le(b, a) ==> a == b,
        text_le(a, b) && text_le(b, c) ==> text_le(a, c),
{
    bytes_le_reflexive(encode_utf8(a));
    bytes_le_total(encode_utf8(a), encode_utf8(b));
    if text_le(a, b) && text_le(b, a) {
        bytes_le_antisymmetric(encode_utf8(a), encode_utf8(b));
        encode_utf8_decode_utf8(a);
        encode_utf8_decode_utf8(b);
        assert(a == decode_utf8(encode_utf8(a)));
    }
    if text_le(a, b) && text_le(b, c) {
        bytes_le_transitive(encode_utf8(a), encode_utf8(b), encode_utf8(c));
    }
}

/// Whether `a` stands at or before `b` in the order of strings.
pub fn le(a: &str, b: &str) -> (yes: bool)
    ensures
        yes == text_le(a@, b@),
{
    let x = a.as_bytes();
    let y = b.as_bytes();
    let mut i: usize = 0;
    proof {
        assert(x@.skip(0) == x@);
        assert(y@.skip(0) == y@);
    }
    while i < x.len() && i < y.len()
        invariant
            i <= x.len(),
            i <= y.len(),
            x@ == encode_utf8(a@),
            y@ == encode_utf8(b@),
            bytes_le(x@, y@) == bytes_le(x@.skip(i as int), y@.skip(i as int)),
        decreases x.len() - i,
    {
        if x[i] != y[i] {
            return x[i] < y[i];
        }
        proof {
            assert(x@.skip(i as int).drop_first() == x@.skip(i + 1));
            assert(y@.skip(i as int).drop_first() == y@.skip(i + 1));
        }
        i += 1;
    }
    i == x.len()
}

/// Whether two strings hold the same text.
pub fn same(a: &str, b: &str) -> (yes: bool)
    ensures
        yes == (a@ == b@),
{
    proof {
        text_order_is_total(a@, b@, a@);
    }
    le(a, b) && le(b, a)
}

/// What a run of strings says.
pub open spec fn texts(names: Seq<String>) -> Seq<Seq<char>> {
    Seq::new(names.len(), |i: int| names[i]@)
}

/// Whether each text of a run stands before all that follow it: the run
/// is sorted and holds no text twice.
pub open spec fn increasing(names: Seq<Seq<char>>) -> bool {
    forall|i: int, j: int| 0 <= i < j < names.len() ==> text_lt(names[i], names[j])
}

/// A set of texts can be listed in increasing order in one way only: two
/// increasing runs that hold the same texts are the same run.
pub proof fn increasing_is_unique(a: Seq<Seq<char>>, b: Seq<Seq<char>>)
    requires
        increasing(a),
        increasing(b),
        forall|x: Seq<char>| a.contains(x) <==> b.contains(x),
    ensures
        a == b,
    decreases a.len(),
{
    if a.len() == 0 {
        if b.len() > 0 {
            assert(b.contains(b[0]));
        }
        assert(a =~= b);
    } else {
        assert(a.contains(a[0]));
        let j = choose|j: int| 0 <= j < b.len() && b[j] == a[0];
        assert(b.contains(b[0]));
        let i = choose|i: int| 0 <= i < a.len() && a[i] == b[0];
        text_order_is_total(a[0], b[0], a[0]);
        if j > 0 {
            assert(text_lt(b[0], b[j]));
        }
        if i > 0 {
            assert(text_lt(a[0], a[i]));
        }
        assert(a[0] == b[0]);
        let rest_a = a.drop_first();
        let rest_b = b.drop_first();
        assert forall|x: Seq<char>| rest_a.contains(x) <==> rest_b.contains(x) by {
            if rest_a.contains(x) {
                let k = choose|k: int| 0 <= k < rest_a.len() && rest_a[k] == x;
                assert(a[k + 1] == x);
                assert(text_lt(a[0], a[k + 1]));
                assert(a.contains(x));
                let m = choose|m: int| 0 <= m < b.len() && b[m] == x;
                assert(rest_b[m - 1] == x);
            }
            if rest_b.contains(x) {
                let k = choose|k: int| 0 <= k < rest_b.len() && rest_b[k] == x;
                assert(b[k + 1] == x);
                assert(text_lt(b[0], b[k + 1]));
                assert(b.contains(x));
                let m = choose|m: int| 0 <= m < a.len() && a[m] == x;
                assert(rest_a[m - 1] == x);
            }
        }
        assert forall|i: int, j: int| 0 <= i < j < rest_a.len() implies text_lt(
            rest_a[i],
            rest_a[j],
        ) by {
            assert(text_lt(a[i + 1], a[j + 1]));
        }
        assert forall|i: int, j: int| 0 <= i < j < rest_b.len() implies text_lt(
            rest_b[i],
            rest_b[j],
        ) by {
            assert(text_lt(b[i + 1], b[j + 1]));
        }
        increasing_is_unique(rest_a, rest_b);
        assert(a =~= seq![a[0]] + rest_a);
        assert(b =~= seq![b[0]] + rest_b);
    }
}

/// Puts a name into a sorted run of names, unless the run holds it.
fn insert_name(names: &mut Vec<String>, name: &str)
    requires
        increasing(texts(old(names)@)),
    ensures
        increasing(texts(final(names)@)),
        forall|x: Seq<char>|
            texts(final(names)@).contains(x) <==> (texts(old(names)@).contains(x) || x == name@),
{
    let ghost before = texts(names@);
    let mut p: usize = names.len();
    while p > 0 && !le(names[p - 1].as_str(), name)
        invariant
            p <= names.len(),
            before == texts(names@),
            forall|j: int| p <= j < before.len() ==> !text_le(#[trigger] before[j], name@),
        decreases p,
    {
        p -= 1;
    }
    if p > 0 && le(name, names[p - 1].as_str()) {
        proof {
            text_order_is_total(name@, before[p - 1], name@);
            assert(before.contains(name@));
        }
    } else {
        names.insert(p, String::from_str(name));
        proof {
            let after = texts(names@);
            assert(after =~= before.insert(p as int, name@));
            assert forall|i: int, j: int| 0 <= i < j < after.len() implies text_lt(
                after[i],
                after[j],
            ) by {
                if j == p {
                    text_order_is_total(before[i], before[p - 1], name@);
                    text_order_is_total(name@, before[p - 1], name@);
                    if i < p - 1 {
                        assert(text_lt(before[i], before[p - 1]));
                    }
                } else if i == p {
                    assert(!text_le(before[j - 1], name@));
                    text_order_is_total(name@, before[j - 1], name@);
                } else if i < p {
                    if j < p {
                        assert(text_lt(before[i], before[j]));
                    } else {
                        assert(text_lt(before[i], before[j - 1]));
                    }
                } else {
                    assert(text_lt(before[i - 1], before[j - 1]));
                }
            }
            assert forall|x: Seq<char>| after.contains(x) <==> (before.contains(x) || x
                == name@) by {
                if after.contains(x) {
                    let k = choose|k: int| 0 <= k < after.len() && after[k] == x;
                    if k < p {
                        assert(before[k] == x);
                    } else if k > p {
                        assert(before[k - 1] == x);
                    }
                }
                if before.contains(x) {
                    let k = choose|k: int| 0 <= k < before.len() && before[k] == x;
                    if k < p {
                        assert(after[k] == x);
                    } else {
                        assert(after[k + 1] == x);
                    }
                }
                if x == name@ {
                    assert(after[p as int] == x);
                }
            }
        }
    }
}

/// The names of a run, each once, in the order of strings.
pub fn sorted_distinct(names: &Vec<String>) -> (out: Vec<String>)
    ensures
        increasing(texts(out@)),
        forall|x: Seq<char>| texts(out@).contains(x) <==> texts(names@).contains(x),
{
    let mut out: Vec<String> = Vec::new();
    let mut i: usize = 0;
    while i < names.len()
        invariant
            i <= names.len(),
            increasing(texts(out@)),
            forall|x: Seq<char>|
                texts(out@).contains(x) <==> texts(names@).take(i as int).contains(x),
        decreases names.len() - i,
    {
        let ghost held = texts(out@);
        insert_name(&mut out, names[i].as_str());
        proof {
            let seen = texts(names@).take(i as int);
            let more = texts(names@).take(i + 1);
            assert(more =~= seen.push(names[i as int]@));
            assert forall|x: Seq<char>| texts(out@).contains(x) <==> more.contains(x) by {
                if more.contains(x) {
                    let k = choose|k: int| 0 <= k < more.len() && more[k] == x;
                    if k < i {
                        assert(seen[k] == x);
                    }
                }
                if seen.contains(x) {
                    let k = choose|k: int| 0 <= k < seen.len() && seen[k] == x;
                    assert(more[k] == x);
                }
                if x == names[i as int]@ {
                    assert(more[i as int] == x);
                }
            }
        }
        i += 1;
    }
    proof {
        assert(texts(names@).take(names.len() as int) =~= texts(names@));
    }
    out
}

} // verus!
