//! The order of texts by their code points.

use vstd::prelude::*;
use vstd::multiset::Multiset;
use vstd::string::*;

verus! {

/// `a` comes before `b`, or is `b`, in the order of their code points.
pub open spec fn text_le(a: Seq<char>, b: Seq<char>) -> bool
    decreases a.len(),
{
    if a.len() == 0 {
        true
    } else if b.len() == 0 {
        false
    } else if a[0] != b[0] {
        (a[0] as u32) < (b[0] as u32)
    } else {
        text_le(a.drop_first(), b.drop_first())
    }
}

/// Of two texts one comes before the other, or they are the same.
pub proof fn text_le_total(a: Seq<char>, b: Seq<char>)
    ensures
        text_le(a, b) || text_le(b, a),
    decreases a.len(),
{
    if a.len() > 0 && b.len() > 0 {
        if a[0] == b[0] {
            text_le_total(a.drop_first(), b.drop_first());
        } else {
            vstd::utf8::char_u32_cast(a[0], a[0] as u32);
            vstd::utf8::char_u32_cast(b[0], b[0] as u32);
        }
    }
}

/// The order of texts is transitive.
pub proof fn text_le_transitive(a: Seq<char>, b: Seq<char>, c: Seq<char>)
    requires
        text_le(a, b),
        text_le(b, c),
    ensures
        text_le(a, c),
    decreases a.len(),
{
    if a.len() > 0 && b.len() > 0 && c.len() > 0 && a[0] == b[0] && b[0] == c[0] {
        text_le_transitive(a.drop_first(), b.drop_first(), c.drop_first());
    }
}

/// Whether `a` comes before `b`, or is `b`, in the order of their code
/// points.
pub fn text_precedes(a: &str, b: &str) -> (first: bool)
    ensures
        first == text_le(a@, b@),
{
    let n = a.unicode_len();
    let m = b.unicode_len();
    let mut i: usize = 0;
    assert(a@.skip(0) =~= a@ && b@.skip(0) =~= b@);
    while i < n && i < m
        invariant
            i <= n,
            i <= m,
            n == a@.len(),
            m == b@.len(),
            text_le(a@, b@) == text_le(a@.skip(i as int), b@.skip(i as int)),
        decreases n - i,
    {
        let x = a.get_char(i);
        let y = b.get_char(i);
        assert(a@.skip(i as int)[0] == x && b@.skip(i as int)[0] == y);
        if x != y {
            return (x as u32) < (y as u32);
        }
        assert(a@.skip(i as int).drop_first() =~= a@.skip(i + 1));
        assert(b@.skip(i as int).drop_first() =~= b@.skip(i + 1));
        i = i + 1;
    }
    i == n
}

/// Whether the texts stand in the order of their code points.
pub open spec fn texts_ordered(names: Seq<String>) -> bool {
    forall|i: int, j: int|
        0 <= i <= j < names.len() ==> text_le((#[trigger] names[i])@, (#[trigger] names[j])@)
}

/// Puts strings in the order of their code points: the same strings, each
/// as often as before.
pub fn sort_texts(names: Vec<String>) -> (sorted: Vec<String>)
    ensures
        texts_ordered(sorted@),
        sorted@.to_multiset() == names@.to_multiset(),
{
    let mut rest = names;
    let mut sorted: Vec<String> = Vec::new();
    assert(sorted@.to_multiset().add(rest@.to_multiset()) =~= names@.to_multiset()) by {
        sorted@.to_multiset_ensures();
    }
    while rest.len() > 0
        invariant
            texts_ordered(sorted@),
            forall|i: int, j: int|
                0 <= i < sorted@.len() && 0 <= j < rest@.len() ==> text_le(
                    (#[trigger] sorted@[i])@,
                    (#[trigger] rest@[j])@,
                ),
            sorted@.to_multiset().add(rest@.to_multiset()) == names@.to_multiset(),
        decreases rest@.len(),
    {
        let mut least: usize = 0;
        let mut j: usize = 1;
        proof {
            text_le_total(rest@[0]@, rest@[0]@);
        }
        while j < rest.len()
            invariant
                least < j <= rest@.len(),
                forall|k: int| 0 <= k < j ==> text_le(rest@[least as int]@, (#[trigger] rest@[k])@),
            decreases rest@.len() - j,
        {
            if !text_precedes(rest[least].as_str(), rest[j].as_str()) {
                proof {
                    text_le_total(rest@[least as int]@, rest@[j as int]@);
                    text_le_total(rest@[j as int]@, rest@[j as int]@);
                    assert forall|k: int| 0 <= k < j + 1 implies text_le(
                        rest@[j as int]@,
                        (#[trigger] rest@[k])@,
                    ) by {
                        if k < j {
                            text_le_transitive(rest@[j as int]@, rest@[least as int]@, rest@[k]@);
                        }
                    }
                }
                least = j;
            }
            j = j + 1;
        }
        let ghost before = sorted@;
        let ghost pending = rest@;
        let first = rest.remove(least);
        sorted.push(first);
        proof {
            before.to_multiset_ensures();
            pending.to_multiset_ensures();
            assert(pending.contains(first));
            assert(sorted@.to_multiset().add(rest@.to_multiset()) =~= before.to_multiset().add(
                pending.to_multiset(),
            ));
            assert forall|i: int, k: int|
                0 <= i < sorted@.len() && 0 <= k < rest@.len() implies text_le(
                (#[trigger] sorted@[i])@,
                (#[trigger] rest@[k])@,
            ) by {
                let at = if k < least {
                    k
                } else {
                    k + 1
                };
                assert(rest@[k] == pending[at]);
                if i < before.len() {
                    assert(sorted@[i] == before[i]);
                }
            }
            assert forall|i: int, k: int| 0 <= i <= k < sorted@.len() implies text_le(
                (#[trigger] sorted@[i])@,
                (#[trigger] sorted@[k])@,
            ) by {
                if k < before.len() {
                    assert(sorted@[i] == before[i] && sorted@[k] == before[k]);
                } else if i < before.len() {
                    assert(sorted@[i] == before[i]);
                    assert(sorted@[k] == pending[least as int]);
                } else {
                    text_le_total(first@, first@);
                }
            }
        }
    }
    assert(rest@.to_multiset() =~= Multiset::<String>::empty()) by {
        rest@.to_multiset_ensures();
    }
    assert(sorted@.to_multiset().add(Multiset::<String>::empty()) =~= sorted@.to_multiset());
    sorted
}

} // verus!
