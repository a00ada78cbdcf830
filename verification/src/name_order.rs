//! Ordering of series by name, as the pages list them alphabetically.

use vstd::prelude::*;

verus! {

/// Whether `a` comes before `b` or equals it, comparing character by
/// character (the order of `str`).
pub open spec fn lex_le(a: Seq<char>, b: Seq<char>) -> bool
    decreases a.len(),
{
    if a.len() == 0 {
        true
    } else if b.len() == 0 {
        false
    } else if (a[0] as u32) != (b[0] as u32) {
        (a[0] as u32) < (b[0] as u32)
    } else {
        lex_le(a.drop_first(), b.drop_first())
    }
}

/// Of two texts, one comes before the other or equals it.
pub proof fn lemma_lex_le_total(a: Seq<char>, b: Seq<char>)
    ensures
        lex_le(a, b) || lex_le(b, a),
    decreases a.len(),
{
    if a.len() > 0 && b.len() > 0 && (a[0] as u32) == (b[0] as u32) {
        lemma_lex_le_total(a.drop_first(), b.drop_first());
    }
}

/// The order is transitive.
pub proof fn lemma_lex_le_transitive(a: Seq<char>, b: Seq<char>, c: Seq<char>)
    requires
        lex_le(a, b),
        lex_le(b, c),
    ensures
        lex_le(a, c),
    decreases a.len(),
{
    if a.len() > 0 && b.len() > 0 && c.len() > 0 && (a[0] as u32) == (b[0] as u32) && (b[0] as u32) == (c[0] as u32) {
        lemma_lex_le_transitive(a.drop_first(), b.drop_first(), c.drop_first());
    }
}

/// The items of `items` whose key is `k`, in the order they come.
pub open spec fn with_key<T, K>(items: Seq<T>, key: spec_fn(T) -> K, k: K) -> Seq<T> {
    items.filter(|x: T| key(x) == k)
}

/// Items with the same key come in the same order in `out` as in `items`:
/// a sort from `items` to `out` by that key is stable.
pub open spec fn keeps_order_of_equals<T, K>(out: Seq<T>, items: Seq<T>, key: spec_fn(T) -> K) -> bool {
    forall|k: K| #[trigger] with_key(out, key, k) == with_key(items, key, k)
}

/// Appending an item adds it to the items of its key.
pub proof fn lemma_with_key_push<T, K>(s: Seq<T>, x: T, key: spec_fn(T) -> K, k: K)
    ensures
        with_key(s.push(x), key, k) == if key(x) == k {
            with_key(s, key, k).push(x)
        } else {
            with_key(s, key, k)
        },
{
    s.lemma_filter_push(x, |y: T| key(y) == k);
}

/// Inserting an item after every item of the same key adds it last among
/// the items of its key, and leaves the items of the other keys as they are.
pub proof fn lemma_with_key_insert<T, K>(s: Seq<T>, pos: int, x: T, key: spec_fn(T) -> K, k: K)
    requires
        0 <= pos <= s.len(),
        forall|j: int| pos <= j < s.len() ==> key(#[trigger] s[j]) != key(x),
    ensures
        with_key(s.insert(pos, x), key, k) == if key(x) == k {
            with_key(s, key, k).push(x)
        } else {
            with_key(s, key, k)
        },
{
    let p = |y: T| key(y) == k;
    let a = s.take(pos);
    let b = s.skip(pos);
    assert(s =~= a + b);
    assert(s.insert(pos, x) =~= a.push(x) + b);
    Seq::filter_distributes_over_add(a, b, p);
    Seq::filter_distributes_over_add(a.push(x), b, p);
    a.lemma_filter_push(x, p);
    if key(x) == k {
        if b.filter(p).len() > 0 {
            let e = b.filter(p)[0];
            b.lemma_filter_pred(p, 0);
            assert(b.filter(p).contains(e));
            b.lemma_filter_contains_rev(p, e);
            let j = choose|j: int| 0 <= j < b.len() && b[j] == e;
            assert(s[pos + j] == b[j]);
        }
        assert(b.filter(p) =~= Seq::<T>::empty());
    }
}

/// Whether `a` comes before `b` or equals it (see [`lex_le`]).
pub fn name_le(a: &str, b: &str) -> (r: bool)
    ensures
        r == lex_le(a@, b@),
{
    let n = a.unicode_len();
    let m = b.unicode_len();
    let mut i: usize = 0;
    proof {
        assert(a@.skip(0) =~= a@);
        assert(b@.skip(0) =~= b@);
    }
    while i < n && i < m
        invariant
            i <= n,
            i <= m,
            n == a@.len(),
            m == b@.len(),
            lex_le(a@, b@) == lex_le(a@.skip(i as int), b@.skip(i as int)),
        decreases n - i,
    {
        let x = a.get_char(i);
        let y = b.get_char(i);
        proof {
            assert(a@.skip(i as int)[0] == x);
            assert(b@.skip(i as int)[0] == y);
        }
        if (x as u32) != (y as u32) {
            return (x as u32) < (y as u32);
        }
        proof {
            assert(a@.skip(i as int).drop_first() =~= a@.skip(i + 1));
            assert(b@.skip(i as int).drop_first() =~= b@.skip(i + 1));
        }
        i = i + 1;
    }
    i == n
}

/// Something with a name to be listed by.
pub trait Named {
    spec fn name_of(&self) -> Seq<char>;

    fn name(&self) -> (n: &str)
        ensures
            n@ == self.name_of(),
    ;
}

/// The items come in alphabetical order of their names.
pub open spec fn sorted_by_name<T: Named>(items: Seq<T>) -> bool {
    forall|a: int, b: int| 0 <= a < b < items.len() ==> lex_le(items[a].name_of(), items[b].name_of())
}

/// The name of an item, as the key it is sorted by.
pub open spec fn name_key<T: Named>() -> spec_fn(T) -> Seq<char> {
    |x: T| x.name_of()
}

/// The items sorted by name, those with the same name in the order they
/// came.
pub fn sort_by_name<T: Named>(items: Vec<T>) -> (r: Vec<T>)
    ensures
        sorted_by_name(r@),
        r@.to_multiset() == items@.to_multiset(),
        keeps_order_of_equals(r@, items@, name_key::<T>()),
{
    let mut sorted: Vec<T> = Vec::new();
    let mut rest = items;
    let ghost unsorted = rest@;
    let mut taken: usize = 0;
    let n = rest.len();
    proof {
        assert(unsorted.subrange(0, 0) =~= Seq::<T>::empty());
    }
    while rest.len() > 0
        invariant
            taken + rest@.len() == unsorted.len(),
            unsorted.len() == n,
            rest@ == unsorted.subrange(taken as int, unsorted.len() as int),
            sorted_by_name(sorted@),
            sorted@.to_multiset() == unsorted.subrange(0, taken as int).to_multiset(),
            keeps_order_of_equals(sorted@, unsorted.subrange(0, taken as int), name_key::<T>()),
        decreases rest@.len(),
    {
        let item = rest.remove(0);
        let mut pos: usize = 0;
        while pos < sorted.len() && name_le(sorted[pos].name(), item.name())
            invariant
                pos <= sorted@.len(),
                forall|k: int| 0 <= k < pos ==> lex_le(sorted@[k].name_of(), item.name_of()),
            decreases sorted@.len() - pos,
        {
            pos = pos + 1;
        }
        let ghost before = sorted@;
        proof {
            if pos < before.len() {
                lemma_lex_le_total(before[pos as int].name_of(), item.name_of());
            }
        }
        sorted.insert(pos, item);
        proof {
            broadcast use vstd::seq_lib::to_multiset_insert;
            assert(sorted@ == before.insert(pos as int, item));
            assert forall|a: int, b: int| 0 <= a < b < sorted@.len() implies lex_le(
                sorted@[a].name_of(),
                sorted@[b].name_of(),
            ) by {
                if b < pos {
                } else if b == pos {
                } else if a < pos {
                    assert(sorted@[b] == before[b - 1]);
                } else if a == pos {
                    assert(sorted@[b] == before[b - 1]);
                    if b - 1 > pos {
                        lemma_lex_le_transitive(item.name_of(), before[pos as int].name_of(), before[b - 1].name_of());
                    }
                } else {
                    assert(sorted@[a] == before[a - 1]);
                    assert(sorted@[b] == before[b - 1]);
                }
            }
            assert(item == unsorted[taken as int]);
            assert(unsorted.subrange(0, taken + 1) =~= unsorted.subrange(0, taken as int).push(item));
            vstd::seq_lib::to_multiset_build(unsorted.subrange(0, taken as int), item);
            assert(rest@ =~= unsorted.subrange(taken + 1, unsorted.len() as int));
            let key = name_key::<T>();
            assert forall|j: int| pos <= j < before.len() implies key(#[trigger] before[j]) != key(item) by {
                lemma_lex_le_total(item.name_of(), item.name_of());
                if j > pos {
                    assert(lex_le(before[pos as int].name_of(), before[j].name_of()));
                }
            }
            assert forall|k: Seq<char>| #[trigger] with_key(sorted@, key, k) == with_key(
                unsorted.subrange(0, taken + 1),
                key,
                k,
            ) by {
                lemma_with_key_insert(before, pos as int, item, key, k);
                lemma_with_key_push(unsorted.subrange(0, taken as int), item, key, k);
                assert(with_key(before, key, k) == with_key(unsorted.subrange(0, taken as int), key, k));
            }
        }
        taken = taken + 1;
    }
    proof {
        assert(unsorted.subrange(0, taken as int) =~= unsorted);
    }
    sorted
}

} // verus!
