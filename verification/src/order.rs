//! Ordered collections: ascending sets of numbers and the order of texts.

use vstd::prelude::*;

verus! {

/// The numbers rise from each to the next.
pub open spec fn ascending(values: Seq<usize>) -> bool {
    forall|i: int, j: int| 0 <= i < j < values.len() ==> values[i] < values[j]
}

/// `values` lists what occurs in `source`, each number once, in ascending order.
pub open spec fn lists(values: Seq<usize>, source: Seq<usize>) -> bool {
    &&& ascending(values)
    &&& forall|x: usize| values.contains(x) <==> source.contains(x)
}

proof fn lemma_dropping_the_greatest(a: Seq<usize>, z: usize)
    requires
        ascending(a),
        a.len() > 0,
    ensures
        ascending(a.drop_last()),
        a.drop_last().contains(z) <==> a.contains(z) && z != a.last(),
{
    let rest = a.drop_last();
    if rest.contains(z) {
        let k = choose|k: int| 0 <= k < rest.len() && rest[k] == z;
        assert(a[k] == z);
        assert(a[k] < a[a.len() - 1]);
    }
    if a.contains(z) && z != a.last() {
        let k = choose|k: int| 0 <= k < a.len() && a[k] == z;
        assert(rest[k] == z);
    }
}

proof fn lemma_ascending_is_unique(a: Seq<usize>, b: Seq<usize>)
    requires
        ascending(a),
        ascending(b),
        forall|x: usize| a.contains(x) <==> b.contains(x),
    ensures
        a == b,
    decreases a.len(),
{
    if a.len() > 0 && b.len() > 0 {
        let x = a.last();
        let y = b.last();
        assert(a.contains(x) && b.contains(y));
        let i = choose|i: int| 0 <= i < b.len() && b[i] == x;
        let j = choose|j: int| 0 <= j < a.len() && a[j] == y;
        if i < b.len() - 1 {
            assert(b[i] < b[b.len() - 1]);
        }
        if j < a.len() - 1 {
            assert(a[j] < a[a.len() - 1]);
        }
        assert(x == y);
        assert forall|z: usize| a.drop_last().contains(z) <==> b.drop_last().contains(z) by {
            lemma_dropping_the_greatest(a, z);
            lemma_dropping_the_greatest(b, z);
        }
        lemma_ascending_is_unique(a.drop_last(), b.drop_last());
        assert(a =~= a.drop_last().push(x));
        assert(b =~= b.drop_last().push(x));
    } else if a.len() > 0 {
        assert(a.contains(a[0]));
    } else if b.len() > 0 {
        assert(b.contains(b[0]));
    } else {
        assert(a =~= b);
    }
}

/// There is only one ascending listing of what occurs in a sequence.
pub proof fn law_listing_is_unique(a: Seq<usize>, b: Seq<usize>, source: Seq<usize>)
    requires
        lists(a, source),
        lists(b, source),
    ensures
        a == b,
{
    lemma_ascending_is_unique(a, b);
}

/// The ascending listing of what occurs in a sequence.
pub open spec fn listing_of(source: Seq<usize>) -> Seq<usize> {
    choose|values: Seq<usize>| lists(values, source)
}

pub(crate) proof fn lemma_is_listing(values: Seq<usize>, source: Seq<usize>)
    requires
        lists(values, source),
    ensures
        values == listing_of(source),
{
    law_listing_is_unique(values, listing_of(source), source);
}

pub(crate) proof fn lemma_lists_push(
    before: Seq<usize>,
    after: Seq<usize>,
    source: Seq<usize>,
    x: usize,
)
    requires
        lists(before, source),
        ascending(after),
        forall|y: usize| after.contains(y) <==> before.contains(y) || y == x,
    ensures
        lists(after, source.push(x)),
{
    let longer = source.push(x);
    assert forall|y: usize| after.contains(y) <==> longer.contains(y) by {
        if source.contains(y) {
            let k = choose|k: int| 0 <= k < source.len() && source[k] == y;
            assert(longer[k] == y);
        }
        assert(longer[source.len() as int] == x);
        if longer.contains(y) {
            let k = choose|k: int| 0 <= k < longer.len() && longer[k] == y;
            if k < source.len() {
                assert(source[k] == y);
            }
        }
    }
}

/// Add a number to an ascending listing, unless it is there.
pub fn insert_number(values: &mut Vec<usize>, x: usize)
    requires
        ascending(old(values)@),
    ensures
        ascending(final(values)@),
        forall|y: usize| final(values)@.contains(y) <==> old(values)@.contains(y) || y == x,
{
    let ghost before = values@;
    let mut i: usize = 0;
    while i < values.len() && values[i] < x
        invariant
            values@ == before,
            i <= before.len(),
            ascending(before),
            forall|j: int| 0 <= j < i ==> before[j] < x,
        decreases before.len() - i,
    {
        i = i + 1;
    }
    if i < values.len() && values[i] == x {
        proof {
            assert(before[i as int] == x);
            assert(before.contains(x));
        }
        return ;
    }
    values.insert(i, x);
    proof {
        let after = values@;
        assert(after =~= before.insert(i as int, x));
        assert forall|y: usize| after.contains(y) <==> before.contains(y) || y == x by {
            if after.contains(y) {
                let k = choose|k: int| 0 <= k < after.len() && after[k] == y;
                if k < i {
                    assert(before[k] == y);
                } else if k > i {
                    assert(before[k - 1] == y);
                }
            }
            if before.contains(y) {
                let k = choose|k: int| 0 <= k < before.len() && before[k] == y;
                if k < i {
                    assert(after[k] == y);
                } else {
                    assert(after[k + 1] == y);
                }
            }
            assert(after[i as int] == x);
        }
    }
}

/// `a` comes before `b` in the order of texts, given that they agree before
/// `from`.
pub open spec fn text_less(a: Seq<char>, b: Seq<char>, from: int) -> bool
    decreases b.len() - from,
{
    if from >= b.len() {
        false
    } else if from >= a.len() {
        true
    } else if a[from] != b[from] {
        a[from] < b[from]
    } else {
        text_less(a, b, from + 1)
    }
}

/// How two things are ordered.
#[derive(Clone, Copy, Debug, PartialEq, Eq, Structural)]
pub enum Order {
    Less,
    Same,
    Greater,
}

proof fn lemma_text_order(a: Seq<char>, b: Seq<char>, from: int)
    requires
        0 <= from <= a.len(),
        from <= b.len(),
        forall|i: int| 0 <= i < from ==> a[i] == b[i],
    ensures
        !(text_less(a, b, from) && text_less(b, a, from)),
        !text_less(a, b, from) && !text_less(b, a, from) ==> a == b,
        text_less(a, b, from) ==> a != b,
    decreases a.len() - from,
{
    if from < a.len() && from < b.len() {
        if a[from] == b[from] {
            lemma_text_order(a, b, from + 1);
        }
    } else if a.len() == b.len() {
        assert(a =~= b);
    }
}

/// The order of texts is total: of two texts one comes first, or they are the
/// same, and only one of these holds.
pub proof fn law_text_order_is_total(a: Seq<char>, b: Seq<char>)
    ensures
        !(text_less(a, b, 0) && text_less(b, a, 0)),
        !text_less(a, b, 0) && !text_less(b, a, 0) <==> a == b,
{
    lemma_text_order(a, b, 0);
    lemma_text_order(b, a, 0);
}

proof fn lemma_text_transitive(a: Seq<char>, b: Seq<char>, c: Seq<char>, from: int)
    requires
        0 <= from,
        text_less(a, b, from),
        text_less(b, c, from),
    ensures
        text_less(a, c, from),
    decreases c.len() - from,
{
    if from < a.len() && from < b.len() && from < c.len() && a[from] == b[from] && b[from]
        == c[from] {
        lemma_text_transitive(a, b, c, from + 1);
    }
}

/// The order of texts is transitive.
pub proof fn law_text_order_is_transitive(a: Seq<char>, b: Seq<char>, c: Seq<char>)
    requires
        text_less(a, b, 0),
        text_less(b, c, 0),
    ensures
        text_less(a, c, 0),
{
    lemma_text_transitive(a, b, c, 0);
}

/// Hold two texts against each other.
pub fn compare_texts(a: &str, b: &str) -> (order: Order)
    ensures
        order == Order::Less <==> text_less(a@, b@, 0),
        order == Order::Greater <==> text_less(b@, a@, 0),
        order == Order::Same <==> a@ == b@,
{
    proof {
        law_text_order_is_total(a@, b@);
        law_text_order_is_total(b@, a@);
    }
    let a_len: usize = a.unicode_len();
    let b_len: usize = b.unicode_len();
    let mut i: usize = 0;
    while i < a_len && i < b_len
        invariant
            i <= a_len,
            i <= b_len,
            a_len == a@.len(),
            b_len == b@.len(),
            text_less(a@, b@, 0) == text_less(a@, b@, i as int),
            text_less(b@, a@, 0) == text_less(b@, a@, i as int),
            !(text_less(a@, b@, 0) && text_less(b@, a@, 0)),
            !text_less(a@, b@, 0) && !text_less(b@, a@, 0) <==> a@ == b@,
        decreases a_len - i,
    {
        let x: char = a.get_char(i);
        let y: char = b.get_char(i);
        if x != y {
            return if x < y {
                Order::Less
            } else {
                Order::Greater
            };
        }
        i = i + 1;
    }
    if a_len < b_len {
        Order::Less
    } else if b_len < a_len {
        Order::Greater
    } else {
        Order::Same
    }
}


/// The numbers as 32-bit words.
pub open spec fn as_words(values: Seq<usize>) -> Seq<u32> {
    values.map_values(|x: usize| x as u32)
}

pub(crate) fn to_words(values: &Vec<usize>) -> (words: Vec<u32>)
    requires
        forall|i: int| 0 <= i < values@.len() ==> values@[i] <= u32::MAX,
    ensures
        words@ == as_words(values@),
{
    let mut words: Vec<u32> = Vec::new();
    let mut i: usize = 0;
    while i < values.len()
        invariant
            i <= values@.len(),
            forall|i: int| 0 <= i < values@.len() ==> values@[i] <= u32::MAX,
            words@ == as_words(values@.take(i as int)),
        decreases values@.len() - i,
    {
        words.push(values[i] as u32);
        i = i + 1;
        assert(words@ =~= as_words(values@.take(i as int)));
    }
    assert(values@.take(values@.len() as int) =~= values@);
    words
}

pub(crate) proof fn lemma_insertion_adds_one<T>(items: Seq<T>, at: int, item: T)
    requires
        0 <= at <= items.len(),
    ensures
        items.insert(at, item).to_multiset() == items.to_multiset().insert(item),
{
    broadcast use vstd::seq_lib::group_to_multiset_ensures;

    let longer = items.insert(at, item);
    assert(longer.remove(at) =~= items);
    assert(longer[at] == item);
    assert(longer.contains(item));
    assert(longer.to_multiset().remove(item).insert(item) =~= longer.to_multiset());
}

} // verus!
