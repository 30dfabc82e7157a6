//! The order in which sessions are listed.

use vstd::prelude::*;
use vstd::string::*;
use vstd::utf8::encode_utf8;

use crate::text::texts;

verus! {

/// Whether one byte sequence comes before another in lexicographic order.
pub open spec fn comes_before(left: Seq<u8>, right: Seq<u8>) -> bool
    decreases left.len(),
{
    if right.len() == 0 {
        false
    } else if left.len() == 0 {
        true
    } else if left[0] != right[0] {
        left[0] < right[0]
    } else {
        comes_before(left.drop_first(), right.drop_first())
    }
}

proof fn lemma_before_is_strict(left: Seq<u8>, right: Seq<u8>)
    ensures
        !comes_before(left, left),
        comes_before(left, right) ==> !comes_before(right, left),
        left != right ==> comes_before(left, right) || comes_before(right, left),
    decreases left.len(),
{
    if left.len() > 0 {
        if right.len() > 0 && left[0] == right[0] {
            lemma_before_is_strict(left.drop_first(), right.drop_first());
            if left.drop_first() == right.drop_first() {
                assert(left =~= seq![left[0]] + left.drop_first());
                assert(right =~= seq![right[0]] + right.drop_first());
            }
        } else {
            lemma_before_is_strict(left.drop_first(), left.drop_first());
        }
    } else if right.len() == 0 {
        assert(left =~= right);
    }
}

proof fn lemma_before_is_transitive(a: Seq<u8>, b: Seq<u8>, c: Seq<u8>)
    requires
        comes_before(a, b),
        comes_before(b, c),
    ensures
        comes_before(a, c),
    decreases a.len(),
{
    if a.len() > 0 && a[0] == b[0] && b[0] == c[0] {
        lemma_before_is_transitive(a.drop_first(), b.drop_first(), c.drop_first());
    }
}

/// Whether one byte slice comes before another in lexicographic order.
fn is_before(left: &[u8], right: &[u8]) -> (before: bool)
    ensures
        before == comes_before(left@, right@),
{
    let mut index: usize = 0;
    assert(left@.skip(0) =~= left@);
    assert(right@.skip(0) =~= right@);
    while index < left.len() && index < right.len()
        invariant
            index <= left@.len(),
            index <= right@.len(),
            comes_before(left@, right@) == comes_before(
                left@.skip(index as int),
                right@.skip(index as int),
            ),
        decreases left@.len() - index,
    {
        assert(left@.skip(index as int).drop_first() =~= left@.skip(index as int + 1));
        assert(right@.skip(index as int).drop_first() =~= right@.skip(index as int + 1));
        if left[index] != right[index] {
            return left[index] < right[index];
        }
        index = index + 1;
    }
    index < right.len()
}

/// Whether the entry `left` is listed before the entry `right`: by its text, and among equal texts
/// by its place.
pub open spec fn listed_before(ids: Seq<Seq<char>>, left: int, right: int) -> bool {
    let (a, b) = (encode_utf8(ids[left]), encode_utf8(ids[right]));
    comes_before(a, b) || (a == b && left < right)
}

/// Whether `order` names each of the first `count` entries once, in the order of the list.
pub open spec fn is_listing(ids: Seq<Seq<char>>, count: int, order: Seq<usize>) -> bool {
    &&& order.len() == count
    &&& forall|i: int| 0 <= i < order.len() ==> (#[trigger] order[i]) < count
    &&& forall|i: int, j: int|
        0 <= i < j < order.len() ==> listed_before(
            ids,
            #[trigger] order[i] as int,
            #[trigger] order[j] as int,
        )
    &&& forall|k: int| 0 <= k < count ==> #[trigger] order.contains(k as usize)
}

/// The places of the entries in the order in which they are listed: sorted by their texts, equal
/// texts in the order in which they came.
pub fn session_order(ids: &Vec<String>) -> (order: Vec<usize>)
    ensures
        is_listing(texts(ids@), ids@.len() as int, order@),
{
    let mut order: Vec<usize> = Vec::new();
    let mut next: usize = 0;
    while next < ids.len()
        invariant
            next <= ids@.len(),
            is_listing(texts(ids@), next as int, order@),
        decreases ids@.len() - next,
    {
        insert_entry(ids, &mut order, next);
        next = next + 1;
    }
    order
}

fn insert_entry(ids: &Vec<String>, order: &mut Vec<usize>, next: usize)
    requires
        next < ids@.len(),
        is_listing(texts(ids@), next as int, old(order)@),
    ensures
        is_listing(texts(ids@), next as int + 1, final(order)@),
{
    let ghost views = texts(ids@);
    let ghost before = order@;
    let ghost new = encode_utf8(views[next as int]);
    let mut at: usize = order.len();
    while at > 0 && is_before(
        ids[next].as_str().as_bytes(),
        ids[order[at - 1]].as_str().as_bytes(),
    )
        invariant
            at <= order@.len(),
            order@ == before,
            next < ids@.len(),
            views == texts(ids@),
            new == encode_utf8(views[next as int]),
            is_listing(views, next as int, before),
            forall|i: int|
                at <= i < before.len() ==> comes_before(
                    new,
                    encode_utf8(views[#[trigger] before[i] as int]),
                ),
        decreases at,
    {
        at = at - 1;
    }
    proof {
        assert forall|i: int| 0 <= i < at implies listed_before(
            views,
            #[trigger] before[i] as int,
            next as int,
        ) by {
            let last = encode_utf8(views[before[at as int - 1] as int]);
            let other = encode_utf8(views[before[i] as int]);
            lemma_before_is_strict(new, last);
            lemma_before_is_strict(new, other);
            assert(!comes_before(new, last));
            if i < at - 1 {
                assert(listed_before(views, before[i] as int, before[at as int - 1] as int));
                if comes_before(new, other) {
                    if other != last {
                        lemma_before_is_transitive(new, other, last);
                    }
                }
            }
        }
    }
    order.insert(at, next);
    proof {
        assert(order@ =~= before.insert(at as int, next));
        assert forall|k: int| 0 <= k < next + 1 implies #[trigger] order@.contains(k as usize) by {
            if k == next {
                assert(order@[at as int] == next);
            } else {
                assert(before.contains(k as usize));
                let i = choose|i: int| 0 <= i < before.len() && before[i] == k as usize;
                if i < at {
                    assert(order@[i] == k as usize);
                } else {
                    assert(order@[i + 1] == k as usize);
                }
            }
        }
    }
}

/// Law: of two byte sequences the one with the smaller byte at the first place where they differ
/// comes first, and one that goes on comes after one that ends.
pub proof fn law_order_is_that_of_a_dictionary(
    common: Seq<u8>,
    left: Seq<u8>,
    right: Seq<u8>,
)
    ensures
        left.len() > 0 && right.len() > 0 && left[0] != right[0] ==> (comes_before(
            common + left,
            common + right,
        ) <==> left[0] < right[0]),
        right.len() > 0 ==> comes_before(common, common + right),
        !comes_before(common + left, common),
    decreases common.len(),
{
    if common.len() == 0 {
        assert(common + left =~= left);
        assert(common + right =~= right);
    } else {
        law_order_is_that_of_a_dictionary(common.drop_first(), left, right);
        assert((common + left).drop_first() =~= common.drop_first() + left);
        assert((common + right).drop_first() =~= common.drop_first() + right);
    }
}

/// Law: a listing names every entry once, and each before those whose texts come later, or come
/// later themselves among equal texts.
pub proof fn law_listings_are_sorted(ids: Seq<Seq<char>>, count: int, order: Seq<usize>)
    requires
        is_listing(ids, count, order),
    ensures
        order.len() == count,
        forall|k: int| 0 <= k < count ==> #[trigger] order.contains(k as usize),
        forall|i: int| 0 <= i < order.len() ==> (#[trigger] order[i]) < count,
        forall|i: int, j: int|
            0 <= i < j < order.len() ==> {
                let first = encode_utf8(ids[#[trigger] order[i] as int]);
                let second = encode_utf8(ids[#[trigger] order[j] as int]);
                comes_before(first, second) || first == second && order[i] < order[j]
            },
{
    assert forall|i: int, j: int| 0 <= i < j < order.len() implies {
        let first = encode_utf8(ids[#[trigger] order[i] as int]);
        let second = encode_utf8(ids[#[trigger] order[j] as int]);
        comes_before(first, second) || first == second && order[i] < order[j]
    } by {
        assert(listed_before(ids, order[i] as int, order[j] as int));
    }
}

} // verus!
