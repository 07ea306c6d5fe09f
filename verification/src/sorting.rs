//! The order in which named things are shown: by name, without regard to case.

use vstd::prelude::*;

use crate::text;
use crate::text::chars_of;

verus! {

/// The lower case of a text.
pub uninterp spec fn lowercased(s: Seq<char>) -> Seq<char>;

/// `str::to_lowercase`: the text in lower case, by the mapping that Unicode gives
/// for each character in its context. The result depends on the text alone.
#[verifier::external_body]
fn to_lowercase(s: &str) -> (r: String)
    ensures
        r@ == lowercased(s@),
{
    s.to_lowercase()
}

/// Whether one text stands before another or equals it, character by character.
pub open spec fn not_after(a: Seq<char>, b: Seq<char>) -> bool
    decreases a.len(),
{
    if a.len() == 0 {
        true
    } else if b.len() == 0 {
        false
    } else if a[0] != b[0] {
        a[0] < b[0]
    } else {
        not_after(a.skip(1), b.skip(1))
    }
}

fn stands_not_after(a: &Vec<char>, b: &Vec<char>) -> (r: bool)
    ensures
        r == not_after(a@, b@),
{
    let mut i: usize = 0;
    assert(a@.skip(0) =~= a@);
    assert(b@.skip(0) =~= b@);
    while i < a.len()
        invariant
            i <= a@.len(),
            i <= b@.len(),
            not_after(a@, b@) == not_after(a@.skip(i as int), b@.skip(i as int)),
        decreases a@.len() - i,
    {
        if i >= b.len() {
            return false;
        }
        if a[i] != b[i] {
            return a[i] < b[i];
        }
        assert(a@.skip(i as int).skip(1) =~= a@.skip(i + 1));
        assert(b@.skip(i as int).skip(1) =~= b@.skip(i + 1));
        i = i + 1;
    }
    true
}

/// How many of the sorted positions hold a name that stands before `name` or is
/// level with it, in lower case.
pub open spec fn place_of(names: Seq<Seq<char>>, sorted: Seq<int>, name: Seq<char>) -> int
    decreases sorted.len(),
{
    if sorted.len() == 0 || not_after(lowercased(names[sorted.last()]), lowercased(name)) {
        sorted.len() as int
    } else {
        place_of(names, sorted.drop_last(), name)
    }
}

/// The positions of the first `n` names in the order of the names, in lower case;
/// names that are level keep their order.
pub open spec fn order_among(names: Seq<Seq<char>>, n: int) -> Seq<int>
    decreases n,
{
    if n <= 0 {
        Seq::empty()
    } else {
        let sorted = order_among(names, n - 1);
        sorted.insert(place_of(names, sorted, names[n - 1]), n - 1)
    }
}

/// The positions of names in the order of the names.
pub open spec fn order_of(names: Seq<Seq<char>>) -> Seq<int> {
    order_among(names, names.len() as int)
}

/// Positions as mathematical integers.
pub open spec fn positions(list: Seq<usize>) -> Seq<int> {
    list.map_values(|i: usize| i as int)
}

proof fn lemma_place_bounds(names: Seq<Seq<char>>, sorted: Seq<int>, name: Seq<char>)
    ensures
        0 <= place_of(names, sorted, name) <= sorted.len(),
    decreases sorted.len(),
{
    if sorted.len() > 0 && !not_after(lowercased(names[sorted.last()]), lowercased(name)) {
        lemma_place_bounds(names, sorted.drop_last(), name);
    }
}

fn find_place(names: &Vec<String>, sorted: &Vec<usize>, name: &str) -> (r: usize)
    requires
        forall|i: int| 0 <= i < sorted@.len() ==> #[trigger] sorted@[i] < names@.len(),
    ensures
        r == place_of(text::texts(names@), positions(sorted@), name@),
        r <= sorted@.len(),
{
    let ghost all = text::texts(names@);
    let ghost order = positions(sorted@);
    let key = to_lowercase(name);
    let key = chars_of(key.as_str());
    let mut n: usize = sorted.len();
    assert(order.take(n as int) =~= order);
    while n > 0
        invariant
            n <= sorted@.len(),
            all == text::texts(names@),
            order == positions(sorted@),
            key@ == lowercased(name@),
            forall|i: int| 0 <= i < sorted@.len() ==> #[trigger] sorted@[i] < names@.len(),
            place_of(all, order, name@) == place_of(all, order.take(n as int), name@),
        decreases n,
    {
        let at = sorted[n - 1];
        let other = to_lowercase(names[at].as_str());
        let other = chars_of(other.as_str());
        assert(order.take(n as int).last() == at);
        assert(all[at as int] == names@[at as int]@);
        if stands_not_after(&other, &key) {
            return n;
        }
        assert(order.take(n as int).drop_last() =~= order.take(n - 1));
        n = n - 1;
    }
    0
}

/// The positions of the names in their order: by name without regard to case,
/// level names in the order that they have.
pub fn sort_by_name(names: &Vec<String>) -> (r: Vec<usize>)
    ensures
        positions(r@) == order_of(text::texts(names@)),
        r@.len() == names@.len(),
        forall|i: int| 0 <= i < r@.len() ==> #[trigger] r@[i] < names@.len(),
{
    let ghost all = text::texts(names@);
    let mut sorted: Vec<usize> = Vec::new();
    let mut i: usize = 0;
    assert(positions(sorted@) =~= order_among(all, 0));
    while i < names.len()
        invariant
            i <= names@.len(),
            all == text::texts(names@),
            positions(sorted@) == order_among(all, i as int),
            sorted@.len() == i,
            forall|k: int| 0 <= k < sorted@.len() ==> #[trigger] sorted@[k] < names@.len(),
        decreases names@.len() - i,
    {
        let ghost before = positions(sorted@);
        assert(all[i as int] == names@[i as int]@);
        let at = find_place(names, &sorted, names[i].as_str());
        sorted.insert(at, i);
        assert(positions(sorted@) =~= before.insert(at as int, i as int));
        i = i + 1;
    }
    sorted
}

proof fn lemma_not_after_transitive(a: Seq<char>, b: Seq<char>, c: Seq<char>)
    requires
        not_after(a, b),
        not_after(b, c),
    ensures
        not_after(a, c),
    decreases a.len(),
{
    if a.len() > 0 && a[0] == b[0] && b[0] == c[0] {
        lemma_not_after_transitive(a.skip(1), b.skip(1), c.skip(1));
    }
}

proof fn lemma_not_after_total(a: Seq<char>, b: Seq<char>)
    ensures
        not_after(a, b) || not_after(b, a),
    decreases a.len(),
{
    if a.len() > 0 && b.len() > 0 && a[0] == b[0] {
        lemma_not_after_total(a.skip(1), b.skip(1));
    }
}

/// Whether positions stand in the order of the names, and level names in the
/// order of the positions.
pub open spec fn in_order(names: Seq<Seq<char>>, sorted: Seq<int>) -> bool {
    forall|i: int, j: int|
        #![trigger sorted[i], sorted[j]]
        0 <= i < j < sorted.len() ==> {
            &&& not_after(lowercased(names[sorted[i]]), lowercased(names[sorted[j]]))
            &&& not_after(lowercased(names[sorted[j]]), lowercased(names[sorted[i]])) ==> sorted[i]
                < sorted[j]
        }
}

proof fn lemma_place(names: Seq<Seq<char>>, sorted: Seq<int>, name: Seq<char>)
    ensures
        ({
            let at = place_of(names, sorted, name);
            &&& 0 <= at <= sorted.len()
            &&& forall|i: int|
                at <= i < sorted.len() ==> !not_after(
                    lowercased(names[#[trigger] sorted[i]]),
                    lowercased(name),
                )
            &&& at > 0 ==> not_after(lowercased(names[sorted[at - 1]]), lowercased(name))
        }),
    decreases sorted.len(),
{
    if sorted.len() > 0 && !not_after(lowercased(names[sorted.last()]), lowercased(name)) {
        let shorter = sorted.drop_last();
        lemma_place(names, shorter, name);
        let at = place_of(names, sorted, name);
        assert forall|i: int| at <= i < sorted.len() implies !not_after(
            lowercased(names[#[trigger] sorted[i]]),
            lowercased(name),
        ) by {
            if i < sorted.len() - 1 {
                assert(sorted[i] == shorter[i]);
            }
        }
    }
}

proof fn lemma_order_among(names: Seq<Seq<char>>, n: int)
    requires
        0 <= n <= names.len(),
    ensures
        order_among(names, n).len() == n,
        in_order(names, order_among(names, n)),
        forall|i: int| 0 <= i < n ==> 0 <= #[trigger] order_among(names, n)[i] < n,
        order_among(names, n).no_duplicates(),
    decreases n,
{
    if n > 0 {
        lemma_order_among(names, n - 1);
        let sorted = order_among(names, n - 1);
        let name = names[n - 1];
        lemma_place(names, sorted, name);
        let at = place_of(names, sorted, name);
        let result = sorted.insert(at, n - 1);
        assert forall|i: int| 0 <= i < n implies 0 <= #[trigger] result[i] < n by {
            if i < at {
                assert(result[i] == sorted[i]);
            } else if i > at {
                assert(result[i] == sorted[i - 1]);
            }
        }
        assert forall|i: int, j: int|
            #![trigger result[i], result[j]]
            0 <= i < j < result.len() implies {
            &&& not_after(lowercased(names[result[i]]), lowercased(names[result[j]]))
            &&& not_after(lowercased(names[result[j]]), lowercased(names[result[i]])) ==> result[i]
                < result[j]
        } by {
            if j == at {
                assert(result[i] == sorted[i]);
                if i < at - 1 {
                    assert(not_after(
                        lowercased(names[sorted[i]]),
                        lowercased(names[sorted[at - 1]]),
                    ));
                    lemma_not_after_transitive(
                        lowercased(names[sorted[i]]),
                        lowercased(names[sorted[at - 1]]),
                        lowercased(name),
                    );
                }
            } else if i == at {
                assert(result[j] == sorted[j - 1]);
                lemma_not_after_total(lowercased(names[sorted[j - 1]]), lowercased(name));
            } else if i < at && j > at {
                assert(result[i] == sorted[i] && result[j] == sorted[j - 1]);
            } else if i > at {
                assert(result[i] == sorted[i - 1] && result[j] == sorted[j - 1]);
            } else {
                assert(result[i] == sorted[i] && result[j] == sorted[j]);
            }
        }
        assert forall|i: int, j: int|
            0 <= i < result.len() && 0 <= j < result.len() && i != j implies result[i]
            != result[j] by {
            let a = if i < at {
                i
            } else {
                i - 1
            };
            let b = if j < at {
                j
            } else {
                j - 1
            };
            if i != at && j != at {
                assert(result[i] == sorted[a] && result[j] == sorted[b]);
            } else if i != at {
                assert(result[i] == sorted[a]);
            } else {
                assert(result[j] == sorted[b]);
            }
        }
    }
}

/// What is shown is sorted by name without regard to case: every position occurs
/// once, names stand in order, and level names keep their order.
pub proof fn law_order_is_sorted(names: Seq<Seq<char>>)
    ensures
        order_of(names).len() == names.len(),
        order_of(names).no_duplicates(),
        forall|i: int| 0 <= i < names.len() ==> 0 <= #[trigger] order_of(names)[i] < names.len(),
        in_order(names, order_of(names)),
{
    lemma_order_among(names, names.len() as int);
}

/// How two texts stand: by the first character in which they differ; a text stands
/// before what continues it.
pub proof fn law_first_difference_decides(common: Seq<char>, a: Seq<char>, b: Seq<char>)
    ensures
        a.len() > 0 && b.len() > 0 && a[0] != b[0] ==> not_after(common + a, common + b) == (a[0]
            < b[0]),
        not_after(common, common + b),
        b.len() > 0 ==> !not_after(common + b, common),
    decreases common.len(),
{
    if common.len() == 0 {
        assert(common + a =~= a);
        assert(common + b =~= b);
    } else {
        law_first_difference_decides(common.skip(1), a, b);
        assert((common + a).skip(1) =~= common.skip(1) + a);
        assert((common + b).skip(1) =~= common.skip(1) + b);
        assert((common + a)[0] == common[0] && (common + b)[0] == common[0]);
    }
}

} // verus!
