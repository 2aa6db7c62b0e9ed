//! The order in which the files of a frame directory are shown: natural
//! order of their names, in which `frame2` comes before `frame10`.

use vstd::prelude::*;
use std::cmp::Ordering;

verus! {

/// What `natord::compare` returns for two strings: negative when the left
/// one sorts first, zero when neither does, positive when the right one
/// sorts first.
pub uninterp spec fn natural_ordering(left: Seq<char>, right: Seq<char>) -> int;

/// Calls `natord::compare`, which reads both strings character by
/// character, skips white space and compares runs of decimal digits by
/// their value. The contract gives its result the name
/// `natural_ordering` and says nothing else of it: in particular not
/// that the comparison is transitive or antisymmetric.
#[verifier::external_body]
fn natord_compare(left: &str, right: &str) -> (order: i8)
    ensures
        order == natural_ordering(left@, right@),
        -1 <= order <= 1,
{
    match natord::compare(left, right) {
        Ordering::Less => -1,
        Ordering::Equal => 0,
        Ordering::Greater => 1,
    }
}

/// The names in natural order, with the place each had before.
#[derive(Clone, Debug, PartialEq, Eq)]
pub struct SortedNames {
    /// The names, first to last.
    pub names: Vec<String>,
    /// `order[k]` is the place that `names[k]` had in the input.
    pub order: Vec<usize>,
}

/// Whether the comparison puts `left` strictly before `right`.
pub open spec fn sorts_before(left: Seq<char>, right: Seq<char>) -> bool {
    natural_ordering(left, right) < 0
}

/// Whether `order` names each of the places `0 .. count` exactly once.
pub open spec fn is_arrangement(order: Seq<usize>, count: nat) -> bool {
    &&& order.len() == count
    &&& forall|k: int| 0 <= k < order.len() ==> #[trigger] order[k] < count
    &&& forall|a: int, b: int| 0 <= a < b < order.len() ==> #[trigger] order[a] != #[trigger] order[b]
}

/// Whether neighbours stand in order: the comparison does not put a name
/// strictly before the one that stands just ahead of it, unless it also
/// puts them the other way round, which a consistent comparison never
/// does.
pub open spec fn neighbours_in_order(names: Seq<String>, order: Seq<usize>) -> bool {
    forall|k: int|
        0 <= k < order.len() - 1 ==> {
            ||| !sorts_before(names[#[trigger] order[k + 1] as int]@, names[order[k] as int]@)
            ||| sorts_before(names[order[k] as int]@, names[order[k + 1] as int]@)
        }
}

/// Whether the input's order is kept wherever the comparison allows: a
/// name that has overtaken another is put strictly before it by the
/// comparison.
pub open spec fn overtakes_only_to_sort(names: Seq<String>, order: Seq<usize>) -> bool {
    forall|a: int, b: int|
        0 <= a < b < order.len() && #[trigger] order[a] > #[trigger] order[b] ==> sorts_before(
            names[order[a] as int]@,
            names[order[b] as int]@,
        )
}

/// Whether `order` is the natural order of `names`.
pub open spec fn is_natural_order(names: Seq<String>, order: Seq<usize>) -> bool {
    &&& is_arrangement(order, names.len())
    &&& neighbours_in_order(names, order)
    &&& overtakes_only_to_sort(names, order)
}

/// Whether `before` puts the name at place `left` strictly before the one
/// at place `right`.
pub open spec fn puts_before(
    names: Seq<String>,
    before: spec_fn(Seq<char>, Seq<char>) -> bool,
    left: int,
    right: int,
) -> bool {
    before(names[left]@, names[right]@)
}

/// Whether `before` is consistent on `names`: it never puts two names
/// both ways round, and where it puts neither a second name before a
/// first nor a third before the second, it does not put the third before
/// the first.
pub open spec fn is_consistent_on(
    names: Seq<String>,
    before: spec_fn(Seq<char>, Seq<char>) -> bool,
) -> bool {
    &&& forall|a: int, b: int|
        0 <= a < names.len() && 0 <= b < names.len() && #[trigger] puts_before(names, before, a, b)
            ==> !puts_before(names, before, b, a)
    &&& forall|a: int, b: int, c: int|
        0 <= a < names.len() && 0 <= b < names.len() && 0 <= c < names.len() && !(
        #[trigger] puts_before(names, before, b, a)) && !(#[trigger] puts_before(
            names,
            before,
            c,
            b,
        )) ==> !puts_before(names, before, c, a)
}

/// Whether neighbours in `order` stand in order under `before`.
pub open spec fn neighbours_in_order_by(
    names: Seq<String>,
    order: Seq<usize>,
    before: spec_fn(Seq<char>, Seq<char>) -> bool,
) -> bool {
    forall|k: int|
        0 <= k < order.len() - 1 ==> {
            ||| !puts_before(names, before, #[trigger] order[k + 1] as int, order[k] as int)
            ||| puts_before(names, before, order[k] as int, order[k + 1] as int)
        }
}

/// Under a consistent comparison, an arrangement whose neighbours stand
/// in order is sorted throughout: no name is put strictly before one
/// that stands ahead of it. With `natural_before()` for `before` this
/// holds of the natural order wherever the natural comparison is
/// consistent on the names at hand.
pub proof fn lemma_sorted_throughout(
    names: Seq<String>,
    order: Seq<usize>,
    before: spec_fn(Seq<char>, Seq<char>) -> bool,
    ahead: int,
    behind: int,
)
    requires
        is_arrangement(order, names.len()),
        is_consistent_on(names, before),
        neighbours_in_order_by(names, order, before),
        0 <= ahead <= behind < order.len(),
    ensures
        !puts_before(names, before, order[behind] as int, order[ahead] as int),
    decreases behind - ahead,
{
    let first = order[ahead] as int;
    let last = order[behind] as int;
    if ahead == behind {
        if puts_before(names, before, first, first) {
            assert(!puts_before(names, before, first, first));
        }
    } else {
        let middle = order[behind - 1] as int;
        lemma_sorted_throughout(names, order, before, ahead, behind - 1);
        let k = behind - 1;
        assert(order[k + 1] == order[behind]);
        assert(!puts_before(names, before, order[k + 1] as int, order[k] as int) || puts_before(
            names,
            before,
            order[k] as int,
            order[k + 1] as int,
        ));
        if puts_before(names, before, middle, last) {
            assert(!puts_before(names, before, last, middle));
        }
        assert(!puts_before(names, before, last, middle));
        assert(!puts_before(names, before, middle, first));
    }
}

/// The natural comparison as a relation: whether it puts the left name
/// strictly before the right one.
pub open spec fn natural_before() -> spec_fn(Seq<char>, Seq<char>) -> bool {
    |left: Seq<char>, right: Seq<char>| sorts_before(left, right)
}

/// The natural order has its neighbours in order under the natural
/// comparison.
proof fn lemma_natural_neighbours(names: Seq<String>, order: Seq<usize>)
    requires
        is_natural_order(names, order),
    ensures
        neighbours_in_order_by(names, order, natural_before()),
{
    let before = natural_before();
    assert forall|k: int| 0 <= k < order.len() - 1 implies {
        ||| !puts_before(names, before, #[trigger] order[k + 1] as int, order[k] as int)
        ||| puts_before(names, before, order[k] as int, order[k + 1] as int)
    } by {
        assert(!sorts_before(names[order[k + 1] as int]@, names[order[k] as int]@) || sorts_before(
            names[order[k] as int]@,
            names[order[k + 1] as int]@,
        ));
    }
}

/// Whether `left` sorts strictly before `right` in natural order.
pub fn natural_precedes(left: &str, right: &str) -> (before: bool)
    ensures
        before == sorts_before(left@, right@),
{
    natord_compare(left, right) < 0
}

/// The places of `names` in natural order: `order[0]` is the place of
/// the name that comes first. Names are moved by insertion, so two names
/// change their order only where the comparison asks for it.
pub fn natural_order(names: &Vec<String>) -> (order: Vec<usize>)
    ensures
        is_natural_order(names@, order@),
        neighbours_in_order_by(names@, order@, natural_before()),
{
    let mut order: Vec<usize> = Vec::new();
    let mut i: usize = 0;
    while i < names.len()
        invariant
            i <= names@.len(),
            is_arrangement(order@, i as nat),
            neighbours_in_order(names@, order@),
            overtakes_only_to_sort(names@, order@),
        decreases names@.len() - i,
    {
        let mut j: usize = i;
        let mut searching: bool = j > 0;
        while searching
            invariant
                j <= i < names@.len(),
                is_arrangement(order@, i as nat),
                searching ==> j > 0,
                !searching ==> j == 0 || !sorts_before(
                    names@[i as int]@,
                    names@[order@[j - 1] as int]@,
                ),
                forall|k: int|
                    j <= k < i ==> sorts_before(
                        names@[i as int]@,
                        names@[#[trigger] order@[k] as int]@,
                    ),
            decreases j + if searching { 1int } else { 0int },
        {
            let ahead: usize = order[j - 1];
            if natural_precedes(names[i].as_str(), names[ahead].as_str()) {
                j -= 1;
                searching = j > 0;
            } else {
                searching = false;
            }
        }
        let ghost before = order@;
        order.insert(j, i);
        proof {
            let after = order@;
            assert(after == before.insert(j as int, i));
            assert forall|k: int| 0 <= k < after.len() implies #[trigger] after[k] < i + 1 by {
                if k < j {
                    assert(after[k] == before[k]);
                } else if k > j {
                    assert(after[k] == before[k - 1]);
                }
            }
            assert forall|a: int, b: int| 0 <= a < b < after.len() implies #[trigger] after[a]
                != #[trigger] after[b] by {
                let pa = if a < j { a } else { a - 1 };
                let pb = if b < j { b } else { b - 1 };
                if a != j && b != j {
                    assert(after[a] == before[pa] && after[b] == before[pb]);
                } else if a == j {
                    assert(after[b] == before[pb]);
                } else {
                    assert(after[a] == before[pa]);
                }
            }
            assert forall|k: int| 0 <= k < after.len() - 1 implies {
                ||| !sorts_before(names@[#[trigger] after[k + 1] as int]@, names@[after[k] as int]@)
                ||| sorts_before(names@[after[k] as int]@, names@[after[k + 1] as int]@)
            } by {
                if k + 1 < j {
                    assert(after[k] == before[k] && after[k + 1] == before[k + 1]);
                } else if k + 1 == j {
                    assert(after[k] == before[j - 1] && after[k + 1] == i);
                } else if k == j {
                    assert(after[k] == i && after[k + 1] == before[j as int]);
                } else {
                    assert(after[k] == before[k - 1] && after[k + 1] == before[k]);
                    assert(before[(k - 1) + 1] == before[k]);
                }
            }
            assert forall|a: int, b: int|
                0 <= a < b < after.len() && #[trigger] after[a] > #[trigger] after[b] implies sorts_before(
                names@[after[a] as int]@,
                names@[after[b] as int]@,
            ) by {
                let pa = if a < j { a } else { a - 1 };
                let pb = if b < j { b } else { b - 1 };
                if a != j && b != j {
                    assert(after[a] == before[pa] && after[b] == before[pb]);
                } else if a == j {
                    assert(after[b] == before[pb]);
                } else {
                    assert(after[a] == before[pa]);
                    assert(before[pa] < i);
                }
            }
        }
        i += 1;
    }
    proof {
        lemma_natural_neighbours(names@, order@);
    }
    order
}

/// The names at the places `order`, in that order.
pub fn arrange(names: &Vec<String>, order: &Vec<usize>) -> (arranged: Vec<String>)
    requires
        forall|k: int| 0 <= k < order@.len() ==> #[trigger] order@[k] < names@.len(),
    ensures
        arranged@.len() == order@.len(),
        forall|k: int|
            0 <= k < order@.len() ==> (#[trigger] arranged@[k])@ == names@[order@[k] as int]@,
{
    let mut arranged: Vec<String> = Vec::new();
    let mut k: usize = 0;
    while k < order.len()
        invariant
            k <= order@.len(),
            arranged@.len() == k,
            forall|m: int| 0 <= m < order@.len() ==> #[trigger] order@[m] < names@.len(),
            forall|m: int| 0 <= m < k ==> (#[trigger] arranged@[m])@ == names@[order@[m] as int]@,
        decreases order@.len() - k,
    {
        let place: usize = order[k];
        arranged.push(names[place].clone());
        k += 1;
    }
    arranged
}

/// Sorts file names into natural order and keeps, for each, the place it
/// came from.
pub fn sort_naturally(names: &Vec<String>) -> (sorted: SortedNames)
    ensures
        is_natural_order(names@, sorted.order@),
        neighbours_in_order_by(names@, sorted.order@, natural_before()),
        sorted.names@.len() == names@.len(),
        forall|k: int|
            0 <= k < names@.len() ==> (#[trigger] sorted.names@[k])@ == names@[sorted.order@[k] as int]@,
{
    let order = natural_order(names);
    let arranged = arrange(names, &order);
    SortedNames { names: arranged, order }
}

} // verus!
