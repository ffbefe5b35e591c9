//! Operators sort by name in reverse, so that of two names where one extends
//! the other (`<=` and `<`, `<<` and `<`) the longer comes first.

use vstd::prelude::*;

use core::cmp::Ordering;

use crate::spceval::operators::Oper;
use crate::text::{common_prefix, common_prefix_len};

verus! {

/// The lexicographic order of two names, character by character.
pub open spec fn name_order(a: Seq<char>, b: Seq<char>) -> Ordering
    decreases a.len(),
{
    if a.len() == 0 {
        if b.len() == 0 {
            Ordering::Equal
        } else {
            Ordering::Less
        }
    } else if b.len() == 0 {
        Ordering::Greater
    } else if a[0] < b[0] {
        Ordering::Less
    } else if a[0] > b[0] {
        Ordering::Greater
    } else {
        name_order(a.drop_first(), b.drop_first())
    }
}

/// The order of two names is decided at the end of their common prefix.
proof fn lemma_order_at_common_prefix(a: Seq<char>, b: Seq<char>)
    ensures
        ({
            let k = common_prefix_len(a, b);
            &&& 0 <= k
            &&& k <= a.len()
            &&& k <= b.len()
            &&& name_order(a, b) == if k < a.len() && k < b.len() {
                if a[k] < b[k] {
                    Ordering::Less
                } else {
                    Ordering::Greater
                }
            } else if k < a.len() {
                Ordering::Greater
            } else if k < b.len() {
                Ordering::Less
            } else {
                Ordering::Equal
            }
            &&& (k < a.len() && k < b.len() ==> a[k] != b[k])
        }),
    decreases a.len(),
{
    if a.len() > 0 && b.len() > 0 && a[0] == b[0] {
        lemma_order_at_common_prefix(a.drop_first(), b.drop_first());
        let k = common_prefix_len(a, b);
        if k < a.len() {
            assert(a[k] == a.drop_first()[k - 1]);
        }
        if k < b.len() {
            assert(b[k] == b.drop_first()[k - 1]);
        }
    }
}

/// Compares two names lexicographically, character by character.
fn compare_names(a: &str, b: &str) -> (r: Ordering)
    ensures
        r == name_order(a@, b@),
{
    proof {
        lemma_order_at_common_prefix(a@, b@);
    }
    let k = common_prefix(a, b);
    let n = a.unicode_len();
    let m = b.unicode_len();
    if k < n && k < m {
        if a.get_char(k) < b.get_char(k) {
            Ordering::Less
        } else {
            Ordering::Greater
        }
    } else if k < n {
        Ordering::Greater
    } else if k < m {
        Ordering::Less
    } else {
        Ordering::Equal
    }
}

/// A name that properly extends another sorts after it.
pub proof fn lemma_extension_sorts_after(a: Seq<char>, b: Seq<char>)
    requires
        a.len() < b.len(),
        a.is_prefix_of(b),
    ensures
        name_order(b, a) == Ordering::Greater,
        name_order(a, b) == Ordering::Less,
    decreases a.len(),
{
    if a.len() > 0 {
        assert(a[0] == b[0]);
        assert(a.drop_first().is_prefix_of(b.drop_first())) by {
            assert forall|i: int| 0 <= i < a.drop_first().len() implies a.drop_first()[i]
                == b.drop_first()[i] by {
                assert(a[i + 1] == b[i + 1]);
            }
        }
        lemma_extension_sorts_after(a.drop_first(), b.drop_first());
    }
}

/// Operators are ordered by name in reverse: when one operator's name
/// properly extends another's (as `<=` extends `<`), it sorts before it.
pub proof fn lemma_longer_operator_first(short: Oper, long: Oper)
    requires
        short.name@.len() < long.name@.len(),
        short.name@.is_prefix_of(long.name@),
    ensures
        short.order_spec(&long) == Ordering::Greater,
        long.order_spec(&short) == Ordering::Less,
{
    lemma_extension_sorts_after(short.name@, long.name@);
}

/// Names compare equal exactly when they are the same name.
proof fn lemma_name_order_equal(a: Seq<char>, b: Seq<char>)
    ensures
        name_order(a, b) == Ordering::Equal <==> a == b,
    decreases a.len(),
{
    if a.len() > 0 && b.len() > 0 && a[0] == b[0] {
        lemma_name_order_equal(a.drop_first(), b.drop_first());
        if a.drop_first() == b.drop_first() {
            assert(a =~= seq![a[0]] + a.drop_first());
            assert(b =~= seq![b[0]] + b.drop_first());
        }
        if a == b {
            assert(a.drop_first() =~= b.drop_first());
        }
    } else if a.len() > 0 && b.len() > 0 {
        assert(a[0] != b[0]);
    } else if a.len() == 0 && b.len() == 0 {
        assert(a =~= b);
    }
}

/// Swapping two names reverses their order.
proof fn lemma_name_order_antisymmetric(a: Seq<char>, b: Seq<char>)
    ensures
        name_order(a, b) == Ordering::Less <==> name_order(b, a) == Ordering::Greater,
        name_order(a, b) == Ordering::Greater <==> name_order(b, a) == Ordering::Less,
    decreases a.len(),
{
    if a.len() > 0 && b.len() > 0 && a[0] == b[0] {
        lemma_name_order_antisymmetric(a.drop_first(), b.drop_first());
    }
}

/// The order of names is transitive.
proof fn lemma_name_order_transitive(a: Seq<char>, b: Seq<char>, c: Seq<char>)
    requires
        name_order(a, b) == Ordering::Less,
        name_order(b, c) == Ordering::Less,
    ensures
        name_order(a, c) == Ordering::Less,
    decreases a.len(),
{
    if a.len() > 0 && b.len() > 0 && c.len() > 0 && a[0] == b[0] && b[0] == c[0] {
        lemma_name_order_transitive(a.drop_first(), b.drop_first(), c.drop_first());
    }
}

/// Operators are totally ordered: two operators compare equal exactly when
/// their names are the same, swapping them reverses the order, and the order
/// is transitive.
pub proof fn lemma_oper_order_total(a: Oper, b: Oper, c: Oper)
    ensures
        a.order_spec(&b) == Ordering::Equal <==> a.name@ == b.name@,
        a.order_spec(&b) == Ordering::Less <==> b.order_spec(&a) == Ordering::Greater,
        a.order_spec(&b) == Ordering::Less && b.order_spec(&c) == Ordering::Less ==> a.order_spec(
            &c,
        ) == Ordering::Less,
{
    lemma_name_order_equal(b.name@, a.name@);
    lemma_name_order_antisymmetric(b.name@, a.name@);
    if a.order_spec(&b) == Ordering::Less && b.order_spec(&c) == Ordering::Less {
        lemma_name_order_transitive(c.name@, b.name@, a.name@);
    }
}

impl<'a> Oper<'a> {
    /// The order of operators: by name, in reverse.
    pub open spec fn order_spec(&self, other: &Self) -> Ordering {
        name_order(other.name@, self.name@)
    }

    /// Orders operators by name in reverse, so that when iterating a sorted
    /// table longer names are met before the shorter names they extend.
    pub fn cmp(&self, other: &Self) -> (r: Ordering)
        ensures
            r == self.order_spec(other),
    {
        compare_names(other.name, self.name)
    }
}

impl<'a> PartialOrd for Oper<'a> {
    fn partial_cmp(&self, other: &Self) -> (r: Option<Ordering>) {
        Some(self.cmp(other))
    }
}

impl<'a> vstd::std_specs::cmp::PartialOrdSpecImpl for Oper<'a> {
    open spec fn obeys_partial_cmp_spec() -> bool {
        true
    }

    open spec fn partial_cmp_spec(&self, other: &Self) -> Option<Ordering> {
        Some(self.order_spec(other))
    }
}

} // verus!
