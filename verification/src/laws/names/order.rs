//! Tables of names in the order of their code points.

use crate::entities::{first_pair, first_single, group, PAIRS};
use crate::laws::references::is_reference_name;
use vstd::prelude::*;

verus! {

/// Whether `a` comes before `b`, from which it first differs at `k`.
pub open spec fn before(a: Seq<char>, b: Seq<char>, k: int) -> bool {
    &&& 0 <= k <= a.len()
    &&& k < b.len()
    &&& k == a.len() || a[k] < b[k]
    &&& forall|j: int| 0 <= j < k ==> #[trigger] a[j] == b[j]
}

/// Whether `a` comes before `b` in the order of their code points.
pub open spec fn precedes(a: Seq<char>, b: Seq<char>) -> bool {
    exists|k: int| before(a, b, k)
}

/// Whether the entry at `i` has a name of the right shape that begins with `c`, and comes
/// before the next entry, from which it first differs at `k`.
pub open spec fn fits_at(t: Seq<(&'static str, char)>, c: char, i: int, k: int) -> bool {
    &&& is_reference_name(t[i].0@)
    &&& t[i].0@[0] == c
    &&& i + 1 < t.len() ==> before(t[i].0@, t[i + 1].0@, k)
}

/// Whether the entry at `i` is in its place among the names that begin with `c`.
pub open spec fn fits(t: Seq<(&'static str, char)>, c: char, i: int) -> bool {
    exists|k: int| fits_at(t, c, i, k)
}

/// Whether the entries from `from` to `to` are in their place.
pub open spec fn filed(t: Seq<(&'static str, char)>, c: char, from: int, to: int) -> bool {
    forall|i: int| from <= i < to ==> #[trigger] fits(t, c, i)
}

/// Whether the pair at `i` has a name of the right shape, and comes before the next pair,
/// from which it first differs at `k`.
pub open spec fn pair_fits_at(t: Seq<(&'static str, char, char)>, i: int, k: int) -> bool {
    &&& is_reference_name(t[i].0@)
    &&& i + 1 < t.len() ==> before(t[i].0@, t[i + 1].0@, k)
}

/// Whether the pair at `i` is in its place.
pub open spec fn pair_fits(t: Seq<(&'static str, char, char)>, i: int) -> bool {
    exists|k: int| pair_fits_at(t, i, k)
}

/// Whether the pairs from `from` to `to` are in their place.
pub open spec fn pairs_filed(t: Seq<(&'static str, char, char)>, from: int, to: int) -> bool {
    forall|i: int| from <= i < to ==> #[trigger] pair_fits(t, i)
}

/// The order is transitive.
proof fn lemma_precedes(a: Seq<char>, b: Seq<char>, c: Seq<char>)
    requires
        precedes(a, b),
        precedes(b, c),
    ensures
        precedes(a, c),
{
    let k = choose|k: int| before(a, b, k);
    let l = choose|l: int| before(b, c, l);
    let n = if k < l {
        k
    } else {
        l
    };
    assert(before(a, c, n)) by {
        assert forall|j: int| 0 <= j < n implies #[trigger] a[j] == c[j] by {
            assert(a[j] == b[j]);
            assert(b[j] == c[j]);
        }
        if l < k {
            assert(a[l] == b[l]);
        }
        if k < l {
            assert(b[k] == c[k]);
        }
    }
}

/// Entries of a table that is in order come in order.
pub(crate) proof fn lemma_in_order(t: Seq<(&'static str, char)>, c: char, i: int, j: int)
    requires
        filed(t, c, 0, t.len() as int),
        0 <= i < j < t.len(),
    ensures
        precedes(t[i].0@, t[j].0@),
    decreases j - i,
{
    assert(fits(t, c, i));
    if i + 1 < j {
        lemma_in_order(t, c, i + 1, j);
        lemma_precedes(t[i].0@, t[i + 1].0@, t[j].0@);
    }
}

/// Pairs of a table that is in order come in order.
pub(crate) proof fn lemma_pairs_in_order(t: Seq<(&'static str, char, char)>, i: int, j: int)
    requires
        pairs_filed(t, 0, t.len() as int),
        0 <= i < j < t.len(),
    ensures
        precedes(t[i].0@, t[j].0@),
    decreases j - i,
{
    assert(pair_fits(t, i));
    if i + 1 < j {
        lemma_pairs_in_order(t, i + 1, j);
        lemma_precedes(t[i].0@, t[i + 1].0@, t[j].0@);
    }
}

/// The first entry under the name at `i` is that at `i`, where no earlier one has its
/// name.
pub(crate) proof fn lemma_first_single(t: Seq<(&'static str, char)>, name: Seq<char>, i: int)
    requires
        0 <= i <= t.len(),
        forall|j: int| 0 <= j < i ==> (#[trigger] t[j]).0@ != name,
        i < t.len() ==> t[i].0@ == name,
    ensures
        first_single(t, name) == if i < t.len() {
            Some(t[i].1)
        } else {
            None
        },
    decreases t.len(),
{
    if 0 < i {
        let rest = t.drop_first();
        assert forall|j: int| 0 <= j < i - 1 implies (#[trigger] rest[j]).0@ != name by {
            assert(rest[j] == t[j + 1]);
        }
        lemma_first_single(rest, name, i - 1);
    }
}

/// The same of pairs.
pub(crate) proof fn lemma_first_pair(t: Seq<(&'static str, char, char)>, name: Seq<char>, i: int)
    requires
        0 <= i <= t.len(),
        forall|j: int| 0 <= j < i ==> (#[trigger] t[j]).0@ != name,
        i < t.len() ==> t[i].0@ == name,
    ensures
        first_pair(t, name) == if i < t.len() {
            Some((t[i].1, t[i].2))
        } else {
            None
        },
    decreases t.len(),
{
    if 0 < i {
        let rest = t.drop_first();
        assert forall|j: int| 0 <= j < i - 1 implies (#[trigger] rest[j]).0@ != name by {
            assert(rest[j] == t[j + 1]);
        }
        lemma_first_pair(rest, name, i - 1);
    }
}

/// A name that comes between two neighbours is not in the table. `i` is the second of them;
/// the first or the second may be absent, at the ends of the table.
pub(crate) proof fn lemma_absent(t: Seq<(&'static str, char)>, c: char, name: Seq<char>, i: int)
    requires
        filed(t, c, 0, t.len() as int),
        0 <= i <= t.len(),
        0 < i ==> precedes(t[i - 1].0@, name),
        i < t.len() ==> precedes(name, t[i].0@),
    ensures
        first_single(t, name) is None,
{
    assert forall|j: int| 0 <= j < t.len() implies (#[trigger] t[j]).0@ != name by {
        if j < i - 1 {
            lemma_in_order(t, c, j, i - 1);
            lemma_precedes(t[j].0@, t[i - 1].0@, name);
        }
        if i < j {
            lemma_in_order(t, c, i, j);
            lemma_precedes(name, t[i].0@, t[j].0@);
        }
    }
    lemma_first_single(t, name, t.len() as int);
}

/// The same of pairs.
pub(crate) proof fn lemma_absent_pair(
    t: Seq<(&'static str, char, char)>,
    name: Seq<char>,
    i: int,
)
    requires
        pairs_filed(t, 0, t.len() as int),
        0 <= i <= t.len(),
        0 < i ==> precedes(t[i - 1].0@, name),
        i < t.len() ==> precedes(name, t[i].0@),
    ensures
        first_pair(t, name) is None,
{
    assert forall|j: int| 0 <= j < t.len() implies (#[trigger] t[j]).0@ != name by {
        if j < i - 1 {
            lemma_pairs_in_order(t, j, i - 1);
            lemma_precedes(t[j].0@, t[i - 1].0@, name);
        }
        if i < j {
            lemma_pairs_in_order(t, i, j);
            lemma_precedes(name, t[i].0@, t[j].0@);
        }
    }
    lemma_first_pair(t, name, t.len() as int);
}

/// Whether the name of the pair at `i` begins with `c` and is not in the table `t`.
pub open spec fn stands_alone(i: int, t: Seq<(&'static str, char)>, c: char) -> bool {
    PAIRS@[i].0@.len() > 0 && PAIRS@[i].0@[0] == c && first_single(t, PAIRS@[i].0@) is None
}

/// Whether the name of the pair at `i` is in no group.
pub open spec fn is_alone(i: int) -> bool {
    PAIRS@[i].0@.len() > 0 && first_single(group(PAIRS@[i].0@[0]), PAIRS@[i].0@) is None
}

/// The name of the pair at `i` is not in the table `t` of the names that begin with `c`: it
/// comes between the entry before `j` and that at `j`, and first differs from them at `k`
/// and at `l`.
pub(crate) proof fn lemma_stands_alone(
    i: int,
    t: Seq<(&'static str, char)>,
    c: char,
    j: int,
    k: int,
    l: int,
)
    requires
        filed(t, c, 0, t.len() as int),
        0 <= j <= t.len(),
        0 < j ==> before(t[j - 1].0@, PAIRS@[i].0@, k),
        j < t.len() ==> before(PAIRS@[i].0@, t[j].0@, l),
        PAIRS@[i].0@.len() > 0,
        PAIRS@[i].0@[0] == c,
    ensures
        stands_alone(i, t, c),
{
    lemma_absent(t, c, PAIRS@[i].0@, j);
}

} // verus!
