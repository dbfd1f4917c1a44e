//! The table of named references: every name in it resolves, and no other.

use crate::chars::{alphabetic, alphanumeric, upper};
use crate::entities::{first_pair, first_single, group, lookup, PAIRS};
use crate::laws::names::lower::{lemma_lower_filed, lemma_lower_pairs, lemma_no_group};
use crate::laws::names::order::{
    filed, fits, is_alone, lemma_first_pair, lemma_first_single, lemma_in_order,
    lemma_pairs_in_order, pair_fits,
};
use crate::laws::names::pairs::lemma_pairs;
use crate::laws::names::upper::{lemma_upper_filed, lemma_upper_pairs};
use crate::laws::references::{found_name, is_reference_name, the_longest_name_is_found};
use vstd::prelude::*;

mod a;
mod b;
mod c;
mod d;
mod e;
mod f;
mod g;
mod h;
mod i;
mod j;
mod k;
mod l;
mod m;
mod n;
mod o;
mod p;
mod q;
mod r;
mod s;
mod t;
mod u;
mod v;
mod w;
mod x;
mod y;
mod z;
pub(crate) mod lower;
pub mod order;
pub(crate) mod pairs;
pub mod tables;
pub(crate) mod upper;

verus! {

/// Every group is in order.
pub proof fn every_group_is_filed(c: char)
    requires
        alphabetic(c),
    ensures
        filed(group(c), c, 0, group(c).len() as int),
{
    if upper(c) {
        lemma_upper_filed(c);
    } else {
        lemma_lower_filed(c);
    }
}

/// Every name of one code point resolves to that code point: it stands in the group of its
/// first letter, and under no other entry.
pub proof fn every_name_of_group_resolves(c: char, i: int)
    requires
        alphabetic(c),
        0 <= i < group(c).len(),
    ensures
        lookup(group(c)[i].0@) == Some((group(c)[i].1, None::<char>)),
{
    let t = group(c);
    let name = t[i].0@;
    every_group_is_filed(c);
    assert(fits(t, c, i));
    assert forall|j: int| 0 <= j < i implies (#[trigger] t[j]).0@ != name by {
        lemma_in_order(t, c, j, i);
    }
    lemma_first_single(t, name, i);
}

/// Every name of two code points resolves to them: it stands for nothing else.
pub proof fn every_pair_resolves(i: int)
    requires
        0 <= i < PAIRS@.len(),
    ensures
        lookup(PAIRS@[i].0@) == Some((PAIRS@[i].1, Some(PAIRS@[i].2))),
{
    let name = PAIRS@[i].0@;
    lemma_pairs();
    lemma_upper_pairs();
    lemma_lower_pairs();
    assert(is_alone(i));
    assert forall|j: int| 0 <= j < i implies (#[trigger] PAIRS@[j]).0@ != name by {
        lemma_pairs_in_order(PAIRS@, j, i);
    }
    lemma_first_pair(PAIRS@, name, i);
}

proof fn lemma_single_found(t: Seq<(&'static str, char)>, name: Seq<char>) -> (i: int)
    requires
        first_single(t, name) is Some,
    ensures
        0 <= i < t.len(),
        t[i].0@ == name,
    decreases t.len(),
{
    if t[0].0@ == name {
        0
    } else {
        lemma_single_found(t.drop_first(), name) + 1
    }
}

proof fn lemma_pair_found(t: Seq<(&'static str, char, char)>, name: Seq<char>) -> (i: int)
    requires
        first_pair(t, name) is Some,
    ensures
        0 <= i < t.len(),
        t[i].0@ == name,
    decreases t.len(),
{
    if t[0].0@ == name {
        0
    } else {
        lemma_pair_found(t.drop_first(), name) + 1
    }
}

/// Whatever resolves is ASCII letters and digits, with perhaps a semicolon behind them.
pub proof fn what_resolves_has_the_shape_of_a_name(name: Seq<char>)
    requires
        lookup(name) is Some,
    ensures
        is_reference_name(name),
{
    let t = group(name[0]);
    if first_single(t, name) is Some {
        let i = lemma_single_found(t, name);
        if !alphabetic(name[0]) {
            lemma_no_group(name[0]);
        }
        every_group_is_filed(name[0]);
        assert(fits(t, name[0], i));
    } else {
        let i = lemma_pair_found(PAIRS@, name);
        lemma_pairs();
        assert(pair_fits(PAIRS@, i));
    }
}

/// The reference that `text` begins with is the longest beginning of it that resolves at
/// all.
pub proof fn nothing_longer_resolves(text: Seq<char>)
    requires
        text.len() > 0,
        alphanumeric(text[0]),
    ensures
        match found_name(text) {
            Some((n, v)) => {
                &&& 0 < n <= text.len()
                &&& lookup(text.take(n as int)) == Some(v)
                &&& forall|k: int|
                    n < k <= text.len() ==> (#[trigger] lookup(text.take(k))) is None
            },
            None => forall|k: int|
                0 < k <= text.len() ==> (#[trigger] lookup(text.take(k))) is None,
        },
{
    the_longest_name_is_found(text);
    assert forall|k: int| 0 < k <= text.len() && (#[trigger] lookup(text.take(k))) is Some implies
        is_reference_name(text.take(k)) by {
        what_resolves_has_the_shape_of_a_name(text.take(k));
    }
}

} // verus!
