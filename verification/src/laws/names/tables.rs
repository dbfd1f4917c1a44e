//! Every table of names, by its own name.

use crate::entities::{
    lookup, LOWER_A, LOWER_B, LOWER_C, LOWER_D, LOWER_E,
    LOWER_F, LOWER_G, LOWER_H, LOWER_I, LOWER_J, LOWER_K, LOWER_L, LOWER_M, LOWER_N, LOWER_O,
    LOWER_P, LOWER_Q, LOWER_R, LOWER_S, LOWER_T, LOWER_U, LOWER_V, LOWER_W, LOWER_X, LOWER_Y,
    LOWER_Z, UPPER_A, UPPER_B, UPPER_C, UPPER_D, UPPER_E, UPPER_F, UPPER_G, UPPER_H, UPPER_I,
    UPPER_J, UPPER_K, UPPER_L, UPPER_M, UPPER_N, UPPER_O, UPPER_P, UPPER_Q, UPPER_R, UPPER_S,
    UPPER_T, UPPER_U, UPPER_V, UPPER_W, UPPER_X, UPPER_Y, UPPER_Z, PAIRS,
};
use crate::laws::names::lower::lemma_lower_groups;
use crate::laws::names::upper::lemma_upper_groups;
use crate::laws::names::{every_name_of_group_resolves, every_pair_resolves};
use vstd::prelude::*;

verus! {

/// Whether the name at `i` resolves to its code point.
pub open spec fn resolves_at(t: Seq<(&'static str, char)>, i: int) -> bool {
    lookup(t[i].0@) == Some((t[i].1, None::<char>))
}

/// Whether every name of the table resolves to its code point.
pub open spec fn resolves(t: Seq<(&'static str, char)>) -> bool {
    forall|i: int| 0 <= i < t.len() ==> #[trigger] resolves_at(t, i)
}

/// Whether the name at `i` resolves to its two code points.
pub open spec fn pair_resolves_at(t: Seq<(&'static str, char, char)>, i: int) -> bool {
    lookup(t[i].0@) == Some((t[i].1, Some(t[i].2)))
}

/// Every name of every table resolves to what stands beside it.
pub proof fn every_name_resolves()
    ensures
        resolves(UPPER_A@),
        resolves(UPPER_B@),
        resolves(UPPER_C@),
        resolves(UPPER_D@),
        resolves(UPPER_E@),
        resolves(UPPER_F@),
        resolves(UPPER_G@),
        resolves(UPPER_H@),
        resolves(UPPER_I@),
        resolves(UPPER_J@),
        resolves(UPPER_K@),
        resolves(UPPER_L@),
        resolves(UPPER_M@),
        resolves(UPPER_N@),
        resolves(UPPER_O@),
        resolves(UPPER_P@),
        resolves(UPPER_Q@),
        resolves(UPPER_R@),
        resolves(UPPER_S@),
        resolves(UPPER_T@),
        resolves(UPPER_U@),
        resolves(UPPER_V@),
        resolves(UPPER_W@),
        resolves(UPPER_X@),
        resolves(UPPER_Y@),
        resolves(UPPER_Z@),
        resolves(LOWER_A@),
        resolves(LOWER_B@),
        resolves(LOWER_C@),
        resolves(LOWER_D@),
        resolves(LOWER_E@),
        resolves(LOWER_F@),
        resolves(LOWER_G@),
        resolves(LOWER_H@),
        resolves(LOWER_I@),
        resolves(LOWER_J@),
        resolves(LOWER_K@),
        resolves(LOWER_L@),
        resolves(LOWER_M@),
        resolves(LOWER_N@),
        resolves(LOWER_O@),
        resolves(LOWER_P@),
        resolves(LOWER_Q@),
        resolves(LOWER_R@),
        resolves(LOWER_S@),
        resolves(LOWER_T@),
        resolves(LOWER_U@),
        resolves(LOWER_V@),
        resolves(LOWER_W@),
        resolves(LOWER_X@),
        resolves(LOWER_Y@),
        resolves(LOWER_Z@),
        forall|i: int| 0 <= i < PAIRS@.len() ==> #[trigger] pair_resolves_at(PAIRS@, i),
{
    lemma_upper_groups();
    lemma_lower_groups();
    assert forall|i: int| 0 <= i < UPPER_A@.len() implies #[trigger] resolves_at(UPPER_A@, i) by {
        every_name_of_group_resolves('A', i);
    }
    assert forall|i: int| 0 <= i < UPPER_B@.len() implies #[trigger] resolves_at(UPPER_B@, i) by {
        every_name_of_group_resolves('B', i);
    }
    assert forall|i: int| 0 <= i < UPPER_C@.len() implies #[trigger] resolves_at(UPPER_C@, i) by {
        every_name_of_group_resolves('C', i);
    }
    assert forall|i: int| 0 <= i < UPPER_D@.len() implies #[trigger] resolves_at(UPPER_D@, i) by {
        every_name_of_group_resolves('D', i);
    }
    assert forall|i: int| 0 <= i < UPPER_E@.len() implies #[trigger] resolves_at(UPPER_E@, i) by {
        every_name_of_group_resolves('E', i);
    }
    assert forall|i: int| 0 <= i < UPPER_F@.len() implies #[trigger] resolves_at(UPPER_F@, i) by {
        every_name_of_group_resolves('F', i);
    }
    assert forall|i: int| 0 <= i < UPPER_G@.len() implies #[trigger] resolves_at(UPPER_G@, i) by {
        every_name_of_group_resolves('G', i);
    }
    assert forall|i: int| 0 <= i < UPPER_H@.len() implies #[trigger] resolves_at(UPPER_H@, i) by {
        every_name_of_group_resolves('H', i);
    }
    assert forall|i: int| 0 <= i < UPPER_I@.len() implies #[trigger] resolves_at(UPPER_I@, i) by {
        every_name_of_group_resolves('I', i);
    }
    assert forall|i: int| 0 <= i < UPPER_J@.len() implies #[trigger] resolves_at(UPPER_J@, i) by {
        every_name_of_group_resolves('J', i);
    }
    assert forall|i: int| 0 <= i < UPPER_K@.len() implies #[trigger] resolves_at(UPPER_K@, i) by {
        every_name_of_group_resolves('K', i);
    }
    assert forall|i: int| 0 <= i < UPPER_L@.len() implies #[trigger] resolves_at(UPPER_L@, i) by {
        every_name_of_group_resolves('L', i);
    }
    assert forall|i: int| 0 <= i < UPPER_M@.len() implies #[trigger] resolves_at(UPPER_M@, i) by {
        every_name_of_group_resolves('M', i);
    }
    assert forall|i: int| 0 <= i < UPPER_N@.len() implies #[trigger] resolves_at(UPPER_N@, i) by {
        every_name_of_group_resolves('N', i);
    }
    assert forall|i: int| 0 <= i < UPPER_O@.len() implies #[trigger] resolves_at(UPPER_O@, i) by {
        every_name_of_group_resolves('O', i);
    }
    assert forall|i: int| 0 <= i < UPPER_P@.len() implies #[trigger] resolves_at(UPPER_P@, i) by {
        every_name_of_group_resolves('P', i);
    }
    assert forall|i: int| 0 <= i < UPPER_Q@.len() implies #[trigger] resolves_at(UPPER_Q@, i) by {
        every_name_of_group_resolves('Q', i);
    }
    assert forall|i: int| 0 <= i < UPPER_R@.len() implies #[trigger] resolves_at(UPPER_R@, i) by {
        every_name_of_group_resolves('R', i);
    }
    assert forall|i: int| 0 <= i < UPPER_S@.len() implies #[trigger] resolves_at(UPPER_S@, i) by {
        every_name_of_group_resolves('S', i);
    }
    assert forall|i: int| 0 <= i < UPPER_T@.len() implies #[trigger] resolves_at(UPPER_T@, i) by {
        every_name_of_group_resolves('T', i);
    }
    assert forall|i: int| 0 <= i < UPPER_U@.len() implies #[trigger] resolves_at(UPPER_U@, i) by {
        every_name_of_group_resolves('U', i);
    }
    assert forall|i: int| 0 <= i < UPPER_V@.len() implies #[trigger] resolves_at(UPPER_V@, i) by {
        every_name_of_group_resolves('V', i);
    }
    assert forall|i: int| 0 <= i < UPPER_W@.len() implies #[trigger] resolves_at(UPPER_W@, i) by {
        every_name_of_group_resolves('W', i);
    }
    assert forall|i: int| 0 <= i < UPPER_X@.len() implies #[trigger] resolves_at(UPPER_X@, i) by {
        every_name_of_group_resolves('X', i);
    }
    assert forall|i: int| 0 <= i < UPPER_Y@.len() implies #[trigger] resolves_at(UPPER_Y@, i) by {
        every_name_of_group_resolves('Y', i);
    }
    assert forall|i: int| 0 <= i < UPPER_Z@.len() implies #[trigger] resolves_at(UPPER_Z@, i) by {
        every_name_of_group_resolves('Z', i);
    }
    assert forall|i: int| 0 <= i < LOWER_A@.len() implies #[trigger] resolves_at(LOWER_A@, i) by {
        every_name_of_group_resolves('a', i);
    }
    assert forall|i: int| 0 <= i < LOWER_B@.len() implies #[trigger] resolves_at(LOWER_B@, i) by {
        every_name_of_group_resolves('b', i);
    }
    assert forall|i: int| 0 <= i < LOWER_C@.len() implies #[trigger] resolves_at(LOWER_C@, i) by {
        every_name_of_group_resolves('c', i);
    }
    assert forall|i: int| 0 <= i < LOWER_D@.len() implies #[trigger] resolves_at(LOWER_D@, i) by {
        every_name_of_group_resolves('d', i);
    }
    assert forall|i: int| 0 <= i < LOWER_E@.len() implies #[trigger] resolves_at(LOWER_E@, i) by {
        every_name_of_group_resolves('e', i);
    }
    assert forall|i: int| 0 <= i < LOWER_F@.len() implies #[trigger] resolves_at(LOWER_F@, i) by {
        every_name_of_group_resolves('f', i);
    }
    assert forall|i: int| 0 <= i < LOWER_G@.len() implies #[trigger] resolves_at(LOWER_G@, i) by {
        every_name_of_group_resolves('g', i);
    }
    assert forall|i: int| 0 <= i < LOWER_H@.len() implies #[trigger] resolves_at(LOWER_H@, i) by {
        every_name_of_group_resolves('h', i);
    }
    assert forall|i: int| 0 <= i < LOWER_I@.len() implies #[trigger] resolves_at(LOWER_I@, i) by {
        every_name_of_group_resolves('i', i);
    }
    assert forall|i: int| 0 <= i < LOWER_J@.len() implies #[trigger] resolves_at(LOWER_J@, i) by {
        every_name_of_group_resolves('j', i);
    }
    assert forall|i: int| 0 <= i < LOWER_K@.len() implies #[trigger] resolves_at(LOWER_K@, i) by {
        every_name_of_group_resolves('k', i);
    }
    assert forall|i: int| 0 <= i < LOWER_L@.len() implies #[trigger] resolves_at(LOWER_L@, i) by {
        every_name_of_group_resolves('l', i);
    }
    assert forall|i: int| 0 <= i < LOWER_M@.len() implies #[trigger] resolves_at(LOWER_M@, i) by {
        every_name_of_group_resolves('m', i);
    }
    assert forall|i: int| 0 <= i < LOWER_N@.len() implies #[trigger] resolves_at(LOWER_N@, i) by {
        every_name_of_group_resolves('n', i);
    }
    assert forall|i: int| 0 <= i < LOWER_O@.len() implies #[trigger] resolves_at(LOWER_O@, i) by {
        every_name_of_group_resolves('o', i);
    }
    assert forall|i: int| 0 <= i < LOWER_P@.len() implies #[trigger] resolves_at(LOWER_P@, i) by {
        every_name_of_group_resolves('p', i);
    }
    assert forall|i: int| 0 <= i < LOWER_Q@.len() implies #[trigger] resolves_at(LOWER_Q@, i) by {
        every_name_of_group_resolves('q', i);
    }
    assert forall|i: int| 0 <= i < LOWER_R@.len() implies #[trigger] resolves_at(LOWER_R@, i) by {
        every_name_of_group_resolves('r', i);
    }
    assert forall|i: int| 0 <= i < LOWER_S@.len() implies #[trigger] resolves_at(LOWER_S@, i) by {
        every_name_of_group_resolves('s', i);
    }
    assert forall|i: int| 0 <= i < LOWER_T@.len() implies #[trigger] resolves_at(LOWER_T@, i) by {
        every_name_of_group_resolves('t', i);
    }
    assert forall|i: int| 0 <= i < LOWER_U@.len() implies #[trigger] resolves_at(LOWER_U@, i) by {
        every_name_of_group_resolves('u', i);
    }
    assert forall|i: int| 0 <= i < LOWER_V@.len() implies #[trigger] resolves_at(LOWER_V@, i) by {
        every_name_of_group_resolves('v', i);
    }
    assert forall|i: int| 0 <= i < LOWER_W@.len() implies #[trigger] resolves_at(LOWER_W@, i) by {
        every_name_of_group_resolves('w', i);
    }
    assert forall|i: int| 0 <= i < LOWER_X@.len() implies #[trigger] resolves_at(LOWER_X@, i) by {
        every_name_of_group_resolves('x', i);
    }
    assert forall|i: int| 0 <= i < LOWER_Y@.len() implies #[trigger] resolves_at(LOWER_Y@, i) by {
        every_name_of_group_resolves('y', i);
    }
    assert forall|i: int| 0 <= i < LOWER_Z@.len() implies #[trigger] resolves_at(LOWER_Z@, i) by {
        every_name_of_group_resolves('z', i);
    }
    assert forall|i: int| 0 <= i < PAIRS@.len() implies #[trigger] pair_resolves_at(PAIRS@, i) by {
        every_pair_resolves(i);
    }
}

} // verus!
