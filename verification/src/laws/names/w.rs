//! The names that begin with `W` or `w` are in order.

use crate::entities::{LOWER_W, UPPER_W};
use crate::laws::names::order::{filed, fits_at};
use vstd::prelude::*;

verus! {

proof fn lemma_upper_w_0()
    ensures
        filed(UPPER_W@, 'W', 0, 5),
{
    reveal_strlit("Wcirc;");
    reveal_strlit("Wedge;");
    reveal_strlit("Wfr;");
    reveal_strlit("Wopf;");
    reveal_strlit("Wscr;");
    assert(fits_at(UPPER_W@, 'W', 0, 1));
    assert(fits_at(UPPER_W@, 'W', 1, 1));
    assert(fits_at(UPPER_W@, 'W', 2, 1));
    assert(fits_at(UPPER_W@, 'W', 3, 1));
    assert(fits_at(UPPER_W@, 'W', 4, 0));
}

pub(super) proof fn lemma_upper_w()
    ensures
        filed(UPPER_W@, 'W', 0, UPPER_W@.len() as int),
        UPPER_W@.len() == 5,
{
    lemma_upper_w_0();
}

proof fn lemma_lower_w_0()
    ensures
        filed(LOWER_W@, 'w', 0, 8),
{
    reveal_strlit("wcirc;");
    reveal_strlit("wedbar;");
    reveal_strlit("wedge;");
    reveal_strlit("wedgeq;");
    reveal_strlit("weierp;");
    reveal_strlit("wfr;");
    reveal_strlit("wopf;");
    reveal_strlit("wp;");
    reveal_strlit("wr;");
    assert(fits_at(LOWER_W@, 'w', 0, 1));
    assert(fits_at(LOWER_W@, 'w', 1, 3));
    assert(fits_at(LOWER_W@, 'w', 2, 5));
    assert(fits_at(LOWER_W@, 'w', 3, 2));
    assert(fits_at(LOWER_W@, 'w', 4, 1));
    assert(fits_at(LOWER_W@, 'w', 5, 1));
    assert(fits_at(LOWER_W@, 'w', 6, 1));
    assert(fits_at(LOWER_W@, 'w', 7, 1));
}

proof fn lemma_lower_w_8()
    ensures
        filed(LOWER_W@, 'w', 8, 11),
{
    reveal_strlit("wr;");
    reveal_strlit("wreath;");
    reveal_strlit("wscr;");
    assert(fits_at(LOWER_W@, 'w', 8, 2));
    assert(fits_at(LOWER_W@, 'w', 9, 1));
    assert(fits_at(LOWER_W@, 'w', 10, 0));
}

pub(super) proof fn lemma_lower_w()
    ensures
        filed(LOWER_W@, 'w', 0, LOWER_W@.len() as int),
        LOWER_W@.len() == 11,
{
    lemma_lower_w_0();
    lemma_lower_w_8();
}

} // verus!
