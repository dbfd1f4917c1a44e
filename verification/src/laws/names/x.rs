//! The names that begin with `X` or `x` are in order.

use crate::entities::{LOWER_X, UPPER_X};
use crate::laws::names::order::{filed, fits_at};
use vstd::prelude::*;

verus! {

proof fn lemma_upper_x_0()
    ensures
        filed(UPPER_X@, 'X', 0, 4),
{
    reveal_strlit("Xfr;");
    reveal_strlit("Xi;");
    reveal_strlit("Xopf;");
    reveal_strlit("Xscr;");
    assert(fits_at(UPPER_X@, 'X', 0, 1));
    assert(fits_at(UPPER_X@, 'X', 1, 1));
    assert(fits_at(UPPER_X@, 'X', 2, 1));
    assert(fits_at(UPPER_X@, 'X', 3, 0));
}

pub(super) proof fn lemma_upper_x()
    ensures
        filed(UPPER_X@, 'X', 0, UPPER_X@.len() as int),
        UPPER_X@.len() == 4,
{
    lemma_upper_x_0();
}

proof fn lemma_lower_x_0()
    ensures
        filed(LOWER_X@, 'x', 0, 8),
{
    reveal_strlit("xcap;");
    reveal_strlit("xcirc;");
    reveal_strlit("xcup;");
    reveal_strlit("xdtri;");
    reveal_strlit("xfr;");
    reveal_strlit("xhArr;");
    reveal_strlit("xharr;");
    reveal_strlit("xi;");
    reveal_strlit("xlArr;");
    assert(fits_at(LOWER_X@, 'x', 0, 2));
    assert(fits_at(LOWER_X@, 'x', 1, 2));
    assert(fits_at(LOWER_X@, 'x', 2, 1));
    assert(fits_at(LOWER_X@, 'x', 3, 1));
    assert(fits_at(LOWER_X@, 'x', 4, 1));
    assert(fits_at(LOWER_X@, 'x', 5, 2));
    assert(fits_at(LOWER_X@, 'x', 6, 1));
    assert(fits_at(LOWER_X@, 'x', 7, 1));
}

proof fn lemma_lower_x_8()
    ensures
        filed(LOWER_X@, 'x', 8, 16),
{
    reveal_strlit("xlArr;");
    reveal_strlit("xlarr;");
    reveal_strlit("xmap;");
    reveal_strlit("xnis;");
    reveal_strlit("xodot;");
    reveal_strlit("xopf;");
    reveal_strlit("xoplus;");
    reveal_strlit("xotime;");
    reveal_strlit("xrArr;");
    assert(fits_at(LOWER_X@, 'x', 8, 2));
    assert(fits_at(LOWER_X@, 'x', 9, 1));
    assert(fits_at(LOWER_X@, 'x', 10, 1));
    assert(fits_at(LOWER_X@, 'x', 11, 1));
    assert(fits_at(LOWER_X@, 'x', 12, 2));
    assert(fits_at(LOWER_X@, 'x', 13, 3));
    assert(fits_at(LOWER_X@, 'x', 14, 2));
    assert(fits_at(LOWER_X@, 'x', 15, 1));
}

proof fn lemma_lower_x_16()
    ensures
        filed(LOWER_X@, 'x', 16, 24),
{
    reveal_strlit("xrArr;");
    reveal_strlit("xrarr;");
    reveal_strlit("xscr;");
    reveal_strlit("xsqcup;");
    reveal_strlit("xuplus;");
    reveal_strlit("xutri;");
    reveal_strlit("xvee;");
    reveal_strlit("xwedge;");
    assert(fits_at(LOWER_X@, 'x', 16, 2));
    assert(fits_at(LOWER_X@, 'x', 17, 1));
    assert(fits_at(LOWER_X@, 'x', 18, 2));
    assert(fits_at(LOWER_X@, 'x', 19, 1));
    assert(fits_at(LOWER_X@, 'x', 20, 2));
    assert(fits_at(LOWER_X@, 'x', 21, 1));
    assert(fits_at(LOWER_X@, 'x', 22, 1));
    assert(fits_at(LOWER_X@, 'x', 23, 0));
}

pub(super) proof fn lemma_lower_x()
    ensures
        filed(LOWER_X@, 'x', 0, LOWER_X@.len() as int),
        LOWER_X@.len() == 24,
{
    lemma_lower_x_0();
    lemma_lower_x_8();
    lemma_lower_x_16();
}

} // verus!
