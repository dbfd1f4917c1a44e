//! The names that begin with `Y` or `y` are in order.

use crate::entities::{LOWER_Y, UPPER_Y};
use crate::laws::names::order::{filed, fits_at};
use vstd::prelude::*;

verus! {

proof fn lemma_upper_y_0()
    ensures
        filed(UPPER_Y@, 'Y', 0, 8),
{
    reveal_strlit("YAcy;");
    reveal_strlit("YIcy;");
    reveal_strlit("YUcy;");
    reveal_strlit("Yacute");
    reveal_strlit("Yacute;");
    reveal_strlit("Ycirc;");
    reveal_strlit("Ycy;");
    reveal_strlit("Yfr;");
    reveal_strlit("Yopf;");
    assert(fits_at(UPPER_Y@, 'Y', 0, 1));
    assert(fits_at(UPPER_Y@, 'Y', 1, 1));
    assert(fits_at(UPPER_Y@, 'Y', 2, 1));
    assert(fits_at(UPPER_Y@, 'Y', 3, 6));
    assert(fits_at(UPPER_Y@, 'Y', 4, 1));
    assert(fits_at(UPPER_Y@, 'Y', 5, 2));
    assert(fits_at(UPPER_Y@, 'Y', 6, 1));
    assert(fits_at(UPPER_Y@, 'Y', 7, 1));
}

proof fn lemma_upper_y_8()
    ensures
        filed(UPPER_Y@, 'Y', 8, 11),
{
    reveal_strlit("Yopf;");
    reveal_strlit("Yscr;");
    reveal_strlit("Yuml;");
    assert(fits_at(UPPER_Y@, 'Y', 8, 1));
    assert(fits_at(UPPER_Y@, 'Y', 9, 1));
    assert(fits_at(UPPER_Y@, 'Y', 10, 0));
}

pub(super) proof fn lemma_upper_y()
    ensures
        filed(UPPER_Y@, 'Y', 0, UPPER_Y@.len() as int),
        UPPER_Y@.len() == 11,
{
    lemma_upper_y_0();
    lemma_upper_y_8();
}

proof fn lemma_lower_y_0()
    ensures
        filed(LOWER_Y@, 'y', 0, 8),
{
    reveal_strlit("yacute");
    reveal_strlit("yacute;");
    reveal_strlit("yacy;");
    reveal_strlit("ycirc;");
    reveal_strlit("ycy;");
    reveal_strlit("yen");
    reveal_strlit("yen;");
    reveal_strlit("yfr;");
    reveal_strlit("yicy;");
    assert(fits_at(LOWER_Y@, 'y', 0, 6));
    assert(fits_at(LOWER_Y@, 'y', 1, 3));
    assert(fits_at(LOWER_Y@, 'y', 2, 1));
    assert(fits_at(LOWER_Y@, 'y', 3, 2));
    assert(fits_at(LOWER_Y@, 'y', 4, 1));
    assert(fits_at(LOWER_Y@, 'y', 5, 3));
    assert(fits_at(LOWER_Y@, 'y', 6, 1));
    assert(fits_at(LOWER_Y@, 'y', 7, 1));
}

proof fn lemma_lower_y_8()
    ensures
        filed(LOWER_Y@, 'y', 8, 14),
{
    reveal_strlit("yicy;");
    reveal_strlit("yopf;");
    reveal_strlit("yscr;");
    reveal_strlit("yucy;");
    reveal_strlit("yuml");
    reveal_strlit("yuml;");
    assert(fits_at(LOWER_Y@, 'y', 8, 1));
    assert(fits_at(LOWER_Y@, 'y', 9, 1));
    assert(fits_at(LOWER_Y@, 'y', 10, 1));
    assert(fits_at(LOWER_Y@, 'y', 11, 2));
    assert(fits_at(LOWER_Y@, 'y', 12, 4));
    assert(fits_at(LOWER_Y@, 'y', 13, 0));
}

pub(super) proof fn lemma_lower_y()
    ensures
        filed(LOWER_Y@, 'y', 0, LOWER_Y@.len() as int),
        LOWER_Y@.len() == 14,
{
    lemma_lower_y_0();
    lemma_lower_y_8();
}

} // verus!
