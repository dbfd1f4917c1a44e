//! The names that begin with `Z` or `z` are in order.

use crate::entities::{LOWER_Z, UPPER_Z};
use crate::laws::names::order::{filed, fits_at};
use vstd::prelude::*;

verus! {

proof fn lemma_upper_z_0()
    ensures
        filed(UPPER_Z@, 'Z', 0, 8),
{
    reveal_strlit("ZHcy;");
    reveal_strlit("Zacute;");
    reveal_strlit("Zcaron;");
    reveal_strlit("Zcy;");
    reveal_strlit("Zdot;");
    reveal_strlit("ZeroWidthSpace;");
    reveal_strlit("Zeta;");
    reveal_strlit("Zfr;");
    reveal_strlit("Zopf;");
    assert(fits_at(UPPER_Z@, 'Z', 0, 1));
    assert(fits_at(UPPER_Z@, 'Z', 1, 1));
    assert(fits_at(UPPER_Z@, 'Z', 2, 2));
    assert(fits_at(UPPER_Z@, 'Z', 3, 1));
    assert(fits_at(UPPER_Z@, 'Z', 4, 1));
    assert(fits_at(UPPER_Z@, 'Z', 5, 2));
    assert(fits_at(UPPER_Z@, 'Z', 6, 1));
    assert(fits_at(UPPER_Z@, 'Z', 7, 1));
}

proof fn lemma_upper_z_8()
    ensures
        filed(UPPER_Z@, 'Z', 8, 10),
{
    reveal_strlit("Zopf;");
    reveal_strlit("Zscr;");
    assert(fits_at(UPPER_Z@, 'Z', 8, 1));
    assert(fits_at(UPPER_Z@, 'Z', 9, 0));
}

pub(super) proof fn lemma_upper_z()
    ensures
        filed(UPPER_Z@, 'Z', 0, UPPER_Z@.len() as int),
        UPPER_Z@.len() == 10,
{
    lemma_upper_z_0();
    lemma_upper_z_8();
}

proof fn lemma_lower_z_0()
    ensures
        filed(LOWER_Z@, 'z', 0, 8),
{
    reveal_strlit("zacute;");
    reveal_strlit("zcaron;");
    reveal_strlit("zcy;");
    reveal_strlit("zdot;");
    reveal_strlit("zeetrf;");
    reveal_strlit("zeta;");
    reveal_strlit("zfr;");
    reveal_strlit("zhcy;");
    reveal_strlit("zigrarr;");
    assert(fits_at(LOWER_Z@, 'z', 0, 1));
    assert(fits_at(LOWER_Z@, 'z', 1, 2));
    assert(fits_at(LOWER_Z@, 'z', 2, 1));
    assert(fits_at(LOWER_Z@, 'z', 3, 1));
    assert(fits_at(LOWER_Z@, 'z', 4, 2));
    assert(fits_at(LOWER_Z@, 'z', 5, 1));
    assert(fits_at(LOWER_Z@, 'z', 6, 1));
    assert(fits_at(LOWER_Z@, 'z', 7, 1));
}

proof fn lemma_lower_z_8()
    ensures
        filed(LOWER_Z@, 'z', 8, 13),
{
    reveal_strlit("zigrarr;");
    reveal_strlit("zopf;");
    reveal_strlit("zscr;");
    reveal_strlit("zwj;");
    reveal_strlit("zwnj;");
    assert(fits_at(LOWER_Z@, 'z', 8, 1));
    assert(fits_at(LOWER_Z@, 'z', 9, 1));
    assert(fits_at(LOWER_Z@, 'z', 10, 1));
    assert(fits_at(LOWER_Z@, 'z', 11, 2));
    assert(fits_at(LOWER_Z@, 'z', 12, 0));
}

pub(super) proof fn lemma_lower_z()
    ensures
        filed(LOWER_Z@, 'z', 0, LOWER_Z@.len() as int),
        LOWER_Z@.len() == 13,
{
    lemma_lower_z_0();
    lemma_lower_z_8();
}

} // verus!
