//! The names that begin with `H` or `h` are in order.

use crate::entities::{LOWER_H, UPPER_H};
use crate::laws::names::order::{filed, fits_at};
use vstd::prelude::*;

verus! {

proof fn lemma_upper_h_0()
    ensures
        filed(UPPER_H@, 'H', 0, 8),
{
    reveal_strlit("HARDcy;");
    reveal_strlit("Hacek;");
    reveal_strlit("Hat;");
    reveal_strlit("Hcirc;");
    reveal_strlit("Hfr;");
    reveal_strlit("HilbertSpace;");
    reveal_strlit("Hopf;");
    reveal_strlit("HorizontalLine;");
    reveal_strlit("Hscr;");
    assert(fits_at(UPPER_H@, 'H', 0, 1));
    assert(fits_at(UPPER_H@, 'H', 1, 2));
    assert(fits_at(UPPER_H@, 'H', 2, 1));
    assert(fits_at(UPPER_H@, 'H', 3, 1));
    assert(fits_at(UPPER_H@, 'H', 4, 1));
    assert(fits_at(UPPER_H@, 'H', 5, 1));
    assert(fits_at(UPPER_H@, 'H', 6, 2));
    assert(fits_at(UPPER_H@, 'H', 7, 1));
}

proof fn lemma_upper_h_8()
    ensures
        filed(UPPER_H@, 'H', 8, 12),
{
    reveal_strlit("Hscr;");
    reveal_strlit("Hstrok;");
    reveal_strlit("HumpDownHump;");
    reveal_strlit("HumpEqual;");
    assert(fits_at(UPPER_H@, 'H', 8, 2));
    assert(fits_at(UPPER_H@, 'H', 9, 1));
    assert(fits_at(UPPER_H@, 'H', 10, 4));
    assert(fits_at(UPPER_H@, 'H', 11, 0));
}

pub(super) proof fn lemma_upper_h()
    ensures
        filed(UPPER_H@, 'H', 0, UPPER_H@.len() as int),
        UPPER_H@.len() == 12,
{
    lemma_upper_h_0();
    lemma_upper_h_8();
}

proof fn lemma_lower_h_0()
    ensures
        filed(LOWER_H@, 'h', 0, 8),
{
    reveal_strlit("hArr;");
    reveal_strlit("hairsp;");
    reveal_strlit("half;");
    reveal_strlit("hamilt;");
    reveal_strlit("hardcy;");
    reveal_strlit("harr;");
    reveal_strlit("harrcir;");
    reveal_strlit("harrw;");
    reveal_strlit("hbar;");
    assert(fits_at(LOWER_H@, 'h', 0, 1));
    assert(fits_at(LOWER_H@, 'h', 1, 2));
    assert(fits_at(LOWER_H@, 'h', 2, 2));
    assert(fits_at(LOWER_H@, 'h', 3, 2));
    assert(fits_at(LOWER_H@, 'h', 4, 3));
    assert(fits_at(LOWER_H@, 'h', 5, 4));
    assert(fits_at(LOWER_H@, 'h', 6, 4));
    assert(fits_at(LOWER_H@, 'h', 7, 1));
}

proof fn lemma_lower_h_8()
    ensures
        filed(LOWER_H@, 'h', 8, 16),
{
    reveal_strlit("hbar;");
    reveal_strlit("hcirc;");
    reveal_strlit("hearts;");
    reveal_strlit("heartsuit;");
    reveal_strlit("hellip;");
    reveal_strlit("hercon;");
    reveal_strlit("hfr;");
    reveal_strlit("hksearow;");
    reveal_strlit("hkswarow;");
    assert(fits_at(LOWER_H@, 'h', 8, 1));
    assert(fits_at(LOWER_H@, 'h', 9, 1));
    assert(fits_at(LOWER_H@, 'h', 10, 6));
    assert(fits_at(LOWER_H@, 'h', 11, 2));
    assert(fits_at(LOWER_H@, 'h', 12, 2));
    assert(fits_at(LOWER_H@, 'h', 13, 1));
    assert(fits_at(LOWER_H@, 'h', 14, 1));
    assert(fits_at(LOWER_H@, 'h', 15, 3));
}

proof fn lemma_lower_h_16()
    ensures
        filed(LOWER_H@, 'h', 16, 24),
{
    reveal_strlit("hkswarow;");
    reveal_strlit("hoarr;");
    reveal_strlit("homtht;");
    reveal_strlit("hookleftarrow;");
    reveal_strlit("hookrightarrow;");
    reveal_strlit("hopf;");
    reveal_strlit("horbar;");
    reveal_strlit("hscr;");
    reveal_strlit("hslash;");
    assert(fits_at(LOWER_H@, 'h', 16, 1));
    assert(fits_at(LOWER_H@, 'h', 17, 2));
    assert(fits_at(LOWER_H@, 'h', 18, 2));
    assert(fits_at(LOWER_H@, 'h', 19, 4));
    assert(fits_at(LOWER_H@, 'h', 20, 2));
    assert(fits_at(LOWER_H@, 'h', 21, 2));
    assert(fits_at(LOWER_H@, 'h', 22, 1));
    assert(fits_at(LOWER_H@, 'h', 23, 2));
}

proof fn lemma_lower_h_24()
    ensures
        filed(LOWER_H@, 'h', 24, 28),
{
    reveal_strlit("hslash;");
    reveal_strlit("hstrok;");
    reveal_strlit("hybull;");
    reveal_strlit("hyphen;");
    assert(fits_at(LOWER_H@, 'h', 24, 2));
    assert(fits_at(LOWER_H@, 'h', 25, 1));
    assert(fits_at(LOWER_H@, 'h', 26, 2));
    assert(fits_at(LOWER_H@, 'h', 27, 0));
}

pub(super) proof fn lemma_lower_h()
    ensures
        filed(LOWER_H@, 'h', 0, LOWER_H@.len() as int),
        LOWER_H@.len() == 28,
{
    lemma_lower_h_0();
    lemma_lower_h_8();
    lemma_lower_h_16();
    lemma_lower_h_24();
}

} // verus!
