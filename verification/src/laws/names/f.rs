//! The names that begin with `F` or `f` are in order.

use crate::entities::{LOWER_F, UPPER_F};
use crate::laws::names::order::{filed, fits_at, lemma_stands_alone, stands_alone};
use vstd::prelude::*;

verus! {

proof fn lemma_upper_f_0()
    ensures
        filed(UPPER_F@, 'F', 0, 8),
{
    reveal_strlit("Fcy;");
    reveal_strlit("Ffr;");
    reveal_strlit("FilledSmallSquare;");
    reveal_strlit("FilledVerySmallSquare;");
    reveal_strlit("Fopf;");
    reveal_strlit("ForAll;");
    reveal_strlit("Fouriertrf;");
    reveal_strlit("Fscr;");
    assert(fits_at(UPPER_F@, 'F', 0, 1));
    assert(fits_at(UPPER_F@, 'F', 1, 1));
    assert(fits_at(UPPER_F@, 'F', 2, 6));
    assert(fits_at(UPPER_F@, 'F', 3, 1));
    assert(fits_at(UPPER_F@, 'F', 4, 2));
    assert(fits_at(UPPER_F@, 'F', 5, 2));
    assert(fits_at(UPPER_F@, 'F', 6, 1));
    assert(fits_at(UPPER_F@, 'F', 7, 0));
}

pub(super) proof fn lemma_upper_f()
    ensures
        filed(UPPER_F@, 'F', 0, UPPER_F@.len() as int),
        UPPER_F@.len() == 8,
{
    lemma_upper_f_0();
}

proof fn lemma_lower_f_0()
    ensures
        filed(LOWER_F@, 'f', 0, 8),
{
    reveal_strlit("fallingdotseq;");
    reveal_strlit("fcy;");
    reveal_strlit("female;");
    reveal_strlit("ffilig;");
    reveal_strlit("fflig;");
    reveal_strlit("ffllig;");
    reveal_strlit("ffr;");
    reveal_strlit("filig;");
    reveal_strlit("flat;");
    assert(fits_at(LOWER_F@, 'f', 0, 1));
    assert(fits_at(LOWER_F@, 'f', 1, 1));
    assert(fits_at(LOWER_F@, 'f', 2, 1));
    assert(fits_at(LOWER_F@, 'f', 3, 2));
    assert(fits_at(LOWER_F@, 'f', 4, 3));
    assert(fits_at(LOWER_F@, 'f', 5, 2));
    assert(fits_at(LOWER_F@, 'f', 6, 1));
    assert(fits_at(LOWER_F@, 'f', 7, 1));
}

proof fn lemma_lower_f_8()
    ensures
        filed(LOWER_F@, 'f', 8, 16),
{
    reveal_strlit("flat;");
    reveal_strlit("fllig;");
    reveal_strlit("fltns;");
    reveal_strlit("fnof;");
    reveal_strlit("fopf;");
    reveal_strlit("forall;");
    reveal_strlit("fork;");
    reveal_strlit("forkv;");
    reveal_strlit("fpartint;");
    assert(fits_at(LOWER_F@, 'f', 8, 2));
    assert(fits_at(LOWER_F@, 'f', 9, 2));
    assert(fits_at(LOWER_F@, 'f', 10, 1));
    assert(fits_at(LOWER_F@, 'f', 11, 1));
    assert(fits_at(LOWER_F@, 'f', 12, 2));
    assert(fits_at(LOWER_F@, 'f', 13, 3));
    assert(fits_at(LOWER_F@, 'f', 14, 4));
    assert(fits_at(LOWER_F@, 'f', 15, 1));
}

proof fn lemma_lower_f_16()
    ensures
        filed(LOWER_F@, 'f', 16, 24),
{
    reveal_strlit("fpartint;");
    reveal_strlit("frac12");
    reveal_strlit("frac12;");
    reveal_strlit("frac13;");
    reveal_strlit("frac14");
    reveal_strlit("frac14;");
    reveal_strlit("frac15;");
    reveal_strlit("frac16;");
    reveal_strlit("frac18;");
    assert(fits_at(LOWER_F@, 'f', 16, 1));
    assert(fits_at(LOWER_F@, 'f', 17, 6));
    assert(fits_at(LOWER_F@, 'f', 18, 5));
    assert(fits_at(LOWER_F@, 'f', 19, 5));
    assert(fits_at(LOWER_F@, 'f', 20, 6));
    assert(fits_at(LOWER_F@, 'f', 21, 5));
    assert(fits_at(LOWER_F@, 'f', 22, 5));
    assert(fits_at(LOWER_F@, 'f', 23, 5));
}

proof fn lemma_lower_f_24()
    ensures
        filed(LOWER_F@, 'f', 24, 32),
{
    reveal_strlit("frac18;");
    reveal_strlit("frac23;");
    reveal_strlit("frac25;");
    reveal_strlit("frac34");
    reveal_strlit("frac34;");
    reveal_strlit("frac35;");
    reveal_strlit("frac38;");
    reveal_strlit("frac45;");
    reveal_strlit("frac56;");
    assert(fits_at(LOWER_F@, 'f', 24, 4));
    assert(fits_at(LOWER_F@, 'f', 25, 5));
    assert(fits_at(LOWER_F@, 'f', 26, 4));
    assert(fits_at(LOWER_F@, 'f', 27, 6));
    assert(fits_at(LOWER_F@, 'f', 28, 5));
    assert(fits_at(LOWER_F@, 'f', 29, 5));
    assert(fits_at(LOWER_F@, 'f', 30, 4));
    assert(fits_at(LOWER_F@, 'f', 31, 4));
}

proof fn lemma_lower_f_32()
    ensures
        filed(LOWER_F@, 'f', 32, 38),
{
    reveal_strlit("frac56;");
    reveal_strlit("frac58;");
    reveal_strlit("frac78;");
    reveal_strlit("frasl;");
    reveal_strlit("frown;");
    reveal_strlit("fscr;");
    assert(fits_at(LOWER_F@, 'f', 32, 5));
    assert(fits_at(LOWER_F@, 'f', 33, 4));
    assert(fits_at(LOWER_F@, 'f', 34, 3));
    assert(fits_at(LOWER_F@, 'f', 35, 2));
    assert(fits_at(LOWER_F@, 'f', 36, 1));
    assert(fits_at(LOWER_F@, 'f', 37, 0));
}

pub(super) proof fn lemma_lower_f()
    ensures
        filed(LOWER_F@, 'f', 0, LOWER_F@.len() as int),
        LOWER_F@.len() == 38,
{
    lemma_lower_f_0();
    lemma_lower_f_8();
    lemma_lower_f_16();
    lemma_lower_f_24();
    lemma_lower_f_32();
}

pub(super) proof fn lemma_lower_f_pairs()
    ensures
        forall|i: int| 25 <= i < 26 ==> #[trigger] stands_alone(i, LOWER_F@, 'f'),
{
    lemma_lower_f();
    reveal_strlit("fjlig;");
    reveal_strlit("filig;");
    reveal_strlit("flat;");
    lemma_stands_alone(25, LOWER_F@, 'f', 8, 1, 1);
}

} // verus!
