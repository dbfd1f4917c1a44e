//! The names that begin with `I` or `i` are in order.

use crate::entities::{LOWER_I, UPPER_I};
use crate::laws::names::order::{filed, fits_at};
use vstd::prelude::*;

verus! {

proof fn lemma_upper_i_0()
    ensures
        filed(UPPER_I@, 'I', 0, 8),
{
    reveal_strlit("IEcy;");
    reveal_strlit("IJlig;");
    reveal_strlit("IOcy;");
    reveal_strlit("Iacute");
    reveal_strlit("Iacute;");
    reveal_strlit("Icirc");
    reveal_strlit("Icirc;");
    reveal_strlit("Icy;");
    reveal_strlit("Idot;");
    assert(fits_at(UPPER_I@, 'I', 0, 1));
    assert(fits_at(UPPER_I@, 'I', 1, 1));
    assert(fits_at(UPPER_I@, 'I', 2, 1));
    assert(fits_at(UPPER_I@, 'I', 3, 6));
    assert(fits_at(UPPER_I@, 'I', 4, 1));
    assert(fits_at(UPPER_I@, 'I', 5, 5));
    assert(fits_at(UPPER_I@, 'I', 6, 2));
    assert(fits_at(UPPER_I@, 'I', 7, 1));
}

proof fn lemma_upper_i_8()
    ensures
        filed(UPPER_I@, 'I', 8, 16),
{
    reveal_strlit("Idot;");
    reveal_strlit("Ifr;");
    reveal_strlit("Igrave");
    reveal_strlit("Igrave;");
    reveal_strlit("Im;");
    reveal_strlit("Imacr;");
    reveal_strlit("ImaginaryI;");
    reveal_strlit("Implies;");
    reveal_strlit("Int;");
    assert(fits_at(UPPER_I@, 'I', 8, 1));
    assert(fits_at(UPPER_I@, 'I', 9, 1));
    assert(fits_at(UPPER_I@, 'I', 10, 6));
    assert(fits_at(UPPER_I@, 'I', 11, 1));
    assert(fits_at(UPPER_I@, 'I', 12, 2));
    assert(fits_at(UPPER_I@, 'I', 13, 3));
    assert(fits_at(UPPER_I@, 'I', 14, 2));
    assert(fits_at(UPPER_I@, 'I', 15, 1));
}

proof fn lemma_upper_i_16()
    ensures
        filed(UPPER_I@, 'I', 16, 24),
{
    reveal_strlit("Int;");
    reveal_strlit("Integral;");
    reveal_strlit("Intersection;");
    reveal_strlit("InvisibleComma;");
    reveal_strlit("InvisibleTimes;");
    reveal_strlit("Iogon;");
    reveal_strlit("Iopf;");
    reveal_strlit("Iota;");
    reveal_strlit("Iscr;");
    assert(fits_at(UPPER_I@, 'I', 16, 3));
    assert(fits_at(UPPER_I@, 'I', 17, 4));
    assert(fits_at(UPPER_I@, 'I', 18, 2));
    assert(fits_at(UPPER_I@, 'I', 19, 9));
    assert(fits_at(UPPER_I@, 'I', 20, 1));
    assert(fits_at(UPPER_I@, 'I', 21, 2));
    assert(fits_at(UPPER_I@, 'I', 22, 2));
    assert(fits_at(UPPER_I@, 'I', 23, 1));
}

proof fn lemma_upper_i_24()
    ensures
        filed(UPPER_I@, 'I', 24, 29),
{
    reveal_strlit("Iscr;");
    reveal_strlit("Itilde;");
    reveal_strlit("Iukcy;");
    reveal_strlit("Iuml");
    reveal_strlit("Iuml;");
    assert(fits_at(UPPER_I@, 'I', 24, 1));
    assert(fits_at(UPPER_I@, 'I', 25, 1));
    assert(fits_at(UPPER_I@, 'I', 26, 2));
    assert(fits_at(UPPER_I@, 'I', 27, 4));
    assert(fits_at(UPPER_I@, 'I', 28, 0));
}

pub(super) proof fn lemma_upper_i()
    ensures
        filed(UPPER_I@, 'I', 0, UPPER_I@.len() as int),
        UPPER_I@.len() == 29,
{
    lemma_upper_i_0();
    lemma_upper_i_8();
    lemma_upper_i_16();
    lemma_upper_i_24();
}

proof fn lemma_lower_i_0()
    ensures
        filed(LOWER_I@, 'i', 0, 8),
{
    reveal_strlit("iacute");
    reveal_strlit("iacute;");
    reveal_strlit("ic;");
    reveal_strlit("icirc");
    reveal_strlit("icirc;");
    reveal_strlit("icy;");
    reveal_strlit("iecy;");
    reveal_strlit("iexcl");
    reveal_strlit("iexcl;");
    assert(fits_at(LOWER_I@, 'i', 0, 6));
    assert(fits_at(LOWER_I@, 'i', 1, 1));
    assert(fits_at(LOWER_I@, 'i', 2, 2));
    assert(fits_at(LOWER_I@, 'i', 3, 5));
    assert(fits_at(LOWER_I@, 'i', 4, 2));
    assert(fits_at(LOWER_I@, 'i', 5, 1));
    assert(fits_at(LOWER_I@, 'i', 6, 2));
    assert(fits_at(LOWER_I@, 'i', 7, 5));
}

proof fn lemma_lower_i_8()
    ensures
        filed(LOWER_I@, 'i', 8, 16),
{
    reveal_strlit("iexcl;");
    reveal_strlit("iff;");
    reveal_strlit("ifr;");
    reveal_strlit("igrave");
    reveal_strlit("igrave;");
    reveal_strlit("ii;");
    reveal_strlit("iiiint;");
    reveal_strlit("iiint;");
    reveal_strlit("iinfin;");
    assert(fits_at(LOWER_I@, 'i', 8, 1));
    assert(fits_at(LOWER_I@, 'i', 9, 2));
    assert(fits_at(LOWER_I@, 'i', 10, 1));
    assert(fits_at(LOWER_I@, 'i', 11, 6));
    assert(fits_at(LOWER_I@, 'i', 12, 1));
    assert(fits_at(LOWER_I@, 'i', 13, 2));
    assert(fits_at(LOWER_I@, 'i', 14, 3));
    assert(fits_at(LOWER_I@, 'i', 15, 2));
}

proof fn lemma_lower_i_16()
    ensures
        filed(LOWER_I@, 'i', 16, 24),
{
    reveal_strlit("iinfin;");
    reveal_strlit("iiota;");
    reveal_strlit("ijlig;");
    reveal_strlit("imacr;");
    reveal_strlit("image;");
    reveal_strlit("imagline;");
    reveal_strlit("imagpart;");
    reveal_strlit("imath;");
    reveal_strlit("imof;");
    assert(fits_at(LOWER_I@, 'i', 16, 2));
    assert(fits_at(LOWER_I@, 'i', 17, 1));
    assert(fits_at(LOWER_I@, 'i', 18, 1));
    assert(fits_at(LOWER_I@, 'i', 19, 3));
    assert(fits_at(LOWER_I@, 'i', 20, 4));
    assert(fits_at(LOWER_I@, 'i', 21, 4));
    assert(fits_at(LOWER_I@, 'i', 22, 3));
    assert(fits_at(LOWER_I@, 'i', 23, 2));
}

proof fn lemma_lower_i_24()
    ensures
        filed(LOWER_I@, 'i', 24, 32),
{
    reveal_strlit("imof;");
    reveal_strlit("imped;");
    reveal_strlit("in;");
    reveal_strlit("incare;");
    reveal_strlit("infin;");
    reveal_strlit("infintie;");
    reveal_strlit("inodot;");
    reveal_strlit("int;");
    reveal_strlit("intcal;");
    assert(fits_at(LOWER_I@, 'i', 24, 2));
    assert(fits_at(LOWER_I@, 'i', 25, 1));
    assert(fits_at(LOWER_I@, 'i', 26, 2));
    assert(fits_at(LOWER_I@, 'i', 27, 2));
    assert(fits_at(LOWER_I@, 'i', 28, 5));
    assert(fits_at(LOWER_I@, 'i', 29, 2));
    assert(fits_at(LOWER_I@, 'i', 30, 2));
    assert(fits_at(LOWER_I@, 'i', 31, 3));
}

proof fn lemma_lower_i_32()
    ensures
        filed(LOWER_I@, 'i', 32, 40),
{
    reveal_strlit("intcal;");
    reveal_strlit("integers;");
    reveal_strlit("intercal;");
    reveal_strlit("intlarhk;");
    reveal_strlit("intprod;");
    reveal_strlit("iocy;");
    reveal_strlit("iogon;");
    reveal_strlit("iopf;");
    reveal_strlit("iota;");
    assert(fits_at(LOWER_I@, 'i', 32, 3));
    assert(fits_at(LOWER_I@, 'i', 33, 4));
    assert(fits_at(LOWER_I@, 'i', 34, 3));
    assert(fits_at(LOWER_I@, 'i', 35, 3));
    assert(fits_at(LOWER_I@, 'i', 36, 1));
    assert(fits_at(LOWER_I@, 'i', 37, 2));
    assert(fits_at(LOWER_I@, 'i', 38, 2));
    assert(fits_at(LOWER_I@, 'i', 39, 2));
}

proof fn lemma_lower_i_40()
    ensures
        filed(LOWER_I@, 'i', 40, 48),
{
    reveal_strlit("iota;");
    reveal_strlit("iprod;");
    reveal_strlit("iquest");
    reveal_strlit("iquest;");
    reveal_strlit("iscr;");
    reveal_strlit("isin;");
    reveal_strlit("isinE;");
    reveal_strlit("isindot;");
    reveal_strlit("isins;");
    assert(fits_at(LOWER_I@, 'i', 40, 1));
    assert(fits_at(LOWER_I@, 'i', 41, 1));
    assert(fits_at(LOWER_I@, 'i', 42, 6));
    assert(fits_at(LOWER_I@, 'i', 43, 1));
    assert(fits_at(LOWER_I@, 'i', 44, 2));
    assert(fits_at(LOWER_I@, 'i', 45, 4));
    assert(fits_at(LOWER_I@, 'i', 46, 4));
    assert(fits_at(LOWER_I@, 'i', 47, 4));
}

proof fn lemma_lower_i_48()
    ensures
        filed(LOWER_I@, 'i', 48, 56),
{
    reveal_strlit("isins;");
    reveal_strlit("isinsv;");
    reveal_strlit("isinv;");
    reveal_strlit("it;");
    reveal_strlit("itilde;");
    reveal_strlit("iukcy;");
    reveal_strlit("iuml");
    reveal_strlit("iuml;");
    assert(fits_at(LOWER_I@, 'i', 48, 5));
    assert(fits_at(LOWER_I@, 'i', 49, 4));
    assert(fits_at(LOWER_I@, 'i', 50, 1));
    assert(fits_at(LOWER_I@, 'i', 51, 2));
    assert(fits_at(LOWER_I@, 'i', 52, 1));
    assert(fits_at(LOWER_I@, 'i', 53, 2));
    assert(fits_at(LOWER_I@, 'i', 54, 4));
    assert(fits_at(LOWER_I@, 'i', 55, 0));
}

pub(super) proof fn lemma_lower_i()
    ensures
        filed(LOWER_I@, 'i', 0, LOWER_I@.len() as int),
        LOWER_I@.len() == 56,
{
    lemma_lower_i_0();
    lemma_lower_i_8();
    lemma_lower_i_16();
    lemma_lower_i_24();
    lemma_lower_i_32();
    lemma_lower_i_40();
    lemma_lower_i_48();
}

} // verus!
