//! The names that begin with `E` or `e` are in order.

use crate::entities::{LOWER_E, UPPER_E};
use crate::laws::names::order::{filed, fits_at};
use vstd::prelude::*;

verus! {

proof fn lemma_upper_e_0()
    ensures
        filed(UPPER_E@, 'E', 0, 8),
{
    reveal_strlit("ENG;");
    reveal_strlit("ETH");
    reveal_strlit("ETH;");
    reveal_strlit("Eacute");
    reveal_strlit("Eacute;");
    reveal_strlit("Ecaron;");
    reveal_strlit("Ecirc");
    reveal_strlit("Ecirc;");
    reveal_strlit("Ecy;");
    assert(fits_at(UPPER_E@, 'E', 0, 1));
    assert(fits_at(UPPER_E@, 'E', 1, 3));
    assert(fits_at(UPPER_E@, 'E', 2, 1));
    assert(fits_at(UPPER_E@, 'E', 3, 6));
    assert(fits_at(UPPER_E@, 'E', 4, 1));
    assert(fits_at(UPPER_E@, 'E', 5, 2));
    assert(fits_at(UPPER_E@, 'E', 6, 5));
    assert(fits_at(UPPER_E@, 'E', 7, 2));
}

proof fn lemma_upper_e_8()
    ensures
        filed(UPPER_E@, 'E', 8, 16),
{
    reveal_strlit("Ecy;");
    reveal_strlit("Edot;");
    reveal_strlit("Efr;");
    reveal_strlit("Egrave");
    reveal_strlit("Egrave;");
    reveal_strlit("Element;");
    reveal_strlit("Emacr;");
    reveal_strlit("EmptySmallSquare;");
    reveal_strlit("EmptyVerySmallSquare;");
    assert(fits_at(UPPER_E@, 'E', 8, 1));
    assert(fits_at(UPPER_E@, 'E', 9, 1));
    assert(fits_at(UPPER_E@, 'E', 10, 1));
    assert(fits_at(UPPER_E@, 'E', 11, 6));
    assert(fits_at(UPPER_E@, 'E', 12, 1));
    assert(fits_at(UPPER_E@, 'E', 13, 1));
    assert(fits_at(UPPER_E@, 'E', 14, 2));
    assert(fits_at(UPPER_E@, 'E', 15, 5));
}

proof fn lemma_upper_e_16()
    ensures
        filed(UPPER_E@, 'E', 16, 24),
{
    reveal_strlit("EmptyVerySmallSquare;");
    reveal_strlit("Eogon;");
    reveal_strlit("Eopf;");
    reveal_strlit("Epsilon;");
    reveal_strlit("Equal;");
    reveal_strlit("EqualTilde;");
    reveal_strlit("Equilibrium;");
    reveal_strlit("Escr;");
    reveal_strlit("Esim;");
    assert(fits_at(UPPER_E@, 'E', 16, 1));
    assert(fits_at(UPPER_E@, 'E', 17, 2));
    assert(fits_at(UPPER_E@, 'E', 18, 1));
    assert(fits_at(UPPER_E@, 'E', 19, 1));
    assert(fits_at(UPPER_E@, 'E', 20, 5));
    assert(fits_at(UPPER_E@, 'E', 21, 3));
    assert(fits_at(UPPER_E@, 'E', 22, 1));
    assert(fits_at(UPPER_E@, 'E', 23, 2));
}

proof fn lemma_upper_e_24()
    ensures
        filed(UPPER_E@, 'E', 24, 30),
{
    reveal_strlit("Esim;");
    reveal_strlit("Eta;");
    reveal_strlit("Euml");
    reveal_strlit("Euml;");
    reveal_strlit("Exists;");
    reveal_strlit("ExponentialE;");
    assert(fits_at(UPPER_E@, 'E', 24, 1));
    assert(fits_at(UPPER_E@, 'E', 25, 1));
    assert(fits_at(UPPER_E@, 'E', 26, 4));
    assert(fits_at(UPPER_E@, 'E', 27, 1));
    assert(fits_at(UPPER_E@, 'E', 28, 2));
    assert(fits_at(UPPER_E@, 'E', 29, 0));
}

pub(super) proof fn lemma_upper_e()
    ensures
        filed(UPPER_E@, 'E', 0, UPPER_E@.len() as int),
        UPPER_E@.len() == 30,
{
    lemma_upper_e_0();
    lemma_upper_e_8();
    lemma_upper_e_16();
    lemma_upper_e_24();
}

proof fn lemma_lower_e_0()
    ensures
        filed(LOWER_E@, 'e', 0, 8),
{
    reveal_strlit("eDDot;");
    reveal_strlit("eDot;");
    reveal_strlit("eacute");
    reveal_strlit("eacute;");
    reveal_strlit("easter;");
    reveal_strlit("ecaron;");
    reveal_strlit("ecir;");
    reveal_strlit("ecirc");
    reveal_strlit("ecirc;");
    assert(fits_at(LOWER_E@, 'e', 0, 2));
    assert(fits_at(LOWER_E@, 'e', 1, 1));
    assert(fits_at(LOWER_E@, 'e', 2, 6));
    assert(fits_at(LOWER_E@, 'e', 3, 2));
    assert(fits_at(LOWER_E@, 'e', 4, 1));
    assert(fits_at(LOWER_E@, 'e', 5, 2));
    assert(fits_at(LOWER_E@, 'e', 6, 4));
    assert(fits_at(LOWER_E@, 'e', 7, 5));
}

proof fn lemma_lower_e_8()
    ensures
        filed(LOWER_E@, 'e', 8, 16),
{
    reveal_strlit("ecirc;");
    reveal_strlit("ecolon;");
    reveal_strlit("ecy;");
    reveal_strlit("edot;");
    reveal_strlit("ee;");
    reveal_strlit("efDot;");
    reveal_strlit("efr;");
    reveal_strlit("eg;");
    reveal_strlit("egrave");
    assert(fits_at(LOWER_E@, 'e', 8, 2));
    assert(fits_at(LOWER_E@, 'e', 9, 2));
    assert(fits_at(LOWER_E@, 'e', 10, 1));
    assert(fits_at(LOWER_E@, 'e', 11, 1));
    assert(fits_at(LOWER_E@, 'e', 12, 1));
    assert(fits_at(LOWER_E@, 'e', 13, 2));
    assert(fits_at(LOWER_E@, 'e', 14, 1));
    assert(fits_at(LOWER_E@, 'e', 15, 2));
}

proof fn lemma_lower_e_16()
    ensures
        filed(LOWER_E@, 'e', 16, 24),
{
    reveal_strlit("egrave");
    reveal_strlit("egrave;");
    reveal_strlit("egs;");
    reveal_strlit("egsdot;");
    reveal_strlit("el;");
    reveal_strlit("elinters;");
    reveal_strlit("ell;");
    reveal_strlit("els;");
    reveal_strlit("elsdot;");
    assert(fits_at(LOWER_E@, 'e', 16, 6));
    assert(fits_at(LOWER_E@, 'e', 17, 2));
    assert(fits_at(LOWER_E@, 'e', 18, 3));
    assert(fits_at(LOWER_E@, 'e', 19, 1));
    assert(fits_at(LOWER_E@, 'e', 20, 2));
    assert(fits_at(LOWER_E@, 'e', 21, 2));
    assert(fits_at(LOWER_E@, 'e', 22, 2));
    assert(fits_at(LOWER_E@, 'e', 23, 3));
}

proof fn lemma_lower_e_24()
    ensures
        filed(LOWER_E@, 'e', 24, 32),
{
    reveal_strlit("elsdot;");
    reveal_strlit("emacr;");
    reveal_strlit("empty;");
    reveal_strlit("emptyset;");
    reveal_strlit("emptyv;");
    reveal_strlit("emsp13;");
    reveal_strlit("emsp14;");
    reveal_strlit("emsp;");
    reveal_strlit("eng;");
    assert(fits_at(LOWER_E@, 'e', 24, 1));
    assert(fits_at(LOWER_E@, 'e', 25, 2));
    assert(fits_at(LOWER_E@, 'e', 26, 5));
    assert(fits_at(LOWER_E@, 'e', 27, 5));
    assert(fits_at(LOWER_E@, 'e', 28, 2));
    assert(fits_at(LOWER_E@, 'e', 29, 5));
    assert(fits_at(LOWER_E@, 'e', 30, 4));
    assert(fits_at(LOWER_E@, 'e', 31, 1));
}

proof fn lemma_lower_e_32()
    ensures
        filed(LOWER_E@, 'e', 32, 40),
{
    reveal_strlit("eng;");
    reveal_strlit("ensp;");
    reveal_strlit("eogon;");
    reveal_strlit("eopf;");
    reveal_strlit("epar;");
    reveal_strlit("eparsl;");
    reveal_strlit("eplus;");
    reveal_strlit("epsi;");
    reveal_strlit("epsilon;");
    assert(fits_at(LOWER_E@, 'e', 32, 2));
    assert(fits_at(LOWER_E@, 'e', 33, 1));
    assert(fits_at(LOWER_E@, 'e', 34, 2));
    assert(fits_at(LOWER_E@, 'e', 35, 1));
    assert(fits_at(LOWER_E@, 'e', 36, 4));
    assert(fits_at(LOWER_E@, 'e', 37, 2));
    assert(fits_at(LOWER_E@, 'e', 38, 2));
    assert(fits_at(LOWER_E@, 'e', 39, 4));
}

proof fn lemma_lower_e_40()
    ensures
        filed(LOWER_E@, 'e', 40, 48),
{
    reveal_strlit("epsilon;");
    reveal_strlit("epsiv;");
    reveal_strlit("eqcirc;");
    reveal_strlit("eqcolon;");
    reveal_strlit("eqsim;");
    reveal_strlit("eqslantgtr;");
    reveal_strlit("eqslantless;");
    reveal_strlit("equals;");
    reveal_strlit("equest;");
    assert(fits_at(LOWER_E@, 'e', 40, 4));
    assert(fits_at(LOWER_E@, 'e', 41, 1));
    assert(fits_at(LOWER_E@, 'e', 42, 3));
    assert(fits_at(LOWER_E@, 'e', 43, 2));
    assert(fits_at(LOWER_E@, 'e', 44, 3));
    assert(fits_at(LOWER_E@, 'e', 45, 7));
    assert(fits_at(LOWER_E@, 'e', 46, 2));
    assert(fits_at(LOWER_E@, 'e', 47, 3));
}

proof fn lemma_lower_e_48()
    ensures
        filed(LOWER_E@, 'e', 48, 56),
{
    reveal_strlit("equest;");
    reveal_strlit("equiv;");
    reveal_strlit("equivDD;");
    reveal_strlit("eqvparsl;");
    reveal_strlit("erDot;");
    reveal_strlit("erarr;");
    reveal_strlit("escr;");
    reveal_strlit("esdot;");
    reveal_strlit("esim;");
    assert(fits_at(LOWER_E@, 'e', 48, 3));
    assert(fits_at(LOWER_E@, 'e', 49, 5));
    assert(fits_at(LOWER_E@, 'e', 50, 2));
    assert(fits_at(LOWER_E@, 'e', 51, 1));
    assert(fits_at(LOWER_E@, 'e', 52, 2));
    assert(fits_at(LOWER_E@, 'e', 53, 1));
    assert(fits_at(LOWER_E@, 'e', 54, 2));
    assert(fits_at(LOWER_E@, 'e', 55, 2));
}

proof fn lemma_lower_e_56()
    ensures
        filed(LOWER_E@, 'e', 56, 64),
{
    reveal_strlit("esim;");
    reveal_strlit("eta;");
    reveal_strlit("eth");
    reveal_strlit("eth;");
    reveal_strlit("euml");
    reveal_strlit("euml;");
    reveal_strlit("euro;");
    reveal_strlit("excl;");
    reveal_strlit("exist;");
    assert(fits_at(LOWER_E@, 'e', 56, 1));
    assert(fits_at(LOWER_E@, 'e', 57, 2));
    assert(fits_at(LOWER_E@, 'e', 58, 3));
    assert(fits_at(LOWER_E@, 'e', 59, 1));
    assert(fits_at(LOWER_E@, 'e', 60, 4));
    assert(fits_at(LOWER_E@, 'e', 61, 2));
    assert(fits_at(LOWER_E@, 'e', 62, 1));
    assert(fits_at(LOWER_E@, 'e', 63, 2));
}

proof fn lemma_lower_e_64()
    ensures
        filed(LOWER_E@, 'e', 64, 67),
{
    reveal_strlit("exist;");
    reveal_strlit("expectation;");
    reveal_strlit("exponentiale;");
    assert(fits_at(LOWER_E@, 'e', 64, 2));
    assert(fits_at(LOWER_E@, 'e', 65, 3));
    assert(fits_at(LOWER_E@, 'e', 66, 0));
}

pub(super) proof fn lemma_lower_e()
    ensures
        filed(LOWER_E@, 'e', 0, LOWER_E@.len() as int),
        LOWER_E@.len() == 67,
{
    lemma_lower_e_0();
    lemma_lower_e_8();
    lemma_lower_e_16();
    lemma_lower_e_24();
    lemma_lower_e_32();
    lemma_lower_e_40();
    lemma_lower_e_48();
    lemma_lower_e_56();
    lemma_lower_e_64();
}

} // verus!
