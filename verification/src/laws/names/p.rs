//! The names that begin with `P` or `p` are in order.

use crate::entities::{LOWER_P, UPPER_P};
use crate::laws::names::order::{filed, fits_at};
use vstd::prelude::*;

verus! {

proof fn lemma_upper_p_0()
    ensures
        filed(UPPER_P@, 'P', 0, 8),
{
    reveal_strlit("PartialD;");
    reveal_strlit("Pcy;");
    reveal_strlit("Pfr;");
    reveal_strlit("Phi;");
    reveal_strlit("Pi;");
    reveal_strlit("PlusMinus;");
    reveal_strlit("Poincareplane;");
    reveal_strlit("Popf;");
    reveal_strlit("Pr;");
    assert(fits_at(UPPER_P@, 'P', 0, 1));
    assert(fits_at(UPPER_P@, 'P', 1, 1));
    assert(fits_at(UPPER_P@, 'P', 2, 1));
    assert(fits_at(UPPER_P@, 'P', 3, 1));
    assert(fits_at(UPPER_P@, 'P', 4, 1));
    assert(fits_at(UPPER_P@, 'P', 5, 1));
    assert(fits_at(UPPER_P@, 'P', 6, 2));
    assert(fits_at(UPPER_P@, 'P', 7, 1));
}

proof fn lemma_upper_p_8()
    ensures
        filed(UPPER_P@, 'P', 8, 16),
{
    reveal_strlit("Pr;");
    reveal_strlit("Precedes;");
    reveal_strlit("PrecedesEqual;");
    reveal_strlit("PrecedesSlantEqual;");
    reveal_strlit("PrecedesTilde;");
    reveal_strlit("Prime;");
    reveal_strlit("Product;");
    reveal_strlit("Proportion;");
    reveal_strlit("Proportional;");
    assert(fits_at(UPPER_P@, 'P', 8, 2));
    assert(fits_at(UPPER_P@, 'P', 9, 8));
    assert(fits_at(UPPER_P@, 'P', 10, 8));
    assert(fits_at(UPPER_P@, 'P', 11, 8));
    assert(fits_at(UPPER_P@, 'P', 12, 2));
    assert(fits_at(UPPER_P@, 'P', 13, 2));
    assert(fits_at(UPPER_P@, 'P', 14, 3));
    assert(fits_at(UPPER_P@, 'P', 15, 10));
}

proof fn lemma_upper_p_16()
    ensures
        filed(UPPER_P@, 'P', 16, 19),
{
    reveal_strlit("Proportional;");
    reveal_strlit("Pscr;");
    reveal_strlit("Psi;");
    assert(fits_at(UPPER_P@, 'P', 16, 1));
    assert(fits_at(UPPER_P@, 'P', 17, 2));
    assert(fits_at(UPPER_P@, 'P', 18, 0));
}

pub(super) proof fn lemma_upper_p()
    ensures
        filed(UPPER_P@, 'P', 0, UPPER_P@.len() as int),
        UPPER_P@.len() == 19,
{
    lemma_upper_p_0();
    lemma_upper_p_8();
    lemma_upper_p_16();
}

proof fn lemma_lower_p_0()
    ensures
        filed(LOWER_P@, 'p', 0, 8),
{
    reveal_strlit("par;");
    reveal_strlit("para");
    reveal_strlit("para;");
    reveal_strlit("parallel;");
    reveal_strlit("parsim;");
    reveal_strlit("parsl;");
    reveal_strlit("part;");
    reveal_strlit("pcy;");
    reveal_strlit("percnt;");
    assert(fits_at(LOWER_P@, 'p', 0, 3));
    assert(fits_at(LOWER_P@, 'p', 1, 4));
    assert(fits_at(LOWER_P@, 'p', 2, 4));
    assert(fits_at(LOWER_P@, 'p', 3, 3));
    assert(fits_at(LOWER_P@, 'p', 4, 4));
    assert(fits_at(LOWER_P@, 'p', 5, 3));
    assert(fits_at(LOWER_P@, 'p', 6, 1));
    assert(fits_at(LOWER_P@, 'p', 7, 1));
}

proof fn lemma_lower_p_8()
    ensures
        filed(LOWER_P@, 'p', 8, 16),
{
    reveal_strlit("percnt;");
    reveal_strlit("period;");
    reveal_strlit("permil;");
    reveal_strlit("perp;");
    reveal_strlit("pertenk;");
    reveal_strlit("pfr;");
    reveal_strlit("phi;");
    reveal_strlit("phiv;");
    reveal_strlit("phmmat;");
    assert(fits_at(LOWER_P@, 'p', 8, 3));
    assert(fits_at(LOWER_P@, 'p', 9, 3));
    assert(fits_at(LOWER_P@, 'p', 10, 3));
    assert(fits_at(LOWER_P@, 'p', 11, 3));
    assert(fits_at(LOWER_P@, 'p', 12, 1));
    assert(fits_at(LOWER_P@, 'p', 13, 1));
    assert(fits_at(LOWER_P@, 'p', 14, 3));
    assert(fits_at(LOWER_P@, 'p', 15, 2));
}

proof fn lemma_lower_p_16()
    ensures
        filed(LOWER_P@, 'p', 16, 24),
{
    reveal_strlit("phmmat;");
    reveal_strlit("phone;");
    reveal_strlit("pi;");
    reveal_strlit("pitchfork;");
    reveal_strlit("piv;");
    reveal_strlit("planck;");
    reveal_strlit("planckh;");
    reveal_strlit("plankv;");
    reveal_strlit("plus;");
    assert(fits_at(LOWER_P@, 'p', 16, 2));
    assert(fits_at(LOWER_P@, 'p', 17, 1));
    assert(fits_at(LOWER_P@, 'p', 18, 2));
    assert(fits_at(LOWER_P@, 'p', 19, 2));
    assert(fits_at(LOWER_P@, 'p', 20, 1));
    assert(fits_at(LOWER_P@, 'p', 21, 6));
    assert(fits_at(LOWER_P@, 'p', 22, 4));
    assert(fits_at(LOWER_P@, 'p', 23, 2));
}

proof fn lemma_lower_p_24()
    ensures
        filed(LOWER_P@, 'p', 24, 32),
{
    reveal_strlit("plus;");
    reveal_strlit("plusacir;");
    reveal_strlit("plusb;");
    reveal_strlit("pluscir;");
    reveal_strlit("plusdo;");
    reveal_strlit("plusdu;");
    reveal_strlit("pluse;");
    reveal_strlit("plusmn");
    reveal_strlit("plusmn;");
    assert(fits_at(LOWER_P@, 'p', 24, 4));
    assert(fits_at(LOWER_P@, 'p', 25, 4));
    assert(fits_at(LOWER_P@, 'p', 26, 4));
    assert(fits_at(LOWER_P@, 'p', 27, 4));
    assert(fits_at(LOWER_P@, 'p', 28, 5));
    assert(fits_at(LOWER_P@, 'p', 29, 4));
    assert(fits_at(LOWER_P@, 'p', 30, 4));
    assert(fits_at(LOWER_P@, 'p', 31, 6));
}

proof fn lemma_lower_p_32()
    ensures
        filed(LOWER_P@, 'p', 32, 40),
{
    reveal_strlit("plusmn;");
    reveal_strlit("plussim;");
    reveal_strlit("plustwo;");
    reveal_strlit("pm;");
    reveal_strlit("pointint;");
    reveal_strlit("popf;");
    reveal_strlit("pound");
    reveal_strlit("pound;");
    reveal_strlit("pr;");
    assert(fits_at(LOWER_P@, 'p', 32, 4));
    assert(fits_at(LOWER_P@, 'p', 33, 4));
    assert(fits_at(LOWER_P@, 'p', 34, 1));
    assert(fits_at(LOWER_P@, 'p', 35, 1));
    assert(fits_at(LOWER_P@, 'p', 36, 2));
    assert(fits_at(LOWER_P@, 'p', 37, 2));
    assert(fits_at(LOWER_P@, 'p', 38, 5));
    assert(fits_at(LOWER_P@, 'p', 39, 1));
}

proof fn lemma_lower_p_40()
    ensures
        filed(LOWER_P@, 'p', 40, 48),
{
    reveal_strlit("pr;");
    reveal_strlit("prE;");
    reveal_strlit("prap;");
    reveal_strlit("prcue;");
    reveal_strlit("pre;");
    reveal_strlit("prec;");
    reveal_strlit("precapprox;");
    reveal_strlit("preccurlyeq;");
    reveal_strlit("preceq;");
    assert(fits_at(LOWER_P@, 'p', 40, 2));
    assert(fits_at(LOWER_P@, 'p', 41, 2));
    assert(fits_at(LOWER_P@, 'p', 42, 2));
    assert(fits_at(LOWER_P@, 'p', 43, 2));
    assert(fits_at(LOWER_P@, 'p', 44, 3));
    assert(fits_at(LOWER_P@, 'p', 45, 4));
    assert(fits_at(LOWER_P@, 'p', 46, 4));
    assert(fits_at(LOWER_P@, 'p', 47, 4));
}

proof fn lemma_lower_p_48()
    ensures
        filed(LOWER_P@, 'p', 48, 56),
{
    reveal_strlit("preceq;");
    reveal_strlit("precnapprox;");
    reveal_strlit("precneqq;");
    reveal_strlit("precnsim;");
    reveal_strlit("precsim;");
    reveal_strlit("prime;");
    reveal_strlit("primes;");
    reveal_strlit("prnE;");
    reveal_strlit("prnap;");
    assert(fits_at(LOWER_P@, 'p', 48, 4));
    assert(fits_at(LOWER_P@, 'p', 49, 5));
    assert(fits_at(LOWER_P@, 'p', 50, 5));
    assert(fits_at(LOWER_P@, 'p', 51, 4));
    assert(fits_at(LOWER_P@, 'p', 52, 2));
    assert(fits_at(LOWER_P@, 'p', 53, 5));
    assert(fits_at(LOWER_P@, 'p', 54, 2));
    assert(fits_at(LOWER_P@, 'p', 55, 3));
}

proof fn lemma_lower_p_56()
    ensures
        filed(LOWER_P@, 'p', 56, 64),
{
    reveal_strlit("prnap;");
    reveal_strlit("prnsim;");
    reveal_strlit("prod;");
    reveal_strlit("profalar;");
    reveal_strlit("profline;");
    reveal_strlit("profsurf;");
    reveal_strlit("prop;");
    reveal_strlit("propto;");
    reveal_strlit("prsim;");
    assert(fits_at(LOWER_P@, 'p', 56, 3));
    assert(fits_at(LOWER_P@, 'p', 57, 2));
    assert(fits_at(LOWER_P@, 'p', 58, 3));
    assert(fits_at(LOWER_P@, 'p', 59, 4));
    assert(fits_at(LOWER_P@, 'p', 60, 4));
    assert(fits_at(LOWER_P@, 'p', 61, 3));
    assert(fits_at(LOWER_P@, 'p', 62, 4));
    assert(fits_at(LOWER_P@, 'p', 63, 2));
}

proof fn lemma_lower_p_64()
    ensures
        filed(LOWER_P@, 'p', 64, 69),
{
    reveal_strlit("prsim;");
    reveal_strlit("prurel;");
    reveal_strlit("pscr;");
    reveal_strlit("psi;");
    reveal_strlit("puncsp;");
    assert(fits_at(LOWER_P@, 'p', 64, 2));
    assert(fits_at(LOWER_P@, 'p', 65, 1));
    assert(fits_at(LOWER_P@, 'p', 66, 2));
    assert(fits_at(LOWER_P@, 'p', 67, 1));
    assert(fits_at(LOWER_P@, 'p', 68, 0));
}

pub(super) proof fn lemma_lower_p()
    ensures
        filed(LOWER_P@, 'p', 0, LOWER_P@.len() as int),
        LOWER_P@.len() == 69,
{
    lemma_lower_p_0();
    lemma_lower_p_8();
    lemma_lower_p_16();
    lemma_lower_p_24();
    lemma_lower_p_32();
    lemma_lower_p_40();
    lemma_lower_p_48();
    lemma_lower_p_56();
    lemma_lower_p_64();
}

} // verus!
