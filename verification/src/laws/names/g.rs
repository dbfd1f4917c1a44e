//! The names that begin with `G` or `g` are in order.

use crate::entities::{LOWER_G, UPPER_G};
use crate::laws::names::order::{filed, fits_at, lemma_stands_alone, stands_alone};
use vstd::prelude::*;

verus! {

proof fn lemma_upper_g_0()
    ensures
        filed(UPPER_G@, 'G', 0, 8),
{
    reveal_strlit("GJcy;");
    reveal_strlit("GT");
    reveal_strlit("GT;");
    reveal_strlit("Gamma;");
    reveal_strlit("Gammad;");
    reveal_strlit("Gbreve;");
    reveal_strlit("Gcedil;");
    reveal_strlit("Gcirc;");
    reveal_strlit("Gcy;");
    assert(fits_at(UPPER_G@, 'G', 0, 1));
    assert(fits_at(UPPER_G@, 'G', 1, 2));
    assert(fits_at(UPPER_G@, 'G', 2, 1));
    assert(fits_at(UPPER_G@, 'G', 3, 5));
    assert(fits_at(UPPER_G@, 'G', 4, 1));
    assert(fits_at(UPPER_G@, 'G', 5, 1));
    assert(fits_at(UPPER_G@, 'G', 6, 2));
    assert(fits_at(UPPER_G@, 'G', 7, 2));
}

proof fn lemma_upper_g_8()
    ensures
        filed(UPPER_G@, 'G', 8, 16),
{
    reveal_strlit("Gcy;");
    reveal_strlit("Gdot;");
    reveal_strlit("Gfr;");
    reveal_strlit("Gg;");
    reveal_strlit("Gopf;");
    reveal_strlit("GreaterEqual;");
    reveal_strlit("GreaterEqualLess;");
    reveal_strlit("GreaterFullEqual;");
    reveal_strlit("GreaterGreater;");
    assert(fits_at(UPPER_G@, 'G', 8, 1));
    assert(fits_at(UPPER_G@, 'G', 9, 1));
    assert(fits_at(UPPER_G@, 'G', 10, 1));
    assert(fits_at(UPPER_G@, 'G', 11, 1));
    assert(fits_at(UPPER_G@, 'G', 12, 1));
    assert(fits_at(UPPER_G@, 'G', 13, 12));
    assert(fits_at(UPPER_G@, 'G', 14, 7));
    assert(fits_at(UPPER_G@, 'G', 15, 7));
}

proof fn lemma_upper_g_16()
    ensures
        filed(UPPER_G@, 'G', 16, 22),
{
    reveal_strlit("GreaterGreater;");
    reveal_strlit("GreaterLess;");
    reveal_strlit("GreaterSlantEqual;");
    reveal_strlit("GreaterTilde;");
    reveal_strlit("Gscr;");
    reveal_strlit("Gt;");
    assert(fits_at(UPPER_G@, 'G', 16, 7));
    assert(fits_at(UPPER_G@, 'G', 17, 7));
    assert(fits_at(UPPER_G@, 'G', 18, 7));
    assert(fits_at(UPPER_G@, 'G', 19, 1));
    assert(fits_at(UPPER_G@, 'G', 20, 1));
    assert(fits_at(UPPER_G@, 'G', 21, 0));
}

pub(super) proof fn lemma_upper_g()
    ensures
        filed(UPPER_G@, 'G', 0, UPPER_G@.len() as int),
        UPPER_G@.len() == 22,
{
    lemma_upper_g_0();
    lemma_upper_g_8();
    lemma_upper_g_16();
}

proof fn lemma_lower_g_0()
    ensures
        filed(LOWER_G@, 'g', 0, 8),
{
    reveal_strlit("gE;");
    reveal_strlit("gEl;");
    reveal_strlit("gacute;");
    reveal_strlit("gamma;");
    reveal_strlit("gammad;");
    reveal_strlit("gap;");
    reveal_strlit("gbreve;");
    reveal_strlit("gcirc;");
    reveal_strlit("gcy;");
    assert(fits_at(LOWER_G@, 'g', 0, 2));
    assert(fits_at(LOWER_G@, 'g', 1, 1));
    assert(fits_at(LOWER_G@, 'g', 2, 2));
    assert(fits_at(LOWER_G@, 'g', 3, 5));
    assert(fits_at(LOWER_G@, 'g', 4, 2));
    assert(fits_at(LOWER_G@, 'g', 5, 1));
    assert(fits_at(LOWER_G@, 'g', 6, 1));
    assert(fits_at(LOWER_G@, 'g', 7, 2));
}

proof fn lemma_lower_g_8()
    ensures
        filed(LOWER_G@, 'g', 8, 16),
{
    reveal_strlit("gcy;");
    reveal_strlit("gdot;");
    reveal_strlit("ge;");
    reveal_strlit("gel;");
    reveal_strlit("geq;");
    reveal_strlit("geqq;");
    reveal_strlit("geqslant;");
    reveal_strlit("ges;");
    reveal_strlit("gescc;");
    assert(fits_at(LOWER_G@, 'g', 8, 1));
    assert(fits_at(LOWER_G@, 'g', 9, 1));
    assert(fits_at(LOWER_G@, 'g', 10, 2));
    assert(fits_at(LOWER_G@, 'g', 11, 2));
    assert(fits_at(LOWER_G@, 'g', 12, 3));
    assert(fits_at(LOWER_G@, 'g', 13, 3));
    assert(fits_at(LOWER_G@, 'g', 14, 2));
    assert(fits_at(LOWER_G@, 'g', 15, 3));
}

proof fn lemma_lower_g_16()
    ensures
        filed(LOWER_G@, 'g', 16, 24),
{
    reveal_strlit("gescc;");
    reveal_strlit("gesdot;");
    reveal_strlit("gesdoto;");
    reveal_strlit("gesdotol;");
    reveal_strlit("gesles;");
    reveal_strlit("gfr;");
    reveal_strlit("gg;");
    reveal_strlit("ggg;");
    reveal_strlit("gimel;");
    assert(fits_at(LOWER_G@, 'g', 16, 3));
    assert(fits_at(LOWER_G@, 'g', 17, 6));
    assert(fits_at(LOWER_G@, 'g', 18, 7));
    assert(fits_at(LOWER_G@, 'g', 19, 3));
    assert(fits_at(LOWER_G@, 'g', 20, 1));
    assert(fits_at(LOWER_G@, 'g', 21, 1));
    assert(fits_at(LOWER_G@, 'g', 22, 2));
    assert(fits_at(LOWER_G@, 'g', 23, 1));
}

proof fn lemma_lower_g_24()
    ensures
        filed(LOWER_G@, 'g', 24, 32),
{
    reveal_strlit("gimel;");
    reveal_strlit("gjcy;");
    reveal_strlit("gl;");
    reveal_strlit("glE;");
    reveal_strlit("gla;");
    reveal_strlit("glj;");
    reveal_strlit("gnE;");
    reveal_strlit("gnap;");
    reveal_strlit("gnapprox;");
    assert(fits_at(LOWER_G@, 'g', 24, 1));
    assert(fits_at(LOWER_G@, 'g', 25, 1));
    assert(fits_at(LOWER_G@, 'g', 26, 2));
    assert(fits_at(LOWER_G@, 'g', 27, 2));
    assert(fits_at(LOWER_G@, 'g', 28, 2));
    assert(fits_at(LOWER_G@, 'g', 29, 1));
    assert(fits_at(LOWER_G@, 'g', 30, 2));
    assert(fits_at(LOWER_G@, 'g', 31, 4));
}

proof fn lemma_lower_g_32()
    ensures
        filed(LOWER_G@, 'g', 32, 40),
{
    reveal_strlit("gnapprox;");
    reveal_strlit("gne;");
    reveal_strlit("gneq;");
    reveal_strlit("gneqq;");
    reveal_strlit("gnsim;");
    reveal_strlit("gopf;");
    reveal_strlit("grave;");
    reveal_strlit("gscr;");
    reveal_strlit("gsim;");
    assert(fits_at(LOWER_G@, 'g', 32, 2));
    assert(fits_at(LOWER_G@, 'g', 33, 3));
    assert(fits_at(LOWER_G@, 'g', 34, 4));
    assert(fits_at(LOWER_G@, 'g', 35, 2));
    assert(fits_at(LOWER_G@, 'g', 36, 1));
    assert(fits_at(LOWER_G@, 'g', 37, 1));
    assert(fits_at(LOWER_G@, 'g', 38, 1));
    assert(fits_at(LOWER_G@, 'g', 39, 2));
}

proof fn lemma_lower_g_40()
    ensures
        filed(LOWER_G@, 'g', 40, 48),
{
    reveal_strlit("gsim;");
    reveal_strlit("gsime;");
    reveal_strlit("gsiml;");
    reveal_strlit("gt");
    reveal_strlit("gt;");
    reveal_strlit("gtcc;");
    reveal_strlit("gtcir;");
    reveal_strlit("gtdot;");
    reveal_strlit("gtlPar;");
    assert(fits_at(LOWER_G@, 'g', 40, 4));
    assert(fits_at(LOWER_G@, 'g', 41, 4));
    assert(fits_at(LOWER_G@, 'g', 42, 1));
    assert(fits_at(LOWER_G@, 'g', 43, 2));
    assert(fits_at(LOWER_G@, 'g', 44, 2));
    assert(fits_at(LOWER_G@, 'g', 45, 3));
    assert(fits_at(LOWER_G@, 'g', 46, 2));
    assert(fits_at(LOWER_G@, 'g', 47, 2));
}

proof fn lemma_lower_g_48()
    ensures
        filed(LOWER_G@, 'g', 48, 56),
{
    reveal_strlit("gtlPar;");
    reveal_strlit("gtquest;");
    reveal_strlit("gtrapprox;");
    reveal_strlit("gtrarr;");
    reveal_strlit("gtrdot;");
    reveal_strlit("gtreqless;");
    reveal_strlit("gtreqqless;");
    reveal_strlit("gtrless;");
    reveal_strlit("gtrsim;");
    assert(fits_at(LOWER_G@, 'g', 48, 2));
    assert(fits_at(LOWER_G@, 'g', 49, 2));
    assert(fits_at(LOWER_G@, 'g', 50, 4));
    assert(fits_at(LOWER_G@, 'g', 51, 3));
    assert(fits_at(LOWER_G@, 'g', 52, 3));
    assert(fits_at(LOWER_G@, 'g', 53, 5));
    assert(fits_at(LOWER_G@, 'g', 54, 3));
    assert(fits_at(LOWER_G@, 'g', 55, 3));
}

proof fn lemma_lower_g_56()
    ensures
        filed(LOWER_G@, 'g', 56, 57),
{
    reveal_strlit("gtrsim;");
    assert(fits_at(LOWER_G@, 'g', 56, 0));
}

pub(super) proof fn lemma_lower_g()
    ensures
        filed(LOWER_G@, 'g', 0, LOWER_G@.len() as int),
        LOWER_G@.len() == 57,
{
    lemma_lower_g_0();
    lemma_lower_g_8();
    lemma_lower_g_16();
    lemma_lower_g_24();
    lemma_lower_g_32();
    lemma_lower_g_40();
    lemma_lower_g_48();
    lemma_lower_g_56();
}

pub(super) proof fn lemma_lower_g_pairs()
    ensures
        forall|i: int| 26 <= i < 29 ==> #[trigger] stands_alone(i, LOWER_G@, 'g'),
{
    lemma_lower_g();
    reveal_strlit("gesl;");
    reveal_strlit("gesdotol;");
    reveal_strlit("gesles;");
    reveal_strlit("gvertneqq;");
    reveal_strlit("gtrsim;");
    reveal_strlit("gvnE;");
    lemma_stands_alone(26, LOWER_G@, 'g', 20, 3, 4);
    lemma_stands_alone(27, LOWER_G@, 'g', 57, 1, 0);
    lemma_stands_alone(28, LOWER_G@, 'g', 57, 1, 0);
}

} // verus!
