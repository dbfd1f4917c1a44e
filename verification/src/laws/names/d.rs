//! The names that begin with `D` or `d` are in order.

use crate::entities::{LOWER_D, UPPER_D};
use crate::laws::names::order::{filed, fits_at};
use vstd::prelude::*;

verus! {

proof fn lemma_upper_d_0()
    ensures
        filed(UPPER_D@, 'D', 0, 8),
{
    reveal_strlit("DD;");
    reveal_strlit("DDotrahd;");
    reveal_strlit("DJcy;");
    reveal_strlit("DScy;");
    reveal_strlit("DZcy;");
    reveal_strlit("Dagger;");
    reveal_strlit("Darr;");
    reveal_strlit("Dashv;");
    reveal_strlit("Dcaron;");
    assert(fits_at(UPPER_D@, 'D', 0, 2));
    assert(fits_at(UPPER_D@, 'D', 1, 1));
    assert(fits_at(UPPER_D@, 'D', 2, 1));
    assert(fits_at(UPPER_D@, 'D', 3, 1));
    assert(fits_at(UPPER_D@, 'D', 4, 1));
    assert(fits_at(UPPER_D@, 'D', 5, 2));
    assert(fits_at(UPPER_D@, 'D', 6, 2));
    assert(fits_at(UPPER_D@, 'D', 7, 1));
}

proof fn lemma_upper_d_8()
    ensures
        filed(UPPER_D@, 'D', 8, 16),
{
    reveal_strlit("Dcaron;");
    reveal_strlit("Dcy;");
    reveal_strlit("Del;");
    reveal_strlit("Delta;");
    reveal_strlit("Dfr;");
    reveal_strlit("DiacriticalAcute;");
    reveal_strlit("DiacriticalDot;");
    reveal_strlit("DiacriticalDoubleAcute;");
    reveal_strlit("DiacriticalGrave;");
    assert(fits_at(UPPER_D@, 'D', 8, 2));
    assert(fits_at(UPPER_D@, 'D', 9, 1));
    assert(fits_at(UPPER_D@, 'D', 10, 3));
    assert(fits_at(UPPER_D@, 'D', 11, 1));
    assert(fits_at(UPPER_D@, 'D', 12, 1));
    assert(fits_at(UPPER_D@, 'D', 13, 11));
    assert(fits_at(UPPER_D@, 'D', 14, 13));
    assert(fits_at(UPPER_D@, 'D', 15, 11));
}

proof fn lemma_upper_d_16()
    ensures
        filed(UPPER_D@, 'D', 16, 24),
{
    reveal_strlit("DiacriticalGrave;");
    reveal_strlit("DiacriticalTilde;");
    reveal_strlit("Diamond;");
    reveal_strlit("DifferentialD;");
    reveal_strlit("Dopf;");
    reveal_strlit("Dot;");
    reveal_strlit("DotDot;");
    reveal_strlit("DotEqual;");
    reveal_strlit("DoubleContourIntegral;");
    assert(fits_at(UPPER_D@, 'D', 16, 11));
    assert(fits_at(UPPER_D@, 'D', 17, 3));
    assert(fits_at(UPPER_D@, 'D', 18, 2));
    assert(fits_at(UPPER_D@, 'D', 19, 1));
    assert(fits_at(UPPER_D@, 'D', 20, 2));
    assert(fits_at(UPPER_D@, 'D', 21, 3));
    assert(fits_at(UPPER_D@, 'D', 22, 3));
    assert(fits_at(UPPER_D@, 'D', 23, 2));
}

proof fn lemma_upper_d_24()
    ensures
        filed(UPPER_D@, 'D', 24, 32),
{
    reveal_strlit("DoubleContourIntegral;");
    reveal_strlit("DoubleDot;");
    reveal_strlit("DoubleDownArrow;");
    reveal_strlit("DoubleLeftArrow;");
    reveal_strlit("DoubleLeftRightArrow;");
    reveal_strlit("DoubleLeftTee;");
    reveal_strlit("DoubleLongLeftArrow;");
    reveal_strlit("DoubleLongLeftRightArrow;");
    reveal_strlit("DoubleLongRightArrow;");
    assert(fits_at(UPPER_D@, 'D', 24, 6));
    assert(fits_at(UPPER_D@, 'D', 25, 8));
    assert(fits_at(UPPER_D@, 'D', 26, 6));
    assert(fits_at(UPPER_D@, 'D', 27, 10));
    assert(fits_at(UPPER_D@, 'D', 28, 10));
    assert(fits_at(UPPER_D@, 'D', 29, 7));
    assert(fits_at(UPPER_D@, 'D', 30, 14));
    assert(fits_at(UPPER_D@, 'D', 31, 10));
}

proof fn lemma_upper_d_32()
    ensures
        filed(UPPER_D@, 'D', 32, 40),
{
    reveal_strlit("DoubleLongRightArrow;");
    reveal_strlit("DoubleRightArrow;");
    reveal_strlit("DoubleRightTee;");
    reveal_strlit("DoubleUpArrow;");
    reveal_strlit("DoubleUpDownArrow;");
    reveal_strlit("DoubleVerticalBar;");
    reveal_strlit("DownArrow;");
    reveal_strlit("DownArrowBar;");
    reveal_strlit("DownArrowUpArrow;");
    assert(fits_at(UPPER_D@, 'D', 32, 6));
    assert(fits_at(UPPER_D@, 'D', 33, 11));
    assert(fits_at(UPPER_D@, 'D', 34, 6));
    assert(fits_at(UPPER_D@, 'D', 35, 8));
    assert(fits_at(UPPER_D@, 'D', 36, 6));
    assert(fits_at(UPPER_D@, 'D', 37, 2));
    assert(fits_at(UPPER_D@, 'D', 38, 9));
    assert(fits_at(UPPER_D@, 'D', 39, 9));
}

proof fn lemma_upper_d_40()
    ensures
        filed(UPPER_D@, 'D', 40, 48),
{
    reveal_strlit("DownArrowUpArrow;");
    reveal_strlit("DownBreve;");
    reveal_strlit("DownLeftRightVector;");
    reveal_strlit("DownLeftTeeVector;");
    reveal_strlit("DownLeftVector;");
    reveal_strlit("DownLeftVectorBar;");
    reveal_strlit("DownRightTeeVector;");
    reveal_strlit("DownRightVector;");
    reveal_strlit("DownRightVectorBar;");
    assert(fits_at(UPPER_D@, 'D', 40, 4));
    assert(fits_at(UPPER_D@, 'D', 41, 4));
    assert(fits_at(UPPER_D@, 'D', 42, 8));
    assert(fits_at(UPPER_D@, 'D', 43, 8));
    assert(fits_at(UPPER_D@, 'D', 44, 14));
    assert(fits_at(UPPER_D@, 'D', 45, 4));
    assert(fits_at(UPPER_D@, 'D', 46, 9));
    assert(fits_at(UPPER_D@, 'D', 47, 15));
}

proof fn lemma_upper_d_48()
    ensures
        filed(UPPER_D@, 'D', 48, 54),
{
    reveal_strlit("DownRightVectorBar;");
    reveal_strlit("DownTee;");
    reveal_strlit("DownTeeArrow;");
    reveal_strlit("Downarrow;");
    reveal_strlit("Dscr;");
    reveal_strlit("Dstrok;");
    assert(fits_at(UPPER_D@, 'D', 48, 4));
    assert(fits_at(UPPER_D@, 'D', 49, 7));
    assert(fits_at(UPPER_D@, 'D', 50, 4));
    assert(fits_at(UPPER_D@, 'D', 51, 1));
    assert(fits_at(UPPER_D@, 'D', 52, 2));
    assert(fits_at(UPPER_D@, 'D', 53, 0));
}

pub(super) proof fn lemma_upper_d()
    ensures
        filed(UPPER_D@, 'D', 0, UPPER_D@.len() as int),
        UPPER_D@.len() == 54,
{
    lemma_upper_d_0();
    lemma_upper_d_8();
    lemma_upper_d_16();
    lemma_upper_d_24();
    lemma_upper_d_32();
    lemma_upper_d_40();
    lemma_upper_d_48();
}

proof fn lemma_lower_d_0()
    ensures
        filed(LOWER_D@, 'd', 0, 8),
{
    reveal_strlit("dArr;");
    reveal_strlit("dHar;");
    reveal_strlit("dagger;");
    reveal_strlit("daleth;");
    reveal_strlit("darr;");
    reveal_strlit("dash;");
    reveal_strlit("dashv;");
    reveal_strlit("dbkarow;");
    reveal_strlit("dblac;");
    assert(fits_at(LOWER_D@, 'd', 0, 1));
    assert(fits_at(LOWER_D@, 'd', 1, 1));
    assert(fits_at(LOWER_D@, 'd', 2, 2));
    assert(fits_at(LOWER_D@, 'd', 3, 2));
    assert(fits_at(LOWER_D@, 'd', 4, 2));
    assert(fits_at(LOWER_D@, 'd', 5, 4));
    assert(fits_at(LOWER_D@, 'd', 6, 1));
    assert(fits_at(LOWER_D@, 'd', 7, 2));
}

proof fn lemma_lower_d_8()
    ensures
        filed(LOWER_D@, 'd', 8, 16),
{
    reveal_strlit("dblac;");
    reveal_strlit("dcaron;");
    reveal_strlit("dcy;");
    reveal_strlit("dd;");
    reveal_strlit("ddagger;");
    reveal_strlit("ddarr;");
    reveal_strlit("ddotseq;");
    reveal_strlit("deg");
    reveal_strlit("deg;");
    assert(fits_at(LOWER_D@, 'd', 8, 1));
    assert(fits_at(LOWER_D@, 'd', 9, 2));
    assert(fits_at(LOWER_D@, 'd', 10, 1));
    assert(fits_at(LOWER_D@, 'd', 11, 2));
    assert(fits_at(LOWER_D@, 'd', 12, 3));
    assert(fits_at(LOWER_D@, 'd', 13, 2));
    assert(fits_at(LOWER_D@, 'd', 14, 1));
    assert(fits_at(LOWER_D@, 'd', 15, 3));
}

proof fn lemma_lower_d_16()
    ensures
        filed(LOWER_D@, 'd', 16, 24),
{
    reveal_strlit("deg;");
    reveal_strlit("delta;");
    reveal_strlit("demptyv;");
    reveal_strlit("dfisht;");
    reveal_strlit("dfr;");
    reveal_strlit("dharl;");
    reveal_strlit("dharr;");
    reveal_strlit("diam;");
    reveal_strlit("diamond;");
    assert(fits_at(LOWER_D@, 'd', 16, 2));
    assert(fits_at(LOWER_D@, 'd', 17, 2));
    assert(fits_at(LOWER_D@, 'd', 18, 1));
    assert(fits_at(LOWER_D@, 'd', 19, 2));
    assert(fits_at(LOWER_D@, 'd', 20, 1));
    assert(fits_at(LOWER_D@, 'd', 21, 4));
    assert(fits_at(LOWER_D@, 'd', 22, 1));
    assert(fits_at(LOWER_D@, 'd', 23, 4));
}

proof fn lemma_lower_d_24()
    ensures
        filed(LOWER_D@, 'd', 24, 32),
{
    reveal_strlit("diamond;");
    reveal_strlit("diamondsuit;");
    reveal_strlit("diams;");
    reveal_strlit("die;");
    reveal_strlit("digamma;");
    reveal_strlit("disin;");
    reveal_strlit("div;");
    reveal_strlit("divide");
    reveal_strlit("divide;");
    assert(fits_at(LOWER_D@, 'd', 24, 7));
    assert(fits_at(LOWER_D@, 'd', 25, 4));
    assert(fits_at(LOWER_D@, 'd', 26, 2));
    assert(fits_at(LOWER_D@, 'd', 27, 2));
    assert(fits_at(LOWER_D@, 'd', 28, 2));
    assert(fits_at(LOWER_D@, 'd', 29, 2));
    assert(fits_at(LOWER_D@, 'd', 30, 3));
    assert(fits_at(LOWER_D@, 'd', 31, 6));
}

proof fn lemma_lower_d_32()
    ensures
        filed(LOWER_D@, 'd', 32, 40),
{
    reveal_strlit("divide;");
    reveal_strlit("divideontimes;");
    reveal_strlit("divonx;");
    reveal_strlit("djcy;");
    reveal_strlit("dlcorn;");
    reveal_strlit("dlcrop;");
    reveal_strlit("dollar;");
    reveal_strlit("dopf;");
    reveal_strlit("dot;");
    assert(fits_at(LOWER_D@, 'd', 32, 6));
    assert(fits_at(LOWER_D@, 'd', 33, 3));
    assert(fits_at(LOWER_D@, 'd', 34, 1));
    assert(fits_at(LOWER_D@, 'd', 35, 1));
    assert(fits_at(LOWER_D@, 'd', 36, 3));
    assert(fits_at(LOWER_D@, 'd', 37, 1));
    assert(fits_at(LOWER_D@, 'd', 38, 2));
    assert(fits_at(LOWER_D@, 'd', 39, 2));
}

proof fn lemma_lower_d_40()
    ensures
        filed(LOWER_D@, 'd', 40, 48),
{
    reveal_strlit("dot;");
    reveal_strlit("doteq;");
    reveal_strlit("doteqdot;");
    reveal_strlit("dotminus;");
    reveal_strlit("dotplus;");
    reveal_strlit("dotsquare;");
    reveal_strlit("doublebarwedge;");
    reveal_strlit("downarrow;");
    reveal_strlit("downdownarrows;");
    assert(fits_at(LOWER_D@, 'd', 40, 3));
    assert(fits_at(LOWER_D@, 'd', 41, 5));
    assert(fits_at(LOWER_D@, 'd', 42, 3));
    assert(fits_at(LOWER_D@, 'd', 43, 3));
    assert(fits_at(LOWER_D@, 'd', 44, 3));
    assert(fits_at(LOWER_D@, 'd', 45, 2));
    assert(fits_at(LOWER_D@, 'd', 46, 2));
    assert(fits_at(LOWER_D@, 'd', 47, 4));
}

proof fn lemma_lower_d_48()
    ensures
        filed(LOWER_D@, 'd', 48, 56),
{
    reveal_strlit("downdownarrows;");
    reveal_strlit("downharpoonleft;");
    reveal_strlit("downharpoonright;");
    reveal_strlit("drbkarow;");
    reveal_strlit("drcorn;");
    reveal_strlit("drcrop;");
    reveal_strlit("dscr;");
    reveal_strlit("dscy;");
    reveal_strlit("dsol;");
    assert(fits_at(LOWER_D@, 'd', 48, 4));
    assert(fits_at(LOWER_D@, 'd', 49, 11));
    assert(fits_at(LOWER_D@, 'd', 50, 1));
    assert(fits_at(LOWER_D@, 'd', 51, 2));
    assert(fits_at(LOWER_D@, 'd', 52, 3));
    assert(fits_at(LOWER_D@, 'd', 53, 1));
    assert(fits_at(LOWER_D@, 'd', 54, 3));
    assert(fits_at(LOWER_D@, 'd', 55, 2));
}

proof fn lemma_lower_d_56()
    ensures
        filed(LOWER_D@, 'd', 56, 64),
{
    reveal_strlit("dsol;");
    reveal_strlit("dstrok;");
    reveal_strlit("dtdot;");
    reveal_strlit("dtri;");
    reveal_strlit("dtrif;");
    reveal_strlit("duarr;");
    reveal_strlit("duhar;");
    reveal_strlit("dwangle;");
    reveal_strlit("dzcy;");
    assert(fits_at(LOWER_D@, 'd', 56, 2));
    assert(fits_at(LOWER_D@, 'd', 57, 1));
    assert(fits_at(LOWER_D@, 'd', 58, 2));
    assert(fits_at(LOWER_D@, 'd', 59, 4));
    assert(fits_at(LOWER_D@, 'd', 60, 1));
    assert(fits_at(LOWER_D@, 'd', 61, 2));
    assert(fits_at(LOWER_D@, 'd', 62, 1));
    assert(fits_at(LOWER_D@, 'd', 63, 1));
}

proof fn lemma_lower_d_64()
    ensures
        filed(LOWER_D@, 'd', 64, 66),
{
    reveal_strlit("dzcy;");
    reveal_strlit("dzigrarr;");
    assert(fits_at(LOWER_D@, 'd', 64, 2));
    assert(fits_at(LOWER_D@, 'd', 65, 0));
}

pub(super) proof fn lemma_lower_d()
    ensures
        filed(LOWER_D@, 'd', 0, LOWER_D@.len() as int),
        LOWER_D@.len() == 66,
{
    lemma_lower_d_0();
    lemma_lower_d_8();
    lemma_lower_d_16();
    lemma_lower_d_24();
    lemma_lower_d_32();
    lemma_lower_d_40();
    lemma_lower_d_48();
    lemma_lower_d_56();
    lemma_lower_d_64();
}

} // verus!
