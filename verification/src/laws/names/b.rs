//! The names that begin with `B` or `b` are in order.

use crate::entities::{LOWER_B, UPPER_B};
use crate::laws::names::order::{filed, fits_at, lemma_stands_alone, stands_alone};
use vstd::prelude::*;

verus! {

proof fn lemma_upper_b_0()
    ensures
        filed(UPPER_B@, 'B', 0, 8),
{
    reveal_strlit("Backslash;");
    reveal_strlit("Barv;");
    reveal_strlit("Barwed;");
    reveal_strlit("Bcy;");
    reveal_strlit("Because;");
    reveal_strlit("Bernoullis;");
    reveal_strlit("Beta;");
    reveal_strlit("Bfr;");
    reveal_strlit("Bopf;");
    assert(fits_at(UPPER_B@, 'B', 0, 2));
    assert(fits_at(UPPER_B@, 'B', 1, 3));
    assert(fits_at(UPPER_B@, 'B', 2, 1));
    assert(fits_at(UPPER_B@, 'B', 3, 1));
    assert(fits_at(UPPER_B@, 'B', 4, 2));
    assert(fits_at(UPPER_B@, 'B', 5, 2));
    assert(fits_at(UPPER_B@, 'B', 6, 1));
    assert(fits_at(UPPER_B@, 'B', 7, 1));
}

proof fn lemma_upper_b_8()
    ensures
        filed(UPPER_B@, 'B', 8, 12),
{
    reveal_strlit("Bopf;");
    reveal_strlit("Breve;");
    reveal_strlit("Bscr;");
    reveal_strlit("Bumpeq;");
    assert(fits_at(UPPER_B@, 'B', 8, 1));
    assert(fits_at(UPPER_B@, 'B', 9, 1));
    assert(fits_at(UPPER_B@, 'B', 10, 1));
    assert(fits_at(UPPER_B@, 'B', 11, 0));
}

pub(super) proof fn lemma_upper_b()
    ensures
        filed(UPPER_B@, 'B', 0, UPPER_B@.len() as int),
        UPPER_B@.len() == 12,
{
    lemma_upper_b_0();
    lemma_upper_b_8();
}

proof fn lemma_lower_b_0()
    ensures
        filed(LOWER_B@, 'b', 0, 8),
{
    reveal_strlit("bNot;");
    reveal_strlit("backcong;");
    reveal_strlit("backepsilon;");
    reveal_strlit("backprime;");
    reveal_strlit("backsim;");
    reveal_strlit("backsimeq;");
    reveal_strlit("barvee;");
    reveal_strlit("barwed;");
    reveal_strlit("barwedge;");
    assert(fits_at(LOWER_B@, 'b', 0, 1));
    assert(fits_at(LOWER_B@, 'b', 1, 4));
    assert(fits_at(LOWER_B@, 'b', 2, 4));
    assert(fits_at(LOWER_B@, 'b', 3, 4));
    assert(fits_at(LOWER_B@, 'b', 4, 7));
    assert(fits_at(LOWER_B@, 'b', 5, 2));
    assert(fits_at(LOWER_B@, 'b', 6, 3));
    assert(fits_at(LOWER_B@, 'b', 7, 6));
}

proof fn lemma_lower_b_8()
    ensures
        filed(LOWER_B@, 'b', 8, 16),
{
    reveal_strlit("barwedge;");
    reveal_strlit("bbrk;");
    reveal_strlit("bbrktbrk;");
    reveal_strlit("bcong;");
    reveal_strlit("bcy;");
    reveal_strlit("bdquo;");
    reveal_strlit("becaus;");
    reveal_strlit("because;");
    reveal_strlit("bemptyv;");
    assert(fits_at(LOWER_B@, 'b', 8, 1));
    assert(fits_at(LOWER_B@, 'b', 9, 4));
    assert(fits_at(LOWER_B@, 'b', 10, 1));
    assert(fits_at(LOWER_B@, 'b', 11, 2));
    assert(fits_at(LOWER_B@, 'b', 12, 1));
    assert(fits_at(LOWER_B@, 'b', 13, 1));
    assert(fits_at(LOWER_B@, 'b', 14, 6));
    assert(fits_at(LOWER_B@, 'b', 15, 2));
}

proof fn lemma_lower_b_16()
    ensures
        filed(LOWER_B@, 'b', 16, 24),
{
    reveal_strlit("bemptyv;");
    reveal_strlit("bepsi;");
    reveal_strlit("bernou;");
    reveal_strlit("beta;");
    reveal_strlit("beth;");
    reveal_strlit("between;");
    reveal_strlit("bfr;");
    reveal_strlit("bigcap;");
    reveal_strlit("bigcirc;");
    assert(fits_at(LOWER_B@, 'b', 16, 2));
    assert(fits_at(LOWER_B@, 'b', 17, 2));
    assert(fits_at(LOWER_B@, 'b', 18, 2));
    assert(fits_at(LOWER_B@, 'b', 19, 3));
    assert(fits_at(LOWER_B@, 'b', 20, 3));
    assert(fits_at(LOWER_B@, 'b', 21, 1));
    assert(fits_at(LOWER_B@, 'b', 22, 1));
    assert(fits_at(LOWER_B@, 'b', 23, 4));
}

proof fn lemma_lower_b_24()
    ensures
        filed(LOWER_B@, 'b', 24, 32),
{
    reveal_strlit("bigcirc;");
    reveal_strlit("bigcup;");
    reveal_strlit("bigodot;");
    reveal_strlit("bigoplus;");
    reveal_strlit("bigotimes;");
    reveal_strlit("bigsqcup;");
    reveal_strlit("bigstar;");
    reveal_strlit("bigtriangledown;");
    reveal_strlit("bigtriangleup;");
    assert(fits_at(LOWER_B@, 'b', 24, 4));
    assert(fits_at(LOWER_B@, 'b', 25, 3));
    assert(fits_at(LOWER_B@, 'b', 26, 4));
    assert(fits_at(LOWER_B@, 'b', 27, 4));
    assert(fits_at(LOWER_B@, 'b', 28, 3));
    assert(fits_at(LOWER_B@, 'b', 29, 4));
    assert(fits_at(LOWER_B@, 'b', 30, 3));
    assert(fits_at(LOWER_B@, 'b', 31, 11));
}

proof fn lemma_lower_b_32()
    ensures
        filed(LOWER_B@, 'b', 32, 40),
{
    reveal_strlit("bigtriangleup;");
    reveal_strlit("biguplus;");
    reveal_strlit("bigvee;");
    reveal_strlit("bigwedge;");
    reveal_strlit("bkarow;");
    reveal_strlit("blacklozenge;");
    reveal_strlit("blacksquare;");
    reveal_strlit("blacktriangle;");
    reveal_strlit("blacktriangledown;");
    assert(fits_at(LOWER_B@, 'b', 32, 3));
    assert(fits_at(LOWER_B@, 'b', 33, 3));
    assert(fits_at(LOWER_B@, 'b', 34, 3));
    assert(fits_at(LOWER_B@, 'b', 35, 1));
    assert(fits_at(LOWER_B@, 'b', 36, 1));
    assert(fits_at(LOWER_B@, 'b', 37, 5));
    assert(fits_at(LOWER_B@, 'b', 38, 5));
    assert(fits_at(LOWER_B@, 'b', 39, 13));
}

proof fn lemma_lower_b_40()
    ensures
        filed(LOWER_B@, 'b', 40, 48),
{
    reveal_strlit("blacktriangledown;");
    reveal_strlit("blacktriangleleft;");
    reveal_strlit("blacktriangleright;");
    reveal_strlit("blank;");
    reveal_strlit("blk12;");
    reveal_strlit("blk14;");
    reveal_strlit("blk34;");
    reveal_strlit("block;");
    reveal_strlit("bnot;");
    assert(fits_at(LOWER_B@, 'b', 40, 13));
    assert(fits_at(LOWER_B@, 'b', 41, 13));
    assert(fits_at(LOWER_B@, 'b', 42, 3));
    assert(fits_at(LOWER_B@, 'b', 43, 2));
    assert(fits_at(LOWER_B@, 'b', 44, 4));
    assert(fits_at(LOWER_B@, 'b', 45, 3));
    assert(fits_at(LOWER_B@, 'b', 46, 2));
    assert(fits_at(LOWER_B@, 'b', 47, 1));
}

proof fn lemma_lower_b_48()
    ensures
        filed(LOWER_B@, 'b', 48, 56),
{
    reveal_strlit("bnot;");
    reveal_strlit("bopf;");
    reveal_strlit("bot;");
    reveal_strlit("bottom;");
    reveal_strlit("bowtie;");
    reveal_strlit("boxDL;");
    reveal_strlit("boxDR;");
    reveal_strlit("boxDl;");
    reveal_strlit("boxDr;");
    assert(fits_at(LOWER_B@, 'b', 48, 1));
    assert(fits_at(LOWER_B@, 'b', 49, 2));
    assert(fits_at(LOWER_B@, 'b', 50, 3));
    assert(fits_at(LOWER_B@, 'b', 51, 2));
    assert(fits_at(LOWER_B@, 'b', 52, 2));
    assert(fits_at(LOWER_B@, 'b', 53, 4));
    assert(fits_at(LOWER_B@, 'b', 54, 4));
    assert(fits_at(LOWER_B@, 'b', 55, 4));
}

proof fn lemma_lower_b_56()
    ensures
        filed(LOWER_B@, 'b', 56, 64),
{
    reveal_strlit("boxDr;");
    reveal_strlit("boxH;");
    reveal_strlit("boxHD;");
    reveal_strlit("boxHU;");
    reveal_strlit("boxHd;");
    reveal_strlit("boxHu;");
    reveal_strlit("boxUL;");
    reveal_strlit("boxUR;");
    reveal_strlit("boxUl;");
    assert(fits_at(LOWER_B@, 'b', 56, 3));
    assert(fits_at(LOWER_B@, 'b', 57, 4));
    assert(fits_at(LOWER_B@, 'b', 58, 4));
    assert(fits_at(LOWER_B@, 'b', 59, 4));
    assert(fits_at(LOWER_B@, 'b', 60, 4));
    assert(fits_at(LOWER_B@, 'b', 61, 3));
    assert(fits_at(LOWER_B@, 'b', 62, 4));
    assert(fits_at(LOWER_B@, 'b', 63, 4));
}

proof fn lemma_lower_b_64()
    ensures
        filed(LOWER_B@, 'b', 64, 72),
{
    reveal_strlit("boxUl;");
    reveal_strlit("boxUr;");
    reveal_strlit("boxV;");
    reveal_strlit("boxVH;");
    reveal_strlit("boxVL;");
    reveal_strlit("boxVR;");
    reveal_strlit("boxVh;");
    reveal_strlit("boxVl;");
    reveal_strlit("boxVr;");
    assert(fits_at(LOWER_B@, 'b', 64, 4));
    assert(fits_at(LOWER_B@, 'b', 65, 3));
    assert(fits_at(LOWER_B@, 'b', 66, 4));
    assert(fits_at(LOWER_B@, 'b', 67, 4));
    assert(fits_at(LOWER_B@, 'b', 68, 4));
    assert(fits_at(LOWER_B@, 'b', 69, 4));
    assert(fits_at(LOWER_B@, 'b', 70, 4));
    assert(fits_at(LOWER_B@, 'b', 71, 4));
}

proof fn lemma_lower_b_72()
    ensures
        filed(LOWER_B@, 'b', 72, 80),
{
    reveal_strlit("boxVr;");
    reveal_strlit("boxbox;");
    reveal_strlit("boxdL;");
    reveal_strlit("boxdR;");
    reveal_strlit("boxdl;");
    reveal_strlit("boxdr;");
    reveal_strlit("boxh;");
    reveal_strlit("boxhD;");
    reveal_strlit("boxhU;");
    assert(fits_at(LOWER_B@, 'b', 72, 3));
    assert(fits_at(LOWER_B@, 'b', 73, 3));
    assert(fits_at(LOWER_B@, 'b', 74, 4));
    assert(fits_at(LOWER_B@, 'b', 75, 4));
    assert(fits_at(LOWER_B@, 'b', 76, 4));
    assert(fits_at(LOWER_B@, 'b', 77, 3));
    assert(fits_at(LOWER_B@, 'b', 78, 4));
    assert(fits_at(LOWER_B@, 'b', 79, 4));
}

proof fn lemma_lower_b_80()
    ensures
        filed(LOWER_B@, 'b', 80, 88),
{
    reveal_strlit("boxhU;");
    reveal_strlit("boxhd;");
    reveal_strlit("boxhu;");
    reveal_strlit("boxminus;");
    reveal_strlit("boxplus;");
    reveal_strlit("boxtimes;");
    reveal_strlit("boxuL;");
    reveal_strlit("boxuR;");
    reveal_strlit("boxul;");
    assert(fits_at(LOWER_B@, 'b', 80, 4));
    assert(fits_at(LOWER_B@, 'b', 81, 4));
    assert(fits_at(LOWER_B@, 'b', 82, 3));
    assert(fits_at(LOWER_B@, 'b', 83, 3));
    assert(fits_at(LOWER_B@, 'b', 84, 3));
    assert(fits_at(LOWER_B@, 'b', 85, 3));
    assert(fits_at(LOWER_B@, 'b', 86, 4));
    assert(fits_at(LOWER_B@, 'b', 87, 4));
}

proof fn lemma_lower_b_88()
    ensures
        filed(LOWER_B@, 'b', 88, 96),
{
    reveal_strlit("boxul;");
    reveal_strlit("boxur;");
    reveal_strlit("boxv;");
    reveal_strlit("boxvH;");
    reveal_strlit("boxvL;");
    reveal_strlit("boxvR;");
    reveal_strlit("boxvh;");
    reveal_strlit("boxvl;");
    reveal_strlit("boxvr;");
    assert(fits_at(LOWER_B@, 'b', 88, 4));
    assert(fits_at(LOWER_B@, 'b', 89, 3));
    assert(fits_at(LOWER_B@, 'b', 90, 4));
    assert(fits_at(LOWER_B@, 'b', 91, 4));
    assert(fits_at(LOWER_B@, 'b', 92, 4));
    assert(fits_at(LOWER_B@, 'b', 93, 4));
    assert(fits_at(LOWER_B@, 'b', 94, 4));
    assert(fits_at(LOWER_B@, 'b', 95, 4));
}

proof fn lemma_lower_b_96()
    ensures
        filed(LOWER_B@, 'b', 96, 104),
{
    reveal_strlit("boxvr;");
    reveal_strlit("bprime;");
    reveal_strlit("breve;");
    reveal_strlit("brvbar");
    reveal_strlit("brvbar;");
    reveal_strlit("bscr;");
    reveal_strlit("bsemi;");
    reveal_strlit("bsim;");
    reveal_strlit("bsime;");
    assert(fits_at(LOWER_B@, 'b', 96, 1));
    assert(fits_at(LOWER_B@, 'b', 97, 1));
    assert(fits_at(LOWER_B@, 'b', 98, 2));
    assert(fits_at(LOWER_B@, 'b', 99, 6));
    assert(fits_at(LOWER_B@, 'b', 100, 1));
    assert(fits_at(LOWER_B@, 'b', 101, 2));
    assert(fits_at(LOWER_B@, 'b', 102, 2));
    assert(fits_at(LOWER_B@, 'b', 103, 4));
}

proof fn lemma_lower_b_104()
    ensures
        filed(LOWER_B@, 'b', 104, 112),
{
    reveal_strlit("bsime;");
    reveal_strlit("bsol;");
    reveal_strlit("bsolb;");
    reveal_strlit("bsolhsub;");
    reveal_strlit("bull;");
    reveal_strlit("bullet;");
    reveal_strlit("bump;");
    reveal_strlit("bumpE;");
    reveal_strlit("bumpe;");
    assert(fits_at(LOWER_B@, 'b', 104, 2));
    assert(fits_at(LOWER_B@, 'b', 105, 4));
    assert(fits_at(LOWER_B@, 'b', 106, 4));
    assert(fits_at(LOWER_B@, 'b', 107, 1));
    assert(fits_at(LOWER_B@, 'b', 108, 4));
    assert(fits_at(LOWER_B@, 'b', 109, 2));
    assert(fits_at(LOWER_B@, 'b', 110, 4));
    assert(fits_at(LOWER_B@, 'b', 111, 4));
}

proof fn lemma_lower_b_112()
    ensures
        filed(LOWER_B@, 'b', 112, 114),
{
    reveal_strlit("bumpe;");
    reveal_strlit("bumpeq;");
    assert(fits_at(LOWER_B@, 'b', 112, 5));
    assert(fits_at(LOWER_B@, 'b', 113, 0));
}

pub(super) proof fn lemma_lower_b()
    ensures
        filed(LOWER_B@, 'b', 0, LOWER_B@.len() as int),
        LOWER_B@.len() == 114,
{
    lemma_lower_b_0();
    lemma_lower_b_8();
    lemma_lower_b_16();
    lemma_lower_b_24();
    lemma_lower_b_32();
    lemma_lower_b_40();
    lemma_lower_b_48();
    lemma_lower_b_56();
    lemma_lower_b_64();
    lemma_lower_b_72();
    lemma_lower_b_80();
    lemma_lower_b_88();
    lemma_lower_b_96();
    lemma_lower_b_104();
    lemma_lower_b_112();
}

pub(super) proof fn lemma_lower_b_pairs()
    ensures
        forall|i: int| 21 <= i < 23 ==> #[trigger] stands_alone(i, LOWER_B@, 'b'),
{
    lemma_lower_b();
    reveal_strlit("bne;");
    reveal_strlit("block;");
    reveal_strlit("bnot;");
    reveal_strlit("bnequiv;");
    lemma_stands_alone(21, LOWER_B@, 'b', 48, 1, 2);
    lemma_stands_alone(22, LOWER_B@, 'b', 48, 1, 2);
}

} // verus!
