//! The names that begin with `R` or `r` are in order.

use crate::entities::{LOWER_R, UPPER_R};
use crate::laws::names::order::{filed, fits_at, lemma_stands_alone, stands_alone};
use vstd::prelude::*;

verus! {

proof fn lemma_upper_r_0()
    ensures
        filed(UPPER_R@, 'R', 0, 8),
{
    reveal_strlit("RBarr;");
    reveal_strlit("REG");
    reveal_strlit("REG;");
    reveal_strlit("Racute;");
    reveal_strlit("Rang;");
    reveal_strlit("Rarr;");
    reveal_strlit("Rarrtl;");
    reveal_strlit("Rcaron;");
    reveal_strlit("Rcedil;");
    assert(fits_at(UPPER_R@, 'R', 0, 1));
    assert(fits_at(UPPER_R@, 'R', 1, 3));
    assert(fits_at(UPPER_R@, 'R', 2, 1));
    assert(fits_at(UPPER_R@, 'R', 3, 2));
    assert(fits_at(UPPER_R@, 'R', 4, 2));
    assert(fits_at(UPPER_R@, 'R', 5, 4));
    assert(fits_at(UPPER_R@, 'R', 6, 1));
    assert(fits_at(UPPER_R@, 'R', 7, 2));
}

proof fn lemma_upper_r_8()
    ensures
        filed(UPPER_R@, 'R', 8, 16),
{
    reveal_strlit("Rcedil;");
    reveal_strlit("Rcy;");
    reveal_strlit("Re;");
    reveal_strlit("ReverseElement;");
    reveal_strlit("ReverseEquilibrium;");
    reveal_strlit("ReverseUpEquilibrium;");
    reveal_strlit("Rfr;");
    reveal_strlit("Rho;");
    reveal_strlit("RightAngleBracket;");
    assert(fits_at(UPPER_R@, 'R', 8, 2));
    assert(fits_at(UPPER_R@, 'R', 9, 1));
    assert(fits_at(UPPER_R@, 'R', 10, 2));
    assert(fits_at(UPPER_R@, 'R', 11, 8));
    assert(fits_at(UPPER_R@, 'R', 12, 7));
    assert(fits_at(UPPER_R@, 'R', 13, 1));
    assert(fits_at(UPPER_R@, 'R', 14, 1));
    assert(fits_at(UPPER_R@, 'R', 15, 1));
}

proof fn lemma_upper_r_16()
    ensures
        filed(UPPER_R@, 'R', 16, 24),
{
    reveal_strlit("RightAngleBracket;");
    reveal_strlit("RightArrow;");
    reveal_strlit("RightArrowBar;");
    reveal_strlit("RightArrowLeftArrow;");
    reveal_strlit("RightCeiling;");
    reveal_strlit("RightDoubleBracket;");
    reveal_strlit("RightDownTeeVector;");
    reveal_strlit("RightDownVector;");
    reveal_strlit("RightDownVectorBar;");
    assert(fits_at(UPPER_R@, 'R', 16, 6));
    assert(fits_at(UPPER_R@, 'R', 17, 10));
    assert(fits_at(UPPER_R@, 'R', 18, 10));
    assert(fits_at(UPPER_R@, 'R', 19, 5));
    assert(fits_at(UPPER_R@, 'R', 20, 5));
    assert(fits_at(UPPER_R@, 'R', 21, 7));
    assert(fits_at(UPPER_R@, 'R', 22, 9));
    assert(fits_at(UPPER_R@, 'R', 23, 15));
}

proof fn lemma_upper_r_24()
    ensures
        filed(UPPER_R@, 'R', 24, 32),
{
    reveal_strlit("RightDownVectorBar;");
    reveal_strlit("RightFloor;");
    reveal_strlit("RightTee;");
    reveal_strlit("RightTeeArrow;");
    reveal_strlit("RightTeeVector;");
    reveal_strlit("RightTriangle;");
    reveal_strlit("RightTriangleBar;");
    reveal_strlit("RightTriangleEqual;");
    reveal_strlit("RightUpDownVector;");
    assert(fits_at(UPPER_R@, 'R', 24, 5));
    assert(fits_at(UPPER_R@, 'R', 25, 5));
    assert(fits_at(UPPER_R@, 'R', 26, 8));
    assert(fits_at(UPPER_R@, 'R', 27, 8));
    assert(fits_at(UPPER_R@, 'R', 28, 6));
    assert(fits_at(UPPER_R@, 'R', 29, 13));
    assert(fits_at(UPPER_R@, 'R', 30, 13));
    assert(fits_at(UPPER_R@, 'R', 31, 5));
}

proof fn lemma_upper_r_32()
    ensures
        filed(UPPER_R@, 'R', 32, 40),
{
    reveal_strlit("RightUpDownVector;");
    reveal_strlit("RightUpTeeVector;");
    reveal_strlit("RightUpVector;");
    reveal_strlit("RightUpVectorBar;");
    reveal_strlit("RightVector;");
    reveal_strlit("RightVectorBar;");
    reveal_strlit("Rightarrow;");
    reveal_strlit("Ropf;");
    reveal_strlit("RoundImplies;");
    assert(fits_at(UPPER_R@, 'R', 32, 7));
    assert(fits_at(UPPER_R@, 'R', 33, 7));
    assert(fits_at(UPPER_R@, 'R', 34, 13));
    assert(fits_at(UPPER_R@, 'R', 35, 5));
    assert(fits_at(UPPER_R@, 'R', 36, 11));
    assert(fits_at(UPPER_R@, 'R', 37, 5));
    assert(fits_at(UPPER_R@, 'R', 38, 1));
    assert(fits_at(UPPER_R@, 'R', 39, 2));
}

proof fn lemma_upper_r_40()
    ensures
        filed(UPPER_R@, 'R', 40, 45),
{
    reveal_strlit("RoundImplies;");
    reveal_strlit("Rrightarrow;");
    reveal_strlit("Rscr;");
    reveal_strlit("Rsh;");
    reveal_strlit("RuleDelayed;");
    assert(fits_at(UPPER_R@, 'R', 40, 1));
    assert(fits_at(UPPER_R@, 'R', 41, 1));
    assert(fits_at(UPPER_R@, 'R', 42, 2));
    assert(fits_at(UPPER_R@, 'R', 43, 1));
    assert(fits_at(UPPER_R@, 'R', 44, 0));
}

pub(super) proof fn lemma_upper_r()
    ensures
        filed(UPPER_R@, 'R', 0, UPPER_R@.len() as int),
        UPPER_R@.len() == 45,
{
    lemma_upper_r_0();
    lemma_upper_r_8();
    lemma_upper_r_16();
    lemma_upper_r_24();
    lemma_upper_r_32();
    lemma_upper_r_40();
}

proof fn lemma_lower_r_0()
    ensures
        filed(LOWER_R@, 'r', 0, 8),
{
    reveal_strlit("rAarr;");
    reveal_strlit("rArr;");
    reveal_strlit("rAtail;");
    reveal_strlit("rBarr;");
    reveal_strlit("rHar;");
    reveal_strlit("racute;");
    reveal_strlit("radic;");
    reveal_strlit("raemptyv;");
    reveal_strlit("rang;");
    assert(fits_at(LOWER_R@, 'r', 0, 2));
    assert(fits_at(LOWER_R@, 'r', 1, 2));
    assert(fits_at(LOWER_R@, 'r', 2, 1));
    assert(fits_at(LOWER_R@, 'r', 3, 1));
    assert(fits_at(LOWER_R@, 'r', 4, 1));
    assert(fits_at(LOWER_R@, 'r', 5, 2));
    assert(fits_at(LOWER_R@, 'r', 6, 2));
    assert(fits_at(LOWER_R@, 'r', 7, 2));
}

proof fn lemma_lower_r_8()
    ensures
        filed(LOWER_R@, 'r', 8, 16),
{
    reveal_strlit("rang;");
    reveal_strlit("rangd;");
    reveal_strlit("range;");
    reveal_strlit("rangle;");
    reveal_strlit("raquo");
    reveal_strlit("raquo;");
    reveal_strlit("rarr;");
    reveal_strlit("rarrap;");
    reveal_strlit("rarrb;");
    assert(fits_at(LOWER_R@, 'r', 8, 4));
    assert(fits_at(LOWER_R@, 'r', 9, 4));
    assert(fits_at(LOWER_R@, 'r', 10, 4));
    assert(fits_at(LOWER_R@, 'r', 11, 2));
    assert(fits_at(LOWER_R@, 'r', 12, 5));
    assert(fits_at(LOWER_R@, 'r', 13, 2));
    assert(fits_at(LOWER_R@, 'r', 14, 4));
    assert(fits_at(LOWER_R@, 'r', 15, 4));
}

proof fn lemma_lower_r_16()
    ensures
        filed(LOWER_R@, 'r', 16, 24),
{
    reveal_strlit("rarrb;");
    reveal_strlit("rarrbfs;");
    reveal_strlit("rarrc;");
    reveal_strlit("rarrfs;");
    reveal_strlit("rarrhk;");
    reveal_strlit("rarrlp;");
    reveal_strlit("rarrpl;");
    reveal_strlit("rarrsim;");
    reveal_strlit("rarrtl;");
    assert(fits_at(LOWER_R@, 'r', 16, 5));
    assert(fits_at(LOWER_R@, 'r', 17, 4));
    assert(fits_at(LOWER_R@, 'r', 18, 4));
    assert(fits_at(LOWER_R@, 'r', 19, 4));
    assert(fits_at(LOWER_R@, 'r', 20, 4));
    assert(fits_at(LOWER_R@, 'r', 21, 4));
    assert(fits_at(LOWER_R@, 'r', 22, 4));
    assert(fits_at(LOWER_R@, 'r', 23, 4));
}

proof fn lemma_lower_r_24()
    ensures
        filed(LOWER_R@, 'r', 24, 32),
{
    reveal_strlit("rarrtl;");
    reveal_strlit("rarrw;");
    reveal_strlit("ratail;");
    reveal_strlit("ratio;");
    reveal_strlit("rationals;");
    reveal_strlit("rbarr;");
    reveal_strlit("rbbrk;");
    reveal_strlit("rbrace;");
    reveal_strlit("rbrack;");
    assert(fits_at(LOWER_R@, 'r', 24, 4));
    assert(fits_at(LOWER_R@, 'r', 25, 2));
    assert(fits_at(LOWER_R@, 'r', 26, 3));
    assert(fits_at(LOWER_R@, 'r', 27, 5));
    assert(fits_at(LOWER_R@, 'r', 28, 1));
    assert(fits_at(LOWER_R@, 'r', 29, 2));
    assert(fits_at(LOWER_R@, 'r', 30, 2));
    assert(fits_at(LOWER_R@, 'r', 31, 5));
}

proof fn lemma_lower_r_32()
    ensures
        filed(LOWER_R@, 'r', 32, 40),
{
    reveal_strlit("rbrack;");
    reveal_strlit("rbrke;");
    reveal_strlit("rbrksld;");
    reveal_strlit("rbrkslu;");
    reveal_strlit("rcaron;");
    reveal_strlit("rcedil;");
    reveal_strlit("rceil;");
    reveal_strlit("rcub;");
    reveal_strlit("rcy;");
    assert(fits_at(LOWER_R@, 'r', 32, 3));
    assert(fits_at(LOWER_R@, 'r', 33, 4));
    assert(fits_at(LOWER_R@, 'r', 34, 6));
    assert(fits_at(LOWER_R@, 'r', 35, 1));
    assert(fits_at(LOWER_R@, 'r', 36, 2));
    assert(fits_at(LOWER_R@, 'r', 37, 3));
    assert(fits_at(LOWER_R@, 'r', 38, 2));
    assert(fits_at(LOWER_R@, 'r', 39, 2));
}

proof fn lemma_lower_r_40()
    ensures
        filed(LOWER_R@, 'r', 40, 48),
{
    reveal_strlit("rcy;");
    reveal_strlit("rdca;");
    reveal_strlit("rdldhar;");
    reveal_strlit("rdquo;");
    reveal_strlit("rdquor;");
    reveal_strlit("rdsh;");
    reveal_strlit("real;");
    reveal_strlit("realine;");
    reveal_strlit("realpart;");
    assert(fits_at(LOWER_R@, 'r', 40, 1));
    assert(fits_at(LOWER_R@, 'r', 41, 2));
    assert(fits_at(LOWER_R@, 'r', 42, 2));
    assert(fits_at(LOWER_R@, 'r', 43, 5));
    assert(fits_at(LOWER_R@, 'r', 44, 2));
    assert(fits_at(LOWER_R@, 'r', 45, 1));
    assert(fits_at(LOWER_R@, 'r', 46, 4));
    assert(fits_at(LOWER_R@, 'r', 47, 4));
}

proof fn lemma_lower_r_48()
    ensures
        filed(LOWER_R@, 'r', 48, 56),
{
    reveal_strlit("realpart;");
    reveal_strlit("reals;");
    reveal_strlit("rect;");
    reveal_strlit("reg");
    reveal_strlit("reg;");
    reveal_strlit("rfisht;");
    reveal_strlit("rfloor;");
    reveal_strlit("rfr;");
    reveal_strlit("rhard;");
    assert(fits_at(LOWER_R@, 'r', 48, 4));
    assert(fits_at(LOWER_R@, 'r', 49, 2));
    assert(fits_at(LOWER_R@, 'r', 50, 2));
    assert(fits_at(LOWER_R@, 'r', 51, 3));
    assert(fits_at(LOWER_R@, 'r', 52, 1));
    assert(fits_at(LOWER_R@, 'r', 53, 2));
    assert(fits_at(LOWER_R@, 'r', 54, 2));
    assert(fits_at(LOWER_R@, 'r', 55, 1));
}

proof fn lemma_lower_r_56()
    ensures
        filed(LOWER_R@, 'r', 56, 64),
{
    reveal_strlit("rhard;");
    reveal_strlit("rharu;");
    reveal_strlit("rharul;");
    reveal_strlit("rho;");
    reveal_strlit("rhov;");
    reveal_strlit("rightarrow;");
    reveal_strlit("rightarrowtail;");
    reveal_strlit("rightharpoondown;");
    reveal_strlit("rightharpoonup;");
    assert(fits_at(LOWER_R@, 'r', 56, 4));
    assert(fits_at(LOWER_R@, 'r', 57, 5));
    assert(fits_at(LOWER_R@, 'r', 58, 2));
    assert(fits_at(LOWER_R@, 'r', 59, 3));
    assert(fits_at(LOWER_R@, 'r', 60, 1));
    assert(fits_at(LOWER_R@, 'r', 61, 10));
    assert(fits_at(LOWER_R@, 'r', 62, 5));
    assert(fits_at(LOWER_R@, 'r', 63, 12));
}

proof fn lemma_lower_r_64()
    ensures
        filed(LOWER_R@, 'r', 64, 72),
{
    reveal_strlit("rightharpoonup;");
    reveal_strlit("rightleftarrows;");
    reveal_strlit("rightleftharpoons;");
    reveal_strlit("rightrightarrows;");
    reveal_strlit("rightsquigarrow;");
    reveal_strlit("rightthreetimes;");
    reveal_strlit("ring;");
    reveal_strlit("risingdotseq;");
    reveal_strlit("rlarr;");
    assert(fits_at(LOWER_R@, 'r', 64, 5));
    assert(fits_at(LOWER_R@, 'r', 65, 9));
    assert(fits_at(LOWER_R@, 'r', 66, 5));
    assert(fits_at(LOWER_R@, 'r', 67, 5));
    assert(fits_at(LOWER_R@, 'r', 68, 5));
    assert(fits_at(LOWER_R@, 'r', 69, 2));
    assert(fits_at(LOWER_R@, 'r', 70, 2));
    assert(fits_at(LOWER_R@, 'r', 71, 1));
}

proof fn lemma_lower_r_72()
    ensures
        filed(LOWER_R@, 'r', 72, 80),
{
    reveal_strlit("rlarr;");
    reveal_strlit("rlhar;");
    reveal_strlit("rlm;");
    reveal_strlit("rmoust;");
    reveal_strlit("rmoustache;");
    reveal_strlit("rnmid;");
    reveal_strlit("roang;");
    reveal_strlit("roarr;");
    reveal_strlit("robrk;");
    assert(fits_at(LOWER_R@, 'r', 72, 2));
    assert(fits_at(LOWER_R@, 'r', 73, 2));
    assert(fits_at(LOWER_R@, 'r', 74, 1));
    assert(fits_at(LOWER_R@, 'r', 75, 6));
    assert(fits_at(LOWER_R@, 'r', 76, 1));
    assert(fits_at(LOWER_R@, 'r', 77, 1));
    assert(fits_at(LOWER_R@, 'r', 78, 3));
    assert(fits_at(LOWER_R@, 'r', 79, 2));
}

proof fn lemma_lower_r_80()
    ensures
        filed(LOWER_R@, 'r', 80, 88),
{
    reveal_strlit("robrk;");
    reveal_strlit("ropar;");
    reveal_strlit("ropf;");
    reveal_strlit("roplus;");
    reveal_strlit("rotimes;");
    reveal_strlit("rpar;");
    reveal_strlit("rpargt;");
    reveal_strlit("rppolint;");
    reveal_strlit("rrarr;");
    assert(fits_at(LOWER_R@, 'r', 80, 2));
    assert(fits_at(LOWER_R@, 'r', 81, 3));
    assert(fits_at(LOWER_R@, 'r', 82, 3));
    assert(fits_at(LOWER_R@, 'r', 83, 2));
    assert(fits_at(LOWER_R@, 'r', 84, 1));
    assert(fits_at(LOWER_R@, 'r', 85, 4));
    assert(fits_at(LOWER_R@, 'r', 86, 2));
    assert(fits_at(LOWER_R@, 'r', 87, 1));
}

proof fn lemma_lower_r_88()
    ensures
        filed(LOWER_R@, 'r', 88, 96),
{
    reveal_strlit("rrarr;");
    reveal_strlit("rsaquo;");
    reveal_strlit("rscr;");
    reveal_strlit("rsh;");
    reveal_strlit("rsqb;");
    reveal_strlit("rsquo;");
    reveal_strlit("rsquor;");
    reveal_strlit("rthree;");
    reveal_strlit("rtimes;");
    assert(fits_at(LOWER_R@, 'r', 88, 1));
    assert(fits_at(LOWER_R@, 'r', 89, 2));
    assert(fits_at(LOWER_R@, 'r', 90, 2));
    assert(fits_at(LOWER_R@, 'r', 91, 2));
    assert(fits_at(LOWER_R@, 'r', 92, 3));
    assert(fits_at(LOWER_R@, 'r', 93, 5));
    assert(fits_at(LOWER_R@, 'r', 94, 1));
    assert(fits_at(LOWER_R@, 'r', 95, 2));
}

proof fn lemma_lower_r_96()
    ensures
        filed(LOWER_R@, 'r', 96, 103),
{
    reveal_strlit("rtimes;");
    reveal_strlit("rtri;");
    reveal_strlit("rtrie;");
    reveal_strlit("rtrif;");
    reveal_strlit("rtriltri;");
    reveal_strlit("ruluhar;");
    reveal_strlit("rx;");
    assert(fits_at(LOWER_R@, 'r', 96, 2));
    assert(fits_at(LOWER_R@, 'r', 97, 4));
    assert(fits_at(LOWER_R@, 'r', 98, 4));
    assert(fits_at(LOWER_R@, 'r', 99, 4));
    assert(fits_at(LOWER_R@, 'r', 100, 1));
    assert(fits_at(LOWER_R@, 'r', 101, 1));
    assert(fits_at(LOWER_R@, 'r', 102, 0));
}

pub(super) proof fn lemma_lower_r()
    ensures
        filed(LOWER_R@, 'r', 0, LOWER_R@.len() as int),
        LOWER_R@.len() == 103,
{
    lemma_lower_r_0();
    lemma_lower_r_8();
    lemma_lower_r_16();
    lemma_lower_r_24();
    lemma_lower_r_32();
    lemma_lower_r_40();
    lemma_lower_r_48();
    lemma_lower_r_56();
    lemma_lower_r_64();
    lemma_lower_r_72();
    lemma_lower_r_80();
    lemma_lower_r_88();
    lemma_lower_r_96();
}

pub(super) proof fn lemma_lower_r_pairs()
    ensures
        forall|i: int| 79 <= i < 80 ==> #[trigger] stands_alone(i, LOWER_R@, 'r'),
{
    lemma_lower_r();
    reveal_strlit("race;");
    reveal_strlit("rHar;");
    reveal_strlit("racute;");
    lemma_stands_alone(79, LOWER_R@, 'r', 5, 1, 3);
}

} // verus!
