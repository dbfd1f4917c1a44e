//! The names that begin with `L` or `l` are in order.

use crate::entities::{LOWER_L, UPPER_L};
use crate::laws::names::order::{filed, fits_at, lemma_stands_alone, stands_alone};
use vstd::prelude::*;

verus! {

proof fn lemma_upper_l_0()
    ensures
        filed(UPPER_L@, 'L', 0, 8),
{
    reveal_strlit("LJcy;");
    reveal_strlit("LT");
    reveal_strlit("LT;");
    reveal_strlit("Lacute;");
    reveal_strlit("Lambda;");
    reveal_strlit("Lang;");
    reveal_strlit("Laplacetrf;");
    reveal_strlit("Larr;");
    reveal_strlit("Lcaron;");
    assert(fits_at(UPPER_L@, 'L', 0, 1));
    assert(fits_at(UPPER_L@, 'L', 1, 2));
    assert(fits_at(UPPER_L@, 'L', 2, 1));
    assert(fits_at(UPPER_L@, 'L', 3, 2));
    assert(fits_at(UPPER_L@, 'L', 4, 2));
    assert(fits_at(UPPER_L@, 'L', 5, 2));
    assert(fits_at(UPPER_L@, 'L', 6, 2));
    assert(fits_at(UPPER_L@, 'L', 7, 1));
}

proof fn lemma_upper_l_8()
    ensures
        filed(UPPER_L@, 'L', 8, 16),
{
    reveal_strlit("Lcaron;");
    reveal_strlit("Lcedil;");
    reveal_strlit("Lcy;");
    reveal_strlit("LeftAngleBracket;");
    reveal_strlit("LeftArrow;");
    reveal_strlit("LeftArrowBar;");
    reveal_strlit("LeftArrowRightArrow;");
    reveal_strlit("LeftCeiling;");
    reveal_strlit("LeftDoubleBracket;");
    assert(fits_at(UPPER_L@, 'L', 8, 2));
    assert(fits_at(UPPER_L@, 'L', 9, 2));
    assert(fits_at(UPPER_L@, 'L', 10, 1));
    assert(fits_at(UPPER_L@, 'L', 11, 5));
    assert(fits_at(UPPER_L@, 'L', 12, 9));
    assert(fits_at(UPPER_L@, 'L', 13, 9));
    assert(fits_at(UPPER_L@, 'L', 14, 4));
    assert(fits_at(UPPER_L@, 'L', 15, 4));
}

proof fn lemma_upper_l_16()
    ensures
        filed(UPPER_L@, 'L', 16, 24),
{
    reveal_strlit("LeftDoubleBracket;");
    reveal_strlit("LeftDownTeeVector;");
    reveal_strlit("LeftDownVector;");
    reveal_strlit("LeftDownVectorBar;");
    reveal_strlit("LeftFloor;");
    reveal_strlit("LeftRightArrow;");
    reveal_strlit("LeftRightVector;");
    reveal_strlit("LeftTee;");
    reveal_strlit("LeftTeeArrow;");
    assert(fits_at(UPPER_L@, 'L', 16, 6));
    assert(fits_at(UPPER_L@, 'L', 17, 8));
    assert(fits_at(UPPER_L@, 'L', 18, 14));
    assert(fits_at(UPPER_L@, 'L', 19, 4));
    assert(fits_at(UPPER_L@, 'L', 20, 4));
    assert(fits_at(UPPER_L@, 'L', 21, 9));
    assert(fits_at(UPPER_L@, 'L', 22, 4));
    assert(fits_at(UPPER_L@, 'L', 23, 7));
}

proof fn lemma_upper_l_24()
    ensures
        filed(UPPER_L@, 'L', 24, 32),
{
    reveal_strlit("LeftTeeArrow;");
    reveal_strlit("LeftTeeVector;");
    reveal_strlit("LeftTriangle;");
    reveal_strlit("LeftTriangleBar;");
    reveal_strlit("LeftTriangleEqual;");
    reveal_strlit("LeftUpDownVector;");
    reveal_strlit("LeftUpTeeVector;");
    reveal_strlit("LeftUpVector;");
    reveal_strlit("LeftUpVectorBar;");
    assert(fits_at(UPPER_L@, 'L', 24, 7));
    assert(fits_at(UPPER_L@, 'L', 25, 5));
    assert(fits_at(UPPER_L@, 'L', 26, 12));
    assert(fits_at(UPPER_L@, 'L', 27, 12));
    assert(fits_at(UPPER_L@, 'L', 28, 4));
    assert(fits_at(UPPER_L@, 'L', 29, 6));
    assert(fits_at(UPPER_L@, 'L', 30, 6));
    assert(fits_at(UPPER_L@, 'L', 31, 12));
}

proof fn lemma_upper_l_32()
    ensures
        filed(UPPER_L@, 'L', 32, 40),
{
    reveal_strlit("LeftUpVectorBar;");
    reveal_strlit("LeftVector;");
    reveal_strlit("LeftVectorBar;");
    reveal_strlit("Leftarrow;");
    reveal_strlit("Leftrightarrow;");
    reveal_strlit("LessEqualGreater;");
    reveal_strlit("LessFullEqual;");
    reveal_strlit("LessGreater;");
    reveal_strlit("LessLess;");
    assert(fits_at(UPPER_L@, 'L', 32, 4));
    assert(fits_at(UPPER_L@, 'L', 33, 10));
    assert(fits_at(UPPER_L@, 'L', 34, 4));
    assert(fits_at(UPPER_L@, 'L', 35, 4));
    assert(fits_at(UPPER_L@, 'L', 36, 2));
    assert(fits_at(UPPER_L@, 'L', 37, 4));
    assert(fits_at(UPPER_L@, 'L', 38, 4));
    assert(fits_at(UPPER_L@, 'L', 39, 4));
}

proof fn lemma_upper_l_40()
    ensures
        filed(UPPER_L@, 'L', 40, 48),
{
    reveal_strlit("LessLess;");
    reveal_strlit("LessSlantEqual;");
    reveal_strlit("LessTilde;");
    reveal_strlit("Lfr;");
    reveal_strlit("Ll;");
    reveal_strlit("Lleftarrow;");
    reveal_strlit("Lmidot;");
    reveal_strlit("LongLeftArrow;");
    reveal_strlit("LongLeftRightArrow;");
    assert(fits_at(UPPER_L@, 'L', 40, 4));
    assert(fits_at(UPPER_L@, 'L', 41, 4));
    assert(fits_at(UPPER_L@, 'L', 42, 1));
    assert(fits_at(UPPER_L@, 'L', 43, 1));
    assert(fits_at(UPPER_L@, 'L', 44, 2));
    assert(fits_at(UPPER_L@, 'L', 45, 1));
    assert(fits_at(UPPER_L@, 'L', 46, 1));
    assert(fits_at(UPPER_L@, 'L', 47, 8));
}

proof fn lemma_upper_l_48()
    ensures
        filed(UPPER_L@, 'L', 48, 56),
{
    reveal_strlit("LongLeftRightArrow;");
    reveal_strlit("LongRightArrow;");
    reveal_strlit("Longleftarrow;");
    reveal_strlit("Longleftrightarrow;");
    reveal_strlit("Longrightarrow;");
    reveal_strlit("Lopf;");
    reveal_strlit("LowerLeftArrow;");
    reveal_strlit("LowerRightArrow;");
    reveal_strlit("Lscr;");
    assert(fits_at(UPPER_L@, 'L', 48, 4));
    assert(fits_at(UPPER_L@, 'L', 49, 4));
    assert(fits_at(UPPER_L@, 'L', 50, 8));
    assert(fits_at(UPPER_L@, 'L', 51, 4));
    assert(fits_at(UPPER_L@, 'L', 52, 2));
    assert(fits_at(UPPER_L@, 'L', 53, 2));
    assert(fits_at(UPPER_L@, 'L', 54, 5));
    assert(fits_at(UPPER_L@, 'L', 55, 1));
}

proof fn lemma_upper_l_56()
    ensures
        filed(UPPER_L@, 'L', 56, 60),
{
    reveal_strlit("Lscr;");
    reveal_strlit("Lsh;");
    reveal_strlit("Lstrok;");
    reveal_strlit("Lt;");
    assert(fits_at(UPPER_L@, 'L', 56, 2));
    assert(fits_at(UPPER_L@, 'L', 57, 2));
    assert(fits_at(UPPER_L@, 'L', 58, 1));
    assert(fits_at(UPPER_L@, 'L', 59, 0));
}

pub(super) proof fn lemma_upper_l()
    ensures
        filed(UPPER_L@, 'L', 0, UPPER_L@.len() as int),
        UPPER_L@.len() == 60,
{
    lemma_upper_l_0();
    lemma_upper_l_8();
    lemma_upper_l_16();
    lemma_upper_l_24();
    lemma_upper_l_32();
    lemma_upper_l_40();
    lemma_upper_l_48();
    lemma_upper_l_56();
}

proof fn lemma_lower_l_0()
    ensures
        filed(LOWER_L@, 'l', 0, 8),
{
    reveal_strlit("lAarr;");
    reveal_strlit("lArr;");
    reveal_strlit("lAtail;");
    reveal_strlit("lBarr;");
    reveal_strlit("lE;");
    reveal_strlit("lEg;");
    reveal_strlit("lHar;");
    reveal_strlit("lacute;");
    reveal_strlit("laemptyv;");
    assert(fits_at(LOWER_L@, 'l', 0, 2));
    assert(fits_at(LOWER_L@, 'l', 1, 2));
    assert(fits_at(LOWER_L@, 'l', 2, 1));
    assert(fits_at(LOWER_L@, 'l', 3, 1));
    assert(fits_at(LOWER_L@, 'l', 4, 2));
    assert(fits_at(LOWER_L@, 'l', 5, 1));
    assert(fits_at(LOWER_L@, 'l', 6, 1));
    assert(fits_at(LOWER_L@, 'l', 7, 2));
}

proof fn lemma_lower_l_8()
    ensures
        filed(LOWER_L@, 'l', 8, 16),
{
    reveal_strlit("laemptyv;");
    reveal_strlit("lagran;");
    reveal_strlit("lambda;");
    reveal_strlit("lang;");
    reveal_strlit("langd;");
    reveal_strlit("langle;");
    reveal_strlit("lap;");
    reveal_strlit("laquo");
    reveal_strlit("laquo;");
    assert(fits_at(LOWER_L@, 'l', 8, 2));
    assert(fits_at(LOWER_L@, 'l', 9, 2));
    assert(fits_at(LOWER_L@, 'l', 10, 2));
    assert(fits_at(LOWER_L@, 'l', 11, 4));
    assert(fits_at(LOWER_L@, 'l', 12, 4));
    assert(fits_at(LOWER_L@, 'l', 13, 2));
    assert(fits_at(LOWER_L@, 'l', 14, 2));
    assert(fits_at(LOWER_L@, 'l', 15, 5));
}

proof fn lemma_lower_l_16()
    ensures
        filed(LOWER_L@, 'l', 16, 24),
{
    reveal_strlit("laquo;");
    reveal_strlit("larr;");
    reveal_strlit("larrb;");
    reveal_strlit("larrbfs;");
    reveal_strlit("larrfs;");
    reveal_strlit("larrhk;");
    reveal_strlit("larrlp;");
    reveal_strlit("larrpl;");
    reveal_strlit("larrsim;");
    assert(fits_at(LOWER_L@, 'l', 16, 2));
    assert(fits_at(LOWER_L@, 'l', 17, 4));
    assert(fits_at(LOWER_L@, 'l', 18, 5));
    assert(fits_at(LOWER_L@, 'l', 19, 4));
    assert(fits_at(LOWER_L@, 'l', 20, 4));
    assert(fits_at(LOWER_L@, 'l', 21, 4));
    assert(fits_at(LOWER_L@, 'l', 22, 4));
    assert(fits_at(LOWER_L@, 'l', 23, 4));
}

proof fn lemma_lower_l_24()
    ensures
        filed(LOWER_L@, 'l', 24, 32),
{
    reveal_strlit("larrsim;");
    reveal_strlit("larrtl;");
    reveal_strlit("lat;");
    reveal_strlit("latail;");
    reveal_strlit("late;");
    reveal_strlit("lbarr;");
    reveal_strlit("lbbrk;");
    reveal_strlit("lbrace;");
    reveal_strlit("lbrack;");
    assert(fits_at(LOWER_L@, 'l', 24, 4));
    assert(fits_at(LOWER_L@, 'l', 25, 2));
    assert(fits_at(LOWER_L@, 'l', 26, 3));
    assert(fits_at(LOWER_L@, 'l', 27, 3));
    assert(fits_at(LOWER_L@, 'l', 28, 1));
    assert(fits_at(LOWER_L@, 'l', 29, 2));
    assert(fits_at(LOWER_L@, 'l', 30, 2));
    assert(fits_at(LOWER_L@, 'l', 31, 5));
}

proof fn lemma_lower_l_32()
    ensures
        filed(LOWER_L@, 'l', 32, 40),
{
    reveal_strlit("lbrack;");
    reveal_strlit("lbrke;");
    reveal_strlit("lbrksld;");
    reveal_strlit("lbrkslu;");
    reveal_strlit("lcaron;");
    reveal_strlit("lcedil;");
    reveal_strlit("lceil;");
    reveal_strlit("lcub;");
    reveal_strlit("lcy;");
    assert(fits_at(LOWER_L@, 'l', 32, 3));
    assert(fits_at(LOWER_L@, 'l', 33, 4));
    assert(fits_at(LOWER_L@, 'l', 34, 6));
    assert(fits_at(LOWER_L@, 'l', 35, 1));
    assert(fits_at(LOWER_L@, 'l', 36, 2));
    assert(fits_at(LOWER_L@, 'l', 37, 3));
    assert(fits_at(LOWER_L@, 'l', 38, 2));
    assert(fits_at(LOWER_L@, 'l', 39, 2));
}

proof fn lemma_lower_l_40()
    ensures
        filed(LOWER_L@, 'l', 40, 48),
{
    reveal_strlit("lcy;");
    reveal_strlit("ldca;");
    reveal_strlit("ldquo;");
    reveal_strlit("ldquor;");
    reveal_strlit("ldrdhar;");
    reveal_strlit("ldrushar;");
    reveal_strlit("ldsh;");
    reveal_strlit("le;");
    reveal_strlit("leftarrow;");
    assert(fits_at(LOWER_L@, 'l', 40, 1));
    assert(fits_at(LOWER_L@, 'l', 41, 2));
    assert(fits_at(LOWER_L@, 'l', 42, 5));
    assert(fits_at(LOWER_L@, 'l', 43, 2));
    assert(fits_at(LOWER_L@, 'l', 44, 3));
    assert(fits_at(LOWER_L@, 'l', 45, 2));
    assert(fits_at(LOWER_L@, 'l', 46, 1));
    assert(fits_at(LOWER_L@, 'l', 47, 2));
}

proof fn lemma_lower_l_48()
    ensures
        filed(LOWER_L@, 'l', 48, 56),
{
    reveal_strlit("leftarrow;");
    reveal_strlit("leftarrowtail;");
    reveal_strlit("leftharpoondown;");
    reveal_strlit("leftharpoonup;");
    reveal_strlit("leftleftarrows;");
    reveal_strlit("leftrightarrow;");
    reveal_strlit("leftrightarrows;");
    reveal_strlit("leftrightharpoons;");
    reveal_strlit("leftrightsquigarrow;");
    assert(fits_at(LOWER_L@, 'l', 48, 9));
    assert(fits_at(LOWER_L@, 'l', 49, 4));
    assert(fits_at(LOWER_L@, 'l', 50, 11));
    assert(fits_at(LOWER_L@, 'l', 51, 4));
    assert(fits_at(LOWER_L@, 'l', 52, 4));
    assert(fits_at(LOWER_L@, 'l', 53, 14));
    assert(fits_at(LOWER_L@, 'l', 54, 9));
    assert(fits_at(LOWER_L@, 'l', 55, 9));
}

proof fn lemma_lower_l_56()
    ensures
        filed(LOWER_L@, 'l', 56, 64),
{
    reveal_strlit("leftrightsquigarrow;");
    reveal_strlit("leftthreetimes;");
    reveal_strlit("leg;");
    reveal_strlit("leq;");
    reveal_strlit("leqq;");
    reveal_strlit("leqslant;");
    reveal_strlit("les;");
    reveal_strlit("lescc;");
    reveal_strlit("lesdot;");
    assert(fits_at(LOWER_L@, 'l', 56, 4));
    assert(fits_at(LOWER_L@, 'l', 57, 2));
    assert(fits_at(LOWER_L@, 'l', 58, 2));
    assert(fits_at(LOWER_L@, 'l', 59, 3));
    assert(fits_at(LOWER_L@, 'l', 60, 3));
    assert(fits_at(LOWER_L@, 'l', 61, 2));
    assert(fits_at(LOWER_L@, 'l', 62, 3));
    assert(fits_at(LOWER_L@, 'l', 63, 3));
}

proof fn lemma_lower_l_64()
    ensures
        filed(LOWER_L@, 'l', 64, 72),
{
    reveal_strlit("lesdot;");
    reveal_strlit("lesdoto;");
    reveal_strlit("lesdotor;");
    reveal_strlit("lesges;");
    reveal_strlit("lessapprox;");
    reveal_strlit("lessdot;");
    reveal_strlit("lesseqgtr;");
    reveal_strlit("lesseqqgtr;");
    reveal_strlit("lessgtr;");
    assert(fits_at(LOWER_L@, 'l', 64, 6));
    assert(fits_at(LOWER_L@, 'l', 65, 7));
    assert(fits_at(LOWER_L@, 'l', 66, 3));
    assert(fits_at(LOWER_L@, 'l', 67, 3));
    assert(fits_at(LOWER_L@, 'l', 68, 4));
    assert(fits_at(LOWER_L@, 'l', 69, 4));
    assert(fits_at(LOWER_L@, 'l', 70, 6));
    assert(fits_at(LOWER_L@, 'l', 71, 4));
}

proof fn lemma_lower_l_72()
    ensures
        filed(LOWER_L@, 'l', 72, 80),
{
    reveal_strlit("lessgtr;");
    reveal_strlit("lesssim;");
    reveal_strlit("lfisht;");
    reveal_strlit("lfloor;");
    reveal_strlit("lfr;");
    reveal_strlit("lg;");
    reveal_strlit("lgE;");
    reveal_strlit("lhard;");
    reveal_strlit("lharu;");
    assert(fits_at(LOWER_L@, 'l', 72, 4));
    assert(fits_at(LOWER_L@, 'l', 73, 1));
    assert(fits_at(LOWER_L@, 'l', 74, 2));
    assert(fits_at(LOWER_L@, 'l', 75, 2));
    assert(fits_at(LOWER_L@, 'l', 76, 1));
    assert(fits_at(LOWER_L@, 'l', 77, 2));
    assert(fits_at(LOWER_L@, 'l', 78, 1));
    assert(fits_at(LOWER_L@, 'l', 79, 4));
}

proof fn lemma_lower_l_80()
    ensures
        filed(LOWER_L@, 'l', 80, 88),
{
    reveal_strlit("lharu;");
    reveal_strlit("lharul;");
    reveal_strlit("lhblk;");
    reveal_strlit("ljcy;");
    reveal_strlit("ll;");
    reveal_strlit("llarr;");
    reveal_strlit("llcorner;");
    reveal_strlit("llhard;");
    reveal_strlit("lltri;");
    assert(fits_at(LOWER_L@, 'l', 80, 5));
    assert(fits_at(LOWER_L@, 'l', 81, 2));
    assert(fits_at(LOWER_L@, 'l', 82, 1));
    assert(fits_at(LOWER_L@, 'l', 83, 1));
    assert(fits_at(LOWER_L@, 'l', 84, 2));
    assert(fits_at(LOWER_L@, 'l', 85, 2));
    assert(fits_at(LOWER_L@, 'l', 86, 2));
    assert(fits_at(LOWER_L@, 'l', 87, 2));
}

proof fn lemma_lower_l_88()
    ensures
        filed(LOWER_L@, 'l', 88, 96),
{
    reveal_strlit("lltri;");
    reveal_strlit("lmidot;");
    reveal_strlit("lmoust;");
    reveal_strlit("lmoustache;");
    reveal_strlit("lnE;");
    reveal_strlit("lnap;");
    reveal_strlit("lnapprox;");
    reveal_strlit("lne;");
    reveal_strlit("lneq;");
    assert(fits_at(LOWER_L@, 'l', 88, 1));
    assert(fits_at(LOWER_L@, 'l', 89, 2));
    assert(fits_at(LOWER_L@, 'l', 90, 6));
    assert(fits_at(LOWER_L@, 'l', 91, 1));
    assert(fits_at(LOWER_L@, 'l', 92, 2));
    assert(fits_at(LOWER_L@, 'l', 93, 4));
    assert(fits_at(LOWER_L@, 'l', 94, 2));
    assert(fits_at(LOWER_L@, 'l', 95, 3));
}

proof fn lemma_lower_l_96()
    ensures
        filed(LOWER_L@, 'l', 96, 104),
{
    reveal_strlit("lneq;");
    reveal_strlit("lneqq;");
    reveal_strlit("lnsim;");
    reveal_strlit("loang;");
    reveal_strlit("loarr;");
    reveal_strlit("lobrk;");
    reveal_strlit("longleftarrow;");
    reveal_strlit("longleftrightarrow;");
    reveal_strlit("longmapsto;");
    assert(fits_at(LOWER_L@, 'l', 96, 4));
    assert(fits_at(LOWER_L@, 'l', 97, 2));
    assert(fits_at(LOWER_L@, 'l', 98, 1));
    assert(fits_at(LOWER_L@, 'l', 99, 3));
    assert(fits_at(LOWER_L@, 'l', 100, 2));
    assert(fits_at(LOWER_L@, 'l', 101, 2));
    assert(fits_at(LOWER_L@, 'l', 102, 8));
    assert(fits_at(LOWER_L@, 'l', 103, 4));
}

proof fn lemma_lower_l_104()
    ensures
        filed(LOWER_L@, 'l', 104, 112),
{
    reveal_strlit("longmapsto;");
    reveal_strlit("longrightarrow;");
    reveal_strlit("looparrowleft;");
    reveal_strlit("looparrowright;");
    reveal_strlit("lopar;");
    reveal_strlit("lopf;");
    reveal_strlit("loplus;");
    reveal_strlit("lotimes;");
    reveal_strlit("lowast;");
    assert(fits_at(LOWER_L@, 'l', 104, 4));
    assert(fits_at(LOWER_L@, 'l', 105, 2));
    assert(fits_at(LOWER_L@, 'l', 106, 9));
    assert(fits_at(LOWER_L@, 'l', 107, 2));
    assert(fits_at(LOWER_L@, 'l', 108, 3));
    assert(fits_at(LOWER_L@, 'l', 109, 3));
    assert(fits_at(LOWER_L@, 'l', 110, 2));
    assert(fits_at(LOWER_L@, 'l', 111, 2));
}

proof fn lemma_lower_l_112()
    ensures
        filed(LOWER_L@, 'l', 112, 120),
{
    reveal_strlit("lowast;");
    reveal_strlit("lowbar;");
    reveal_strlit("loz;");
    reveal_strlit("lozenge;");
    reveal_strlit("lozf;");
    reveal_strlit("lpar;");
    reveal_strlit("lparlt;");
    reveal_strlit("lrarr;");
    reveal_strlit("lrcorner;");
    assert(fits_at(LOWER_L@, 'l', 112, 3));
    assert(fits_at(LOWER_L@, 'l', 113, 2));
    assert(fits_at(LOWER_L@, 'l', 114, 3));
    assert(fits_at(LOWER_L@, 'l', 115, 3));
    assert(fits_at(LOWER_L@, 'l', 116, 1));
    assert(fits_at(LOWER_L@, 'l', 117, 4));
    assert(fits_at(LOWER_L@, 'l', 118, 1));
    assert(fits_at(LOWER_L@, 'l', 119, 2));
}

proof fn lemma_lower_l_120()
    ensures
        filed(LOWER_L@, 'l', 120, 128),
{
    reveal_strlit("lrcorner;");
    reveal_strlit("lrhar;");
    reveal_strlit("lrhard;");
    reveal_strlit("lrm;");
    reveal_strlit("lrtri;");
    reveal_strlit("lsaquo;");
    reveal_strlit("lscr;");
    reveal_strlit("lsh;");
    reveal_strlit("lsim;");
    assert(fits_at(LOWER_L@, 'l', 120, 2));
    assert(fits_at(LOWER_L@, 'l', 121, 5));
    assert(fits_at(LOWER_L@, 'l', 122, 2));
    assert(fits_at(LOWER_L@, 'l', 123, 2));
    assert(fits_at(LOWER_L@, 'l', 124, 1));
    assert(fits_at(LOWER_L@, 'l', 125, 2));
    assert(fits_at(LOWER_L@, 'l', 126, 2));
    assert(fits_at(LOWER_L@, 'l', 127, 2));
}

proof fn lemma_lower_l_128()
    ensures
        filed(LOWER_L@, 'l', 128, 136),
{
    reveal_strlit("lsim;");
    reveal_strlit("lsime;");
    reveal_strlit("lsimg;");
    reveal_strlit("lsqb;");
    reveal_strlit("lsquo;");
    reveal_strlit("lsquor;");
    reveal_strlit("lstrok;");
    reveal_strlit("lt");
    reveal_strlit("lt;");
    assert(fits_at(LOWER_L@, 'l', 128, 4));
    assert(fits_at(LOWER_L@, 'l', 129, 4));
    assert(fits_at(LOWER_L@, 'l', 130, 2));
    assert(fits_at(LOWER_L@, 'l', 131, 3));
    assert(fits_at(LOWER_L@, 'l', 132, 5));
    assert(fits_at(LOWER_L@, 'l', 133, 2));
    assert(fits_at(LOWER_L@, 'l', 134, 1));
    assert(fits_at(LOWER_L@, 'l', 135, 2));
}

proof fn lemma_lower_l_136()
    ensures
        filed(LOWER_L@, 'l', 136, 144),
{
    reveal_strlit("lt;");
    reveal_strlit("ltcc;");
    reveal_strlit("ltcir;");
    reveal_strlit("ltdot;");
    reveal_strlit("lthree;");
    reveal_strlit("ltimes;");
    reveal_strlit("ltlarr;");
    reveal_strlit("ltquest;");
    reveal_strlit("ltrPar;");
    assert(fits_at(LOWER_L@, 'l', 136, 2));
    assert(fits_at(LOWER_L@, 'l', 137, 3));
    assert(fits_at(LOWER_L@, 'l', 138, 2));
    assert(fits_at(LOWER_L@, 'l', 139, 2));
    assert(fits_at(LOWER_L@, 'l', 140, 2));
    assert(fits_at(LOWER_L@, 'l', 141, 2));
    assert(fits_at(LOWER_L@, 'l', 142, 2));
    assert(fits_at(LOWER_L@, 'l', 143, 2));
}

proof fn lemma_lower_l_144()
    ensures
        filed(LOWER_L@, 'l', 144, 150),
{
    reveal_strlit("ltrPar;");
    reveal_strlit("ltri;");
    reveal_strlit("ltrie;");
    reveal_strlit("ltrif;");
    reveal_strlit("lurdshar;");
    reveal_strlit("luruhar;");
    assert(fits_at(LOWER_L@, 'l', 144, 3));
    assert(fits_at(LOWER_L@, 'l', 145, 4));
    assert(fits_at(LOWER_L@, 'l', 146, 4));
    assert(fits_at(LOWER_L@, 'l', 147, 1));
    assert(fits_at(LOWER_L@, 'l', 148, 3));
    assert(fits_at(LOWER_L@, 'l', 149, 0));
}

pub(super) proof fn lemma_lower_l()
    ensures
        filed(LOWER_L@, 'l', 0, LOWER_L@.len() as int),
        LOWER_L@.len() == 150,
{
    lemma_lower_l_0();
    lemma_lower_l_8();
    lemma_lower_l_16();
    lemma_lower_l_24();
    lemma_lower_l_32();
    lemma_lower_l_40();
    lemma_lower_l_48();
    lemma_lower_l_56();
    lemma_lower_l_64();
    lemma_lower_l_72();
    lemma_lower_l_80();
    lemma_lower_l_88();
    lemma_lower_l_96();
    lemma_lower_l_104();
    lemma_lower_l_112();
    lemma_lower_l_120();
    lemma_lower_l_128();
    lemma_lower_l_136();
    lemma_lower_l_144();
}

pub(super) proof fn lemma_lower_l_pairs()
    ensures
        forall|i: int| 29 <= i < 33 ==> #[trigger] stands_alone(i, LOWER_L@, 'l'),
{
    lemma_lower_l();
    reveal_strlit("lates;");
    reveal_strlit("late;");
    reveal_strlit("lbarr;");
    reveal_strlit("lesg;");
    reveal_strlit("lesdotor;");
    reveal_strlit("lesges;");
    reveal_strlit("lvertneqq;");
    reveal_strlit("luruhar;");
    reveal_strlit("lvnE;");
    lemma_stands_alone(29, LOWER_L@, 'l', 29, 4, 1);
    lemma_stands_alone(30, LOWER_L@, 'l', 67, 3, 4);
    lemma_stands_alone(31, LOWER_L@, 'l', 150, 1, 0);
    lemma_stands_alone(32, LOWER_L@, 'l', 150, 1, 0);
}

} // verus!
