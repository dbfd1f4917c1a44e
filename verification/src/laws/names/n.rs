//! The names that begin with `N` or `n` are in order.

use crate::entities::{LOWER_N, UPPER_N};
use crate::laws::names::order::{filed, fits_at, lemma_stands_alone, stands_alone};
use vstd::prelude::*;

verus! {

proof fn lemma_upper_n_0()
    ensures
        filed(UPPER_N@, 'N', 0, 8),
{
    reveal_strlit("NJcy;");
    reveal_strlit("Nacute;");
    reveal_strlit("Ncaron;");
    reveal_strlit("Ncedil;");
    reveal_strlit("Ncy;");
    reveal_strlit("NegativeMediumSpace;");
    reveal_strlit("NegativeThickSpace;");
    reveal_strlit("NegativeThinSpace;");
    reveal_strlit("NegativeVeryThinSpace;");
    assert(fits_at(UPPER_N@, 'N', 0, 1));
    assert(fits_at(UPPER_N@, 'N', 1, 1));
    assert(fits_at(UPPER_N@, 'N', 2, 2));
    assert(fits_at(UPPER_N@, 'N', 3, 2));
    assert(fits_at(UPPER_N@, 'N', 4, 1));
    assert(fits_at(UPPER_N@, 'N', 5, 8));
    assert(fits_at(UPPER_N@, 'N', 6, 11));
    assert(fits_at(UPPER_N@, 'N', 7, 8));
}

proof fn lemma_upper_n_8()
    ensures
        filed(UPPER_N@, 'N', 8, 16),
{
    reveal_strlit("NegativeVeryThinSpace;");
    reveal_strlit("NestedGreaterGreater;");
    reveal_strlit("NestedLessLess;");
    reveal_strlit("NewLine;");
    reveal_strlit("Nfr;");
    reveal_strlit("NoBreak;");
    reveal_strlit("NonBreakingSpace;");
    reveal_strlit("Nopf;");
    reveal_strlit("Not;");
    assert(fits_at(UPPER_N@, 'N', 8, 2));
    assert(fits_at(UPPER_N@, 'N', 9, 6));
    assert(fits_at(UPPER_N@, 'N', 10, 2));
    assert(fits_at(UPPER_N@, 'N', 11, 1));
    assert(fits_at(UPPER_N@, 'N', 12, 1));
    assert(fits_at(UPPER_N@, 'N', 13, 2));
    assert(fits_at(UPPER_N@, 'N', 14, 2));
    assert(fits_at(UPPER_N@, 'N', 15, 2));
}

proof fn lemma_upper_n_16()
    ensures
        filed(UPPER_N@, 'N', 16, 24),
{
    reveal_strlit("Not;");
    reveal_strlit("NotCongruent;");
    reveal_strlit("NotCupCap;");
    reveal_strlit("NotDoubleVerticalBar;");
    reveal_strlit("NotElement;");
    reveal_strlit("NotEqual;");
    reveal_strlit("NotExists;");
    reveal_strlit("NotGreater;");
    reveal_strlit("NotGreaterEqual;");
    assert(fits_at(UPPER_N@, 'N', 16, 3));
    assert(fits_at(UPPER_N@, 'N', 17, 4));
    assert(fits_at(UPPER_N@, 'N', 18, 3));
    assert(fits_at(UPPER_N@, 'N', 19, 3));
    assert(fits_at(UPPER_N@, 'N', 20, 4));
    assert(fits_at(UPPER_N@, 'N', 21, 4));
    assert(fits_at(UPPER_N@, 'N', 22, 3));
    assert(fits_at(UPPER_N@, 'N', 23, 10));
}

proof fn lemma_upper_n_24()
    ensures
        filed(UPPER_N@, 'N', 24, 32),
{
    reveal_strlit("NotGreaterEqual;");
    reveal_strlit("NotGreaterLess;");
    reveal_strlit("NotGreaterTilde;");
    reveal_strlit("NotLeftTriangle;");
    reveal_strlit("NotLeftTriangleEqual;");
    reveal_strlit("NotLess;");
    reveal_strlit("NotLessEqual;");
    reveal_strlit("NotLessGreater;");
    reveal_strlit("NotLessTilde;");
    assert(fits_at(UPPER_N@, 'N', 24, 10));
    assert(fits_at(UPPER_N@, 'N', 25, 10));
    assert(fits_at(UPPER_N@, 'N', 26, 3));
    assert(fits_at(UPPER_N@, 'N', 27, 15));
    assert(fits_at(UPPER_N@, 'N', 28, 5));
    assert(fits_at(UPPER_N@, 'N', 29, 7));
    assert(fits_at(UPPER_N@, 'N', 30, 7));
    assert(fits_at(UPPER_N@, 'N', 31, 7));
}

proof fn lemma_upper_n_32()
    ensures
        filed(UPPER_N@, 'N', 32, 40),
{
    reveal_strlit("NotLessTilde;");
    reveal_strlit("NotPrecedes;");
    reveal_strlit("NotPrecedesSlantEqual;");
    reveal_strlit("NotReverseElement;");
    reveal_strlit("NotRightTriangle;");
    reveal_strlit("NotRightTriangleEqual;");
    reveal_strlit("NotSquareSubsetEqual;");
    reveal_strlit("NotSquareSupersetEqual;");
    reveal_strlit("NotSubsetEqual;");
    assert(fits_at(UPPER_N@, 'N', 32, 3));
    assert(fits_at(UPPER_N@, 'N', 33, 11));
    assert(fits_at(UPPER_N@, 'N', 34, 3));
    assert(fits_at(UPPER_N@, 'N', 35, 4));
    assert(fits_at(UPPER_N@, 'N', 36, 16));
    assert(fits_at(UPPER_N@, 'N', 37, 3));
    assert(fits_at(UPPER_N@, 'N', 38, 11));
    assert(fits_at(UPPER_N@, 'N', 39, 4));
}

proof fn lemma_upper_n_40()
    ensures
        filed(UPPER_N@, 'N', 40, 48),
{
    reveal_strlit("NotSubsetEqual;");
    reveal_strlit("NotSucceeds;");
    reveal_strlit("NotSucceedsSlantEqual;");
    reveal_strlit("NotSupersetEqual;");
    reveal_strlit("NotTilde;");
    reveal_strlit("NotTildeEqual;");
    reveal_strlit("NotTildeFullEqual;");
    reveal_strlit("NotTildeTilde;");
    reveal_strlit("NotVerticalBar;");
    assert(fits_at(UPPER_N@, 'N', 40, 5));
    assert(fits_at(UPPER_N@, 'N', 41, 11));
    assert(fits_at(UPPER_N@, 'N', 42, 5));
    assert(fits_at(UPPER_N@, 'N', 43, 3));
    assert(fits_at(UPPER_N@, 'N', 44, 8));
    assert(fits_at(UPPER_N@, 'N', 45, 8));
    assert(fits_at(UPPER_N@, 'N', 46, 8));
    assert(fits_at(UPPER_N@, 'N', 47, 3));
}

proof fn lemma_upper_n_48()
    ensures
        filed(UPPER_N@, 'N', 48, 53),
{
    reveal_strlit("NotVerticalBar;");
    reveal_strlit("Nscr;");
    reveal_strlit("Ntilde");
    reveal_strlit("Ntilde;");
    reveal_strlit("Nu;");
    assert(fits_at(UPPER_N@, 'N', 48, 1));
    assert(fits_at(UPPER_N@, 'N', 49, 1));
    assert(fits_at(UPPER_N@, 'N', 50, 6));
    assert(fits_at(UPPER_N@, 'N', 51, 1));
    assert(fits_at(UPPER_N@, 'N', 52, 0));
}

pub(super) proof fn lemma_upper_n()
    ensures
        filed(UPPER_N@, 'N', 0, UPPER_N@.len() as int),
        UPPER_N@.len() == 53,
{
    lemma_upper_n_0();
    lemma_upper_n_8();
    lemma_upper_n_16();
    lemma_upper_n_24();
    lemma_upper_n_32();
    lemma_upper_n_40();
    lemma_upper_n_48();
}

pub(super) proof fn lemma_upper_n_pairs()
    ensures
        forall|i: int| 0 <= i < 19 ==> #[trigger] stands_alone(i, UPPER_N@, 'N'),
{
    lemma_upper_n();
    reveal_strlit("NotEqualTilde;");
    reveal_strlit("NotEqual;");
    reveal_strlit("NotExists;");
    reveal_strlit("NotGreaterFullEqual;");
    reveal_strlit("NotGreaterEqual;");
    reveal_strlit("NotGreaterLess;");
    reveal_strlit("NotGreaterGreater;");
    reveal_strlit("NotGreaterSlantEqual;");
    reveal_strlit("NotGreaterTilde;");
    reveal_strlit("NotHumpDownHump;");
    reveal_strlit("NotLeftTriangle;");
    reveal_strlit("NotHumpEqual;");
    reveal_strlit("NotLeftTriangleBar;");
    reveal_strlit("NotLeftTriangleEqual;");
    reveal_strlit("NotLessLess;");
    reveal_strlit("NotLessGreater;");
    reveal_strlit("NotLessTilde;");
    reveal_strlit("NotLessSlantEqual;");
    reveal_strlit("NotNestedGreaterGreater;");
    reveal_strlit("NotPrecedes;");
    reveal_strlit("NotNestedLessLess;");
    reveal_strlit("NotPrecedesEqual;");
    reveal_strlit("NotPrecedesSlantEqual;");
    reveal_strlit("NotRightTriangleBar;");
    reveal_strlit("NotRightTriangle;");
    reveal_strlit("NotRightTriangleEqual;");
    reveal_strlit("NotSquareSubset;");
    reveal_strlit("NotSquareSubsetEqual;");
    reveal_strlit("NotSquareSuperset;");
    reveal_strlit("NotSquareSupersetEqual;");
    reveal_strlit("NotSubset;");
    reveal_strlit("NotSubsetEqual;");
    reveal_strlit("NotSucceedsEqual;");
    reveal_strlit("NotSucceeds;");
    reveal_strlit("NotSucceedsSlantEqual;");
    reveal_strlit("NotSucceedsTilde;");
    reveal_strlit("NotSupersetEqual;");
    reveal_strlit("NotSuperset;");
    lemma_stands_alone(0, UPPER_N@, 'N', 22, 8, 4);
    lemma_stands_alone(1, UPPER_N@, 'N', 25, 10, 10);
    lemma_stands_alone(2, UPPER_N@, 'N', 25, 10, 10);
    lemma_stands_alone(3, UPPER_N@, 'N', 26, 10, 10);
    lemma_stands_alone(4, UPPER_N@, 'N', 27, 3, 3);
    lemma_stands_alone(5, UPPER_N@, 'N', 27, 3, 3);
    lemma_stands_alone(6, UPPER_N@, 'N', 28, 15, 15);
    lemma_stands_alone(7, UPPER_N@, 'N', 32, 7, 7);
    lemma_stands_alone(8, UPPER_N@, 'N', 32, 7, 7);
    lemma_stands_alone(9, UPPER_N@, 'N', 33, 3, 3);
    lemma_stands_alone(10, UPPER_N@, 'N', 33, 3, 3);
    lemma_stands_alone(11, UPPER_N@, 'N', 34, 11, 11);
    lemma_stands_alone(12, UPPER_N@, 'N', 37, 16, 16);
    lemma_stands_alone(13, UPPER_N@, 'N', 38, 3, 15);
    lemma_stands_alone(14, UPPER_N@, 'N', 39, 11, 17);
    lemma_stands_alone(15, UPPER_N@, 'N', 40, 4, 9);
    lemma_stands_alone(16, UPPER_N@, 'N', 42, 11, 11);
    lemma_stands_alone(17, UPPER_N@, 'N', 43, 11, 5);
    lemma_stands_alone(18, UPPER_N@, 'N', 43, 5, 11);
}

proof fn lemma_lower_n_0()
    ensures
        filed(LOWER_N@, 'n', 0, 8),
{
    reveal_strlit("nLeftarrow;");
    reveal_strlit("nLeftrightarrow;");
    reveal_strlit("nRightarrow;");
    reveal_strlit("nVDash;");
    reveal_strlit("nVdash;");
    reveal_strlit("nabla;");
    reveal_strlit("nacute;");
    reveal_strlit("nap;");
    reveal_strlit("napos;");
    assert(fits_at(LOWER_N@, 'n', 0, 5));
    assert(fits_at(LOWER_N@, 'n', 1, 1));
    assert(fits_at(LOWER_N@, 'n', 2, 1));
    assert(fits_at(LOWER_N@, 'n', 3, 2));
    assert(fits_at(LOWER_N@, 'n', 4, 1));
    assert(fits_at(LOWER_N@, 'n', 5, 2));
    assert(fits_at(LOWER_N@, 'n', 6, 2));
    assert(fits_at(LOWER_N@, 'n', 7, 3));
}

proof fn lemma_lower_n_8()
    ensures
        filed(LOWER_N@, 'n', 8, 16),
{
    reveal_strlit("napos;");
    reveal_strlit("napprox;");
    reveal_strlit("natur;");
    reveal_strlit("natural;");
    reveal_strlit("naturals;");
    reveal_strlit("nbsp");
    reveal_strlit("nbsp;");
    reveal_strlit("ncap;");
    reveal_strlit("ncaron;");
    assert(fits_at(LOWER_N@, 'n', 8, 3));
    assert(fits_at(LOWER_N@, 'n', 9, 2));
    assert(fits_at(LOWER_N@, 'n', 10, 5));
    assert(fits_at(LOWER_N@, 'n', 11, 7));
    assert(fits_at(LOWER_N@, 'n', 12, 1));
    assert(fits_at(LOWER_N@, 'n', 13, 4));
    assert(fits_at(LOWER_N@, 'n', 14, 1));
    assert(fits_at(LOWER_N@, 'n', 15, 3));
}

proof fn lemma_lower_n_16()
    ensures
        filed(LOWER_N@, 'n', 16, 24),
{
    reveal_strlit("ncaron;");
    reveal_strlit("ncedil;");
    reveal_strlit("ncong;");
    reveal_strlit("ncup;");
    reveal_strlit("ncy;");
    reveal_strlit("ndash;");
    reveal_strlit("ne;");
    reveal_strlit("neArr;");
    reveal_strlit("nearhk;");
    assert(fits_at(LOWER_N@, 'n', 16, 2));
    assert(fits_at(LOWER_N@, 'n', 17, 2));
    assert(fits_at(LOWER_N@, 'n', 18, 2));
    assert(fits_at(LOWER_N@, 'n', 19, 2));
    assert(fits_at(LOWER_N@, 'n', 20, 1));
    assert(fits_at(LOWER_N@, 'n', 21, 1));
    assert(fits_at(LOWER_N@, 'n', 22, 2));
    assert(fits_at(LOWER_N@, 'n', 23, 2));
}

proof fn lemma_lower_n_24()
    ensures
        filed(LOWER_N@, 'n', 24, 32),
{
    reveal_strlit("nearhk;");
    reveal_strlit("nearr;");
    reveal_strlit("nearrow;");
    reveal_strlit("nequiv;");
    reveal_strlit("nesear;");
    reveal_strlit("nexist;");
    reveal_strlit("nexists;");
    reveal_strlit("nfr;");
    reveal_strlit("nge;");
    assert(fits_at(LOWER_N@, 'n', 24, 4));
    assert(fits_at(LOWER_N@, 'n', 25, 5));
    assert(fits_at(LOWER_N@, 'n', 26, 2));
    assert(fits_at(LOWER_N@, 'n', 27, 2));
    assert(fits_at(LOWER_N@, 'n', 28, 2));
    assert(fits_at(LOWER_N@, 'n', 29, 6));
    assert(fits_at(LOWER_N@, 'n', 30, 1));
    assert(fits_at(LOWER_N@, 'n', 31, 1));
}

proof fn lemma_lower_n_32()
    ensures
        filed(LOWER_N@, 'n', 32, 40),
{
    reveal_strlit("nge;");
    reveal_strlit("ngeq;");
    reveal_strlit("ngsim;");
    reveal_strlit("ngt;");
    reveal_strlit("ngtr;");
    reveal_strlit("nhArr;");
    reveal_strlit("nharr;");
    reveal_strlit("nhpar;");
    reveal_strlit("ni;");
    assert(fits_at(LOWER_N@, 'n', 32, 3));
    assert(fits_at(LOWER_N@, 'n', 33, 2));
    assert(fits_at(LOWER_N@, 'n', 34, 2));
    assert(fits_at(LOWER_N@, 'n', 35, 3));
    assert(fits_at(LOWER_N@, 'n', 36, 1));
    assert(fits_at(LOWER_N@, 'n', 37, 2));
    assert(fits_at(LOWER_N@, 'n', 38, 2));
    assert(fits_at(LOWER_N@, 'n', 39, 1));
}

proof fn lemma_lower_n_40()
    ensures
        filed(LOWER_N@, 'n', 40, 48),
{
    reveal_strlit("ni;");
    reveal_strlit("nis;");
    reveal_strlit("nisd;");
    reveal_strlit("niv;");
    reveal_strlit("njcy;");
    reveal_strlit("nlArr;");
    reveal_strlit("nlarr;");
    reveal_strlit("nldr;");
    reveal_strlit("nle;");
    assert(fits_at(LOWER_N@, 'n', 40, 2));
    assert(fits_at(LOWER_N@, 'n', 41, 3));
    assert(fits_at(LOWER_N@, 'n', 42, 2));
    assert(fits_at(LOWER_N@, 'n', 43, 1));
    assert(fits_at(LOWER_N@, 'n', 44, 1));
    assert(fits_at(LOWER_N@, 'n', 45, 2));
    assert(fits_at(LOWER_N@, 'n', 46, 2));
    assert(fits_at(LOWER_N@, 'n', 47, 2));
}

proof fn lemma_lower_n_48()
    ensures
        filed(LOWER_N@, 'n', 48, 56),
{
    reveal_strlit("nle;");
    reveal_strlit("nleftarrow;");
    reveal_strlit("nleftrightarrow;");
    reveal_strlit("nleq;");
    reveal_strlit("nless;");
    reveal_strlit("nlsim;");
    reveal_strlit("nlt;");
    reveal_strlit("nltri;");
    reveal_strlit("nltrie;");
    assert(fits_at(LOWER_N@, 'n', 48, 3));
    assert(fits_at(LOWER_N@, 'n', 49, 5));
    assert(fits_at(LOWER_N@, 'n', 50, 3));
    assert(fits_at(LOWER_N@, 'n', 51, 3));
    assert(fits_at(LOWER_N@, 'n', 52, 2));
    assert(fits_at(LOWER_N@, 'n', 53, 2));
    assert(fits_at(LOWER_N@, 'n', 54, 3));
    assert(fits_at(LOWER_N@, 'n', 55, 5));
}

proof fn lemma_lower_n_56()
    ensures
        filed(LOWER_N@, 'n', 56, 64),
{
    reveal_strlit("nltrie;");
    reveal_strlit("nmid;");
    reveal_strlit("nopf;");
    reveal_strlit("not");
    reveal_strlit("not;");
    reveal_strlit("notin;");
    reveal_strlit("notinva;");
    reveal_strlit("notinvb;");
    reveal_strlit("notinvc;");
    assert(fits_at(LOWER_N@, 'n', 56, 1));
    assert(fits_at(LOWER_N@, 'n', 57, 1));
    assert(fits_at(LOWER_N@, 'n', 58, 2));
    assert(fits_at(LOWER_N@, 'n', 59, 3));
    assert(fits_at(LOWER_N@, 'n', 60, 3));
    assert(fits_at(LOWER_N@, 'n', 61, 5));
    assert(fits_at(LOWER_N@, 'n', 62, 6));
    assert(fits_at(LOWER_N@, 'n', 63, 6));
}

proof fn lemma_lower_n_64()
    ensures
        filed(LOWER_N@, 'n', 64, 72),
{
    reveal_strlit("notinvc;");
    reveal_strlit("notni;");
    reveal_strlit("notniva;");
    reveal_strlit("notnivb;");
    reveal_strlit("notnivc;");
    reveal_strlit("npar;");
    reveal_strlit("nparallel;");
    reveal_strlit("npolint;");
    reveal_strlit("npr;");
    assert(fits_at(LOWER_N@, 'n', 64, 3));
    assert(fits_at(LOWER_N@, 'n', 65, 5));
    assert(fits_at(LOWER_N@, 'n', 66, 6));
    assert(fits_at(LOWER_N@, 'n', 67, 6));
    assert(fits_at(LOWER_N@, 'n', 68, 1));
    assert(fits_at(LOWER_N@, 'n', 69, 4));
    assert(fits_at(LOWER_N@, 'n', 70, 2));
    assert(fits_at(LOWER_N@, 'n', 71, 2));
}

proof fn lemma_lower_n_72()
    ensures
        filed(LOWER_N@, 'n', 72, 80),
{
    reveal_strlit("npr;");
    reveal_strlit("nprcue;");
    reveal_strlit("nprec;");
    reveal_strlit("nrArr;");
    reveal_strlit("nrarr;");
    reveal_strlit("nrightarrow;");
    reveal_strlit("nrtri;");
    reveal_strlit("nrtrie;");
    reveal_strlit("nsc;");
    assert(fits_at(LOWER_N@, 'n', 72, 3));
    assert(fits_at(LOWER_N@, 'n', 73, 3));
    assert(fits_at(LOWER_N@, 'n', 74, 1));
    assert(fits_at(LOWER_N@, 'n', 75, 2));
    assert(fits_at(LOWER_N@, 'n', 76, 2));
    assert(fits_at(LOWER_N@, 'n', 77, 2));
    assert(fits_at(LOWER_N@, 'n', 78, 5));
    assert(fits_at(LOWER_N@, 'n', 79, 1));
}

proof fn lemma_lower_n_80()
    ensures
        filed(LOWER_N@, 'n', 80, 88),
{
    reveal_strlit("nsc;");
    reveal_strlit("nsccue;");
    reveal_strlit("nscr;");
    reveal_strlit("nshortmid;");
    reveal_strlit("nshortparallel;");
    reveal_strlit("nsim;");
    reveal_strlit("nsime;");
    reveal_strlit("nsimeq;");
    reveal_strlit("nsmid;");
    assert(fits_at(LOWER_N@, 'n', 80, 3));
    assert(fits_at(LOWER_N@, 'n', 81, 3));
    assert(fits_at(LOWER_N@, 'n', 82, 2));
    assert(fits_at(LOWER_N@, 'n', 83, 6));
    assert(fits_at(LOWER_N@, 'n', 84, 2));
    assert(fits_at(LOWER_N@, 'n', 85, 4));
    assert(fits_at(LOWER_N@, 'n', 86, 5));
    assert(fits_at(LOWER_N@, 'n', 87, 2));
}

proof fn lemma_lower_n_88()
    ensures
        filed(LOWER_N@, 'n', 88, 96),
{
    reveal_strlit("nsmid;");
    reveal_strlit("nspar;");
    reveal_strlit("nsqsube;");
    reveal_strlit("nsqsupe;");
    reveal_strlit("nsub;");
    reveal_strlit("nsube;");
    reveal_strlit("nsubseteq;");
    reveal_strlit("nsucc;");
    reveal_strlit("nsup;");
    assert(fits_at(LOWER_N@, 'n', 88, 2));
    assert(fits_at(LOWER_N@, 'n', 89, 2));
    assert(fits_at(LOWER_N@, 'n', 90, 5));
    assert(fits_at(LOWER_N@, 'n', 91, 2));
    assert(fits_at(LOWER_N@, 'n', 92, 4));
    assert(fits_at(LOWER_N@, 'n', 93, 4));
    assert(fits_at(LOWER_N@, 'n', 94, 3));
    assert(fits_at(LOWER_N@, 'n', 95, 3));
}

proof fn lemma_lower_n_96()
    ensures
        filed(LOWER_N@, 'n', 96, 104),
{
    reveal_strlit("nsup;");
    reveal_strlit("nsupe;");
    reveal_strlit("nsupseteq;");
    reveal_strlit("ntgl;");
    reveal_strlit("ntilde");
    reveal_strlit("ntilde;");
    reveal_strlit("ntlg;");
    reveal_strlit("ntriangleleft;");
    reveal_strlit("ntrianglelefteq;");
    assert(fits_at(LOWER_N@, 'n', 96, 4));
    assert(fits_at(LOWER_N@, 'n', 97, 4));
    assert(fits_at(LOWER_N@, 'n', 98, 1));
    assert(fits_at(LOWER_N@, 'n', 99, 2));
    assert(fits_at(LOWER_N@, 'n', 100, 6));
    assert(fits_at(LOWER_N@, 'n', 101, 2));
    assert(fits_at(LOWER_N@, 'n', 102, 2));
    assert(fits_at(LOWER_N@, 'n', 103, 13));
}

proof fn lemma_lower_n_104()
    ensures
        filed(LOWER_N@, 'n', 104, 112),
{
    reveal_strlit("ntrianglelefteq;");
    reveal_strlit("ntriangleright;");
    reveal_strlit("ntrianglerighteq;");
    reveal_strlit("nu;");
    reveal_strlit("num;");
    reveal_strlit("numero;");
    reveal_strlit("numsp;");
    reveal_strlit("nvDash;");
    reveal_strlit("nvHarr;");
    assert(fits_at(LOWER_N@, 'n', 104, 9));
    assert(fits_at(LOWER_N@, 'n', 105, 14));
    assert(fits_at(LOWER_N@, 'n', 106, 1));
    assert(fits_at(LOWER_N@, 'n', 107, 2));
    assert(fits_at(LOWER_N@, 'n', 108, 3));
    assert(fits_at(LOWER_N@, 'n', 109, 3));
    assert(fits_at(LOWER_N@, 'n', 110, 1));
    assert(fits_at(LOWER_N@, 'n', 111, 2));
}

proof fn lemma_lower_n_112()
    ensures
        filed(LOWER_N@, 'n', 112, 120),
{
    reveal_strlit("nvHarr;");
    reveal_strlit("nvdash;");
    reveal_strlit("nvinfin;");
    reveal_strlit("nvlArr;");
    reveal_strlit("nvrArr;");
    reveal_strlit("nwArr;");
    reveal_strlit("nwarhk;");
    reveal_strlit("nwarr;");
    reveal_strlit("nwarrow;");
    assert(fits_at(LOWER_N@, 'n', 112, 2));
    assert(fits_at(LOWER_N@, 'n', 113, 2));
    assert(fits_at(LOWER_N@, 'n', 114, 2));
    assert(fits_at(LOWER_N@, 'n', 115, 2));
    assert(fits_at(LOWER_N@, 'n', 116, 1));
    assert(fits_at(LOWER_N@, 'n', 117, 2));
    assert(fits_at(LOWER_N@, 'n', 118, 4));
    assert(fits_at(LOWER_N@, 'n', 119, 5));
}

proof fn lemma_lower_n_120()
    ensures
        filed(LOWER_N@, 'n', 120, 122),
{
    reveal_strlit("nwarrow;");
    reveal_strlit("nwnear;");
    assert(fits_at(LOWER_N@, 'n', 120, 2));
    assert(fits_at(LOWER_N@, 'n', 121, 0));
}

pub(super) proof fn lemma_lower_n()
    ensures
        filed(LOWER_N@, 'n', 0, LOWER_N@.len() as int),
        LOWER_N@.len() == 122,
{
    lemma_lower_n_0();
    lemma_lower_n_8();
    lemma_lower_n_16();
    lemma_lower_n_24();
    lemma_lower_n_32();
    lemma_lower_n_40();
    lemma_lower_n_48();
    lemma_lower_n_56();
    lemma_lower_n_64();
    lemma_lower_n_72();
    lemma_lower_n_80();
    lemma_lower_n_88();
    lemma_lower_n_96();
    lemma_lower_n_104();
    lemma_lower_n_112();
    lemma_lower_n_120();
}

pub(super) proof fn lemma_lower_n_pairs()
    ensures
        forall|i: int| 33 <= i < 79 ==> #[trigger] stands_alone(i, LOWER_N@, 'n'),
{
    lemma_lower_n();
    reveal_strlit("nGg;");
    reveal_strlit("nLeftarrow;");
    reveal_strlit("nGt;");
    reveal_strlit("nGtv;");
    reveal_strlit("nLl;");
    reveal_strlit("nLeftrightarrow;");
    reveal_strlit("nRightarrow;");
    reveal_strlit("nLt;");
    reveal_strlit("nLtv;");
    reveal_strlit("nang;");
    reveal_strlit("nacute;");
    reveal_strlit("nap;");
    reveal_strlit("napE;");
    reveal_strlit("napos;");
    reveal_strlit("napid;");
    reveal_strlit("nbump;");
    reveal_strlit("nbsp;");
    reveal_strlit("ncap;");
    reveal_strlit("nbumpe;");
    reveal_strlit("ncongdot;");
    reveal_strlit("ncong;");
    reveal_strlit("ncup;");
    reveal_strlit("nedot;");
    reveal_strlit("nearrow;");
    reveal_strlit("nequiv;");
    reveal_strlit("nesim;");
    reveal_strlit("nesear;");
    reveal_strlit("nexist;");
    reveal_strlit("ngE;");
    reveal_strlit("nfr;");
    reveal_strlit("nge;");
    reveal_strlit("ngeqq;");
    reveal_strlit("ngeq;");
    reveal_strlit("ngsim;");
    reveal_strlit("ngeqslant;");
    reveal_strlit("nges;");
    reveal_strlit("nlE;");
    reveal_strlit("nlArr;");
    reveal_strlit("nlarr;");
    reveal_strlit("nleqq;");
    reveal_strlit("nleq;");
    reveal_strlit("nless;");
    reveal_strlit("nleqslant;");
    reveal_strlit("nles;");
    reveal_strlit("notinE;");
    reveal_strlit("notin;");
    reveal_strlit("notinva;");
    reveal_strlit("notindot;");
    reveal_strlit("nparsl;");
    reveal_strlit("nparallel;");
    reveal_strlit("npolint;");
    reveal_strlit("npart;");
    reveal_strlit("npre;");
    reveal_strlit("nprcue;");
    reveal_strlit("nprec;");
    reveal_strlit("npreceq;");
    reveal_strlit("nrArr;");
    reveal_strlit("nrarrc;");
    reveal_strlit("nrarr;");
    reveal_strlit("nrightarrow;");
    reveal_strlit("nrarrw;");
    reveal_strlit("nsce;");
    reveal_strlit("nsccue;");
    reveal_strlit("nscr;");
    reveal_strlit("nsubE;");
    reveal_strlit("nsub;");
    reveal_strlit("nsube;");
    reveal_strlit("nsubset;");
    reveal_strlit("nsubseteq;");
    reveal_strlit("nsubseteqq;");
    reveal_strlit("nsucc;");
    reveal_strlit("nsucceq;");
    reveal_strlit("nsup;");
    reveal_strlit("nsupE;");
    reveal_strlit("nsupe;");
    reveal_strlit("nsupset;");
    reveal_strlit("nsupseteq;");
    reveal_strlit("nsupseteqq;");
    reveal_strlit("ntgl;");
    reveal_strlit("nvap;");
    reveal_strlit("nvHarr;");
    reveal_strlit("nvdash;");
    reveal_strlit("nvge;");
    reveal_strlit("nvinfin;");
    reveal_strlit("nvgt;");
    reveal_strlit("nvle;");
    reveal_strlit("nvlArr;");
    reveal_strlit("nvrArr;");
    reveal_strlit("nvlt;");
    reveal_strlit("nvltrie;");
    reveal_strlit("nvrtrie;");
    reveal_strlit("nwArr;");
    reveal_strlit("nvsim;");
    lemma_stands_alone(33, LOWER_N@, 'n', 0, 0, 1);
    lemma_stands_alone(34, LOWER_N@, 'n', 0, 0, 1);
    lemma_stands_alone(35, LOWER_N@, 'n', 0, 0, 1);
    lemma_stands_alone(36, LOWER_N@, 'n', 2, 2, 1);
    lemma_stands_alone(37, LOWER_N@, 'n', 2, 2, 1);
    lemma_stands_alone(38, LOWER_N@, 'n', 2, 2, 1);
    lemma_stands_alone(39, LOWER_N@, 'n', 7, 2, 2);
    lemma_stands_alone(40, LOWER_N@, 'n', 8, 3, 3);
    lemma_stands_alone(41, LOWER_N@, 'n', 8, 3, 3);
    lemma_stands_alone(42, LOWER_N@, 'n', 15, 2, 1);
    lemma_stands_alone(43, LOWER_N@, 'n', 15, 2, 1);
    lemma_stands_alone(44, LOWER_N@, 'n', 19, 5, 2);
    lemma_stands_alone(45, LOWER_N@, 'n', 27, 2, 2);
    lemma_stands_alone(46, LOWER_N@, 'n', 29, 3, 2);
    lemma_stands_alone(47, LOWER_N@, 'n', 32, 1, 2);
    lemma_stands_alone(48, LOWER_N@, 'n', 34, 4, 2);
    lemma_stands_alone(49, LOWER_N@, 'n', 34, 4, 2);
    lemma_stands_alone(50, LOWER_N@, 'n', 34, 3, 2);
    lemma_stands_alone(51, LOWER_N@, 'n', 46, 2, 2);
    lemma_stands_alone(52, LOWER_N@, 'n', 52, 4, 3);
    lemma_stands_alone(53, LOWER_N@, 'n', 52, 4, 3);
    lemma_stands_alone(54, LOWER_N@, 'n', 52, 3, 4);
    lemma_stands_alone(55, LOWER_N@, 'n', 62, 5, 5);
    lemma_stands_alone(56, LOWER_N@, 'n', 62, 5, 5);
    lemma_stands_alone(57, LOWER_N@, 'n', 71, 4, 2);
    lemma_stands_alone(58, LOWER_N@, 'n', 71, 4, 2);
    lemma_stands_alone(59, LOWER_N@, 'n', 74, 3, 4);
    lemma_stands_alone(60, LOWER_N@, 'n', 75, 5, 1);
    lemma_stands_alone(61, LOWER_N@, 'n', 77, 5, 2);
    lemma_stands_alone(62, LOWER_N@, 'n', 77, 5, 2);
    lemma_stands_alone(63, LOWER_N@, 'n', 82, 3, 3);
    lemma_stands_alone(64, LOWER_N@, 'n', 93, 4, 4);
    lemma_stands_alone(65, LOWER_N@, 'n', 94, 4, 7);
    lemma_stands_alone(66, LOWER_N@, 'n', 95, 9, 3);
    lemma_stands_alone(67, LOWER_N@, 'n', 96, 5, 3);
    lemma_stands_alone(68, LOWER_N@, 'n', 97, 4, 4);
    lemma_stands_alone(69, LOWER_N@, 'n', 98, 4, 7);
    lemma_stands_alone(70, LOWER_N@, 'n', 99, 9, 1);
    lemma_stands_alone(71, LOWER_N@, 'n', 113, 2, 2);
    lemma_stands_alone(72, LOWER_N@, 'n', 114, 2, 2);
    lemma_stands_alone(73, LOWER_N@, 'n', 114, 2, 2);
    lemma_stands_alone(74, LOWER_N@, 'n', 116, 3, 2);
    lemma_stands_alone(75, LOWER_N@, 'n', 116, 3, 2);
    lemma_stands_alone(76, LOWER_N@, 'n', 116, 3, 2);
    lemma_stands_alone(77, LOWER_N@, 'n', 117, 3, 1);
    lemma_stands_alone(78, LOWER_N@, 'n', 117, 2, 1);
}

} // verus!
