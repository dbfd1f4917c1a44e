//! The names that stand for two code points are in order.

use crate::entities::PAIRS;
use crate::laws::names::order::{pair_fits_at, pairs_filed};
use vstd::prelude::*;

verus! {

proof fn lemma_pairs_0()
    ensures
        pairs_filed(PAIRS@, 0, 8),
{
    reveal_strlit("NotEqualTilde;");
    reveal_strlit("NotGreaterFullEqual;");
    reveal_strlit("NotGreaterGreater;");
    reveal_strlit("NotGreaterSlantEqual;");
    reveal_strlit("NotHumpDownHump;");
    reveal_strlit("NotHumpEqual;");
    reveal_strlit("NotLeftTriangleBar;");
    reveal_strlit("NotLessLess;");
    reveal_strlit("NotLessSlantEqual;");
    assert(pair_fits_at(PAIRS@, 0, 3));
    assert(pair_fits_at(PAIRS@, 1, 10));
    assert(pair_fits_at(PAIRS@, 2, 10));
    assert(pair_fits_at(PAIRS@, 3, 3));
    assert(pair_fits_at(PAIRS@, 4, 7));
    assert(pair_fits_at(PAIRS@, 5, 3));
    assert(pair_fits_at(PAIRS@, 6, 5));
    assert(pair_fits_at(PAIRS@, 7, 7));
}

proof fn lemma_pairs_8()
    ensures
        pairs_filed(PAIRS@, 8, 16),
{
    reveal_strlit("NotLessSlantEqual;");
    reveal_strlit("NotNestedGreaterGreater;");
    reveal_strlit("NotNestedLessLess;");
    reveal_strlit("NotPrecedesEqual;");
    reveal_strlit("NotRightTriangleBar;");
    reveal_strlit("NotSquareSubset;");
    reveal_strlit("NotSquareSuperset;");
    reveal_strlit("NotSubset;");
    reveal_strlit("NotSucceedsEqual;");
    assert(pair_fits_at(PAIRS@, 8, 3));
    assert(pair_fits_at(PAIRS@, 9, 9));
    assert(pair_fits_at(PAIRS@, 10, 3));
    assert(pair_fits_at(PAIRS@, 11, 3));
    assert(pair_fits_at(PAIRS@, 12, 3));
    assert(pair_fits_at(PAIRS@, 13, 11));
    assert(pair_fits_at(PAIRS@, 14, 4));
    assert(pair_fits_at(PAIRS@, 15, 5));
}

proof fn lemma_pairs_16()
    ensures
        pairs_filed(PAIRS@, 16, 24),
{
    reveal_strlit("NotSucceedsEqual;");
    reveal_strlit("NotSucceedsTilde;");
    reveal_strlit("NotSuperset;");
    reveal_strlit("ThickSpace;");
    reveal_strlit("acE;");
    reveal_strlit("bne;");
    reveal_strlit("bnequiv;");
    reveal_strlit("caps;");
    reveal_strlit("cups;");
    assert(pair_fits_at(PAIRS@, 16, 11));
    assert(pair_fits_at(PAIRS@, 17, 5));
    assert(pair_fits_at(PAIRS@, 18, 0));
    assert(pair_fits_at(PAIRS@, 19, 0));
    assert(pair_fits_at(PAIRS@, 20, 0));
    assert(pair_fits_at(PAIRS@, 21, 3));
    assert(pair_fits_at(PAIRS@, 22, 0));
    assert(pair_fits_at(PAIRS@, 23, 1));
}

proof fn lemma_pairs_24()
    ensures
        pairs_filed(PAIRS@, 24, 32),
{
    reveal_strlit("cups;");
    reveal_strlit("fjlig;");
    reveal_strlit("gesl;");
    reveal_strlit("gvertneqq;");
    reveal_strlit("gvnE;");
    reveal_strlit("lates;");
    reveal_strlit("lesg;");
    reveal_strlit("lvertneqq;");
    reveal_strlit("lvnE;");
    assert(pair_fits_at(PAIRS@, 24, 0));
    assert(pair_fits_at(PAIRS@, 25, 0));
    assert(pair_fits_at(PAIRS@, 26, 1));
    assert(pair_fits_at(PAIRS@, 27, 2));
    assert(pair_fits_at(PAIRS@, 28, 0));
    assert(pair_fits_at(PAIRS@, 29, 1));
    assert(pair_fits_at(PAIRS@, 30, 1));
    assert(pair_fits_at(PAIRS@, 31, 2));
}

proof fn lemma_pairs_32()
    ensures
        pairs_filed(PAIRS@, 32, 40),
{
    reveal_strlit("lvnE;");
    reveal_strlit("nGg;");
    reveal_strlit("nGt;");
    reveal_strlit("nGtv;");
    reveal_strlit("nLl;");
    reveal_strlit("nLt;");
    reveal_strlit("nLtv;");
    reveal_strlit("nang;");
    reveal_strlit("napE;");
    assert(pair_fits_at(PAIRS@, 32, 0));
    assert(pair_fits_at(PAIRS@, 33, 2));
    assert(pair_fits_at(PAIRS@, 34, 3));
    assert(pair_fits_at(PAIRS@, 35, 1));
    assert(pair_fits_at(PAIRS@, 36, 2));
    assert(pair_fits_at(PAIRS@, 37, 3));
    assert(pair_fits_at(PAIRS@, 38, 1));
    assert(pair_fits_at(PAIRS@, 39, 2));
}

proof fn lemma_pairs_40()
    ensures
        pairs_filed(PAIRS@, 40, 48),
{
    reveal_strlit("napE;");
    reveal_strlit("napid;");
    reveal_strlit("nbump;");
    reveal_strlit("nbumpe;");
    reveal_strlit("ncongdot;");
    reveal_strlit("nedot;");
    reveal_strlit("nesim;");
    reveal_strlit("ngE;");
    reveal_strlit("ngeqq;");
    assert(pair_fits_at(PAIRS@, 40, 3));
    assert(pair_fits_at(PAIRS@, 41, 1));
    assert(pair_fits_at(PAIRS@, 42, 5));
    assert(pair_fits_at(PAIRS@, 43, 1));
    assert(pair_fits_at(PAIRS@, 44, 1));
    assert(pair_fits_at(PAIRS@, 45, 2));
    assert(pair_fits_at(PAIRS@, 46, 1));
    assert(pair_fits_at(PAIRS@, 47, 2));
}

proof fn lemma_pairs_48()
    ensures
        pairs_filed(PAIRS@, 48, 56),
{
    reveal_strlit("ngeqq;");
    reveal_strlit("ngeqslant;");
    reveal_strlit("nges;");
    reveal_strlit("nlE;");
    reveal_strlit("nleqq;");
    reveal_strlit("nleqslant;");
    reveal_strlit("nles;");
    reveal_strlit("notinE;");
    reveal_strlit("notindot;");
    assert(pair_fits_at(PAIRS@, 48, 4));
    assert(pair_fits_at(PAIRS@, 49, 3));
    assert(pair_fits_at(PAIRS@, 50, 1));
    assert(pair_fits_at(PAIRS@, 51, 2));
    assert(pair_fits_at(PAIRS@, 52, 4));
    assert(pair_fits_at(PAIRS@, 53, 3));
    assert(pair_fits_at(PAIRS@, 54, 1));
    assert(pair_fits_at(PAIRS@, 55, 5));
}

proof fn lemma_pairs_56()
    ensures
        pairs_filed(PAIRS@, 56, 64),
{
    reveal_strlit("notindot;");
    reveal_strlit("nparsl;");
    reveal_strlit("npart;");
    reveal_strlit("npre;");
    reveal_strlit("npreceq;");
    reveal_strlit("nrarrc;");
    reveal_strlit("nrarrw;");
    reveal_strlit("nsce;");
    reveal_strlit("nsubE;");
    assert(pair_fits_at(PAIRS@, 56, 1));
    assert(pair_fits_at(PAIRS@, 57, 4));
    assert(pair_fits_at(PAIRS@, 58, 2));
    assert(pair_fits_at(PAIRS@, 59, 4));
    assert(pair_fits_at(PAIRS@, 60, 1));
    assert(pair_fits_at(PAIRS@, 61, 5));
    assert(pair_fits_at(PAIRS@, 62, 1));
    assert(pair_fits_at(PAIRS@, 63, 2));
}

proof fn lemma_pairs_64()
    ensures
        pairs_filed(PAIRS@, 64, 72),
{
    reveal_strlit("nsubE;");
    reveal_strlit("nsubset;");
    reveal_strlit("nsubseteqq;");
    reveal_strlit("nsucceq;");
    reveal_strlit("nsupE;");
    reveal_strlit("nsupset;");
    reveal_strlit("nsupseteqq;");
    reveal_strlit("nvap;");
    reveal_strlit("nvge;");
    assert(pair_fits_at(PAIRS@, 64, 4));
    assert(pair_fits_at(PAIRS@, 65, 7));
    assert(pair_fits_at(PAIRS@, 66, 3));
    assert(pair_fits_at(PAIRS@, 67, 3));
    assert(pair_fits_at(PAIRS@, 68, 4));
    assert(pair_fits_at(PAIRS@, 69, 7));
    assert(pair_fits_at(PAIRS@, 70, 1));
    assert(pair_fits_at(PAIRS@, 71, 2));
}

proof fn lemma_pairs_72()
    ensures
        pairs_filed(PAIRS@, 72, 80),
{
    reveal_strlit("nvge;");
    reveal_strlit("nvgt;");
    reveal_strlit("nvle;");
    reveal_strlit("nvlt;");
    reveal_strlit("nvltrie;");
    reveal_strlit("nvrtrie;");
    reveal_strlit("nvsim;");
    reveal_strlit("race;");
    reveal_strlit("smtes;");
    assert(pair_fits_at(PAIRS@, 72, 3));
    assert(pair_fits_at(PAIRS@, 73, 2));
    assert(pair_fits_at(PAIRS@, 74, 3));
    assert(pair_fits_at(PAIRS@, 75, 4));
    assert(pair_fits_at(PAIRS@, 76, 2));
    assert(pair_fits_at(PAIRS@, 77, 2));
    assert(pair_fits_at(PAIRS@, 78, 0));
    assert(pair_fits_at(PAIRS@, 79, 0));
}

proof fn lemma_pairs_80()
    ensures
        pairs_filed(PAIRS@, 80, 88),
{
    reveal_strlit("smtes;");
    reveal_strlit("sqcaps;");
    reveal_strlit("sqcups;");
    reveal_strlit("varsubsetneq;");
    reveal_strlit("varsubsetneqq;");
    reveal_strlit("varsupsetneq;");
    reveal_strlit("varsupsetneqq;");
    reveal_strlit("vnsub;");
    reveal_strlit("vnsup;");
    assert(pair_fits_at(PAIRS@, 80, 1));
    assert(pair_fits_at(PAIRS@, 81, 3));
    assert(pair_fits_at(PAIRS@, 82, 0));
    assert(pair_fits_at(PAIRS@, 83, 12));
    assert(pair_fits_at(PAIRS@, 84, 5));
    assert(pair_fits_at(PAIRS@, 85, 12));
    assert(pair_fits_at(PAIRS@, 86, 1));
    assert(pair_fits_at(PAIRS@, 87, 4));
}

proof fn lemma_pairs_88()
    ensures
        pairs_filed(PAIRS@, 88, 93),
{
    reveal_strlit("vnsup;");
    reveal_strlit("vsubnE;");
    reveal_strlit("vsubne;");
    reveal_strlit("vsupnE;");
    reveal_strlit("vsupne;");
    assert(pair_fits_at(PAIRS@, 88, 1));
    assert(pair_fits_at(PAIRS@, 89, 5));
    assert(pair_fits_at(PAIRS@, 90, 3));
    assert(pair_fits_at(PAIRS@, 91, 5));
    assert(pair_fits_at(PAIRS@, 92, 0));
}

/// The names that stand for two code points are in order.
pub(crate) proof fn lemma_pairs()
    ensures
        pairs_filed(PAIRS@, 0, PAIRS@.len() as int),
        PAIRS@.len() == 93,
{
    lemma_pairs_0();
    lemma_pairs_8();
    lemma_pairs_16();
    lemma_pairs_24();
    lemma_pairs_32();
    lemma_pairs_40();
    lemma_pairs_48();
    lemma_pairs_56();
    lemma_pairs_64();
    lemma_pairs_72();
    lemma_pairs_80();
    lemma_pairs_88();
}

} // verus!
