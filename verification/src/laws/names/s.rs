//! The names that begin with `S` or `s` are in order.

use crate::entities::{LOWER_S, UPPER_S};
use crate::laws::names::order::{filed, fits_at, lemma_stands_alone, stands_alone};
use vstd::prelude::*;

verus! {

proof fn lemma_upper_s_0()
    ensures
        filed(UPPER_S@, 'S', 0, 8),
{
    reveal_strlit("SHCHcy;");
    reveal_strlit("SHcy;");
    reveal_strlit("SOFTcy;");
    reveal_strlit("Sacute;");
    reveal_strlit("Sc;");
    reveal_strlit("Scaron;");
    reveal_strlit("Scedil;");
    reveal_strlit("Scirc;");
    reveal_strlit("Scy;");
    assert(fits_at(UPPER_S@, 'S', 0, 2));
    assert(fits_at(UPPER_S@, 'S', 1, 1));
    assert(fits_at(UPPER_S@, 'S', 2, 1));
    assert(fits_at(UPPER_S@, 'S', 3, 1));
    assert(fits_at(UPPER_S@, 'S', 4, 2));
    assert(fits_at(UPPER_S@, 'S', 5, 2));
    assert(fits_at(UPPER_S@, 'S', 6, 2));
    assert(fits_at(UPPER_S@, 'S', 7, 2));
}

proof fn lemma_upper_s_8()
    ensures
        filed(UPPER_S@, 'S', 8, 16),
{
    reveal_strlit("Scy;");
    reveal_strlit("Sfr;");
    reveal_strlit("ShortDownArrow;");
    reveal_strlit("ShortLeftArrow;");
    reveal_strlit("ShortRightArrow;");
    reveal_strlit("ShortUpArrow;");
    reveal_strlit("Sigma;");
    reveal_strlit("SmallCircle;");
    reveal_strlit("Sopf;");
    assert(fits_at(UPPER_S@, 'S', 8, 1));
    assert(fits_at(UPPER_S@, 'S', 9, 1));
    assert(fits_at(UPPER_S@, 'S', 10, 5));
    assert(fits_at(UPPER_S@, 'S', 11, 5));
    assert(fits_at(UPPER_S@, 'S', 12, 5));
    assert(fits_at(UPPER_S@, 'S', 13, 1));
    assert(fits_at(UPPER_S@, 'S', 14, 1));
    assert(fits_at(UPPER_S@, 'S', 15, 1));
}

proof fn lemma_upper_s_16()
    ensures
        filed(UPPER_S@, 'S', 16, 24),
{
    reveal_strlit("Sopf;");
    reveal_strlit("Sqrt;");
    reveal_strlit("Square;");
    reveal_strlit("SquareIntersection;");
    reveal_strlit("SquareSubset;");
    reveal_strlit("SquareSubsetEqual;");
    reveal_strlit("SquareSuperset;");
    reveal_strlit("SquareSupersetEqual;");
    reveal_strlit("SquareUnion;");
    assert(fits_at(UPPER_S@, 'S', 16, 1));
    assert(fits_at(UPPER_S@, 'S', 17, 2));
    assert(fits_at(UPPER_S@, 'S', 18, 6));
    assert(fits_at(UPPER_S@, 'S', 19, 6));
    assert(fits_at(UPPER_S@, 'S', 20, 12));
    assert(fits_at(UPPER_S@, 'S', 21, 8));
    assert(fits_at(UPPER_S@, 'S', 22, 14));
    assert(fits_at(UPPER_S@, 'S', 23, 6));
}

proof fn lemma_upper_s_24()
    ensures
        filed(UPPER_S@, 'S', 24, 32),
{
    reveal_strlit("SquareUnion;");
    reveal_strlit("Sscr;");
    reveal_strlit("Star;");
    reveal_strlit("Sub;");
    reveal_strlit("Subset;");
    reveal_strlit("SubsetEqual;");
    reveal_strlit("Succeeds;");
    reveal_strlit("SucceedsEqual;");
    reveal_strlit("SucceedsSlantEqual;");
    assert(fits_at(UPPER_S@, 'S', 24, 1));
    assert(fits_at(UPPER_S@, 'S', 25, 1));
    assert(fits_at(UPPER_S@, 'S', 26, 1));
    assert(fits_at(UPPER_S@, 'S', 27, 3));
    assert(fits_at(UPPER_S@, 'S', 28, 6));
    assert(fits_at(UPPER_S@, 'S', 29, 2));
    assert(fits_at(UPPER_S@, 'S', 30, 8));
    assert(fits_at(UPPER_S@, 'S', 31, 8));
}

proof fn lemma_upper_s_32()
    ensures
        filed(UPPER_S@, 'S', 32, 40),
{
    reveal_strlit("SucceedsSlantEqual;");
    reveal_strlit("SucceedsTilde;");
    reveal_strlit("SuchThat;");
    reveal_strlit("Sum;");
    reveal_strlit("Sup;");
    reveal_strlit("Superset;");
    reveal_strlit("SupersetEqual;");
    reveal_strlit("Supset;");
    assert(fits_at(UPPER_S@, 'S', 32, 8));
    assert(fits_at(UPPER_S@, 'S', 33, 3));
    assert(fits_at(UPPER_S@, 'S', 34, 2));
    assert(fits_at(UPPER_S@, 'S', 35, 2));
    assert(fits_at(UPPER_S@, 'S', 36, 3));
    assert(fits_at(UPPER_S@, 'S', 37, 8));
    assert(fits_at(UPPER_S@, 'S', 38, 3));
    assert(fits_at(UPPER_S@, 'S', 39, 0));
}

pub(super) proof fn lemma_upper_s()
    ensures
        filed(UPPER_S@, 'S', 0, UPPER_S@.len() as int),
        UPPER_S@.len() == 40,
{
    lemma_upper_s_0();
    lemma_upper_s_8();
    lemma_upper_s_16();
    lemma_upper_s_24();
    lemma_upper_s_32();
}

proof fn lemma_lower_s_0()
    ensures
        filed(LOWER_S@, 's', 0, 8),
{
    reveal_strlit("sacute;");
    reveal_strlit("sbquo;");
    reveal_strlit("sc;");
    reveal_strlit("scE;");
    reveal_strlit("scap;");
    reveal_strlit("scaron;");
    reveal_strlit("sccue;");
    reveal_strlit("sce;");
    reveal_strlit("scedil;");
    assert(fits_at(LOWER_S@, 's', 0, 1));
    assert(fits_at(LOWER_S@, 's', 1, 1));
    assert(fits_at(LOWER_S@, 's', 2, 2));
    assert(fits_at(LOWER_S@, 's', 3, 2));
    assert(fits_at(LOWER_S@, 's', 4, 3));
    assert(fits_at(LOWER_S@, 's', 5, 2));
    assert(fits_at(LOWER_S@, 's', 6, 2));
    assert(fits_at(LOWER_S@, 's', 7, 3));
}

proof fn lemma_lower_s_8()
    ensures
        filed(LOWER_S@, 's', 8, 16),
{
    reveal_strlit("scedil;");
    reveal_strlit("scirc;");
    reveal_strlit("scnE;");
    reveal_strlit("scnap;");
    reveal_strlit("scnsim;");
    reveal_strlit("scpolint;");
    reveal_strlit("scsim;");
    reveal_strlit("scy;");
    reveal_strlit("sdot;");
    assert(fits_at(LOWER_S@, 's', 8, 2));
    assert(fits_at(LOWER_S@, 's', 9, 2));
    assert(fits_at(LOWER_S@, 's', 10, 3));
    assert(fits_at(LOWER_S@, 's', 11, 3));
    assert(fits_at(LOWER_S@, 's', 12, 2));
    assert(fits_at(LOWER_S@, 's', 13, 2));
    assert(fits_at(LOWER_S@, 's', 14, 2));
    assert(fits_at(LOWER_S@, 's', 15, 1));
}

proof fn lemma_lower_s_16()
    ensures
        filed(LOWER_S@, 's', 16, 24),
{
    reveal_strlit("sdot;");
    reveal_strlit("sdotb;");
    reveal_strlit("sdote;");
    reveal_strlit("seArr;");
    reveal_strlit("searhk;");
    reveal_strlit("searr;");
    reveal_strlit("searrow;");
    reveal_strlit("sect");
    reveal_strlit("sect;");
    assert(fits_at(LOWER_S@, 's', 16, 4));
    assert(fits_at(LOWER_S@, 's', 17, 4));
    assert(fits_at(LOWER_S@, 's', 18, 1));
    assert(fits_at(LOWER_S@, 's', 19, 2));
    assert(fits_at(LOWER_S@, 's', 20, 4));
    assert(fits_at(LOWER_S@, 's', 21, 5));
    assert(fits_at(LOWER_S@, 's', 22, 2));
    assert(fits_at(LOWER_S@, 's', 23, 4));
}

proof fn lemma_lower_s_24()
    ensures
        filed(LOWER_S@, 's', 24, 32),
{
    reveal_strlit("sect;");
    reveal_strlit("semi;");
    reveal_strlit("seswar;");
    reveal_strlit("setminus;");
    reveal_strlit("setmn;");
    reveal_strlit("sext;");
    reveal_strlit("sfr;");
    reveal_strlit("sfrown;");
    reveal_strlit("sharp;");
    assert(fits_at(LOWER_S@, 's', 24, 2));
    assert(fits_at(LOWER_S@, 's', 25, 2));
    assert(fits_at(LOWER_S@, 's', 26, 2));
    assert(fits_at(LOWER_S@, 's', 27, 4));
    assert(fits_at(LOWER_S@, 's', 28, 2));
    assert(fits_at(LOWER_S@, 's', 29, 1));
    assert(fits_at(LOWER_S@, 's', 30, 3));
    assert(fits_at(LOWER_S@, 's', 31, 1));
}

proof fn lemma_lower_s_32()
    ensures
        filed(LOWER_S@, 's', 32, 40),
{
    reveal_strlit("sharp;");
    reveal_strlit("shchcy;");
    reveal_strlit("shcy;");
    reveal_strlit("shortmid;");
    reveal_strlit("shortparallel;");
    reveal_strlit("shy");
    reveal_strlit("shy;");
    reveal_strlit("sigma;");
    reveal_strlit("sigmaf;");
    assert(fits_at(LOWER_S@, 's', 32, 2));
    assert(fits_at(LOWER_S@, 's', 33, 3));
    assert(fits_at(LOWER_S@, 's', 34, 2));
    assert(fits_at(LOWER_S@, 's', 35, 5));
    assert(fits_at(LOWER_S@, 's', 36, 2));
    assert(fits_at(LOWER_S@, 's', 37, 3));
    assert(fits_at(LOWER_S@, 's', 38, 1));
    assert(fits_at(LOWER_S@, 's', 39, 5));
}

proof fn lemma_lower_s_40()
    ensures
        filed(LOWER_S@, 's', 40, 48),
{
    reveal_strlit("sigmaf;");
    reveal_strlit("sigmav;");
    reveal_strlit("sim;");
    reveal_strlit("simdot;");
    reveal_strlit("sime;");
    reveal_strlit("simeq;");
    reveal_strlit("simg;");
    reveal_strlit("simgE;");
    reveal_strlit("siml;");
    assert(fits_at(LOWER_S@, 's', 40, 5));
    assert(fits_at(LOWER_S@, 's', 41, 2));
    assert(fits_at(LOWER_S@, 's', 42, 3));
    assert(fits_at(LOWER_S@, 's', 43, 3));
    assert(fits_at(LOWER_S@, 's', 44, 4));
    assert(fits_at(LOWER_S@, 's', 45, 3));
    assert(fits_at(LOWER_S@, 's', 46, 4));
    assert(fits_at(LOWER_S@, 's', 47, 3));
}

proof fn lemma_lower_s_48()
    ensures
        filed(LOWER_S@, 's', 48, 56),
{
    reveal_strlit("siml;");
    reveal_strlit("simlE;");
    reveal_strlit("simne;");
    reveal_strlit("simplus;");
    reveal_strlit("simrarr;");
    reveal_strlit("slarr;");
    reveal_strlit("smallsetminus;");
    reveal_strlit("smashp;");
    reveal_strlit("smeparsl;");
    assert(fits_at(LOWER_S@, 's', 48, 4));
    assert(fits_at(LOWER_S@, 's', 49, 3));
    assert(fits_at(LOWER_S@, 's', 50, 3));
    assert(fits_at(LOWER_S@, 's', 51, 3));
    assert(fits_at(LOWER_S@, 's', 52, 1));
    assert(fits_at(LOWER_S@, 's', 53, 1));
    assert(fits_at(LOWER_S@, 's', 54, 3));
    assert(fits_at(LOWER_S@, 's', 55, 2));
}

proof fn lemma_lower_s_56()
    ensures
        filed(LOWER_S@, 's', 56, 64),
{
    reveal_strlit("smeparsl;");
    reveal_strlit("smid;");
    reveal_strlit("smile;");
    reveal_strlit("smt;");
    reveal_strlit("smte;");
    reveal_strlit("softcy;");
    reveal_strlit("sol;");
    reveal_strlit("solb;");
    reveal_strlit("solbar;");
    assert(fits_at(LOWER_S@, 's', 56, 2));
    assert(fits_at(LOWER_S@, 's', 57, 3));
    assert(fits_at(LOWER_S@, 's', 58, 2));
    assert(fits_at(LOWER_S@, 's', 59, 3));
    assert(fits_at(LOWER_S@, 's', 60, 1));
    assert(fits_at(LOWER_S@, 's', 61, 2));
    assert(fits_at(LOWER_S@, 's', 62, 3));
    assert(fits_at(LOWER_S@, 's', 63, 4));
}

proof fn lemma_lower_s_64()
    ensures
        filed(LOWER_S@, 's', 64, 72),
{
    reveal_strlit("solbar;");
    reveal_strlit("sopf;");
    reveal_strlit("spades;");
    reveal_strlit("spadesuit;");
    reveal_strlit("spar;");
    reveal_strlit("sqcap;");
    reveal_strlit("sqcup;");
    reveal_strlit("sqsub;");
    reveal_strlit("sqsube;");
    assert(fits_at(LOWER_S@, 's', 64, 2));
    assert(fits_at(LOWER_S@, 's', 65, 1));
    assert(fits_at(LOWER_S@, 's', 66, 6));
    assert(fits_at(LOWER_S@, 's', 67, 3));
    assert(fits_at(LOWER_S@, 's', 68, 1));
    assert(fits_at(LOWER_S@, 's', 69, 3));
    assert(fits_at(LOWER_S@, 's', 70, 2));
    assert(fits_at(LOWER_S@, 's', 71, 5));
}

proof fn lemma_lower_s_72()
    ensures
        filed(LOWER_S@, 's', 72, 80),
{
    reveal_strlit("sqsube;");
    reveal_strlit("sqsubset;");
    reveal_strlit("sqsubseteq;");
    reveal_strlit("sqsup;");
    reveal_strlit("sqsupe;");
    reveal_strlit("sqsupset;");
    reveal_strlit("sqsupseteq;");
    reveal_strlit("squ;");
    reveal_strlit("square;");
    assert(fits_at(LOWER_S@, 's', 72, 5));
    assert(fits_at(LOWER_S@, 's', 73, 8));
    assert(fits_at(LOWER_S@, 's', 74, 4));
    assert(fits_at(LOWER_S@, 's', 75, 5));
    assert(fits_at(LOWER_S@, 's', 76, 5));
    assert(fits_at(LOWER_S@, 's', 77, 8));
    assert(fits_at(LOWER_S@, 's', 78, 2));
    assert(fits_at(LOWER_S@, 's', 79, 3));
}

proof fn lemma_lower_s_80()
    ensures
        filed(LOWER_S@, 's', 80, 88),
{
    reveal_strlit("square;");
    reveal_strlit("squarf;");
    reveal_strlit("squf;");
    reveal_strlit("srarr;");
    reveal_strlit("sscr;");
    reveal_strlit("ssetmn;");
    reveal_strlit("ssmile;");
    reveal_strlit("sstarf;");
    reveal_strlit("star;");
    assert(fits_at(LOWER_S@, 's', 80, 5));
    assert(fits_at(LOWER_S@, 's', 81, 3));
    assert(fits_at(LOWER_S@, 's', 82, 1));
    assert(fits_at(LOWER_S@, 's', 83, 1));
    assert(fits_at(LOWER_S@, 's', 84, 2));
    assert(fits_at(LOWER_S@, 's', 85, 2));
    assert(fits_at(LOWER_S@, 's', 86, 2));
    assert(fits_at(LOWER_S@, 's', 87, 1));
}

proof fn lemma_lower_s_88()
    ensures
        filed(LOWER_S@, 's', 88, 96),
{
    reveal_strlit("star;");
    reveal_strlit("starf;");
    reveal_strlit("straightepsilon;");
    reveal_strlit("straightphi;");
    reveal_strlit("strns;");
    reveal_strlit("sub;");
    reveal_strlit("subE;");
    reveal_strlit("subdot;");
    reveal_strlit("sube;");
    assert(fits_at(LOWER_S@, 's', 88, 4));
    assert(fits_at(LOWER_S@, 's', 89, 2));
    assert(fits_at(LOWER_S@, 's', 90, 8));
    assert(fits_at(LOWER_S@, 's', 91, 3));
    assert(fits_at(LOWER_S@, 's', 92, 1));
    assert(fits_at(LOWER_S@, 's', 93, 3));
    assert(fits_at(LOWER_S@, 's', 94, 3));
    assert(fits_at(LOWER_S@, 's', 95, 3));
}

proof fn lemma_lower_s_96()
    ensures
        filed(LOWER_S@, 's', 96, 104),
{
    reveal_strlit("sube;");
    reveal_strlit("subedot;");
    reveal_strlit("submult;");
    reveal_strlit("subnE;");
    reveal_strlit("subne;");
    reveal_strlit("subplus;");
    reveal_strlit("subrarr;");
    reveal_strlit("subset;");
    reveal_strlit("subseteq;");
    assert(fits_at(LOWER_S@, 's', 96, 4));
    assert(fits_at(LOWER_S@, 's', 97, 3));
    assert(fits_at(LOWER_S@, 's', 98, 3));
    assert(fits_at(LOWER_S@, 's', 99, 4));
    assert(fits_at(LOWER_S@, 's', 100, 3));
    assert(fits_at(LOWER_S@, 's', 101, 3));
    assert(fits_at(LOWER_S@, 's', 102, 3));
    assert(fits_at(LOWER_S@, 's', 103, 6));
}

proof fn lemma_lower_s_104()
    ensures
        filed(LOWER_S@, 's', 104, 112),
{
    reveal_strlit("subseteq;");
    reveal_strlit("subseteqq;");
    reveal_strlit("subsetneq;");
    reveal_strlit("subsetneqq;");
    reveal_strlit("subsim;");
    reveal_strlit("subsub;");
    reveal_strlit("subsup;");
    reveal_strlit("succ;");
    reveal_strlit("succapprox;");
    assert(fits_at(LOWER_S@, 's', 104, 8));
    assert(fits_at(LOWER_S@, 's', 105, 6));
    assert(fits_at(LOWER_S@, 's', 106, 9));
    assert(fits_at(LOWER_S@, 's', 107, 4));
    assert(fits_at(LOWER_S@, 's', 108, 4));
    assert(fits_at(LOWER_S@, 's', 109, 5));
    assert(fits_at(LOWER_S@, 's', 110, 2));
    assert(fits_at(LOWER_S@, 's', 111, 4));
}

proof fn lemma_lower_s_112()
    ensures
        filed(LOWER_S@, 's', 112, 120),
{
    reveal_strlit("succapprox;");
    reveal_strlit("succcurlyeq;");
    reveal_strlit("succeq;");
    reveal_strlit("succnapprox;");
    reveal_strlit("succneqq;");
    reveal_strlit("succnsim;");
    reveal_strlit("succsim;");
    reveal_strlit("sum;");
    reveal_strlit("sung;");
    assert(fits_at(LOWER_S@, 's', 112, 4));
    assert(fits_at(LOWER_S@, 's', 113, 4));
    assert(fits_at(LOWER_S@, 's', 114, 4));
    assert(fits_at(LOWER_S@, 's', 115, 5));
    assert(fits_at(LOWER_S@, 's', 116, 5));
    assert(fits_at(LOWER_S@, 's', 117, 4));
    assert(fits_at(LOWER_S@, 's', 118, 2));
    assert(fits_at(LOWER_S@, 's', 119, 2));
}

proof fn lemma_lower_s_120()
    ensures
        filed(LOWER_S@, 's', 120, 128),
{
    reveal_strlit("sung;");
    reveal_strlit("sup1");
    reveal_strlit("sup1;");
    reveal_strlit("sup2");
    reveal_strlit("sup2;");
    reveal_strlit("sup3");
    reveal_strlit("sup3;");
    reveal_strlit("sup;");
    reveal_strlit("supE;");
    assert(fits_at(LOWER_S@, 's', 120, 2));
    assert(fits_at(LOWER_S@, 's', 121, 4));
    assert(fits_at(LOWER_S@, 's', 122, 3));
    assert(fits_at(LOWER_S@, 's', 123, 4));
    assert(fits_at(LOWER_S@, 's', 124, 3));
    assert(fits_at(LOWER_S@, 's', 125, 4));
    assert(fits_at(LOWER_S@, 's', 126, 3));
    assert(fits_at(LOWER_S@, 's', 127, 3));
}

proof fn lemma_lower_s_128()
    ensures
        filed(LOWER_S@, 's', 128, 136),
{
    reveal_strlit("supE;");
    reveal_strlit("supdot;");
    reveal_strlit("supdsub;");
    reveal_strlit("supe;");
    reveal_strlit("supedot;");
    reveal_strlit("suphsol;");
    reveal_strlit("suphsub;");
    reveal_strlit("suplarr;");
    reveal_strlit("supmult;");
    assert(fits_at(LOWER_S@, 's', 128, 3));
    assert(fits_at(LOWER_S@, 's', 129, 4));
    assert(fits_at(LOWER_S@, 's', 130, 3));
    assert(fits_at(LOWER_S@, 's', 131, 4));
    assert(fits_at(LOWER_S@, 's', 132, 3));
    assert(fits_at(LOWER_S@, 's', 133, 5));
    assert(fits_at(LOWER_S@, 's', 134, 3));
    assert(fits_at(LOWER_S@, 's', 135, 3));
}

proof fn lemma_lower_s_136()
    ensures
        filed(LOWER_S@, 's', 136, 144),
{
    reveal_strlit("supmult;");
    reveal_strlit("supnE;");
    reveal_strlit("supne;");
    reveal_strlit("supplus;");
    reveal_strlit("supset;");
    reveal_strlit("supseteq;");
    reveal_strlit("supseteqq;");
    reveal_strlit("supsetneq;");
    reveal_strlit("supsetneqq;");
    assert(fits_at(LOWER_S@, 's', 136, 3));
    assert(fits_at(LOWER_S@, 's', 137, 4));
    assert(fits_at(LOWER_S@, 's', 138, 3));
    assert(fits_at(LOWER_S@, 's', 139, 3));
    assert(fits_at(LOWER_S@, 's', 140, 6));
    assert(fits_at(LOWER_S@, 's', 141, 8));
    assert(fits_at(LOWER_S@, 's', 142, 6));
    assert(fits_at(LOWER_S@, 's', 143, 9));
}

proof fn lemma_lower_s_144()
    ensures
        filed(LOWER_S@, 's', 144, 152),
{
    reveal_strlit("supsetneqq;");
    reveal_strlit("supsim;");
    reveal_strlit("supsub;");
    reveal_strlit("supsup;");
    reveal_strlit("swArr;");
    reveal_strlit("swarhk;");
    reveal_strlit("swarr;");
    reveal_strlit("swarrow;");
    reveal_strlit("swnwar;");
    assert(fits_at(LOWER_S@, 's', 144, 4));
    assert(fits_at(LOWER_S@, 's', 145, 4));
    assert(fits_at(LOWER_S@, 's', 146, 5));
    assert(fits_at(LOWER_S@, 's', 147, 1));
    assert(fits_at(LOWER_S@, 's', 148, 2));
    assert(fits_at(LOWER_S@, 's', 149, 4));
    assert(fits_at(LOWER_S@, 's', 150, 5));
    assert(fits_at(LOWER_S@, 's', 151, 2));
}

proof fn lemma_lower_s_152()
    ensures
        filed(LOWER_S@, 's', 152, 155),
{
    reveal_strlit("swnwar;");
    reveal_strlit("szlig");
    reveal_strlit("szlig;");
    assert(fits_at(LOWER_S@, 's', 152, 1));
    assert(fits_at(LOWER_S@, 's', 153, 5));
    assert(fits_at(LOWER_S@, 's', 154, 0));
}

pub(super) proof fn lemma_lower_s()
    ensures
        filed(LOWER_S@, 's', 0, LOWER_S@.len() as int),
        LOWER_S@.len() == 155,
{
    lemma_lower_s_0();
    lemma_lower_s_8();
    lemma_lower_s_16();
    lemma_lower_s_24();
    lemma_lower_s_32();
    lemma_lower_s_40();
    lemma_lower_s_48();
    lemma_lower_s_56();
    lemma_lower_s_64();
    lemma_lower_s_72();
    lemma_lower_s_80();
    lemma_lower_s_88();
    lemma_lower_s_96();
    lemma_lower_s_104();
    lemma_lower_s_112();
    lemma_lower_s_120();
    lemma_lower_s_128();
    lemma_lower_s_136();
    lemma_lower_s_144();
    lemma_lower_s_152();
}

pub(super) proof fn lemma_lower_s_pairs()
    ensures
        forall|i: int| 80 <= i < 83 ==> #[trigger] stands_alone(i, LOWER_S@, 's'),
{
    lemma_lower_s();
    reveal_strlit("smtes;");
    reveal_strlit("smte;");
    reveal_strlit("softcy;");
    reveal_strlit("sqcaps;");
    reveal_strlit("sqcap;");
    reveal_strlit("sqcup;");
    reveal_strlit("sqcups;");
    reveal_strlit("sqsub;");
    lemma_stands_alone(80, LOWER_S@, 's', 61, 4, 1);
    lemma_stands_alone(81, LOWER_S@, 's', 70, 5, 3);
    lemma_stands_alone(82, LOWER_S@, 's', 71, 5, 2);
}

} // verus!
