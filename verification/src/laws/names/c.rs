//! The names that begin with `C` or `c` are in order.

use crate::entities::{LOWER_C, UPPER_C};
use crate::laws::names::order::{filed, fits_at, lemma_stands_alone, stands_alone};
use vstd::prelude::*;

verus! {

proof fn lemma_upper_c_0()
    ensures
        filed(UPPER_C@, 'C', 0, 8),
{
    reveal_strlit("CHcy;");
    reveal_strlit("COPY");
    reveal_strlit("COPY;");
    reveal_strlit("Cacute;");
    reveal_strlit("Cap;");
    reveal_strlit("CapitalDifferentialD;");
    reveal_strlit("Cayleys;");
    reveal_strlit("Ccaron;");
    reveal_strlit("Ccedil");
    assert(fits_at(UPPER_C@, 'C', 0, 1));
    assert(fits_at(UPPER_C@, 'C', 1, 4));
    assert(fits_at(UPPER_C@, 'C', 2, 1));
    assert(fits_at(UPPER_C@, 'C', 3, 2));
    assert(fits_at(UPPER_C@, 'C', 4, 3));
    assert(fits_at(UPPER_C@, 'C', 5, 2));
    assert(fits_at(UPPER_C@, 'C', 6, 1));
    assert(fits_at(UPPER_C@, 'C', 7, 2));
}

proof fn lemma_upper_c_8()
    ensures
        filed(UPPER_C@, 'C', 8, 16),
{
    reveal_strlit("Ccedil");
    reveal_strlit("Ccedil;");
    reveal_strlit("Ccirc;");
    reveal_strlit("Cconint;");
    reveal_strlit("Cdot;");
    reveal_strlit("Cedilla;");
    reveal_strlit("CenterDot;");
    reveal_strlit("Cfr;");
    reveal_strlit("Chi;");
    assert(fits_at(UPPER_C@, 'C', 8, 6));
    assert(fits_at(UPPER_C@, 'C', 9, 2));
    assert(fits_at(UPPER_C@, 'C', 10, 2));
    assert(fits_at(UPPER_C@, 'C', 11, 1));
    assert(fits_at(UPPER_C@, 'C', 12, 1));
    assert(fits_at(UPPER_C@, 'C', 13, 2));
    assert(fits_at(UPPER_C@, 'C', 14, 1));
    assert(fits_at(UPPER_C@, 'C', 15, 1));
}

proof fn lemma_upper_c_16()
    ensures
        filed(UPPER_C@, 'C', 16, 24),
{
    reveal_strlit("Chi;");
    reveal_strlit("CircleDot;");
    reveal_strlit("CircleMinus;");
    reveal_strlit("CirclePlus;");
    reveal_strlit("CircleTimes;");
    reveal_strlit("ClockwiseContourIntegral;");
    reveal_strlit("CloseCurlyDoubleQuote;");
    reveal_strlit("CloseCurlyQuote;");
    reveal_strlit("Colon;");
    assert(fits_at(UPPER_C@, 'C', 16, 1));
    assert(fits_at(UPPER_C@, 'C', 17, 6));
    assert(fits_at(UPPER_C@, 'C', 18, 6));
    assert(fits_at(UPPER_C@, 'C', 19, 6));
    assert(fits_at(UPPER_C@, 'C', 20, 1));
    assert(fits_at(UPPER_C@, 'C', 21, 3));
    assert(fits_at(UPPER_C@, 'C', 22, 10));
    assert(fits_at(UPPER_C@, 'C', 23, 1));
}

proof fn lemma_upper_c_24()
    ensures
        filed(UPPER_C@, 'C', 24, 32),
{
    reveal_strlit("Colon;");
    reveal_strlit("Colone;");
    reveal_strlit("Congruent;");
    reveal_strlit("Conint;");
    reveal_strlit("ContourIntegral;");
    reveal_strlit("Copf;");
    reveal_strlit("Coproduct;");
    reveal_strlit("CounterClockwiseContourIntegral;");
    reveal_strlit("Cross;");
    assert(fits_at(UPPER_C@, 'C', 24, 5));
    assert(fits_at(UPPER_C@, 'C', 25, 2));
    assert(fits_at(UPPER_C@, 'C', 26, 3));
    assert(fits_at(UPPER_C@, 'C', 27, 3));
    assert(fits_at(UPPER_C@, 'C', 28, 2));
    assert(fits_at(UPPER_C@, 'C', 29, 3));
    assert(fits_at(UPPER_C@, 'C', 30, 2));
    assert(fits_at(UPPER_C@, 'C', 31, 1));
}

proof fn lemma_upper_c_32()
    ensures
        filed(UPPER_C@, 'C', 32, 36),
{
    reveal_strlit("Cross;");
    reveal_strlit("Cscr;");
    reveal_strlit("Cup;");
    reveal_strlit("CupCap;");
    assert(fits_at(UPPER_C@, 'C', 32, 1));
    assert(fits_at(UPPER_C@, 'C', 33, 1));
    assert(fits_at(UPPER_C@, 'C', 34, 3));
    assert(fits_at(UPPER_C@, 'C', 35, 0));
}

pub(super) proof fn lemma_upper_c()
    ensures
        filed(UPPER_C@, 'C', 0, UPPER_C@.len() as int),
        UPPER_C@.len() == 36,
{
    lemma_upper_c_0();
    lemma_upper_c_8();
    lemma_upper_c_16();
    lemma_upper_c_24();
    lemma_upper_c_32();
}

proof fn lemma_lower_c_0()
    ensures
        filed(LOWER_C@, 'c', 0, 8),
{
    reveal_strlit("cacute;");
    reveal_strlit("cap;");
    reveal_strlit("capand;");
    reveal_strlit("capbrcup;");
    reveal_strlit("capcap;");
    reveal_strlit("capcup;");
    reveal_strlit("capdot;");
    reveal_strlit("caret;");
    reveal_strlit("caron;");
    assert(fits_at(LOWER_C@, 'c', 0, 2));
    assert(fits_at(LOWER_C@, 'c', 1, 3));
    assert(fits_at(LOWER_C@, 'c', 2, 3));
    assert(fits_at(LOWER_C@, 'c', 3, 3));
    assert(fits_at(LOWER_C@, 'c', 4, 4));
    assert(fits_at(LOWER_C@, 'c', 5, 3));
    assert(fits_at(LOWER_C@, 'c', 6, 2));
    assert(fits_at(LOWER_C@, 'c', 7, 3));
}

proof fn lemma_lower_c_8()
    ensures
        filed(LOWER_C@, 'c', 8, 16),
{
    reveal_strlit("caron;");
    reveal_strlit("ccaps;");
    reveal_strlit("ccaron;");
    reveal_strlit("ccedil");
    reveal_strlit("ccedil;");
    reveal_strlit("ccirc;");
    reveal_strlit("ccups;");
    reveal_strlit("ccupssm;");
    reveal_strlit("cdot;");
    assert(fits_at(LOWER_C@, 'c', 8, 1));
    assert(fits_at(LOWER_C@, 'c', 9, 3));
    assert(fits_at(LOWER_C@, 'c', 10, 2));
    assert(fits_at(LOWER_C@, 'c', 11, 6));
    assert(fits_at(LOWER_C@, 'c', 12, 2));
    assert(fits_at(LOWER_C@, 'c', 13, 2));
    assert(fits_at(LOWER_C@, 'c', 14, 5));
    assert(fits_at(LOWER_C@, 'c', 15, 1));
}

proof fn lemma_lower_c_16()
    ensures
        filed(LOWER_C@, 'c', 16, 24),
{
    reveal_strlit("cdot;");
    reveal_strlit("cedil");
    reveal_strlit("cedil;");
    reveal_strlit("cemptyv;");
    reveal_strlit("cent");
    reveal_strlit("cent;");
    reveal_strlit("centerdot;");
    reveal_strlit("cfr;");
    reveal_strlit("chcy;");
    assert(fits_at(LOWER_C@, 'c', 16, 1));
    assert(fits_at(LOWER_C@, 'c', 17, 5));
    assert(fits_at(LOWER_C@, 'c', 18, 2));
    assert(fits_at(LOWER_C@, 'c', 19, 2));
    assert(fits_at(LOWER_C@, 'c', 20, 4));
    assert(fits_at(LOWER_C@, 'c', 21, 4));
    assert(fits_at(LOWER_C@, 'c', 22, 1));
    assert(fits_at(LOWER_C@, 'c', 23, 1));
}

proof fn lemma_lower_c_24()
    ensures
        filed(LOWER_C@, 'c', 24, 32),
{
    reveal_strlit("chcy;");
    reveal_strlit("check;");
    reveal_strlit("checkmark;");
    reveal_strlit("chi;");
    reveal_strlit("cir;");
    reveal_strlit("cirE;");
    reveal_strlit("circ;");
    reveal_strlit("circeq;");
    reveal_strlit("circlearrowleft;");
    assert(fits_at(LOWER_C@, 'c', 24, 2));
    assert(fits_at(LOWER_C@, 'c', 25, 5));
    assert(fits_at(LOWER_C@, 'c', 26, 2));
    assert(fits_at(LOWER_C@, 'c', 27, 1));
    assert(fits_at(LOWER_C@, 'c', 28, 3));
    assert(fits_at(LOWER_C@, 'c', 29, 3));
    assert(fits_at(LOWER_C@, 'c', 30, 4));
    assert(fits_at(LOWER_C@, 'c', 31, 4));
}

proof fn lemma_lower_c_32()
    ensures
        filed(LOWER_C@, 'c', 32, 40),
{
    reveal_strlit("circlearrowleft;");
    reveal_strlit("circlearrowright;");
    reveal_strlit("circledR;");
    reveal_strlit("circledS;");
    reveal_strlit("circledast;");
    reveal_strlit("circledcirc;");
    reveal_strlit("circleddash;");
    reveal_strlit("cire;");
    reveal_strlit("cirfnint;");
    assert(fits_at(LOWER_C@, 'c', 32, 11));
    assert(fits_at(LOWER_C@, 'c', 33, 6));
    assert(fits_at(LOWER_C@, 'c', 34, 7));
    assert(fits_at(LOWER_C@, 'c', 35, 7));
    assert(fits_at(LOWER_C@, 'c', 36, 7));
    assert(fits_at(LOWER_C@, 'c', 37, 7));
    assert(fits_at(LOWER_C@, 'c', 38, 3));
    assert(fits_at(LOWER_C@, 'c', 39, 3));
}

proof fn lemma_lower_c_40()
    ensures
        filed(LOWER_C@, 'c', 40, 48),
{
    reveal_strlit("cirfnint;");
    reveal_strlit("cirmid;");
    reveal_strlit("cirscir;");
    reveal_strlit("clubs;");
    reveal_strlit("clubsuit;");
    reveal_strlit("colon;");
    reveal_strlit("colone;");
    reveal_strlit("coloneq;");
    reveal_strlit("comma;");
    assert(fits_at(LOWER_C@, 'c', 40, 3));
    assert(fits_at(LOWER_C@, 'c', 41, 3));
    assert(fits_at(LOWER_C@, 'c', 42, 1));
    assert(fits_at(LOWER_C@, 'c', 43, 5));
    assert(fits_at(LOWER_C@, 'c', 44, 1));
    assert(fits_at(LOWER_C@, 'c', 45, 5));
    assert(fits_at(LOWER_C@, 'c', 46, 6));
    assert(fits_at(LOWER_C@, 'c', 47, 2));
}

proof fn lemma_lower_c_48()
    ensures
        filed(LOWER_C@, 'c', 48, 56),
{
    reveal_strlit("comma;");
    reveal_strlit("commat;");
    reveal_strlit("comp;");
    reveal_strlit("compfn;");
    reveal_strlit("complement;");
    reveal_strlit("complexes;");
    reveal_strlit("cong;");
    reveal_strlit("congdot;");
    reveal_strlit("conint;");
    assert(fits_at(LOWER_C@, 'c', 48, 5));
    assert(fits_at(LOWER_C@, 'c', 49, 3));
    assert(fits_at(LOWER_C@, 'c', 50, 4));
    assert(fits_at(LOWER_C@, 'c', 51, 4));
    assert(fits_at(LOWER_C@, 'c', 52, 6));
    assert(fits_at(LOWER_C@, 'c', 53, 2));
    assert(fits_at(LOWER_C@, 'c', 54, 4));
    assert(fits_at(LOWER_C@, 'c', 55, 3));
}

proof fn lemma_lower_c_56()
    ensures
        filed(LOWER_C@, 'c', 56, 64),
{
    reveal_strlit("conint;");
    reveal_strlit("copf;");
    reveal_strlit("coprod;");
    reveal_strlit("copy");
    reveal_strlit("copy;");
    reveal_strlit("copysr;");
    reveal_strlit("crarr;");
    reveal_strlit("cross;");
    reveal_strlit("cscr;");
    assert(fits_at(LOWER_C@, 'c', 56, 2));
    assert(fits_at(LOWER_C@, 'c', 57, 3));
    assert(fits_at(LOWER_C@, 'c', 58, 3));
    assert(fits_at(LOWER_C@, 'c', 59, 4));
    assert(fits_at(LOWER_C@, 'c', 60, 4));
    assert(fits_at(LOWER_C@, 'c', 61, 1));
    assert(fits_at(LOWER_C@, 'c', 62, 2));
    assert(fits_at(LOWER_C@, 'c', 63, 1));
}

proof fn lemma_lower_c_64()
    ensures
        filed(LOWER_C@, 'c', 64, 72),
{
    reveal_strlit("cscr;");
    reveal_strlit("csub;");
    reveal_strlit("csube;");
    reveal_strlit("csup;");
    reveal_strlit("csupe;");
    reveal_strlit("ctdot;");
    reveal_strlit("cudarrl;");
    reveal_strlit("cudarrr;");
    reveal_strlit("cuepr;");
    assert(fits_at(LOWER_C@, 'c', 64, 2));
    assert(fits_at(LOWER_C@, 'c', 65, 4));
    assert(fits_at(LOWER_C@, 'c', 66, 3));
    assert(fits_at(LOWER_C@, 'c', 67, 4));
    assert(fits_at(LOWER_C@, 'c', 68, 1));
    assert(fits_at(LOWER_C@, 'c', 69, 1));
    assert(fits_at(LOWER_C@, 'c', 70, 6));
    assert(fits_at(LOWER_C@, 'c', 71, 2));
}

proof fn lemma_lower_c_72()
    ensures
        filed(LOWER_C@, 'c', 72, 80),
{
    reveal_strlit("cuepr;");
    reveal_strlit("cuesc;");
    reveal_strlit("cularr;");
    reveal_strlit("cularrp;");
    reveal_strlit("cup;");
    reveal_strlit("cupbrcap;");
    reveal_strlit("cupcap;");
    reveal_strlit("cupcup;");
    reveal_strlit("cupdot;");
    assert(fits_at(LOWER_C@, 'c', 72, 3));
    assert(fits_at(LOWER_C@, 'c', 73, 2));
    assert(fits_at(LOWER_C@, 'c', 74, 6));
    assert(fits_at(LOWER_C@, 'c', 75, 2));
    assert(fits_at(LOWER_C@, 'c', 76, 3));
    assert(fits_at(LOWER_C@, 'c', 77, 3));
    assert(fits_at(LOWER_C@, 'c', 78, 4));
    assert(fits_at(LOWER_C@, 'c', 79, 3));
}

proof fn lemma_lower_c_80()
    ensures
        filed(LOWER_C@, 'c', 80, 88),
{
    reveal_strlit("cupdot;");
    reveal_strlit("cupor;");
    reveal_strlit("curarr;");
    reveal_strlit("curarrm;");
    reveal_strlit("curlyeqprec;");
    reveal_strlit("curlyeqsucc;");
    reveal_strlit("curlyvee;");
    reveal_strlit("curlywedge;");
    reveal_strlit("curren");
    assert(fits_at(LOWER_C@, 'c', 80, 3));
    assert(fits_at(LOWER_C@, 'c', 81, 2));
    assert(fits_at(LOWER_C@, 'c', 82, 6));
    assert(fits_at(LOWER_C@, 'c', 83, 3));
    assert(fits_at(LOWER_C@, 'c', 84, 7));
    assert(fits_at(LOWER_C@, 'c', 85, 5));
    assert(fits_at(LOWER_C@, 'c', 86, 5));
    assert(fits_at(LOWER_C@, 'c', 87, 3));
}

proof fn lemma_lower_c_88()
    ensures
        filed(LOWER_C@, 'c', 88, 96),
{
    reveal_strlit("curren");
    reveal_strlit("curren;");
    reveal_strlit("curvearrowleft;");
    reveal_strlit("curvearrowright;");
    reveal_strlit("cuvee;");
    reveal_strlit("cuwed;");
    reveal_strlit("cwconint;");
    reveal_strlit("cwint;");
    reveal_strlit("cylcty;");
    assert(fits_at(LOWER_C@, 'c', 88, 6));
    assert(fits_at(LOWER_C@, 'c', 89, 3));
    assert(fits_at(LOWER_C@, 'c', 90, 10));
    assert(fits_at(LOWER_C@, 'c', 91, 2));
    assert(fits_at(LOWER_C@, 'c', 92, 2));
    assert(fits_at(LOWER_C@, 'c', 93, 1));
    assert(fits_at(LOWER_C@, 'c', 94, 2));
    assert(fits_at(LOWER_C@, 'c', 95, 1));
}

proof fn lemma_lower_c_96()
    ensures
        filed(LOWER_C@, 'c', 96, 97),
{
    reveal_strlit("cylcty;");
    assert(fits_at(LOWER_C@, 'c', 96, 0));
}

pub(super) proof fn lemma_lower_c()
    ensures
        filed(LOWER_C@, 'c', 0, LOWER_C@.len() as int),
        LOWER_C@.len() == 97,
{
    lemma_lower_c_0();
    lemma_lower_c_8();
    lemma_lower_c_16();
    lemma_lower_c_24();
    lemma_lower_c_32();
    lemma_lower_c_40();
    lemma_lower_c_48();
    lemma_lower_c_56();
    lemma_lower_c_64();
    lemma_lower_c_72();
    lemma_lower_c_80();
    lemma_lower_c_88();
    lemma_lower_c_96();
}

pub(super) proof fn lemma_lower_c_pairs()
    ensures
        forall|i: int| 23 <= i < 25 ==> #[trigger] stands_alone(i, LOWER_C@, 'c'),
{
    lemma_lower_c();
    reveal_strlit("caps;");
    reveal_strlit("capdot;");
    reveal_strlit("caret;");
    reveal_strlit("cups;");
    reveal_strlit("cupor;");
    reveal_strlit("curarr;");
    lemma_stands_alone(23, LOWER_C@, 'c', 7, 3, 2);
    lemma_stands_alone(24, LOWER_C@, 'c', 82, 3, 2);
}

} // verus!
