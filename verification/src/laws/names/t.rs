//! The names that begin with `T` or `t` are in order.

use crate::entities::{LOWER_T, UPPER_T};
use crate::laws::names::order::{filed, fits_at, lemma_stands_alone, stands_alone};
use vstd::prelude::*;

verus! {

proof fn lemma_upper_t_0()
    ensures
        filed(UPPER_T@, 'T', 0, 8),
{
    reveal_strlit("THORN");
    reveal_strlit("THORN;");
    reveal_strlit("TRADE;");
    reveal_strlit("TSHcy;");
    reveal_strlit("TScy;");
    reveal_strlit("Tab;");
    reveal_strlit("Tau;");
    reveal_strlit("Tcaron;");
    reveal_strlit("Tcedil;");
    assert(fits_at(UPPER_T@, 'T', 0, 5));
    assert(fits_at(UPPER_T@, 'T', 1, 1));
    assert(fits_at(UPPER_T@, 'T', 2, 1));
    assert(fits_at(UPPER_T@, 'T', 3, 2));
    assert(fits_at(UPPER_T@, 'T', 4, 1));
    assert(fits_at(UPPER_T@, 'T', 5, 2));
    assert(fits_at(UPPER_T@, 'T', 6, 1));
    assert(fits_at(UPPER_T@, 'T', 7, 2));
}

proof fn lemma_upper_t_8()
    ensures
        filed(UPPER_T@, 'T', 8, 16),
{
    reveal_strlit("Tcedil;");
    reveal_strlit("Tcy;");
    reveal_strlit("Tfr;");
    reveal_strlit("Therefore;");
    reveal_strlit("Theta;");
    reveal_strlit("ThinSpace;");
    reveal_strlit("Tilde;");
    reveal_strlit("TildeEqual;");
    reveal_strlit("TildeFullEqual;");
    assert(fits_at(UPPER_T@, 'T', 8, 2));
    assert(fits_at(UPPER_T@, 'T', 9, 1));
    assert(fits_at(UPPER_T@, 'T', 10, 1));
    assert(fits_at(UPPER_T@, 'T', 11, 3));
    assert(fits_at(UPPER_T@, 'T', 12, 2));
    assert(fits_at(UPPER_T@, 'T', 13, 1));
    assert(fits_at(UPPER_T@, 'T', 14, 5));
    assert(fits_at(UPPER_T@, 'T', 15, 5));
}

proof fn lemma_upper_t_16()
    ensures
        filed(UPPER_T@, 'T', 16, 22),
{
    reveal_strlit("TildeFullEqual;");
    reveal_strlit("TildeTilde;");
    reveal_strlit("Topf;");
    reveal_strlit("TripleDot;");
    reveal_strlit("Tscr;");
    reveal_strlit("Tstrok;");
    assert(fits_at(UPPER_T@, 'T', 16, 5));
    assert(fits_at(UPPER_T@, 'T', 17, 1));
    assert(fits_at(UPPER_T@, 'T', 18, 1));
    assert(fits_at(UPPER_T@, 'T', 19, 1));
    assert(fits_at(UPPER_T@, 'T', 20, 2));
    assert(fits_at(UPPER_T@, 'T', 21, 0));
}

pub(super) proof fn lemma_upper_t()
    ensures
        filed(UPPER_T@, 'T', 0, UPPER_T@.len() as int),
        UPPER_T@.len() == 22,
{
    lemma_upper_t_0();
    lemma_upper_t_8();
    lemma_upper_t_16();
}

pub(super) proof fn lemma_upper_t_pairs()
    ensures
        forall|i: int| 19 <= i < 20 ==> #[trigger] stands_alone(i, UPPER_T@, 'T'),
{
    lemma_upper_t();
    reveal_strlit("ThickSpace;");
    reveal_strlit("Theta;");
    reveal_strlit("ThinSpace;");
    lemma_stands_alone(19, UPPER_T@, 'T', 13, 2, 3);
}

proof fn lemma_lower_t_0()
    ensures
        filed(LOWER_T@, 't', 0, 8),
{
    reveal_strlit("target;");
    reveal_strlit("tau;");
    reveal_strlit("tbrk;");
    reveal_strlit("tcaron;");
    reveal_strlit("tcedil;");
    reveal_strlit("tcy;");
    reveal_strlit("tdot;");
    reveal_strlit("telrec;");
    reveal_strlit("tfr;");
    assert(fits_at(LOWER_T@, 't', 0, 2));
    assert(fits_at(LOWER_T@, 't', 1, 1));
    assert(fits_at(LOWER_T@, 't', 2, 1));
    assert(fits_at(LOWER_T@, 't', 3, 2));
    assert(fits_at(LOWER_T@, 't', 4, 2));
    assert(fits_at(LOWER_T@, 't', 5, 1));
    assert(fits_at(LOWER_T@, 't', 6, 1));
    assert(fits_at(LOWER_T@, 't', 7, 1));
}

proof fn lemma_lower_t_8()
    ensures
        filed(LOWER_T@, 't', 8, 16),
{
    reveal_strlit("tfr;");
    reveal_strlit("there4;");
    reveal_strlit("therefore;");
    reveal_strlit("theta;");
    reveal_strlit("thetasym;");
    reveal_strlit("thetav;");
    reveal_strlit("thickapprox;");
    reveal_strlit("thicksim;");
    reveal_strlit("thinsp;");
    assert(fits_at(LOWER_T@, 't', 8, 1));
    assert(fits_at(LOWER_T@, 't', 9, 5));
    assert(fits_at(LOWER_T@, 't', 10, 3));
    assert(fits_at(LOWER_T@, 't', 11, 5));
    assert(fits_at(LOWER_T@, 't', 12, 5));
    assert(fits_at(LOWER_T@, 't', 13, 2));
    assert(fits_at(LOWER_T@, 't', 14, 5));
    assert(fits_at(LOWER_T@, 't', 15, 3));
}

proof fn lemma_lower_t_16()
    ensures
        filed(LOWER_T@, 't', 16, 24),
{
    reveal_strlit("thinsp;");
    reveal_strlit("thkap;");
    reveal_strlit("thksim;");
    reveal_strlit("thorn");
    reveal_strlit("thorn;");
    reveal_strlit("tilde;");
    reveal_strlit("times");
    reveal_strlit("times;");
    reveal_strlit("timesb;");
    assert(fits_at(LOWER_T@, 't', 16, 2));
    assert(fits_at(LOWER_T@, 't', 17, 3));
    assert(fits_at(LOWER_T@, 't', 18, 2));
    assert(fits_at(LOWER_T@, 't', 19, 5));
    assert(fits_at(LOWER_T@, 't', 20, 1));
    assert(fits_at(LOWER_T@, 't', 21, 2));
    assert(fits_at(LOWER_T@, 't', 22, 5));
    assert(fits_at(LOWER_T@, 't', 23, 5));
}

proof fn lemma_lower_t_24()
    ensures
        filed(LOWER_T@, 't', 24, 32),
{
    reveal_strlit("timesb;");
    reveal_strlit("timesbar;");
    reveal_strlit("timesd;");
    reveal_strlit("tint;");
    reveal_strlit("toea;");
    reveal_strlit("top;");
    reveal_strlit("topbot;");
    reveal_strlit("topcir;");
    reveal_strlit("topf;");
    assert(fits_at(LOWER_T@, 't', 24, 6));
    assert(fits_at(LOWER_T@, 't', 25, 5));
    assert(fits_at(LOWER_T@, 't', 26, 2));
    assert(fits_at(LOWER_T@, 't', 27, 1));
    assert(fits_at(LOWER_T@, 't', 28, 2));
    assert(fits_at(LOWER_T@, 't', 29, 3));
    assert(fits_at(LOWER_T@, 't', 30, 3));
    assert(fits_at(LOWER_T@, 't', 31, 3));
}

proof fn lemma_lower_t_32()
    ensures
        filed(LOWER_T@, 't', 32, 40),
{
    reveal_strlit("topf;");
    reveal_strlit("topfork;");
    reveal_strlit("tosa;");
    reveal_strlit("tprime;");
    reveal_strlit("trade;");
    reveal_strlit("triangle;");
    reveal_strlit("triangledown;");
    reveal_strlit("triangleleft;");
    reveal_strlit("trianglelefteq;");
    assert(fits_at(LOWER_T@, 't', 32, 4));
    assert(fits_at(LOWER_T@, 't', 33, 2));
    assert(fits_at(LOWER_T@, 't', 34, 1));
    assert(fits_at(LOWER_T@, 't', 35, 1));
    assert(fits_at(LOWER_T@, 't', 36, 2));
    assert(fits_at(LOWER_T@, 't', 37, 8));
    assert(fits_at(LOWER_T@, 't', 38, 8));
    assert(fits_at(LOWER_T@, 't', 39, 12));
}

proof fn lemma_lower_t_40()
    ensures
        filed(LOWER_T@, 't', 40, 48),
{
    reveal_strlit("trianglelefteq;");
    reveal_strlit("triangleq;");
    reveal_strlit("triangleright;");
    reveal_strlit("trianglerighteq;");
    reveal_strlit("tridot;");
    reveal_strlit("trie;");
    reveal_strlit("triminus;");
    reveal_strlit("triplus;");
    reveal_strlit("trisb;");
    assert(fits_at(LOWER_T@, 't', 40, 8));
    assert(fits_at(LOWER_T@, 't', 41, 8));
    assert(fits_at(LOWER_T@, 't', 42, 13));
    assert(fits_at(LOWER_T@, 't', 43, 3));
    assert(fits_at(LOWER_T@, 't', 44, 3));
    assert(fits_at(LOWER_T@, 't', 45, 3));
    assert(fits_at(LOWER_T@, 't', 46, 3));
    assert(fits_at(LOWER_T@, 't', 47, 3));
}

proof fn lemma_lower_t_48()
    ensures
        filed(LOWER_T@, 't', 48, 56),
{
    reveal_strlit("trisb;");
    reveal_strlit("tritime;");
    reveal_strlit("trpezium;");
    reveal_strlit("tscr;");
    reveal_strlit("tscy;");
    reveal_strlit("tshcy;");
    reveal_strlit("tstrok;");
    reveal_strlit("twixt;");
    reveal_strlit("twoheadleftarrow;");
    assert(fits_at(LOWER_T@, 't', 48, 3));
    assert(fits_at(LOWER_T@, 't', 49, 2));
    assert(fits_at(LOWER_T@, 't', 50, 1));
    assert(fits_at(LOWER_T@, 't', 51, 3));
    assert(fits_at(LOWER_T@, 't', 52, 2));
    assert(fits_at(LOWER_T@, 't', 53, 2));
    assert(fits_at(LOWER_T@, 't', 54, 1));
    assert(fits_at(LOWER_T@, 't', 55, 2));
}

proof fn lemma_lower_t_56()
    ensures
        filed(LOWER_T@, 't', 56, 58),
{
    reveal_strlit("twoheadleftarrow;");
    reveal_strlit("twoheadrightarrow;");
    assert(fits_at(LOWER_T@, 't', 56, 7));
    assert(fits_at(LOWER_T@, 't', 57, 0));
}

pub(super) proof fn lemma_lower_t()
    ensures
        filed(LOWER_T@, 't', 0, LOWER_T@.len() as int),
        LOWER_T@.len() == 58,
{
    lemma_lower_t_0();
    lemma_lower_t_8();
    lemma_lower_t_16();
    lemma_lower_t_24();
    lemma_lower_t_32();
    lemma_lower_t_40();
    lemma_lower_t_48();
    lemma_lower_t_56();
}

} // verus!
