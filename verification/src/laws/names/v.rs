//! The names that begin with `V` or `v` are in order.

use crate::entities::{LOWER_V, UPPER_V};
use crate::laws::names::order::{filed, fits_at, lemma_stands_alone, stands_alone};
use vstd::prelude::*;

verus! {

proof fn lemma_upper_v_0()
    ensures
        filed(UPPER_V@, 'V', 0, 8),
{
    reveal_strlit("VDash;");
    reveal_strlit("Vbar;");
    reveal_strlit("Vcy;");
    reveal_strlit("Vdash;");
    reveal_strlit("Vdashl;");
    reveal_strlit("Vee;");
    reveal_strlit("Verbar;");
    reveal_strlit("Vert;");
    reveal_strlit("VerticalBar;");
    assert(fits_at(UPPER_V@, 'V', 0, 1));
    assert(fits_at(UPPER_V@, 'V', 1, 1));
    assert(fits_at(UPPER_V@, 'V', 2, 1));
    assert(fits_at(UPPER_V@, 'V', 3, 5));
    assert(fits_at(UPPER_V@, 'V', 4, 1));
    assert(fits_at(UPPER_V@, 'V', 5, 2));
    assert(fits_at(UPPER_V@, 'V', 6, 3));
    assert(fits_at(UPPER_V@, 'V', 7, 4));
}

proof fn lemma_upper_v_8()
    ensures
        filed(UPPER_V@, 'V', 8, 16),
{
    reveal_strlit("VerticalBar;");
    reveal_strlit("VerticalLine;");
    reveal_strlit("VerticalSeparator;");
    reveal_strlit("VerticalTilde;");
    reveal_strlit("VeryThinSpace;");
    reveal_strlit("Vfr;");
    reveal_strlit("Vopf;");
    reveal_strlit("Vscr;");
    reveal_strlit("Vvdash;");
    assert(fits_at(UPPER_V@, 'V', 8, 8));
    assert(fits_at(UPPER_V@, 'V', 9, 8));
    assert(fits_at(UPPER_V@, 'V', 10, 8));
    assert(fits_at(UPPER_V@, 'V', 11, 3));
    assert(fits_at(UPPER_V@, 'V', 12, 1));
    assert(fits_at(UPPER_V@, 'V', 13, 1));
    assert(fits_at(UPPER_V@, 'V', 14, 1));
    assert(fits_at(UPPER_V@, 'V', 15, 1));
}

proof fn lemma_upper_v_16()
    ensures
        filed(UPPER_V@, 'V', 16, 17),
{
    reveal_strlit("Vvdash;");
    assert(fits_at(UPPER_V@, 'V', 16, 0));
}

pub(super) proof fn lemma_upper_v()
    ensures
        filed(UPPER_V@, 'V', 0, UPPER_V@.len() as int),
        UPPER_V@.len() == 17,
{
    lemma_upper_v_0();
    lemma_upper_v_8();
    lemma_upper_v_16();
}

proof fn lemma_lower_v_0()
    ensures
        filed(LOWER_V@, 'v', 0, 8),
{
    reveal_strlit("vArr;");
    reveal_strlit("vBar;");
    reveal_strlit("vBarv;");
    reveal_strlit("vDash;");
    reveal_strlit("vangrt;");
    reveal_strlit("varepsilon;");
    reveal_strlit("varkappa;");
    reveal_strlit("varnothing;");
    reveal_strlit("varphi;");
    assert(fits_at(LOWER_V@, 'v', 0, 1));
    assert(fits_at(LOWER_V@, 'v', 1, 4));
    assert(fits_at(LOWER_V@, 'v', 2, 1));
    assert(fits_at(LOWER_V@, 'v', 3, 1));
    assert(fits_at(LOWER_V@, 'v', 4, 2));
    assert(fits_at(LOWER_V@, 'v', 5, 3));
    assert(fits_at(LOWER_V@, 'v', 6, 3));
    assert(fits_at(LOWER_V@, 'v', 7, 3));
}

proof fn lemma_lower_v_8()
    ensures
        filed(LOWER_V@, 'v', 8, 16),
{
    reveal_strlit("varphi;");
    reveal_strlit("varpi;");
    reveal_strlit("varpropto;");
    reveal_strlit("varr;");
    reveal_strlit("varrho;");
    reveal_strlit("varsigma;");
    reveal_strlit("vartheta;");
    reveal_strlit("vartriangleleft;");
    reveal_strlit("vartriangleright;");
    assert(fits_at(LOWER_V@, 'v', 8, 4));
    assert(fits_at(LOWER_V@, 'v', 9, 4));
    assert(fits_at(LOWER_V@, 'v', 10, 3));
    assert(fits_at(LOWER_V@, 'v', 11, 4));
    assert(fits_at(LOWER_V@, 'v', 12, 3));
    assert(fits_at(LOWER_V@, 'v', 13, 3));
    assert(fits_at(LOWER_V@, 'v', 14, 4));
    assert(fits_at(LOWER_V@, 'v', 15, 11));
}

proof fn lemma_lower_v_16()
    ensures
        filed(LOWER_V@, 'v', 16, 24),
{
    reveal_strlit("vartriangleright;");
    reveal_strlit("vcy;");
    reveal_strlit("vdash;");
    reveal_strlit("vee;");
    reveal_strlit("veebar;");
    reveal_strlit("veeeq;");
    reveal_strlit("vellip;");
    reveal_strlit("verbar;");
    reveal_strlit("vert;");
    assert(fits_at(LOWER_V@, 'v', 16, 1));
    assert(fits_at(LOWER_V@, 'v', 17, 1));
    assert(fits_at(LOWER_V@, 'v', 18, 1));
    assert(fits_at(LOWER_V@, 'v', 19, 3));
    assert(fits_at(LOWER_V@, 'v', 20, 3));
    assert(fits_at(LOWER_V@, 'v', 21, 2));
    assert(fits_at(LOWER_V@, 'v', 22, 2));
    assert(fits_at(LOWER_V@, 'v', 23, 3));
}

proof fn lemma_lower_v_24()
    ensures
        filed(LOWER_V@, 'v', 24, 32),
{
    reveal_strlit("vert;");
    reveal_strlit("vfr;");
    reveal_strlit("vltri;");
    reveal_strlit("vopf;");
    reveal_strlit("vprop;");
    reveal_strlit("vrtri;");
    reveal_strlit("vscr;");
    reveal_strlit("vzigzag;");
    assert(fits_at(LOWER_V@, 'v', 24, 1));
    assert(fits_at(LOWER_V@, 'v', 25, 1));
    assert(fits_at(LOWER_V@, 'v', 26, 1));
    assert(fits_at(LOWER_V@, 'v', 27, 1));
    assert(fits_at(LOWER_V@, 'v', 28, 1));
    assert(fits_at(LOWER_V@, 'v', 29, 1));
    assert(fits_at(LOWER_V@, 'v', 30, 1));
    assert(fits_at(LOWER_V@, 'v', 31, 0));
}

pub(super) proof fn lemma_lower_v()
    ensures
        filed(LOWER_V@, 'v', 0, LOWER_V@.len() as int),
        LOWER_V@.len() == 32,
{
    lemma_lower_v_0();
    lemma_lower_v_8();
    lemma_lower_v_16();
    lemma_lower_v_24();
}

pub(super) proof fn lemma_lower_v_pairs()
    ensures
        forall|i: int| 83 <= i < 93 ==> #[trigger] stands_alone(i, LOWER_V@, 'v'),
{
    lemma_lower_v();
    reveal_strlit("varsubsetneq;");
    reveal_strlit("varsigma;");
    reveal_strlit("vartheta;");
    reveal_strlit("varsubsetneqq;");
    reveal_strlit("varsupsetneq;");
    reveal_strlit("varsupsetneqq;");
    reveal_strlit("vnsub;");
    reveal_strlit("vltri;");
    reveal_strlit("vopf;");
    reveal_strlit("vnsup;");
    reveal_strlit("vsubnE;");
    reveal_strlit("vscr;");
    reveal_strlit("vzigzag;");
    reveal_strlit("vsubne;");
    reveal_strlit("vsupnE;");
    reveal_strlit("vsupne;");
    lemma_stands_alone(83, LOWER_V@, 'v', 14, 4, 3);
    lemma_stands_alone(84, LOWER_V@, 'v', 14, 4, 3);
    lemma_stands_alone(85, LOWER_V@, 'v', 14, 4, 3);
    lemma_stands_alone(86, LOWER_V@, 'v', 14, 4, 3);
    lemma_stands_alone(87, LOWER_V@, 'v', 27, 1, 1);
    lemma_stands_alone(88, LOWER_V@, 'v', 27, 1, 1);
    lemma_stands_alone(89, LOWER_V@, 'v', 31, 2, 1);
    lemma_stands_alone(90, LOWER_V@, 'v', 31, 2, 1);
    lemma_stands_alone(91, LOWER_V@, 'v', 31, 2, 1);
    lemma_stands_alone(92, LOWER_V@, 'v', 31, 2, 1);
}

} // verus!
