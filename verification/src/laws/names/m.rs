//! The names that begin with `M` or `m` are in order.

use crate::entities::{LOWER_M, UPPER_M};
use crate::laws::names::order::{filed, fits_at};
use vstd::prelude::*;

verus! {

proof fn lemma_upper_m_0()
    ensures
        filed(UPPER_M@, 'M', 0, 8),
{
    reveal_strlit("Map;");
    reveal_strlit("Mcy;");
    reveal_strlit("MediumSpace;");
    reveal_strlit("Mellintrf;");
    reveal_strlit("Mfr;");
    reveal_strlit("MinusPlus;");
    reveal_strlit("Mopf;");
    reveal_strlit("Mscr;");
    reveal_strlit("Mu;");
    assert(fits_at(UPPER_M@, 'M', 0, 1));
    assert(fits_at(UPPER_M@, 'M', 1, 1));
    assert(fits_at(UPPER_M@, 'M', 2, 2));
    assert(fits_at(UPPER_M@, 'M', 3, 1));
    assert(fits_at(UPPER_M@, 'M', 4, 1));
    assert(fits_at(UPPER_M@, 'M', 5, 1));
    assert(fits_at(UPPER_M@, 'M', 6, 1));
    assert(fits_at(UPPER_M@, 'M', 7, 1));
}

proof fn lemma_upper_m_8()
    ensures
        filed(UPPER_M@, 'M', 8, 9),
{
    reveal_strlit("Mu;");
    assert(fits_at(UPPER_M@, 'M', 8, 0));
}

pub(super) proof fn lemma_upper_m()
    ensures
        filed(UPPER_M@, 'M', 0, UPPER_M@.len() as int),
        UPPER_M@.len() == 9,
{
    lemma_upper_m_0();
    lemma_upper_m_8();
}

proof fn lemma_lower_m_0()
    ensures
        filed(LOWER_M@, 'm', 0, 8),
{
    reveal_strlit("mDDot;");
    reveal_strlit("macr");
    reveal_strlit("macr;");
    reveal_strlit("male;");
    reveal_strlit("malt;");
    reveal_strlit("maltese;");
    reveal_strlit("map;");
    reveal_strlit("mapsto;");
    reveal_strlit("mapstodown;");
    assert(fits_at(LOWER_M@, 'm', 0, 1));
    assert(fits_at(LOWER_M@, 'm', 1, 4));
    assert(fits_at(LOWER_M@, 'm', 2, 2));
    assert(fits_at(LOWER_M@, 'm', 3, 3));
    assert(fits_at(LOWER_M@, 'm', 4, 4));
    assert(fits_at(LOWER_M@, 'm', 5, 2));
    assert(fits_at(LOWER_M@, 'm', 6, 3));
    assert(fits_at(LOWER_M@, 'm', 7, 6));
}

proof fn lemma_lower_m_8()
    ensures
        filed(LOWER_M@, 'm', 8, 16),
{
    reveal_strlit("mapstodown;");
    reveal_strlit("mapstoleft;");
    reveal_strlit("mapstoup;");
    reveal_strlit("marker;");
    reveal_strlit("mcomma;");
    reveal_strlit("mcy;");
    reveal_strlit("mdash;");
    reveal_strlit("measuredangle;");
    reveal_strlit("mfr;");
    assert(fits_at(LOWER_M@, 'm', 8, 6));
    assert(fits_at(LOWER_M@, 'm', 9, 6));
    assert(fits_at(LOWER_M@, 'm', 10, 2));
    assert(fits_at(LOWER_M@, 'm', 11, 1));
    assert(fits_at(LOWER_M@, 'm', 12, 2));
    assert(fits_at(LOWER_M@, 'm', 13, 1));
    assert(fits_at(LOWER_M@, 'm', 14, 1));
    assert(fits_at(LOWER_M@, 'm', 15, 1));
}

proof fn lemma_lower_m_16()
    ensures
        filed(LOWER_M@, 'm', 16, 24),
{
    reveal_strlit("mfr;");
    reveal_strlit("mho;");
    reveal_strlit("micro");
    reveal_strlit("micro;");
    reveal_strlit("mid;");
    reveal_strlit("midast;");
    reveal_strlit("midcir;");
    reveal_strlit("middot");
    reveal_strlit("middot;");
    assert(fits_at(LOWER_M@, 'm', 16, 1));
    assert(fits_at(LOWER_M@, 'm', 17, 1));
    assert(fits_at(LOWER_M@, 'm', 18, 5));
    assert(fits_at(LOWER_M@, 'm', 19, 2));
    assert(fits_at(LOWER_M@, 'm', 20, 3));
    assert(fits_at(LOWER_M@, 'm', 21, 3));
    assert(fits_at(LOWER_M@, 'm', 22, 3));
    assert(fits_at(LOWER_M@, 'm', 23, 6));
}

proof fn lemma_lower_m_24()
    ensures
        filed(LOWER_M@, 'm', 24, 32),
{
    reveal_strlit("middot;");
    reveal_strlit("minus;");
    reveal_strlit("minusb;");
    reveal_strlit("minusd;");
    reveal_strlit("minusdu;");
    reveal_strlit("mlcp;");
    reveal_strlit("mldr;");
    reveal_strlit("mnplus;");
    reveal_strlit("models;");
    assert(fits_at(LOWER_M@, 'm', 24, 2));
    assert(fits_at(LOWER_M@, 'm', 25, 5));
    assert(fits_at(LOWER_M@, 'm', 26, 5));
    assert(fits_at(LOWER_M@, 'm', 27, 6));
    assert(fits_at(LOWER_M@, 'm', 28, 1));
    assert(fits_at(LOWER_M@, 'm', 29, 2));
    assert(fits_at(LOWER_M@, 'm', 30, 1));
    assert(fits_at(LOWER_M@, 'm', 31, 1));
}

proof fn lemma_lower_m_32()
    ensures
        filed(LOWER_M@, 'm', 32, 40),
{
    reveal_strlit("models;");
    reveal_strlit("mopf;");
    reveal_strlit("mp;");
    reveal_strlit("mscr;");
    reveal_strlit("mstpos;");
    reveal_strlit("mu;");
    reveal_strlit("multimap;");
    reveal_strlit("mumap;");
    assert(fits_at(LOWER_M@, 'm', 32, 2));
    assert(fits_at(LOWER_M@, 'm', 33, 1));
    assert(fits_at(LOWER_M@, 'm', 34, 1));
    assert(fits_at(LOWER_M@, 'm', 35, 2));
    assert(fits_at(LOWER_M@, 'm', 36, 1));
    assert(fits_at(LOWER_M@, 'm', 37, 2));
    assert(fits_at(LOWER_M@, 'm', 38, 2));
    assert(fits_at(LOWER_M@, 'm', 39, 0));
}

pub(super) proof fn lemma_lower_m()
    ensures
        filed(LOWER_M@, 'm', 0, LOWER_M@.len() as int),
        LOWER_M@.len() == 40,
{
    lemma_lower_m_0();
    lemma_lower_m_8();
    lemma_lower_m_16();
    lemma_lower_m_24();
    lemma_lower_m_32();
}

} // verus!
