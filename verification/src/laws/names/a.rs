//! The names that begin with `A` or `a` are in order.

use crate::entities::{LOWER_A, UPPER_A};
use crate::laws::names::order::{filed, fits_at, lemma_stands_alone, stands_alone};
use vstd::prelude::*;

verus! {

proof fn lemma_upper_a_0()
    ensures
        filed(UPPER_A@, 'A', 0, 8),
{
    reveal_strlit("AElig");
    reveal_strlit("AElig;");
    reveal_strlit("AMP");
    reveal_strlit("AMP;");
    reveal_strlit("Aacute");
    reveal_strlit("Aacute;");
    reveal_strlit("Abreve;");
    reveal_strlit("Acirc");
    reveal_strlit("Acirc;");
    assert(fits_at(UPPER_A@, 'A', 0, 5));
    assert(fits_at(UPPER_A@, 'A', 1, 1));
    assert(fits_at(UPPER_A@, 'A', 2, 3));
    assert(fits_at(UPPER_A@, 'A', 3, 1));
    assert(fits_at(UPPER_A@, 'A', 4, 6));
    assert(fits_at(UPPER_A@, 'A', 5, 1));
    assert(fits_at(UPPER_A@, 'A', 6, 1));
    assert(fits_at(UPPER_A@, 'A', 7, 5));
}

proof fn lemma_upper_a_8()
    ensures
        filed(UPPER_A@, 'A', 8, 16),
{
    reveal_strlit("Acirc;");
    reveal_strlit("Acy;");
    reveal_strlit("Afr;");
    reveal_strlit("Agrave");
    reveal_strlit("Agrave;");
    reveal_strlit("Alpha;");
    reveal_strlit("Amacr;");
    reveal_strlit("And;");
    reveal_strlit("Aogon;");
    assert(fits_at(UPPER_A@, 'A', 8, 2));
    assert(fits_at(UPPER_A@, 'A', 9, 1));
    assert(fits_at(UPPER_A@, 'A', 10, 1));
    assert(fits_at(UPPER_A@, 'A', 11, 6));
    assert(fits_at(UPPER_A@, 'A', 12, 1));
    assert(fits_at(UPPER_A@, 'A', 13, 1));
    assert(fits_at(UPPER_A@, 'A', 14, 1));
    assert(fits_at(UPPER_A@, 'A', 15, 1));
}

proof fn lemma_upper_a_16()
    ensures
        filed(UPPER_A@, 'A', 16, 24),
{
    reveal_strlit("Aogon;");
    reveal_strlit("Aopf;");
    reveal_strlit("ApplyFunction;");
    reveal_strlit("Aring");
    reveal_strlit("Aring;");
    reveal_strlit("Ascr;");
    reveal_strlit("Assign;");
    reveal_strlit("Atilde");
    reveal_strlit("Atilde;");
    assert(fits_at(UPPER_A@, 'A', 16, 2));
    assert(fits_at(UPPER_A@, 'A', 17, 1));
    assert(fits_at(UPPER_A@, 'A', 18, 1));
    assert(fits_at(UPPER_A@, 'A', 19, 5));
    assert(fits_at(UPPER_A@, 'A', 20, 1));
    assert(fits_at(UPPER_A@, 'A', 21, 2));
    assert(fits_at(UPPER_A@, 'A', 22, 1));
    assert(fits_at(UPPER_A@, 'A', 23, 6));
}

proof fn lemma_upper_a_24()
    ensures
        filed(UPPER_A@, 'A', 24, 27),
{
    reveal_strlit("Atilde;");
    reveal_strlit("Auml");
    reveal_strlit("Auml;");
    assert(fits_at(UPPER_A@, 'A', 24, 1));
    assert(fits_at(UPPER_A@, 'A', 25, 4));
    assert(fits_at(UPPER_A@, 'A', 26, 0));
}

pub(super) proof fn lemma_upper_a()
    ensures
        filed(UPPER_A@, 'A', 0, UPPER_A@.len() as int),
        UPPER_A@.len() == 27,
{
    lemma_upper_a_0();
    lemma_upper_a_8();
    lemma_upper_a_16();
    lemma_upper_a_24();
}

proof fn lemma_lower_a_0()
    ensures
        filed(LOWER_A@, 'a', 0, 8),
{
    reveal_strlit("aacute");
    reveal_strlit("aacute;");
    reveal_strlit("abreve;");
    reveal_strlit("ac;");
    reveal_strlit("acd;");
    reveal_strlit("acirc");
    reveal_strlit("acirc;");
    reveal_strlit("acute");
    reveal_strlit("acute;");
    assert(fits_at(LOWER_A@, 'a', 0, 6));
    assert(fits_at(LOWER_A@, 'a', 1, 1));
    assert(fits_at(LOWER_A@, 'a', 2, 1));
    assert(fits_at(LOWER_A@, 'a', 3, 2));
    assert(fits_at(LOWER_A@, 'a', 4, 2));
    assert(fits_at(LOWER_A@, 'a', 5, 5));
    assert(fits_at(LOWER_A@, 'a', 6, 2));
    assert(fits_at(LOWER_A@, 'a', 7, 5));
}

proof fn lemma_lower_a_8()
    ensures
        filed(LOWER_A@, 'a', 8, 16),
{
    reveal_strlit("acute;");
    reveal_strlit("acy;");
    reveal_strlit("aelig");
    reveal_strlit("aelig;");
    reveal_strlit("af;");
    reveal_strlit("afr;");
    reveal_strlit("agrave");
    reveal_strlit("agrave;");
    reveal_strlit("alefsym;");
    assert(fits_at(LOWER_A@, 'a', 8, 2));
    assert(fits_at(LOWER_A@, 'a', 9, 1));
    assert(fits_at(LOWER_A@, 'a', 10, 5));
    assert(fits_at(LOWER_A@, 'a', 11, 1));
    assert(fits_at(LOWER_A@, 'a', 12, 2));
    assert(fits_at(LOWER_A@, 'a', 13, 1));
    assert(fits_at(LOWER_A@, 'a', 14, 6));
    assert(fits_at(LOWER_A@, 'a', 15, 1));
}

proof fn lemma_lower_a_16()
    ensures
        filed(LOWER_A@, 'a', 16, 24),
{
    reveal_strlit("alefsym;");
    reveal_strlit("aleph;");
    reveal_strlit("alpha;");
    reveal_strlit("amacr;");
    reveal_strlit("amalg;");
    reveal_strlit("amp");
    reveal_strlit("amp;");
    reveal_strlit("and;");
    reveal_strlit("andand;");
    assert(fits_at(LOWER_A@, 'a', 16, 3));
    assert(fits_at(LOWER_A@, 'a', 17, 2));
    assert(fits_at(LOWER_A@, 'a', 18, 1));
    assert(fits_at(LOWER_A@, 'a', 19, 3));
    assert(fits_at(LOWER_A@, 'a', 20, 2));
    assert(fits_at(LOWER_A@, 'a', 21, 3));
    assert(fits_at(LOWER_A@, 'a', 22, 1));
    assert(fits_at(LOWER_A@, 'a', 23, 3));
}

proof fn lemma_lower_a_24()
    ensures
        filed(LOWER_A@, 'a', 24, 32),
{
    reveal_strlit("andand;");
    reveal_strlit("andd;");
    reveal_strlit("andslope;");
    reveal_strlit("andv;");
    reveal_strlit("ang;");
    reveal_strlit("ange;");
    reveal_strlit("angle;");
    reveal_strlit("angmsd;");
    reveal_strlit("angmsdaa;");
    assert(fits_at(LOWER_A@, 'a', 24, 3));
    assert(fits_at(LOWER_A@, 'a', 25, 3));
    assert(fits_at(LOWER_A@, 'a', 26, 3));
    assert(fits_at(LOWER_A@, 'a', 27, 2));
    assert(fits_at(LOWER_A@, 'a', 28, 3));
    assert(fits_at(LOWER_A@, 'a', 29, 3));
    assert(fits_at(LOWER_A@, 'a', 30, 3));
    assert(fits_at(LOWER_A@, 'a', 31, 6));
}

proof fn lemma_lower_a_32()
    ensures
        filed(LOWER_A@, 'a', 32, 40),
{
    reveal_strlit("angmsdaa;");
    reveal_strlit("angmsdab;");
    reveal_strlit("angmsdac;");
    reveal_strlit("angmsdad;");
    reveal_strlit("angmsdae;");
    reveal_strlit("angmsdaf;");
    reveal_strlit("angmsdag;");
    reveal_strlit("angmsdah;");
    reveal_strlit("angrt;");
    assert(fits_at(LOWER_A@, 'a', 32, 7));
    assert(fits_at(LOWER_A@, 'a', 33, 7));
    assert(fits_at(LOWER_A@, 'a', 34, 7));
    assert(fits_at(LOWER_A@, 'a', 35, 7));
    assert(fits_at(LOWER_A@, 'a', 36, 7));
    assert(fits_at(LOWER_A@, 'a', 37, 7));
    assert(fits_at(LOWER_A@, 'a', 38, 7));
    assert(fits_at(LOWER_A@, 'a', 39, 3));
}

proof fn lemma_lower_a_40()
    ensures
        filed(LOWER_A@, 'a', 40, 48),
{
    reveal_strlit("angrt;");
    reveal_strlit("angrtvb;");
    reveal_strlit("angrtvbd;");
    reveal_strlit("angsph;");
    reveal_strlit("angst;");
    reveal_strlit("angzarr;");
    reveal_strlit("aogon;");
    reveal_strlit("aopf;");
    reveal_strlit("ap;");
    assert(fits_at(LOWER_A@, 'a', 40, 5));
    assert(fits_at(LOWER_A@, 'a', 41, 7));
    assert(fits_at(LOWER_A@, 'a', 42, 3));
    assert(fits_at(LOWER_A@, 'a', 43, 4));
    assert(fits_at(LOWER_A@, 'a', 44, 3));
    assert(fits_at(LOWER_A@, 'a', 45, 1));
    assert(fits_at(LOWER_A@, 'a', 46, 2));
    assert(fits_at(LOWER_A@, 'a', 47, 1));
}

proof fn lemma_lower_a_48()
    ensures
        filed(LOWER_A@, 'a', 48, 56),
{
    reveal_strlit("ap;");
    reveal_strlit("apE;");
    reveal_strlit("apacir;");
    reveal_strlit("ape;");
    reveal_strlit("apid;");
    reveal_strlit("apos;");
    reveal_strlit("approx;");
    reveal_strlit("approxeq;");
    reveal_strlit("aring");
    assert(fits_at(LOWER_A@, 'a', 48, 2));
    assert(fits_at(LOWER_A@, 'a', 49, 2));
    assert(fits_at(LOWER_A@, 'a', 50, 2));
    assert(fits_at(LOWER_A@, 'a', 51, 2));
    assert(fits_at(LOWER_A@, 'a', 52, 2));
    assert(fits_at(LOWER_A@, 'a', 53, 2));
    assert(fits_at(LOWER_A@, 'a', 54, 6));
    assert(fits_at(LOWER_A@, 'a', 55, 1));
}

proof fn lemma_lower_a_56()
    ensures
        filed(LOWER_A@, 'a', 56, 64),
{
    reveal_strlit("aring");
    reveal_strlit("aring;");
    reveal_strlit("ascr;");
    reveal_strlit("ast;");
    reveal_strlit("asymp;");
    reveal_strlit("asympeq;");
    reveal_strlit("atilde");
    reveal_strlit("atilde;");
    reveal_strlit("auml");
    assert(fits_at(LOWER_A@, 'a', 56, 5));
    assert(fits_at(LOWER_A@, 'a', 57, 1));
    assert(fits_at(LOWER_A@, 'a', 58, 2));
    assert(fits_at(LOWER_A@, 'a', 59, 2));
    assert(fits_at(LOWER_A@, 'a', 60, 5));
    assert(fits_at(LOWER_A@, 'a', 61, 1));
    assert(fits_at(LOWER_A@, 'a', 62, 6));
    assert(fits_at(LOWER_A@, 'a', 63, 1));
}

proof fn lemma_lower_a_64()
    ensures
        filed(LOWER_A@, 'a', 64, 68),
{
    reveal_strlit("auml");
    reveal_strlit("auml;");
    reveal_strlit("awconint;");
    reveal_strlit("awint;");
    assert(fits_at(LOWER_A@, 'a', 64, 4));
    assert(fits_at(LOWER_A@, 'a', 65, 1));
    assert(fits_at(LOWER_A@, 'a', 66, 2));
    assert(fits_at(LOWER_A@, 'a', 67, 0));
}

pub(super) proof fn lemma_lower_a()
    ensures
        filed(LOWER_A@, 'a', 0, LOWER_A@.len() as int),
        LOWER_A@.len() == 68,
{
    lemma_lower_a_0();
    lemma_lower_a_8();
    lemma_lower_a_16();
    lemma_lower_a_24();
    lemma_lower_a_32();
    lemma_lower_a_40();
    lemma_lower_a_48();
    lemma_lower_a_56();
    lemma_lower_a_64();
}

pub(super) proof fn lemma_lower_a_pairs()
    ensures
        forall|i: int| 20 <= i < 21 ==> #[trigger] stands_alone(i, LOWER_A@, 'a'),
{
    lemma_lower_a();
    reveal_strlit("acE;");
    reveal_strlit("ac;");
    reveal_strlit("acd;");
    lemma_stands_alone(20, LOWER_A@, 'a', 4, 2, 2);
}

} // verus!
