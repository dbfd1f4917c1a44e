//! The names that begin with `O` or `o` are in order.

use crate::entities::{LOWER_O, UPPER_O};
use crate::laws::names::order::{filed, fits_at};
use vstd::prelude::*;

verus! {

proof fn lemma_upper_o_0()
    ensures
        filed(UPPER_O@, 'O', 0, 8),
{
    reveal_strlit("OElig;");
    reveal_strlit("Oacute");
    reveal_strlit("Oacute;");
    reveal_strlit("Ocirc");
    reveal_strlit("Ocirc;");
    reveal_strlit("Ocy;");
    reveal_strlit("Odblac;");
    reveal_strlit("Ofr;");
    reveal_strlit("Ograve");
    assert(fits_at(UPPER_O@, 'O', 0, 1));
    assert(fits_at(UPPER_O@, 'O', 1, 6));
    assert(fits_at(UPPER_O@, 'O', 2, 1));
    assert(fits_at(UPPER_O@, 'O', 3, 5));
    assert(fits_at(UPPER_O@, 'O', 4, 2));
    assert(fits_at(UPPER_O@, 'O', 5, 1));
    assert(fits_at(UPPER_O@, 'O', 6, 1));
    assert(fits_at(UPPER_O@, 'O', 7, 1));
}

proof fn lemma_upper_o_8()
    ensures
        filed(UPPER_O@, 'O', 8, 16),
{
    reveal_strlit("Ograve");
    reveal_strlit("Ograve;");
    reveal_strlit("Omacr;");
    reveal_strlit("Omega;");
    reveal_strlit("Omicron;");
    reveal_strlit("Oopf;");
    reveal_strlit("OpenCurlyDoubleQuote;");
    reveal_strlit("OpenCurlyQuote;");
    reveal_strlit("Or;");
    assert(fits_at(UPPER_O@, 'O', 8, 6));
    assert(fits_at(UPPER_O@, 'O', 9, 1));
    assert(fits_at(UPPER_O@, 'O', 10, 2));
    assert(fits_at(UPPER_O@, 'O', 11, 2));
    assert(fits_at(UPPER_O@, 'O', 12, 1));
    assert(fits_at(UPPER_O@, 'O', 13, 1));
    assert(fits_at(UPPER_O@, 'O', 14, 9));
    assert(fits_at(UPPER_O@, 'O', 15, 1));
}

proof fn lemma_upper_o_16()
    ensures
        filed(UPPER_O@, 'O', 16, 24),
{
    reveal_strlit("Or;");
    reveal_strlit("Oscr;");
    reveal_strlit("Oslash");
    reveal_strlit("Oslash;");
    reveal_strlit("Otilde");
    reveal_strlit("Otilde;");
    reveal_strlit("Otimes;");
    reveal_strlit("Ouml");
    reveal_strlit("Ouml;");
    assert(fits_at(UPPER_O@, 'O', 16, 1));
    assert(fits_at(UPPER_O@, 'O', 17, 2));
    assert(fits_at(UPPER_O@, 'O', 18, 6));
    assert(fits_at(UPPER_O@, 'O', 19, 1));
    assert(fits_at(UPPER_O@, 'O', 20, 6));
    assert(fits_at(UPPER_O@, 'O', 21, 3));
    assert(fits_at(UPPER_O@, 'O', 22, 1));
    assert(fits_at(UPPER_O@, 'O', 23, 4));
}

proof fn lemma_upper_o_24()
    ensures
        filed(UPPER_O@, 'O', 24, 29),
{
    reveal_strlit("Ouml;");
    reveal_strlit("OverBar;");
    reveal_strlit("OverBrace;");
    reveal_strlit("OverBracket;");
    reveal_strlit("OverParenthesis;");
    assert(fits_at(UPPER_O@, 'O', 24, 1));
    assert(fits_at(UPPER_O@, 'O', 25, 5));
    assert(fits_at(UPPER_O@, 'O', 26, 8));
    assert(fits_at(UPPER_O@, 'O', 27, 4));
    assert(fits_at(UPPER_O@, 'O', 28, 0));
}

pub(super) proof fn lemma_upper_o()
    ensures
        filed(UPPER_O@, 'O', 0, UPPER_O@.len() as int),
        UPPER_O@.len() == 29,
{
    lemma_upper_o_0();
    lemma_upper_o_8();
    lemma_upper_o_16();
    lemma_upper_o_24();
}

proof fn lemma_lower_o_0()
    ensures
        filed(LOWER_O@, 'o', 0, 8),
{
    reveal_strlit("oS;");
    reveal_strlit("oacute");
    reveal_strlit("oacute;");
    reveal_strlit("oast;");
    reveal_strlit("ocir;");
    reveal_strlit("ocirc");
    reveal_strlit("ocirc;");
    reveal_strlit("ocy;");
    reveal_strlit("odash;");
    assert(fits_at(LOWER_O@, 'o', 0, 1));
    assert(fits_at(LOWER_O@, 'o', 1, 6));
    assert(fits_at(LOWER_O@, 'o', 2, 2));
    assert(fits_at(LOWER_O@, 'o', 3, 1));
    assert(fits_at(LOWER_O@, 'o', 4, 4));
    assert(fits_at(LOWER_O@, 'o', 5, 5));
    assert(fits_at(LOWER_O@, 'o', 6, 2));
    assert(fits_at(LOWER_O@, 'o', 7, 1));
}

proof fn lemma_lower_o_8()
    ensures
        filed(LOWER_O@, 'o', 8, 16),
{
    reveal_strlit("odash;");
    reveal_strlit("odblac;");
    reveal_strlit("odiv;");
    reveal_strlit("odot;");
    reveal_strlit("odsold;");
    reveal_strlit("oelig;");
    reveal_strlit("ofcir;");
    reveal_strlit("ofr;");
    reveal_strlit("ogon;");
    assert(fits_at(LOWER_O@, 'o', 8, 2));
    assert(fits_at(LOWER_O@, 'o', 9, 2));
    assert(fits_at(LOWER_O@, 'o', 10, 2));
    assert(fits_at(LOWER_O@, 'o', 11, 2));
    assert(fits_at(LOWER_O@, 'o', 12, 1));
    assert(fits_at(LOWER_O@, 'o', 13, 1));
    assert(fits_at(LOWER_O@, 'o', 14, 2));
    assert(fits_at(LOWER_O@, 'o', 15, 1));
}

proof fn lemma_lower_o_16()
    ensures
        filed(LOWER_O@, 'o', 16, 24),
{
    reveal_strlit("ogon;");
    reveal_strlit("ograve");
    reveal_strlit("ograve;");
    reveal_strlit("ogt;");
    reveal_strlit("ohbar;");
    reveal_strlit("ohm;");
    reveal_strlit("oint;");
    reveal_strlit("olarr;");
    reveal_strlit("olcir;");
    assert(fits_at(LOWER_O@, 'o', 16, 2));
    assert(fits_at(LOWER_O@, 'o', 17, 6));
    assert(fits_at(LOWER_O@, 'o', 18, 2));
    assert(fits_at(LOWER_O@, 'o', 19, 1));
    assert(fits_at(LOWER_O@, 'o', 20, 2));
    assert(fits_at(LOWER_O@, 'o', 21, 1));
    assert(fits_at(LOWER_O@, 'o', 22, 1));
    assert(fits_at(LOWER_O@, 'o', 23, 2));
}

proof fn lemma_lower_o_24()
    ensures
        filed(LOWER_O@, 'o', 24, 32),
{
    reveal_strlit("olcir;");
    reveal_strlit("olcross;");
    reveal_strlit("oline;");
    reveal_strlit("olt;");
    reveal_strlit("omacr;");
    reveal_strlit("omega;");
    reveal_strlit("omicron;");
    reveal_strlit("omid;");
    reveal_strlit("ominus;");
    assert(fits_at(LOWER_O@, 'o', 24, 3));
    assert(fits_at(LOWER_O@, 'o', 25, 2));
    assert(fits_at(LOWER_O@, 'o', 26, 2));
    assert(fits_at(LOWER_O@, 'o', 27, 1));
    assert(fits_at(LOWER_O@, 'o', 28, 2));
    assert(fits_at(LOWER_O@, 'o', 29, 2));
    assert(fits_at(LOWER_O@, 'o', 30, 3));
    assert(fits_at(LOWER_O@, 'o', 31, 3));
}

proof fn lemma_lower_o_32()
    ensures
        filed(LOWER_O@, 'o', 32, 40),
{
    reveal_strlit("ominus;");
    reveal_strlit("oopf;");
    reveal_strlit("opar;");
    reveal_strlit("operp;");
    reveal_strlit("oplus;");
    reveal_strlit("or;");
    reveal_strlit("orarr;");
    reveal_strlit("ord;");
    reveal_strlit("order;");
    assert(fits_at(LOWER_O@, 'o', 32, 1));
    assert(fits_at(LOWER_O@, 'o', 33, 1));
    assert(fits_at(LOWER_O@, 'o', 34, 2));
    assert(fits_at(LOWER_O@, 'o', 35, 2));
    assert(fits_at(LOWER_O@, 'o', 36, 1));
    assert(fits_at(LOWER_O@, 'o', 37, 2));
    assert(fits_at(LOWER_O@, 'o', 38, 2));
    assert(fits_at(LOWER_O@, 'o', 39, 3));
}

proof fn lemma_lower_o_40()
    ensures
        filed(LOWER_O@, 'o', 40, 48),
{
    reveal_strlit("order;");
    reveal_strlit("orderof;");
    reveal_strlit("ordf");
    reveal_strlit("ordf;");
    reveal_strlit("ordm");
    reveal_strlit("ordm;");
    reveal_strlit("origof;");
    reveal_strlit("oror;");
    reveal_strlit("orslope;");
    assert(fits_at(LOWER_O@, 'o', 40, 5));
    assert(fits_at(LOWER_O@, 'o', 41, 3));
    assert(fits_at(LOWER_O@, 'o', 42, 4));
    assert(fits_at(LOWER_O@, 'o', 43, 3));
    assert(fits_at(LOWER_O@, 'o', 44, 4));
    assert(fits_at(LOWER_O@, 'o', 45, 2));
    assert(fits_at(LOWER_O@, 'o', 46, 2));
    assert(fits_at(LOWER_O@, 'o', 47, 2));
}

proof fn lemma_lower_o_48()
    ensures
        filed(LOWER_O@, 'o', 48, 56),
{
    reveal_strlit("orslope;");
    reveal_strlit("orv;");
    reveal_strlit("oscr;");
    reveal_strlit("oslash");
    reveal_strlit("oslash;");
    reveal_strlit("osol;");
    reveal_strlit("otilde");
    reveal_strlit("otilde;");
    reveal_strlit("otimes;");
    assert(fits_at(LOWER_O@, 'o', 48, 2));
    assert(fits_at(LOWER_O@, 'o', 49, 1));
    assert(fits_at(LOWER_O@, 'o', 50, 2));
    assert(fits_at(LOWER_O@, 'o', 51, 6));
    assert(fits_at(LOWER_O@, 'o', 52, 2));
    assert(fits_at(LOWER_O@, 'o', 53, 1));
    assert(fits_at(LOWER_O@, 'o', 54, 6));
    assert(fits_at(LOWER_O@, 'o', 55, 3));
}

proof fn lemma_lower_o_56()
    ensures
        filed(LOWER_O@, 'o', 56, 61),
{
    reveal_strlit("otimes;");
    reveal_strlit("otimesas;");
    reveal_strlit("ouml");
    reveal_strlit("ouml;");
    reveal_strlit("ovbar;");
    assert(fits_at(LOWER_O@, 'o', 56, 6));
    assert(fits_at(LOWER_O@, 'o', 57, 1));
    assert(fits_at(LOWER_O@, 'o', 58, 4));
    assert(fits_at(LOWER_O@, 'o', 59, 1));
    assert(fits_at(LOWER_O@, 'o', 60, 0));
}

pub(super) proof fn lemma_lower_o()
    ensures
        filed(LOWER_O@, 'o', 0, LOWER_O@.len() as int),
        LOWER_O@.len() == 61,
{
    lemma_lower_o_0();
    lemma_lower_o_8();
    lemma_lower_o_16();
    lemma_lower_o_24();
    lemma_lower_o_32();
    lemma_lower_o_40();
    lemma_lower_o_48();
    lemma_lower_o_56();
}

} // verus!
