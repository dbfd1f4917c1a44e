//! The names that begin with `U` or `u` are in order.

use crate::entities::{LOWER_U, UPPER_U};
use crate::laws::names::order::{filed, fits_at};
use vstd::prelude::*;

verus! {

proof fn lemma_upper_u_0()
    ensures
        filed(UPPER_U@, 'U', 0, 8),
{
    reveal_strlit("Uacute");
    reveal_strlit("Uacute;");
    reveal_strlit("Uarr;");
    reveal_strlit("Uarrocir;");
    reveal_strlit("Ubrcy;");
    reveal_strlit("Ubreve;");
    reveal_strlit("Ucirc");
    reveal_strlit("Ucirc;");
    reveal_strlit("Ucy;");
    assert(fits_at(UPPER_U@, 'U', 0, 6));
    assert(fits_at(UPPER_U@, 'U', 1, 2));
    assert(fits_at(UPPER_U@, 'U', 2, 4));
    assert(fits_at(UPPER_U@, 'U', 3, 1));
    assert(fits_at(UPPER_U@, 'U', 4, 3));
    assert(fits_at(UPPER_U@, 'U', 5, 1));
    assert(fits_at(UPPER_U@, 'U', 6, 5));
    assert(fits_at(UPPER_U@, 'U', 7, 2));
}

proof fn lemma_upper_u_8()
    ensures
        filed(UPPER_U@, 'U', 8, 16),
{
    reveal_strlit("Ucy;");
    reveal_strlit("Udblac;");
    reveal_strlit("Ufr;");
    reveal_strlit("Ugrave");
    reveal_strlit("Ugrave;");
    reveal_strlit("Umacr;");
    reveal_strlit("UnderBar;");
    reveal_strlit("UnderBrace;");
    reveal_strlit("UnderBracket;");
    assert(fits_at(UPPER_U@, 'U', 8, 1));
    assert(fits_at(UPPER_U@, 'U', 9, 1));
    assert(fits_at(UPPER_U@, 'U', 10, 1));
    assert(fits_at(UPPER_U@, 'U', 11, 6));
    assert(fits_at(UPPER_U@, 'U', 12, 1));
    assert(fits_at(UPPER_U@, 'U', 13, 1));
    assert(fits_at(UPPER_U@, 'U', 14, 6));
    assert(fits_at(UPPER_U@, 'U', 15, 9));
}

proof fn lemma_upper_u_16()
    ensures
        filed(UPPER_U@, 'U', 16, 24),
{
    reveal_strlit("UnderBracket;");
    reveal_strlit("UnderParenthesis;");
    reveal_strlit("Union;");
    reveal_strlit("UnionPlus;");
    reveal_strlit("Uogon;");
    reveal_strlit("Uopf;");
    reveal_strlit("UpArrow;");
    reveal_strlit("UpArrowBar;");
    reveal_strlit("UpArrowDownArrow;");
    assert(fits_at(UPPER_U@, 'U', 16, 5));
    assert(fits_at(UPPER_U@, 'U', 17, 2));
    assert(fits_at(UPPER_U@, 'U', 18, 5));
    assert(fits_at(UPPER_U@, 'U', 19, 1));
    assert(fits_at(UPPER_U@, 'U', 20, 2));
    assert(fits_at(UPPER_U@, 'U', 21, 1));
    assert(fits_at(UPPER_U@, 'U', 22, 7));
    assert(fits_at(UPPER_U@, 'U', 23, 7));
}

proof fn lemma_upper_u_24()
    ensures
        filed(UPPER_U@, 'U', 24, 32),
{
    reveal_strlit("UpArrowDownArrow;");
    reveal_strlit("UpDownArrow;");
    reveal_strlit("UpEquilibrium;");
    reveal_strlit("UpTee;");
    reveal_strlit("UpTeeArrow;");
    reveal_strlit("Uparrow;");
    reveal_strlit("Updownarrow;");
    reveal_strlit("UpperLeftArrow;");
    reveal_strlit("UpperRightArrow;");
    assert(fits_at(UPPER_U@, 'U', 24, 2));
    assert(fits_at(UPPER_U@, 'U', 25, 2));
    assert(fits_at(UPPER_U@, 'U', 26, 2));
    assert(fits_at(UPPER_U@, 'U', 27, 5));
    assert(fits_at(UPPER_U@, 'U', 28, 2));
    assert(fits_at(UPPER_U@, 'U', 29, 2));
    assert(fits_at(UPPER_U@, 'U', 30, 2));
    assert(fits_at(UPPER_U@, 'U', 31, 5));
}

proof fn lemma_upper_u_32()
    ensures
        filed(UPPER_U@, 'U', 32, 40),
{
    reveal_strlit("UpperRightArrow;");
    reveal_strlit("Upsi;");
    reveal_strlit("Upsilon;");
    reveal_strlit("Uring;");
    reveal_strlit("Uscr;");
    reveal_strlit("Utilde;");
    reveal_strlit("Uuml");
    reveal_strlit("Uuml;");
    assert(fits_at(UPPER_U@, 'U', 32, 2));
    assert(fits_at(UPPER_U@, 'U', 33, 4));
    assert(fits_at(UPPER_U@, 'U', 34, 1));
    assert(fits_at(UPPER_U@, 'U', 35, 1));
    assert(fits_at(UPPER_U@, 'U', 36, 1));
    assert(fits_at(UPPER_U@, 'U', 37, 1));
    assert(fits_at(UPPER_U@, 'U', 38, 4));
    assert(fits_at(UPPER_U@, 'U', 39, 0));
}

pub(super) proof fn lemma_upper_u()
    ensures
        filed(UPPER_U@, 'U', 0, UPPER_U@.len() as int),
        UPPER_U@.len() == 40,
{
    lemma_upper_u_0();
    lemma_upper_u_8();
    lemma_upper_u_16();
    lemma_upper_u_24();
    lemma_upper_u_32();
}

proof fn lemma_lower_u_0()
    ensures
        filed(LOWER_U@, 'u', 0, 8),
{
    reveal_strlit("uArr;");
    reveal_strlit("uHar;");
    reveal_strlit("uacute");
    reveal_strlit("uacute;");
    reveal_strlit("uarr;");
    reveal_strlit("ubrcy;");
    reveal_strlit("ubreve;");
    reveal_strlit("ucirc");
    reveal_strlit("ucirc;");
    assert(fits_at(LOWER_U@, 'u', 0, 1));
    assert(fits_at(LOWER_U@, 'u', 1, 1));
    assert(fits_at(LOWER_U@, 'u', 2, 6));
    assert(fits_at(LOWER_U@, 'u', 3, 2));
    assert(fits_at(LOWER_U@, 'u', 4, 1));
    assert(fits_at(LOWER_U@, 'u', 5, 3));
    assert(fits_at(LOWER_U@, 'u', 6, 1));
    assert(fits_at(LOWER_U@, 'u', 7, 5));
}

proof fn lemma_lower_u_8()
    ensures
        filed(LOWER_U@, 'u', 8, 16),
{
    reveal_strlit("ucirc;");
    reveal_strlit("ucy;");
    reveal_strlit("udarr;");
    reveal_strlit("udblac;");
    reveal_strlit("udhar;");
    reveal_strlit("ufisht;");
    reveal_strlit("ufr;");
    reveal_strlit("ugrave");
    reveal_strlit("ugrave;");
    assert(fits_at(LOWER_U@, 'u', 8, 2));
    assert(fits_at(LOWER_U@, 'u', 9, 1));
    assert(fits_at(LOWER_U@, 'u', 10, 2));
    assert(fits_at(LOWER_U@, 'u', 11, 2));
    assert(fits_at(LOWER_U@, 'u', 12, 1));
    assert(fits_at(LOWER_U@, 'u', 13, 2));
    assert(fits_at(LOWER_U@, 'u', 14, 1));
    assert(fits_at(LOWER_U@, 'u', 15, 6));
}

proof fn lemma_lower_u_16()
    ensures
        filed(LOWER_U@, 'u', 16, 24),
{
    reveal_strlit("ugrave;");
    reveal_strlit("uharl;");
    reveal_strlit("uharr;");
    reveal_strlit("uhblk;");
    reveal_strlit("ulcorn;");
    reveal_strlit("ulcorner;");
    reveal_strlit("ulcrop;");
    reveal_strlit("ultri;");
    reveal_strlit("umacr;");
    assert(fits_at(LOWER_U@, 'u', 16, 1));
    assert(fits_at(LOWER_U@, 'u', 17, 4));
    assert(fits_at(LOWER_U@, 'u', 18, 2));
    assert(fits_at(LOWER_U@, 'u', 19, 1));
    assert(fits_at(LOWER_U@, 'u', 20, 6));
    assert(fits_at(LOWER_U@, 'u', 21, 3));
    assert(fits_at(LOWER_U@, 'u', 22, 2));
    assert(fits_at(LOWER_U@, 'u', 23, 1));
}

proof fn lemma_lower_u_24()
    ensures
        filed(LOWER_U@, 'u', 24, 32),
{
    reveal_strlit("umacr;");
    reveal_strlit("uml");
    reveal_strlit("uml;");
    reveal_strlit("uogon;");
    reveal_strlit("uopf;");
    reveal_strlit("uparrow;");
    reveal_strlit("updownarrow;");
    reveal_strlit("upharpoonleft;");
    reveal_strlit("upharpoonright;");
    assert(fits_at(LOWER_U@, 'u', 24, 2));
    assert(fits_at(LOWER_U@, 'u', 25, 3));
    assert(fits_at(LOWER_U@, 'u', 26, 1));
    assert(fits_at(LOWER_U@, 'u', 27, 2));
    assert(fits_at(LOWER_U@, 'u', 28, 1));
    assert(fits_at(LOWER_U@, 'u', 29, 2));
    assert(fits_at(LOWER_U@, 'u', 30, 2));
    assert(fits_at(LOWER_U@, 'u', 31, 9));
}

proof fn lemma_lower_u_32()
    ensures
        filed(LOWER_U@, 'u', 32, 40),
{
    reveal_strlit("upharpoonright;");
    reveal_strlit("uplus;");
    reveal_strlit("upsi;");
    reveal_strlit("upsih;");
    reveal_strlit("upsilon;");
    reveal_strlit("upuparrows;");
    reveal_strlit("urcorn;");
    reveal_strlit("urcorner;");
    reveal_strlit("urcrop;");
    assert(fits_at(LOWER_U@, 'u', 32, 2));
    assert(fits_at(LOWER_U@, 'u', 33, 2));
    assert(fits_at(LOWER_U@, 'u', 34, 4));
    assert(fits_at(LOWER_U@, 'u', 35, 4));
    assert(fits_at(LOWER_U@, 'u', 36, 2));
    assert(fits_at(LOWER_U@, 'u', 37, 1));
    assert(fits_at(LOWER_U@, 'u', 38, 6));
    assert(fits_at(LOWER_U@, 'u', 39, 3));
}

proof fn lemma_lower_u_40()
    ensures
        filed(LOWER_U@, 'u', 40, 48),
{
    reveal_strlit("urcrop;");
    reveal_strlit("uring;");
    reveal_strlit("urtri;");
    reveal_strlit("uscr;");
    reveal_strlit("utdot;");
    reveal_strlit("utilde;");
    reveal_strlit("utri;");
    reveal_strlit("utrif;");
    reveal_strlit("uuarr;");
    assert(fits_at(LOWER_U@, 'u', 40, 2));
    assert(fits_at(LOWER_U@, 'u', 41, 2));
    assert(fits_at(LOWER_U@, 'u', 42, 1));
    assert(fits_at(LOWER_U@, 'u', 43, 1));
    assert(fits_at(LOWER_U@, 'u', 44, 2));
    assert(fits_at(LOWER_U@, 'u', 45, 2));
    assert(fits_at(LOWER_U@, 'u', 46, 4));
    assert(fits_at(LOWER_U@, 'u', 47, 1));
}

proof fn lemma_lower_u_48()
    ensures
        filed(LOWER_U@, 'u', 48, 52),
{
    reveal_strlit("uuarr;");
    reveal_strlit("uuml");
    reveal_strlit("uuml;");
    reveal_strlit("uwangle;");
    assert(fits_at(LOWER_U@, 'u', 48, 2));
    assert(fits_at(LOWER_U@, 'u', 49, 4));
    assert(fits_at(LOWER_U@, 'u', 50, 1));
    assert(fits_at(LOWER_U@, 'u', 51, 0));
}

pub(super) proof fn lemma_lower_u()
    ensures
        filed(LOWER_U@, 'u', 0, LOWER_U@.len() as int),
        LOWER_U@.len() == 52,
{
    lemma_lower_u_0();
    lemma_lower_u_8();
    lemma_lower_u_16();
    lemma_lower_u_24();
    lemma_lower_u_32();
    lemma_lower_u_40();
    lemma_lower_u_48();
}

} // verus!
