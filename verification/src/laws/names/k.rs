//! The names that begin with `K` or `k` are in order.

use crate::entities::{LOWER_K, UPPER_K};
use crate::laws::names::order::{filed, fits_at};
use vstd::prelude::*;

verus! {

proof fn lemma_upper_k_0()
    ensures
        filed(UPPER_K@, 'K', 0, 8),
{
    reveal_strlit("KHcy;");
    reveal_strlit("KJcy;");
    reveal_strlit("Kappa;");
    reveal_strlit("Kcedil;");
    reveal_strlit("Kcy;");
    reveal_strlit("Kfr;");
    reveal_strlit("Kopf;");
    reveal_strlit("Kscr;");
    assert(fits_at(UPPER_K@, 'K', 0, 1));
    assert(fits_at(UPPER_K@, 'K', 1, 1));
    assert(fits_at(UPPER_K@, 'K', 2, 1));
    assert(fits_at(UPPER_K@, 'K', 3, 2));
    assert(fits_at(UPPER_K@, 'K', 4, 1));
    assert(fits_at(UPPER_K@, 'K', 5, 1));
    assert(fits_at(UPPER_K@, 'K', 6, 1));
    assert(fits_at(UPPER_K@, 'K', 7, 0));
}

pub(super) proof fn lemma_upper_k()
    ensures
        filed(UPPER_K@, 'K', 0, UPPER_K@.len() as int),
        UPPER_K@.len() == 8,
{
    lemma_upper_k_0();
}

proof fn lemma_lower_k_0()
    ensures
        filed(LOWER_K@, 'k', 0, 8),
{
    reveal_strlit("kappa;");
    reveal_strlit("kappav;");
    reveal_strlit("kcedil;");
    reveal_strlit("kcy;");
    reveal_strlit("kfr;");
    reveal_strlit("kgreen;");
    reveal_strlit("khcy;");
    reveal_strlit("kjcy;");
    reveal_strlit("kopf;");
    assert(fits_at(LOWER_K@, 'k', 0, 5));
    assert(fits_at(LOWER_K@, 'k', 1, 1));
    assert(fits_at(LOWER_K@, 'k', 2, 2));
    assert(fits_at(LOWER_K@, 'k', 3, 1));
    assert(fits_at(LOWER_K@, 'k', 4, 1));
    assert(fits_at(LOWER_K@, 'k', 5, 1));
    assert(fits_at(LOWER_K@, 'k', 6, 1));
    assert(fits_at(LOWER_K@, 'k', 7, 1));
}

proof fn lemma_lower_k_8()
    ensures
        filed(LOWER_K@, 'k', 8, 10),
{
    reveal_strlit("kopf;");
    reveal_strlit("kscr;");
    assert(fits_at(LOWER_K@, 'k', 8, 1));
    assert(fits_at(LOWER_K@, 'k', 9, 0));
}

pub(super) proof fn lemma_lower_k()
    ensures
        filed(LOWER_K@, 'k', 0, LOWER_K@.len() as int),
        LOWER_K@.len() == 10,
{
    lemma_lower_k_0();
    lemma_lower_k_8();
}

} // verus!
