//! The names that begin with `Q` or `q` are in order.

use crate::entities::{LOWER_Q, UPPER_Q};
use crate::laws::names::order::{filed, fits_at};
use vstd::prelude::*;

verus! {

proof fn lemma_upper_q_0()
    ensures
        filed(UPPER_Q@, 'Q', 0, 5),
{
    reveal_strlit("QUOT");
    reveal_strlit("QUOT;");
    reveal_strlit("Qfr;");
    reveal_strlit("Qopf;");
    reveal_strlit("Qscr;");
    assert(fits_at(UPPER_Q@, 'Q', 0, 4));
    assert(fits_at(UPPER_Q@, 'Q', 1, 1));
    assert(fits_at(UPPER_Q@, 'Q', 2, 1));
    assert(fits_at(UPPER_Q@, 'Q', 3, 1));
    assert(fits_at(UPPER_Q@, 'Q', 4, 0));
}

pub(super) proof fn lemma_upper_q()
    ensures
        filed(UPPER_Q@, 'Q', 0, UPPER_Q@.len() as int),
        UPPER_Q@.len() == 5,
{
    lemma_upper_q_0();
}

proof fn lemma_lower_q_0()
    ensures
        filed(LOWER_Q@, 'q', 0, 8),
{
    reveal_strlit("qfr;");
    reveal_strlit("qint;");
    reveal_strlit("qopf;");
    reveal_strlit("qprime;");
    reveal_strlit("qscr;");
    reveal_strlit("quaternions;");
    reveal_strlit("quatint;");
    reveal_strlit("quest;");
    reveal_strlit("questeq;");
    assert(fits_at(LOWER_Q@, 'q', 0, 1));
    assert(fits_at(LOWER_Q@, 'q', 1, 1));
    assert(fits_at(LOWER_Q@, 'q', 2, 1));
    assert(fits_at(LOWER_Q@, 'q', 3, 1));
    assert(fits_at(LOWER_Q@, 'q', 4, 1));
    assert(fits_at(LOWER_Q@, 'q', 5, 4));
    assert(fits_at(LOWER_Q@, 'q', 6, 2));
    assert(fits_at(LOWER_Q@, 'q', 7, 5));
}

proof fn lemma_lower_q_8()
    ensures
        filed(LOWER_Q@, 'q', 8, 11),
{
    reveal_strlit("questeq;");
    reveal_strlit("quot");
    reveal_strlit("quot;");
    assert(fits_at(LOWER_Q@, 'q', 8, 2));
    assert(fits_at(LOWER_Q@, 'q', 9, 4));
    assert(fits_at(LOWER_Q@, 'q', 10, 0));
}

pub(super) proof fn lemma_lower_q()
    ensures
        filed(LOWER_Q@, 'q', 0, LOWER_Q@.len() as int),
        LOWER_Q@.len() == 11,
{
    lemma_lower_q_0();
    lemma_lower_q_8();
}

} // verus!
