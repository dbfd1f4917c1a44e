//! The names that begin with `J` or `j` are in order.

use crate::entities::{LOWER_J, UPPER_J};
use crate::laws::names::order::{filed, fits_at};
use vstd::prelude::*;

verus! {

proof fn lemma_upper_j_0()
    ensures
        filed(UPPER_J@, 'J', 0, 7),
{
    reveal_strlit("Jcirc;");
    reveal_strlit("Jcy;");
    reveal_strlit("Jfr;");
    reveal_strlit("Jopf;");
    reveal_strlit("Jscr;");
    reveal_strlit("Jsercy;");
    reveal_strlit("Jukcy;");
    assert(fits_at(UPPER_J@, 'J', 0, 2));
    assert(fits_at(UPPER_J@, 'J', 1, 1));
    assert(fits_at(UPPER_J@, 'J', 2, 1));
    assert(fits_at(UPPER_J@, 'J', 3, 1));
    assert(fits_at(UPPER_J@, 'J', 4, 2));
    assert(fits_at(UPPER_J@, 'J', 5, 1));
    assert(fits_at(UPPER_J@, 'J', 6, 0));
}

pub(super) proof fn lemma_upper_j()
    ensures
        filed(UPPER_J@, 'J', 0, UPPER_J@.len() as int),
        UPPER_J@.len() == 7,
{
    lemma_upper_j_0();
}

proof fn lemma_lower_j_0()
    ensures
        filed(LOWER_J@, 'j', 0, 8),
{
    reveal_strlit("jcirc;");
    reveal_strlit("jcy;");
    reveal_strlit("jfr;");
    reveal_strlit("jmath;");
    reveal_strlit("jopf;");
    reveal_strlit("jscr;");
    reveal_strlit("jsercy;");
    reveal_strlit("jukcy;");
    assert(fits_at(LOWER_J@, 'j', 0, 2));
    assert(fits_at(LOWER_J@, 'j', 1, 1));
    assert(fits_at(LOWER_J@, 'j', 2, 1));
    assert(fits_at(LOWER_J@, 'j', 3, 1));
    assert(fits_at(LOWER_J@, 'j', 4, 1));
    assert(fits_at(LOWER_J@, 'j', 5, 2));
    assert(fits_at(LOWER_J@, 'j', 6, 1));
    assert(fits_at(LOWER_J@, 'j', 7, 0));
}

pub(super) proof fn lemma_lower_j()
    ensures
        filed(LOWER_J@, 'j', 0, LOWER_J@.len() as int),
        LOWER_J@.len() == 8,
{
    lemma_lower_j_0();
}

} // verus!
