//! The groups of the names that begin with a letter in upper case.

use crate::chars::upper;
use crate::entities::{
    group, UPPER_A, UPPER_B, UPPER_C, UPPER_D, UPPER_E, UPPER_F, UPPER_G, UPPER_H, UPPER_I,
    UPPER_J, UPPER_K, UPPER_L, UPPER_M, UPPER_N, UPPER_O, UPPER_P, UPPER_Q, UPPER_R, UPPER_S,
    UPPER_T, UPPER_U, UPPER_V, UPPER_W, UPPER_X, UPPER_Y, UPPER_Z,
};
use crate::laws::names::order::{filed, is_alone, stands_alone};
use crate::laws::names::{
    a, b, c, d, e, f, g, h, i, j, k, l, m, n, o, p, q, r, s, t, u, v, w, x, y, z,
};
use vstd::prelude::*;

verus! {

/// Each group is the table of its letter.
pub(crate) proof fn lemma_upper_groups()
    ensures
        group('A') == UPPER_A@,
        group('B') == UPPER_B@,
        group('C') == UPPER_C@,
        group('D') == UPPER_D@,
        group('E') == UPPER_E@,
        group('F') == UPPER_F@,
        group('G') == UPPER_G@,
        group('H') == UPPER_H@,
        group('I') == UPPER_I@,
        group('J') == UPPER_J@,
        group('K') == UPPER_K@,
        group('L') == UPPER_L@,
        group('M') == UPPER_M@,
        group('N') == UPPER_N@,
        group('O') == UPPER_O@,
        group('P') == UPPER_P@,
        group('Q') == UPPER_Q@,
        group('R') == UPPER_R@,
        group('S') == UPPER_S@,
        group('T') == UPPER_T@,
        group('U') == UPPER_U@,
        group('V') == UPPER_V@,
        group('W') == UPPER_W@,
        group('X') == UPPER_X@,
        group('Y') == UPPER_Y@,
        group('Z') == UPPER_Z@,
{
    reveal(group);
}

/// Each group is in order.
pub(crate) proof fn lemma_upper_filed(c: char)
    requires
        upper(c),
    ensures
        filed(group(c), c, 0, group(c).len() as int),
{
    lemma_upper_groups();
    if c == 'A' {
        a::lemma_upper_a();
    } else if c == 'B' {
        b::lemma_upper_b();
    } else if c == 'C' {
        c::lemma_upper_c();
    } else if c == 'D' {
        d::lemma_upper_d();
    } else if c == 'E' {
        e::lemma_upper_e();
    } else if c == 'F' {
        f::lemma_upper_f();
    } else if c == 'G' {
        g::lemma_upper_g();
    } else if c == 'H' {
        h::lemma_upper_h();
    } else if c == 'I' {
        i::lemma_upper_i();
    } else if c == 'J' {
        j::lemma_upper_j();
    } else if c == 'K' {
        k::lemma_upper_k();
    } else if c == 'L' {
        l::lemma_upper_l();
    } else if c == 'M' {
        m::lemma_upper_m();
    } else if c == 'N' {
        n::lemma_upper_n();
    } else if c == 'O' {
        o::lemma_upper_o();
    } else if c == 'P' {
        p::lemma_upper_p();
    } else if c == 'Q' {
        q::lemma_upper_q();
    } else if c == 'R' {
        r::lemma_upper_r();
    } else if c == 'S' {
        s::lemma_upper_s();
    } else if c == 'T' {
        t::lemma_upper_t();
    } else if c == 'U' {
        u::lemma_upper_u();
    } else if c == 'V' {
        v::lemma_upper_v();
    } else if c == 'W' {
        w::lemma_upper_w();
    } else if c == 'X' {
        x::lemma_upper_x();
    } else if c == 'Y' {
        y::lemma_upper_y();
    } else {
        assert(c == 'Z');
        z::lemma_upper_z();
    }
}

/// The names of these pairs are in no group.
pub(crate) proof fn lemma_upper_pairs()
    ensures
        forall|i: int| 0 <= i < 20 ==> #[trigger] is_alone(i),
{
    lemma_upper_groups();
    n::lemma_upper_n_pairs();
    t::lemma_upper_t_pairs();
    assert forall|i: int| 0 <= i < 20 implies #[trigger] is_alone(i) by {
        if 0 <= i < 19 {
            assert(stands_alone(i, UPPER_N@, 'N'));
        }
        if 19 <= i < 20 {
            assert(stands_alone(i, UPPER_T@, 'T'));
        }
    }
}

} // verus!
