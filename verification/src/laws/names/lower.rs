//! The groups of the names that begin with a letter in lower case.

use crate::chars::{alphabetic, lower};
use crate::entities::{
    group, LOWER_A, LOWER_B, LOWER_C, LOWER_D, LOWER_E, LOWER_F, LOWER_G, LOWER_H, LOWER_I,
    LOWER_J, LOWER_K, LOWER_L, LOWER_M, LOWER_N, LOWER_O, LOWER_P, LOWER_Q, LOWER_R, LOWER_S,
    LOWER_T, LOWER_U, LOWER_V, LOWER_W, LOWER_X, LOWER_Y, LOWER_Z,
};
use crate::laws::names::order::{filed, is_alone, stands_alone};
use crate::laws::names::{
    a, b, c, d, e, f, g, h, i, j, k, l, m, n, o, p, q, r, s, t, u, v, w, x, y, z,
};
use vstd::prelude::*;

verus! {

/// Each group is the table of its letter.
pub(crate) proof fn lemma_lower_groups()
    ensures
        group('a') == LOWER_A@,
        group('b') == LOWER_B@,
        group('c') == LOWER_C@,
        group('d') == LOWER_D@,
        group('e') == LOWER_E@,
        group('f') == LOWER_F@,
        group('g') == LOWER_G@,
        group('h') == LOWER_H@,
        group('i') == LOWER_I@,
        group('j') == LOWER_J@,
        group('k') == LOWER_K@,
        group('l') == LOWER_L@,
        group('m') == LOWER_M@,
        group('n') == LOWER_N@,
        group('o') == LOWER_O@,
        group('p') == LOWER_P@,
        group('q') == LOWER_Q@,
        group('r') == LOWER_R@,
        group('s') == LOWER_S@,
        group('t') == LOWER_T@,
        group('u') == LOWER_U@,
        group('v') == LOWER_V@,
        group('w') == LOWER_W@,
        group('x') == LOWER_X@,
        group('y') == LOWER_Y@,
        group('z') == LOWER_Z@,
{
    reveal(group);
}

/// Each group is in order.
pub(crate) proof fn lemma_lower_filed(c: char)
    requires
        lower(c),
    ensures
        filed(group(c), c, 0, group(c).len() as int),
{
    lemma_lower_groups();
    if c == 'a' {
        a::lemma_lower_a();
    } else if c == 'b' {
        b::lemma_lower_b();
    } else if c == 'c' {
        c::lemma_lower_c();
    } else if c == 'd' {
        d::lemma_lower_d();
    } else if c == 'e' {
        e::lemma_lower_e();
    } else if c == 'f' {
        f::lemma_lower_f();
    } else if c == 'g' {
        g::lemma_lower_g();
    } else if c == 'h' {
        h::lemma_lower_h();
    } else if c == 'i' {
        i::lemma_lower_i();
    } else if c == 'j' {
        j::lemma_lower_j();
    } else if c == 'k' {
        k::lemma_lower_k();
    } else if c == 'l' {
        l::lemma_lower_l();
    } else if c == 'm' {
        m::lemma_lower_m();
    } else if c == 'n' {
        n::lemma_lower_n();
    } else if c == 'o' {
        o::lemma_lower_o();
    } else if c == 'p' {
        p::lemma_lower_p();
    } else if c == 'q' {
        q::lemma_lower_q();
    } else if c == 'r' {
        r::lemma_lower_r();
    } else if c == 's' {
        s::lemma_lower_s();
    } else if c == 't' {
        t::lemma_lower_t();
    } else if c == 'u' {
        u::lemma_lower_u();
    } else if c == 'v' {
        v::lemma_lower_v();
    } else if c == 'w' {
        w::lemma_lower_w();
    } else if c == 'x' {
        x::lemma_lower_x();
    } else if c == 'y' {
        y::lemma_lower_y();
    } else {
        assert(c == 'z');
        z::lemma_lower_z();
    }
}

/// The names of these pairs are in no group.
pub(crate) proof fn lemma_lower_pairs()
    ensures
        forall|i: int| 20 <= i < 93 ==> #[trigger] is_alone(i),
{
    lemma_lower_groups();
    a::lemma_lower_a_pairs();
    b::lemma_lower_b_pairs();
    c::lemma_lower_c_pairs();
    f::lemma_lower_f_pairs();
    g::lemma_lower_g_pairs();
    l::lemma_lower_l_pairs();
    n::lemma_lower_n_pairs();
    r::lemma_lower_r_pairs();
    s::lemma_lower_s_pairs();
    v::lemma_lower_v_pairs();
    assert forall|i: int| 20 <= i < 93 implies #[trigger] is_alone(i) by {
        if 20 <= i < 21 {
            assert(stands_alone(i, LOWER_A@, 'a'));
        }
        if 21 <= i < 23 {
            assert(stands_alone(i, LOWER_B@, 'b'));
        }
        if 23 <= i < 25 {
            assert(stands_alone(i, LOWER_C@, 'c'));
        }
        if 25 <= i < 26 {
            assert(stands_alone(i, LOWER_F@, 'f'));
        }
        if 26 <= i < 29 {
            assert(stands_alone(i, LOWER_G@, 'g'));
        }
        if 29 <= i < 33 {
            assert(stands_alone(i, LOWER_L@, 'l'));
        }
        if 33 <= i < 79 {
            assert(stands_alone(i, LOWER_N@, 'n'));
        }
        if 79 <= i < 80 {
            assert(stands_alone(i, LOWER_R@, 'r'));
        }
        if 80 <= i < 83 {
            assert(stands_alone(i, LOWER_S@, 's'));
        }
        if 83 <= i < 93 {
            assert(stands_alone(i, LOWER_V@, 'v'));
        }
    }
}

/// The group of `n` is its table.
pub(crate) proof fn lemma_group_of_n()
    ensures
        group('n') == LOWER_N@,
{
    reveal(group);
}

/// Where there is no letter there is no group.
pub(crate) proof fn lemma_no_group(c: char)
    requires
        !alphabetic(c),
    ensures
        group(c).len() == 0,
{
    reveal(group);
}

} // verus!
