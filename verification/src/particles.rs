//! Work partitioning of the particle simulation: how many compute work
//! groups are dispatched for a number of particles.
use vstd::arithmetic::div_mod::{lemma_div_denominator, lemma_fundamental_div_mod};
use vstd::prelude::*;

verus! {

/// The number of particles one compute work group handles.
pub const PARTICLES_PER_GROUP: u32 = 64;

/// The spacing of single-precision numbers around `n`: 1 below `2^24`, and
/// doubling with each further binary digit.
pub open spec fn rounding_unit(n: nat) -> nat
    decreases n,
{
    if n < 0x100_0000 {
        1
    } else {
        2 * rounding_unit(n / 2)
    }
}

/// The single-precision value nearest to `n`, ties to the even multiple of
/// the spacing: the value the particle count takes when converted to `f32`.
pub open spec fn f32_round(n: nat) -> nat {
    let u: nat = rounding_unit(n);
    let q: nat = n / u;
    let r: nat = n % u;
    if 2 * r > u || (2 * r == u && q % 2 == 1) {
        (q + 1) * u
    } else {
        q * u
    }
}

/// The work group count for `n` particles: the single-precision particle
/// count divided by the group size and rounded up.
pub open spec fn work_groups(n: nat) -> nat {
    (f32_round(n) + 63) / 64
}

proof fn lemma_rounding_unit_positive(n: nat)
    ensures
        rounding_unit(n) >= 1,
    decreases n,
{
    if n >= 0x100_0000 {
        lemma_rounding_unit_positive(n / 2);
    }
}

/// The number of compute work groups dispatched for `num_particles`
/// particles, `ceil(num_particles / 64)` computed in single precision.
pub fn work_group_count(num_particles: u32) -> (groups: u32)
    ensures
        groups == work_groups(num_particles as nat),
        num_particles <= 0x100_0000 ==> groups * 64 >= num_particles && (groups as int - 1) * 64
            < num_particles,
{
    let n: u64 = num_particles as u64;
    let mut unit: u64 = 1;
    let mut m: u64 = n;
    while m >= 0x100_0000
        invariant
            n == num_particles,
            1 <= unit <= 0x200,
            unit == 1 || unit * 0x80_0000 <= n,
            m == n as int / unit as int,
            rounding_unit(n as nat) == unit * rounding_unit(m as nat),
        decreases m,
    {
        proof {
            lemma_div_denominator(n as int, unit as int, 2);
            assert(rounding_unit(m as nat) == 2 * rounding_unit((m / 2) as nat));
            assert(unit * (2 * rounding_unit((m / 2) as nat)) == (2 * unit) * rounding_unit(
                (m / 2) as nat,
            )) by (nonlinear_arith);
            lemma_fundamental_div_mod(n as int, unit as int);
            assert(n >= unit * m) by (nonlinear_arith)
                requires
                    n == unit * (n as int / unit as int) + n as int % unit as int,
                    n as int % unit as int >= 0,
                    m == n as int / unit as int,
            ;
            assert(unit * m >= unit * 0x100_0000) by (nonlinear_arith)
                requires
                    m >= 0x100_0000,
                    unit >= 1,
            ;
        }
        m = m / 2;
        unit = unit * 2;
    }
    proof {
        assert(rounding_unit(m as nat) == 1);
        assert(unit == rounding_unit(n as nat)) by (nonlinear_arith)
            requires
                rounding_unit(n as nat) == unit * rounding_unit(m as nat),
                rounding_unit(m as nat) == 1,
        ;
        lemma_rounding_unit_positive(n as nat);
        lemma_fundamental_div_mod(n as int, unit as int);
    }
    let q: u64 = n / unit;
    let r: u64 = n % unit;
    assert(q * unit <= n) by (nonlinear_arith)
        requires
            n == unit * q + r,
            r >= 0,
    ;
    assert((q + 1) * unit <= n + unit) by (nonlinear_arith)
        requires
            q * unit <= n,
    ;
    let rounded: u64 = if 2 * r > unit || (2 * r == unit && q % 2 == 1) {
        (q + 1) * unit
    } else {
        q * unit
    };
    let groups: u64 = (rounded + 63) / 64;
    assert(rounded == f32_round(n as nat));
    assert(groups <= u32::MAX);
    proof {
        if n <= 0x100_0000 {
            if n < 0x100_0000 {
                assert(unit == 1);
            } else {
                assert(unit == 2);
            }
        }
    }
    groups as u32
}

} // verus!
