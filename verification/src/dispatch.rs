//! Dispatch-size arithmetic for the compute passes.
//!
//! A compute pass is dispatched as a grid of workgroups, each running a
//! fixed number of shader invocations. The grid must cover every particle
//! index up to the configured capacity: under-dispatching silently leaves
//! tail particles stale, so the ceiling division below is the load-bearing
//! formula of the compute stage. When the one-dimensional workgroup count
//! exceeds a single dispatch dimension's limit, the index range is split
//! across two dispatch dimensions.

use vstd::arithmetic::div_mod::lemma_fundamental_div_mod;
use vstd::arithmetic::mul::lemma_mul_inequality;
use vstd::prelude::*;

verus! {

/// Invocations per workgroup of the `step_particles` entry point.
pub const STEP_WORKGROUP_SIZE: u32 = 256;

/// Invocations per workgroup of the `emit` entry point.
pub const EMIT_WORKGROUP_SIZE: u32 = 256;

/// Largest workgroup count accepted along one dispatch dimension.
pub const MAX_DISPATCH_DIM: u32 = 65535;

/// Ceiling of `a / b`.
pub open spec fn ceil_div(a: int, b: int) -> int
    recommends
        b > 0,
{
    (a + b - 1) / b
}

/// Smallest workgroup count whose `group_size`-sized groups cover `count`
/// elements.
pub fn workgroups_for(count: u32, group_size: u32) -> (w: u32)
    requires
        1 <= group_size,
    ensures
        w == ceil_div(count as int, group_size as int),
        w as int * group_size as int >= count as int,
        count > 0 ==> (w - 1) * group_size < count,
        count > 0 ==> 1 <= w <= count,
        count == 0 ==> w == 0,
{
    let c: u64 = count as u64;
    let g: u64 = group_size as u64;
    let w64: u64 = (c + g - 1) / g;
    proof {
        let q = (c + g - 1) as int / g as int;
        lemma_fundamental_div_mod((c + g - 1) as int, g as int);
        let r = (c + g - 1) as int % g as int;
        assert(0 <= r < g);
        assert(q * g == c + g - 1 - r);
        assert((q - 1) * g as int == q * g as int - g as int) by (nonlinear_arith);
        if count > 0 {
            assert(c as int + g as int - 1 <= c as int * g as int) by (nonlinear_arith)
                requires
                    c >= 1,
                    g >= 1,
            ;
            assert(q <= c) by (nonlinear_arith)
                requires
                    q * g as int <= c as int * g as int,
                    g >= 1,
            ;
            assert(q >= 1) by (nonlinear_arith)
                requires
                    q * g as int >= c as int,
                    c >= 1,
                    g >= 1,
            ;
        }
    }
    w64 as u32
}

/// Workgroup grid for the `step_particles` pass: covers `capacity` particle
/// indices, splitting across a second dispatch dimension when the flat
/// workgroup count exceeds `MAX_DISPATCH_DIM`.
///
/// The coverage clause is the safety contract of the step pass: every
/// configured capacity gets `d.0 * d.1 * STEP_WORKGROUP_SIZE` invocations,
/// at least one per live particle. Over-dispatch is bounded (below one extra
/// row of workgroups) and is safe because the compute program bounds-checks
/// the particle index against the capacity it reads from the helper buffer.
pub fn step_dispatch(capacity: u32) -> (d: (u32, u32))
    requires
        1 <= capacity,
    ensures
        1 <= d.0 <= MAX_DISPATCH_DIM,
        1 <= d.1 <= MAX_DISPATCH_DIM,
        d.0 as int * d.1 as int * STEP_WORKGROUP_SIZE as int >= capacity as int,
        d.1 == 1 ==> d.0 == ceil_div(capacity as int, STEP_WORKGROUP_SIZE as int),
        d.1 > 1 ==> d.0 == MAX_DISPATCH_DIM && d.0 as int * (d.1 - 1) < ceil_div(
            capacity as int,
            STEP_WORKGROUP_SIZE as int,
        ),
{
    let flat = workgroups_for(capacity, STEP_WORKGROUP_SIZE);
    if flat <= MAX_DISPATCH_DIM {
        (flat, 1)
    } else {
        let rows = workgroups_for(flat, MAX_DISPATCH_DIM);
        proof {
            assert((flat - 1) * STEP_WORKGROUP_SIZE < capacity);
            assert(flat <= 16777216);
            assert((rows - 1) * MAX_DISPATCH_DIM < flat);
            assert(rows <= 257);
            assert(rows as int * MAX_DISPATCH_DIM as int >= flat as int);
            lemma_mul_inequality(
                flat as int,
                rows as int * MAX_DISPATCH_DIM as int,
                STEP_WORKGROUP_SIZE as int,
            );
            assert(rows as int * MAX_DISPATCH_DIM as int * STEP_WORKGROUP_SIZE as int
                >= flat as int * STEP_WORKGROUP_SIZE as int);
            assert(flat as int * STEP_WORKGROUP_SIZE as int >= capacity as int);
            assert(MAX_DISPATCH_DIM as int * rows as int * STEP_WORKGROUP_SIZE as int
                == rows as int * MAX_DISPATCH_DIM as int * STEP_WORKGROUP_SIZE as int)
                by (nonlinear_arith);
            assert(MAX_DISPATCH_DIM as int * (rows - 1) == rows as int * MAX_DISPATCH_DIM as int
                - MAX_DISPATCH_DIM as int) by (nonlinear_arith);
        }
        (MAX_DISPATCH_DIM, rows)
    }
}

/// Workgroup count for the `emit` pass: a small fixed grid sized to the
/// configured spawn batch, independent of total capacity.
pub fn emit_dispatch(emit_batch_size: u32) -> (w: u32)
    requires
        1 <= emit_batch_size,
    ensures
        w == ceil_div(emit_batch_size as int, EMIT_WORKGROUP_SIZE as int),
        w as int * EMIT_WORKGROUP_SIZE as int >= emit_batch_size as int,
        1 <= w <= emit_batch_size,
{
    workgroups_for(emit_batch_size, EMIT_WORKGROUP_SIZE)
}

} // verus!
