//! Frame-to-frame animation state of the fractal and particle examples: the
//! integer counters that the renderers advance between frames and turn into
//! shader parameters.
use vstd::arithmetic::div_mod::{lemma_fundamental_div_mod, lemma_fundamental_div_mod_converse};
use vstd::prelude::*;

verus! {

// ---------------------------------------------------------------------------
// Julia set: iteration count and parameter cycle
// ---------------------------------------------------------------------------

/// The largest iteration count the Julia set animation reaches before it
/// moves on to the next parameter.
pub const JULIA_MAX_ITER: i32 = 200;

/// The iteration count the Julia set animation starts each parameter with.
pub const JULIA_MIN_ITER: i32 = 2;

/// One step of the Julia set animation on `(iteration count, parameter index)`
/// with `count` parameters: the count grows by one; past the largest count it
/// restarts and the next parameter is taken, wrapping to the first.
pub open spec fn julia_step(s: (int, int), count: int) -> (int, int) {
    let m: int = s.0 + 1;
    let (m2, p2) = if m > JULIA_MAX_ITER { (JULIA_MIN_ITER as int, s.1 + 1) } else { (m, s.1) };
    (m2, if p2 >= count { 0 } else { p2 })
}

/// The state of the Julia set animation after `k` steps from its start.
pub open spec fn julia_iterate(count: int, k: nat) -> (int, int)
    decreases k,
{
    if k == 0 {
        (JULIA_MIN_ITER as int, 0)
    } else {
        julia_step(julia_iterate(count, (k - 1) as nat), count)
    }
}

/// The state of the Julia set animation after `k` steps, in closed form: each
/// parameter is shown for 199 iteration counts (2 to 200), and the parameters
/// are taken in turn.
pub open spec fn julia_after(count: int, k: nat) -> (int, int) {
    (2 + (k as int) % 199, ((k as int) / 199) % count)
}

/// The iteration count and the index of the complex parameter that the Julia
/// set animation draws with, for a list of `cxy_len` parameters.
pub struct JuliaCycle {
    max_iter: i32,
    cxy_num: usize,
    cxy_len: usize,
}

impl View for JuliaCycle {
    type V = (int, int, int);

    /// The iteration count, the parameter index and the number of parameters.
    closed spec fn view(&self) -> (int, int, int) {
        (self.max_iter as int, self.cxy_num as int, self.cxy_len as int)
    }
}

impl JuliaCycle {
    #[verifier::type_invariant]
    spec fn inv(self) -> bool {
        &&& JULIA_MIN_ITER <= self.max_iter <= JULIA_MAX_ITER
        &&& self.cxy_num < self.cxy_len
    }

    /// The animation at its start: the smallest iteration count and the first
    /// of `cxy_len` parameters.
    pub fn new(cxy_len: usize) -> (c: JuliaCycle)
        requires
            cxy_len >= 1,
        ensures
            c@ == (JULIA_MIN_ITER as int, 0int, cxy_len as int),
    {
        JuliaCycle { max_iter: JULIA_MIN_ITER, cxy_num: 0, cxy_len }
    }

    /// The iteration count to draw with.
    pub fn max_iter(&self) -> (m: i32)
        ensures
            m == self@.0,
            JULIA_MIN_ITER <= m <= JULIA_MAX_ITER,
    {
        proof {
            use_type_invariant(self);
        }
        self.max_iter
    }

    /// The index of the parameter to draw with.
    pub fn cxy_num(&self) -> (i: usize)
        ensures
            i == self@.1,
            i < self@.2,
    {
        proof {
            use_type_invariant(self);
        }
        self.cxy_num
    }

    /// Moves the animation one frame on.
    pub fn advance(&mut self)
        ensures
            final(self)@.2 == old(self)@.2,
            (final(self)@.0, final(self)@.1) == julia_step((old(self)@.0, old(self)@.1), old(self)@.2),
            old(self)@.0 < JULIA_MAX_ITER ==> final(self)@.0 == old(self)@.0 + 1 && final(self)@.1
                == old(self)@.1,
            old(self)@.0 == JULIA_MAX_ITER ==> final(self)@.0 == JULIA_MIN_ITER && final(self)@.1
                == (old(self)@.1 + 1) % old(self)@.2,
    {
        proof {
            use_type_invariant(&*self);
            let p: int = self.cxy_num as int + 1;
            let n: int = self.cxy_len as int;
            if p < n {
                lemma_fundamental_div_mod_converse(p, n, 0, p);
            } else {
                lemma_fundamental_div_mod_converse(p, n, 1, 0);
            }
        }
        let mut max_iter: i32 = self.max_iter + 1;
        let mut cxy_num: usize = self.cxy_num;
        if max_iter > JULIA_MAX_ITER {
            max_iter = JULIA_MIN_ITER;
            cxy_num += 1;
        }
        if cxy_num >= self.cxy_len {
            cxy_num = 0;
        }
        self.max_iter = max_iter;
        self.cxy_num = cxy_num;
    }
}

/// Law: after `k` frames from its start, the Julia set animation draws with
/// iteration count `2 + k % 199` and parameter `(k / 199) % count`: every
/// parameter is shown with every count from 2 to 200, and the parameters come
/// round in turn.
pub proof fn lemma_julia_cycle(count: int, k: nat)
    requires
        count >= 1,
    ensures
        julia_iterate(count, k) == julia_after(count, k),
    decreases k,
{
    if k == 0 {
        lemma_fundamental_div_mod_converse(0, count, 0, 0);
    } else {
        let k1: nat = (k - 1) as nat;
        lemma_julia_cycle(count, k1);
        let q: int = k1 as int / 199;
        let r: int = k1 as int % 199;
        lemma_fundamental_div_mod(k1 as int, 199);
        lemma_fundamental_div_mod(q, count);
        if r < 198 {
            lemma_fundamental_div_mod_converse(k as int, 199, q, r + 1);
        } else {
            lemma_fundamental_div_mod_converse(k as int, 199, q + 1, 0);
            let p: int = q % count;
            let d: int = q / count;
            assert(q == d * count + p) by (nonlinear_arith)
                requires
                    q == count * (q / count) + q % count,
                    d == q / count,
                    p == q % count,
            ;
            assert((d + 1) * count == d * count + count) by (nonlinear_arith);
            if p + 1 < count {
                lemma_fundamental_div_mod_converse(q + 1, count, d, p + 1);
            } else {
                lemma_fundamental_div_mod_converse(q + 1, count, d + 1, 0);
            }
        }
    }
}

// ---------------------------------------------------------------------------
// Iterated-function animation: the triangle-wave sweep of the parameter
// ---------------------------------------------------------------------------

/// The remainder of `a / d` with the quotient rounded towards zero, as integer
/// `%` computes it: it takes the sign of `a`.
pub open spec fn trunc_rem(a: int, d: int) -> int {
    if a >= 0 {
        a % d
    } else {
        -((-a) % d)
    }
}

/// The absolute value of `x`.
pub open spec fn abs(x: int) -> int {
    if x < 0 {
        -x
    } else {
        x
    }
}

/// The sweep level at frame count `k`: with `m = (k - 100) rem 400`, the level
/// is `|m - 200|`. From `k = 100` on it is a triangle wave between 0 and 200
/// with period 400.
pub open spec fn sweep_level(k: int) -> int {
    abs(trunc_rem(k - 100, 400) - 200)
}

/// The frame count of the iterated-function animation, from which the shader
/// parameter `sweep_level / 100` is taken.
pub struct IterationSweep {
    max_iter: i32,
}

impl View for IterationSweep {
    type V = int;

    /// The frame count.
    closed spec fn view(&self) -> int {
        self.max_iter as int
    }
}

impl IterationSweep {
    #[verifier::type_invariant]
    spec fn inv(self) -> bool {
        self.max_iter >= 2
    }

    /// The sweep at its start, frame count 2.
    pub fn new() -> (s: IterationSweep)
        ensures
            s@ == 2,
    {
        IterationSweep { max_iter: 2 }
    }

    /// The frame count.
    pub fn max_iter(&self) -> (m: i32)
        ensures
            m == self@,
            m >= 2,
    {
        proof {
            use_type_invariant(self);
        }
        self.max_iter
    }

    /// The sweep level of the current frame count.
    pub fn level(&self) -> (l: i32)
        ensures
            l == sweep_level(self@),
            self@ < 100 ==> l == 300 - self@,
            self@ >= 100 ==> 0 <= l <= 200,
    {
        proof {
            use_type_invariant(self);
            lemma_sweep_range(self@);
        }
        let a: i32 = 100;
        let m: i32 = (self.max_iter - a) % (4 * a);
        let d: i32 = m - 2 * a;
        if d < 0 {
            -d
        } else {
            d
        }
    }

    /// Moves the sweep one frame on.
    pub fn advance(&mut self)
        requires
            old(self)@ < i32::MAX,
        ensures
            final(self)@ == old(self)@ + 1,
    {
        proof {
            use_type_invariant(&*self);
        }
        self.max_iter = self.max_iter + 1;
    }
}

/// Law: the sweep starts above the wave, at `300 - k` for frame counts 2 to
/// 99, and from frame count 100 on stays between 0 and 200.
pub proof fn lemma_sweep_range(k: int)
    requires
        k >= 2,
    ensures
        k < 100 ==> sweep_level(k) == 300 - k,
        k >= 100 ==> 0 <= sweep_level(k) <= 200,
{
    if k < 100 {
        lemma_fundamental_div_mod_converse(100 - k, 400, 0, 100 - k);
    } else {
        lemma_fundamental_div_mod(k - 100, 400);
    }
}

/// Law: from frame count 100 on, the sweep repeats every 400 frames.
pub proof fn lemma_sweep_periodic(k: int)
    requires
        k >= 100,
    ensures
        sweep_level(k + 400) == sweep_level(k),
{
    let q: int = (k - 100) / 400;
    let r: int = (k - 100) % 400;
    lemma_fundamental_div_mod(k - 100, 400);
    lemma_fundamental_div_mod_converse(k + 300, 400, q + 1, r);
}

/// Law: from one frame to the next the sweep level moves by exactly one, so
/// the shader parameter changes smoothly.
pub proof fn lemma_sweep_steps_by_one(k: int)
    requires
        k >= 2,
    ensures
        abs(sweep_level(k + 1) - sweep_level(k)) == 1,
{
    if k < 99 {
        lemma_sweep_range(k);
        lemma_sweep_range(k + 1);
    } else if k == 99 {
        lemma_fundamental_div_mod_converse(1, 400, 0, 1);
        lemma_fundamental_div_mod_converse(0, 400, 0, 0);
    } else {
        let q: int = (k - 100) / 400;
        let r: int = (k - 100) % 400;
        lemma_fundamental_div_mod(k - 100, 400);
        if r < 399 {
            lemma_fundamental_div_mod_converse(k - 99, 400, q, r + 1);
        } else {
            lemma_fundamental_div_mod_converse(k - 99, 400, q + 1, 0);
        }
    }
}

// ---------------------------------------------------------------------------
// Attractors: ping-pong between two position buffers
// ---------------------------------------------------------------------------

/// The compute bind group (0 or 1) used in frame `frame_num`.
pub open spec fn spec_compute_slot(frame_num: int) -> int {
    frame_num % 2
}

/// The position buffer (0 or 1) drawn in frame `frame_num`.
pub open spec fn spec_render_slot(frame_num: int) -> int {
    (frame_num + 1) % 2
}

/// The position buffer compute bind group `group` reads.
pub open spec fn spec_reads(group: int) -> int {
    group
}

/// The position buffer compute bind group `group` writes: the other one.
pub open spec fn spec_writes(group: int) -> int {
    (group + 1) % 2
}

/// The position (and velocity) buffers that compute bind group `group` binds:
/// it reads the buffers with its own index and writes the other pair.
pub fn compute_bindings(group: usize) -> (rw: (usize, usize))
    requires
        group < 2,
    ensures
        rw.0 == spec_reads(group as int),
        rw.1 == spec_writes(group as int),
{
    (group, (group + 1) % 2)
}

/// The frame number of the attractor simulation, which picks one of two
/// position buffers for the compute pass and the other for drawing.
pub struct FrameCounter {
    pub frame_num: usize,
}

impl FrameCounter {
    /// The counter at the first frame.
    pub fn new() -> (f: FrameCounter)
        ensures
            f.frame_num == 0,
    {
        FrameCounter { frame_num: 0 }
    }

    /// The bind group (0 or 1) the compute pass uses this frame.
    pub fn compute_slot(&self) -> (s: usize)
        ensures
            s == spec_compute_slot(self.frame_num as int),
    {
        self.frame_num % 2
    }

    /// The position buffer (0 or 1) drawn this frame.
    pub fn render_slot(&self) -> (s: usize)
        requires
            self.frame_num < usize::MAX,
        ensures
            s == spec_render_slot(self.frame_num as int),
    {
        (self.frame_num + 1) % 2
    }

    /// Moves on to the next frame.
    pub fn advance(&mut self)
        requires
            old(self).frame_num < usize::MAX,
        ensures
            final(self).frame_num == old(self).frame_num + 1,
    {
        self.frame_num += 1;
    }
}

/// Law: each frame draws the buffer its compute pass has just written, the
/// compute pass never writes the buffer it reads, and the next frame's compute
/// pass reads what this frame drew.
pub proof fn lemma_ping_pong(frame_num: nat)
    ensures
        spec_writes(spec_compute_slot(frame_num as int)) == spec_render_slot(frame_num as int),
        spec_reads(spec_compute_slot(frame_num as int)) != spec_writes(
            spec_compute_slot(frame_num as int),
        ),
        spec_reads(spec_compute_slot(frame_num + 1int)) == spec_render_slot(frame_num as int),
{
}

} // verus!
