//! The closed-loop driver: at each step it computes the reference, feeds the
//! tracking error to the controller, hands the control signal to the buffer,
//! and records the step. The whole run is a function of the starting
//! controller, buffer (random source included) and reference signal, which is
//! what makes seeded runs reproducible.

use vstd::prelude::*;
use crate::buffer::{Buffer, spec_buf_work};
use crate::controller::{Controller, spec_ctrl_work};
use crate::fixed::Fixed;
use crate::random::{RandomSource, SeededRandom, std_rng_of_seed};
use crate::setpoint::SetPointFn;

verus! {

/// One recorded step: time index, reference, error, control signal, output.
/// Created once per step, appended to the run's sequence, never mutated.
#[derive(Clone, Copy, Debug, PartialEq, Eq, Structural)]
pub struct Data {
    /// Time index.
    pub t: i64,
    /// Reference value at `t`.
    pub r: i64,
    /// Tracking error `r - y` against the previous output.
    pub e: i64,
    /// Control signal.
    pub u: Fixed,
    /// New queue length.
    pub y: i64,
}

/// Steps taken when the caller does not say how many.
pub const DEFAULT_STEPS: i64 = 5000;

/// Largest accepted step count.
pub const MAX_STEPS: i64 = 5000;

/// Largest work-in-progress capacity the driver accepts.
pub const DRIVER_MAX_WIP: i64 = 1000;

/// Largest magnitude of a reference value the driver accepts.
pub const REF_LIMIT: i64 = 1_000_000;

/// Largest magnitude of a gain, in hundredths, the driver accepts.
pub const GAIN_LIMIT: i64 = 10_000;

/// Largest starting queue length, work-in-progress level and integral
/// accumulator magnitude the driver accepts.
pub const START_LIMIT: i64 = 1_000_000;

/// The number of steps a `tm` argument asks for.
pub open spec fn spec_steps(tm: Option<i64>) -> int {
    match tm {
        Some(n) => n as int,
        None => DEFAULT_STEPS as int,
    }
}

/// The remainder of a run: the records of steps `t .. steps`, starting from
/// controller `c`, buffer `b` and previous output `y`.
pub open spec fn spec_loop<R: RandomSource, S: SetPointFn>(
    c: Controller,
    b: Buffer<R>,
    sp: S,
    y: int,
    t: int,
    steps: int,
) -> Seq<Data>
    decreases steps - t,
{
    if t >= steps {
        Seq::empty()
    } else {
        let r = sp.spec_at(t);
        let e = r - y;
        let cs = spec_ctrl_work(c, e);
        let bs = spec_buf_work(b, cs.1);
        let rec = Data {
            t: t as i64,
            r: r as i64,
            e: e as i64,
            u: Fixed { hundredths: cs.1 as i64 },
            y: bs.1 as i64,
        };
        seq![rec] + spec_loop(cs.0, bs.0, sp, bs.1, t + 1, steps)
    }
}

/// The full run: `steps` records, starting from a previous output of zero.
pub open spec fn spec_close_loop<R: RandomSource, S: SetPointFn>(
    c: Controller,
    b: Buffer<R>,
    sp: S,
    steps: int,
) -> Seq<Data> {
    spec_loop(c, b, sp, 0, 0, steps)
}

/// A run of `steps - t` remaining steps records exactly that many samples.
pub proof fn lemma_spec_loop_len<R: RandomSource, S: SetPointFn>(
    c: Controller,
    b: Buffer<R>,
    sp: S,
    y: int,
    t: int,
    steps: int,
)
    ensures
        spec_loop(c, b, sp, y, t, steps).len() == if t < steps {
            steps - t
        } else {
            0
        },
    decreases (if t < steps {
        steps - t
    } else {
        0
    }),
{
    if t < steps {
        let r = sp.spec_at(t);
        let e = r - y;
        let cs = spec_ctrl_work(c, e);
        let bs = spec_buf_work(b, cs.1);
        lemma_spec_loop_len(cs.0, bs.0, sp, bs.1, t + 1, steps);
    }
}

/// One unfolding of [`spec_loop`]: a step not yet past the end contributes
/// its record, and the rest of the run continues from the states the
/// controller and the buffer step to.
proof fn lemma_spec_loop_unfold<R: RandomSource, S: SetPointFn>(
    c: Controller,
    b: Buffer<R>,
    sp: S,
    y: int,
    t: int,
    steps: int,
)
    requires
        t < steps,
    ensures
        ({
            let r = sp.spec_at(t);
            let e = r - y;
            let cs = spec_ctrl_work(c, e);
            let bs = spec_buf_work(b, cs.1);
            spec_loop(c, b, sp, y, t, steps) == seq![
                Data {
                    t: t as i64,
                    r: r as i64,
                    e: e as i64,
                    u: Fixed { hundredths: cs.1 as i64 },
                    y: bs.1 as i64,
                },
            ] + spec_loop(cs.0, bs.0, sp, bs.1, t + 1, steps)
        }),
{
}

/// The product of two bounded values is bounded by the product of the bounds.
proof fn lemma_mul_abs_bound(a: int, b: int, aa: int, bb: int)
    by (nonlinear_arith)
    requires
        -aa <= a <= aa,
        -bb <= b <= bb,
    ensures
        -(aa * bb) <= a * b <= aa * bb,
{
}

/// Runs the loop for `tm` steps (5000 when unspecified): per step `t`, the
/// reference is `set_point.at(t)`, the error is the reference less the
/// previous output (initially zero), the controller turns the error into the
/// control signal, the buffer consumes it, and the step is recorded. The
/// returned sequence is exactly `spec_close_loop` of the starting state, so
/// equal starting states — in particular equal random-source seeds — give
/// equal runs. The bounds required of the inputs keep every intermediate
/// quantity within 64 bits.
#[verifier::rlimit(100)]
pub fn close_loop<R: RandomSource, S: SetPointFn>(
    c: &mut Controller,
    b: &mut Buffer<R>,
    tm: Option<i64>,
    set_point: &S,
) -> (data: Vec<Data>)
    requires
        tm matches Some(n) ==> n <= MAX_STEPS,
        old(b).well_formed(),
        old(b).max_wip <= DRIVER_MAX_WIP,
        old(b).wip <= START_LIMIT,
        old(b).queued <= START_LIMIT,
        -START_LIMIT <= old(c).i <= START_LIMIT,
        -GAIN_LIMIT <= old(c).kp@ <= GAIN_LIMIT,
        -GAIN_LIMIT <= old(c).ki@ <= GAIN_LIMIT,
        forall|t: int|
            0 <= t < spec_steps(tm) ==> -REF_LIMIT <= #[trigger] set_point.spec_at(t) <= REF_LIMIT,
    ensures
        data@ == spec_close_loop(*old(c), *old(b), *set_point, spec_steps(tm)),
        data@.len() == if spec_steps(tm) > 0 {
            spec_steps(tm)
        } else {
            0
        },
        final(b).well_formed(),
        final(b).max_wip == old(b).max_wip,
        final(b).max_flow == old(b).max_flow,
        final(c).kp == old(c).kp,
        final(c).ki == old(c).ki,
{
    let steps: i64 = match tm {
        Some(n) => n,
        None => DEFAULT_STEPS,
    };
    let mut y: i64 = 0;
    let mut data: Vec<Data> = Vec::new();
    let mut t: i64 = 0;
    while t < steps
        invariant
            steps as int == spec_steps(tm),
            steps <= MAX_STEPS,
            0 <= t,
            steps > 0 ==> t <= steps,
            steps <= 0 ==> t == 0,
            data@.len() == t,
            b.well_formed(),
            b.max_wip == old(b).max_wip,
            b.max_wip <= DRIVER_MAX_WIP,
            b.max_flow == old(b).max_flow,
            c.kp == old(c).kp,
            c.ki == old(c).ki,
            -GAIN_LIMIT <= c.kp@ <= GAIN_LIMIT,
            -GAIN_LIMIT <= c.ki@ <= GAIN_LIMIT,
            b.wip <= START_LIMIT + t * 1_000,
            b.queued <= START_LIMIT + t * 7_000_000,
            0 <= y,
            y <= START_LIMIT + t * 7_000_000,
            -(START_LIMIT + t * 40_000_000_000) <= c.i <= START_LIMIT + t * 40_000_000_000,
            forall|k: int|
                0 <= k < spec_steps(tm) ==> -REF_LIMIT <= #[trigger] set_point.spec_at(k) <= REF_LIMIT,
            spec_close_loop(*old(c), *old(b), *set_point, steps as int) == data@ + spec_loop(
                *c,
                *b,
                *set_point,
                y as int,
                t as int,
                steps as int,
            ),
        decreases steps - t,
    {
        let ghost pre_c = *c;
        let ghost pre_b = *b;
        let ghost pre_data = data@;
        let ghost pre_y: int = y as int;

        let r: i64 = set_point.at(t);
        let e: i64 = r - y;
        proof {
            assert(-41_000_000_000 <= e <= 41_000_000_000);
            lemma_mul_abs_bound(c.kp@, e as int, GAIN_LIMIT as int, 41_000_000_000);
            assert(-(START_LIMIT + MAX_STEPS * 40_000_000_000 + 41_000_000_000) <= c.i + e <= (
            START_LIMIT + MAX_STEPS * 40_000_000_000 + 41_000_000_000));
            lemma_mul_abs_bound(
                c.ki@,
                c.i + e,
                GAIN_LIMIT as int,
                START_LIMIT + MAX_STEPS * 40_000_000_000 + 41_000_000_000,
            );
        }
        let u = c.work(e);
        let ny: i64 = b.work(u);
        let rec = Data { t, r, e, u, y: ny };
        data.push(rec);
        proof {
            let cs = spec_ctrl_work(pre_c, e as int);
            let bs = spec_buf_work(pre_b, cs.1);
            lemma_spec_loop_unfold(pre_c, pre_b, *set_point, pre_y, t as int, steps as int);
            assert(*c == cs.0);
            assert(u == (Fixed { hundredths: cs.1 as i64 }));
            assert(*b == bs.0);
            assert(ny as int == bs.1);
            let rest = spec_loop(*c, *b, *set_point, ny as int, t as int + 1, steps as int);
            assert(spec_loop(pre_c, pre_b, *set_point, pre_y, t as int, steps as int) == seq![rec]
                + rest);
            assert(data@ == pre_data.push(rec));
            assert(pre_data + (seq![rec] + rest) =~= pre_data.push(rec) + rest);
        }
        y = ny;
        t = t + 1;
    }
    proof {
        assert(data@ + spec_loop(*c, *b, *set_point, y as int, t as int, steps as int) =~= data@);
        lemma_spec_loop_len(*old(c), *old(b), *set_point, 0, 0, steps as int);
    }
    data
}

/// Law: the closed loop is deterministic — equal starting states, including
/// the random source's state, produce equal runs.
pub proof fn lemma_close_loop_deterministic<R: RandomSource, S: SetPointFn>(
    c1: Controller,
    b1: Buffer<R>,
    sp1: S,
    c2: Controller,
    b2: Buffer<R>,
    sp2: S,
    steps: int,
)
    requires
        c1 == c2,
        b1 == b2,
        sp1 == sp2,
    ensures
        spec_close_loop(c1, b1, sp1, steps) == spec_close_loop(c2, b2, sp2, steps),
{
}

/// Law: re-running with a fresh controller and buffer pair and the same seed
/// reproduces the first run exactly — the generator a seed expands to is a
/// function of that seed alone, so the two starting states are equal.
pub proof fn lemma_replay_reproduces<S: SetPointFn>(
    c1: Controller,
    c2: Controller,
    b1: Buffer<SeededRandom>,
    b2: Buffer<SeededRandom>,
    sp: S,
    seed: u64,
    steps: int,
)
    requires
        c1.kp == c2.kp,
        c1.ki == c2.ki,
        c1.i == 0,
        c2.i == 0,
        b1.queued == 0,
        b2.queued == 0,
        b1.wip == 0,
        b2.wip == 0,
        b1.max_wip == b2.max_wip,
        b1.max_flow == b2.max_flow,
        b1.rng.rng == std_rng_of_seed(seed),
        b2.rng.rng == std_rng_of_seed(seed),
    ensures
        spec_close_loop(c1, b1, sp, steps) == spec_close_loop(c2, b2, sp, steps),
{
    assert(c1 == c2);
    assert(b1.rng == b2.rng);
    assert(b1 == b2);
}

} // verus!
