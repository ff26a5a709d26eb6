//! The two-stage stochastic work queue.
//!
//! Commanded work is quantized, clamped to the work-in-progress capacity and
//! admitted; a randomized completion quantity then moves from work-in-progress
//! into the queue; finally the queue drains by a randomized quantity capped by
//! the flow bound. Both random draws come from the buffer's own
//! [`RandomSource`], so the whole step is a function of the starting state.

use vstd::prelude::*;
use crate::SimError;
use crate::fixed::{Fixed, imax, imin, lemma_round1_close, lemma_trunc_bound, spec_round1,
    spec_trunc};
use crate::random::RandomSource;

verus! {

/// Largest accepted work-in-progress capacity.
pub const MAX_WIP_LIMIT: i64 = 1_000_000_000;

/// Largest accepted per-step flow bound.
pub const MAX_FLOW_LIMIT: i64 = 1_000_000_000;

/// Largest queue length and work-in-progress level that one `work` call
/// accepts; they keep every intermediate quantity within 64 bits.
pub const STAGE_CALL_LIMIT: i64 = 100_000_000_000;

/// Largest magnitude of a commanded quantity, in hundredths, that one `work`
/// call accepts.
pub const COMMAND_CALL_LIMIT: i64 = 4_000_000_000_000_000_000;

/// A two-stage queue model: `wip` items are in progress under the capacity
/// `max_wip`; completed items wait in `queued` and leave at up to `max_flow`
/// per step. The buffer owns the random source that drives completion and
/// drain.
pub struct Buffer<R: RandomSource> {
    /// Completed items awaiting dispatch.
    pub queued: i64,
    /// Items admitted but not yet completed.
    pub wip: i64,
    /// Capacity ceiling on admission.
    pub max_wip: i64,
    /// Largest number of items that may leave `queued` in one step.
    pub max_flow: i64,
    /// The source of completion and drain quantities.
    pub rng: R,
}

impl<R: RandomSource> Buffer<R> {
    /// The buffer's invariant: both stages are non-negative, the capacity is
    /// positive, and the flow bound is non-negative; both limits are small
    /// enough that one step's arithmetic stays within 64 bits.
    pub open spec fn well_formed(self) -> bool {
        &&& 0 <= self.queued
        &&& 0 <= self.wip
        &&& 1 <= self.max_wip <= MAX_WIP_LIMIT
        &&& 0 <= self.max_flow <= MAX_FLOW_LIMIT
    }
}

/// One step of the buffer, as a function of the starting state and the
/// commanded quantity `u` (in hundredths): the state left behind and the new
/// queue length. Kept opaque: callers reason through [`Buffer::work`]'s
/// contract, which returns exactly this.
#[verifier::opaque]
pub open spec fn spec_buf_work<R: RandomSource>(b: Buffer<R>, u: int) -> (Buffer<R>, int) {
    // admission: quantize, drop negatives, clamp to capacity, truncate
    let u2 = imin(imax(spec_round1(u), 0), b.max_wip * 100);
    let wip1 = b.wip + spec_trunc(u2);
    // completion: only commanded, non-empty work is serviced
    let completing = u > 0 && wip1 > 0;
    let c = if completing {
        spec_trunc(spec_round1(b.rng.spec_draw(0, wip1 * 100)))
    } else {
        0
    };
    let rng1 = if completing {
        b.rng.spec_next(0, wip1 * 100)
    } else {
        b.rng
    };
    let q1 = b.queued + c;
    // drain: capped by the flow bound and by what is queued
    let draining = b.max_flow > 0;
    let d0 = if draining {
        spec_trunc(spec_round1(rng1.spec_draw(0, b.max_flow * 100)))
    } else {
        0
    };
    let rng2 = if draining {
        rng1.spec_next(0, b.max_flow * 100)
    } else {
        rng1
    };
    let q2 = q1 - imin(d0, q1);
    (
        Buffer {
            queued: q2 as i64,
            wip: (wip1 - c) as i64,
            max_wip: b.max_wip,
            max_flow: b.max_flow,
            rng: rng2,
        },
        q2,
    )
}

/// A uniform draw over `[0, n * 100)` hundredths, rounded half-up to one
/// decimal and truncated, yields a whole quantity between `0` and `n`.
pub proof fn lemma_draw_quantity_bound(v: int, n: int)
    requires
        0 <= v < n * 100,
        1 <= n,
    ensures
        0 <= spec_trunc(spec_round1(v)) <= n,
{
    let r = spec_round1(v);
    lemma_round1_close(v);
    assert(r <= n * 100) by {
        if r > n * 100 {
            assert(r == 10 * (r / 10)) by {
                vstd::arithmetic::div_mod::lemma_fundamental_div_mod(r, 10);
            };
            assert(n * 100 == 10 * (n * 10)) by (nonlinear_arith);
            assert(10 * (r / 10) > 10 * (n * 10));
            assert(r / 10 > n * 10) by (nonlinear_arith)
                requires
                    10 * (r / 10) > 10 * (n * 10),
            ;
            assert(r >= 10 * (n * 10 + 1)) by (nonlinear_arith)
                requires
                    r == 10 * (r / 10),
                    r / 10 >= n * 10 + 1,
            ;
            assert(r <= v + 5);
            assert(v < n * 100);
            assert(false);
        }
    };
    lemma_trunc_bound(r, n);
}

impl<R: RandomSource> Buffer<R> {
    /// A buffer with empty stages, the given capacity and flow bound, and the
    /// given random source. A non-positive capacity or a negative flow bound
    /// is a configuration error; a zero flow bound is accepted — such a
    /// buffer never drains.
    pub fn new(max_wip: i64, max_flow: i64, rng: R) -> (r: Result<Buffer<R>, SimError>)
        requires
            max_wip <= MAX_WIP_LIMIT,
            max_flow <= MAX_FLOW_LIMIT,
        ensures
            max_wip >= 1 && max_flow >= 0 ==> {
                &&& r matches Ok(b)
                &&& b.queued == 0
                &&& b.wip == 0
                &&& b.max_wip == max_wip
                &&& b.max_flow == max_flow
                &&& b.rng == rng
                &&& b.well_formed()
            },
            max_wip < 1 || max_flow < 0 ==> (r matches Err(e) && e == SimError::ConfigurationError),
    {
        if max_wip < 1 || max_flow < 0 {
            Err(SimError::ConfigurationError)
        } else {
            Ok(Buffer { queued: 0, wip: 0, max_wip, max_flow, rng })
        }
    }

    /// Consumes the commanded quantity `u` and returns the new queue length.
    ///
    /// In order: `u` is rounded half-up to one decimal, dropped to zero if
    /// negative, clamped to `max_wip` and truncated to a whole quantity,
    /// which is admitted into `wip`. If `u` was strictly positive and work is
    /// in progress, a completion quantity drawn uniformly from `[0, wip)`
    /// (rounded, truncated) moves from `wip` into `queued`. Finally, if the
    /// flow bound is positive, a drain quantity drawn uniformly from
    /// `[0, max_flow)` (rounded, truncated, capped by the queue) leaves
    /// `queued`. Neither draw is attempted over an empty interval.
    pub fn work(&mut self, u: Fixed) -> (y: i64)
        requires
            old(self).well_formed(),
            old(self).wip <= STAGE_CALL_LIMIT,
            old(self).queued <= STAGE_CALL_LIMIT,
            -COMMAND_CALL_LIMIT <= u@ <= COMMAND_CALL_LIMIT,
        ensures
            *final(self) == spec_buf_work(*old(self), u@).0,
            y == spec_buf_work(*old(self), u@).1,
            y == final(self).queued,
            final(self).well_formed(),
            final(self).max_wip == old(self).max_wip,
            final(self).max_flow == old(self).max_flow,
            // both stages stay non-negative; admission grows `wip` by at most
            // `max_wip` in one call
            final(self).queued >= 0,
            0 <= final(self).wip <= old(self).wip + old(self).max_wip,
            old(self).wip == 0 ==> final(self).wip <= old(self).max_wip,
            // the queue drains by at most `max_flow` in one call
            old(self).queued - final(self).queued <= old(self).max_flow,
            // and grows by at most what was in progress plus one admission
            final(self).queued <= old(self).queued + old(self).wip + old(self).max_wip,
            // a zero flow bound never drains the queue, and without commanded
            // work leaves it unchanged
            old(self).max_flow == 0 ==> final(self).queued >= old(self).queued,
            old(self).max_flow == 0 && u@ <= 0 ==> final(self).queued == old(self).queued,
    {
        let ghost pre = *self;
        proof {
            reveal(spec_buf_work);
        }

        // admission
        let rounded: Fixed = u.round1();
        let mut u2: i64 = if rounded.hundredths < 0 {
            0
        } else {
            rounded.hundredths
        };
        let cap: i64 = self.max_wip * 100;
        if u2 > cap {
            u2 = cap;
        }
        assert(u2 == imin(imax(spec_round1(u@), 0), pre.max_wip * 100));
        let admitted: i64 = Fixed { hundredths: u2 }.trunc();
        proof {
            lemma_trunc_bound(u2 as int, pre.max_wip as int);
        }
        self.wip = self.wip + admitted;

        // completion
        let mut c: i64 = 0;
        if u.is_positive() && self.wip > 0 {
            let hi: i64 = self.wip * 100;
            let drawn: Fixed = match self.rng.sample(Fixed::zero(), Fixed { hundredths: hi }) {
                Ok(v) => v,
                Err(_) => {
                    proof {
                        assert(false);
                    }
                    Fixed { hundredths: 0 }
                },
            };
            proof {
                lemma_draw_quantity_bound(drawn@, self.wip as int);
            }
            c = drawn.round1().trunc();
        }
        self.wip = self.wip - c;
        self.queued = self.queued + c;

        // drain
        let mut d: i64 = 0;
        if self.max_flow > 0 {
            let hi: i64 = self.max_flow * 100;
            let drawn: Fixed = match self.rng.sample(Fixed::zero(), Fixed { hundredths: hi }) {
                Ok(v) => v,
                Err(_) => {
                    proof {
                        assert(false);
                    }
                    Fixed { hundredths: 0 }
                },
            };
            proof {
                lemma_draw_quantity_bound(drawn@, self.max_flow as int);
            }
            d = drawn.round1().trunc();
            if d > self.queued {
                d = self.queued;
            }
        }
        self.queued = self.queued - d;

        proof {
            assert(*self == spec_buf_work(pre, u@).0);
        }
        self.queued
    }
}

} // verus!
