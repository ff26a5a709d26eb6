//! The proportional-integral control law.

use vstd::prelude::*;
use crate::fixed::Fixed;

verus! {

/// A discrete PI controller: a proportional gain, an integral gain, and the
/// running integral of every error value fed to [`Controller::work`] since
/// construction. The integral accumulates exactly, with no saturation or
/// clamping, so sustained nonzero error winds the integrator up; that is
/// accepted behaviour.
#[derive(Clone, Copy, Debug, PartialEq, Eq, Structural)]
pub struct Controller {
    /// Proportional gain, immutable after construction.
    pub kp: Fixed,
    /// Integral gain, immutable after construction.
    pub ki: Fixed,
    /// Running sum of all errors fed to `work` since construction.
    pub i: i64,
}

/// One step of the control law: the accumulator grows by the error, and the
/// control signal is `kp * e + ki * i` over the updated accumulator, in
/// hundredths.
pub open spec fn spec_ctrl_work(c: Controller, e: int) -> (Controller, int) {
    let ni = c.i + e;
    (Controller { kp: c.kp, ki: c.ki, i: ni as i64 }, c.kp@ * e + c.ki@ * ni)
}

/// The control signals produced by feeding the errors `es` in order, in
/// hundredths.
pub open spec fn spec_ctrl_outputs(c: Controller, es: Seq<int>) -> Seq<int>
    decreases es.len(),
{
    if es.len() == 0 {
        Seq::empty()
    } else {
        let step = spec_ctrl_work(c, es[0]);
        seq![step.1] + spec_ctrl_outputs(step.0, es.drop_first())
    }
}

/// The controller state left after feeding the errors `es` in order.
pub open spec fn spec_ctrl_final(c: Controller, es: Seq<int>) -> Controller
    decreases es.len(),
{
    if es.len() == 0 {
        c
    } else {
        spec_ctrl_final(spec_ctrl_work(c, es[0]).0, es.drop_first())
    }
}

/// Feeding `es` errors produces exactly `es.len()` control signals.
pub proof fn lemma_ctrl_outputs_len(c: Controller, es: Seq<int>)
    ensures
        spec_ctrl_outputs(c, es).len() == es.len(),
    decreases es.len(),
{
    if es.len() > 0 {
        lemma_ctrl_outputs_len(spec_ctrl_work(c, es[0]).0, es.drop_first());
    }
}

/// Law: a controller whose accumulator is zero, fed only zero errors, returns
/// zero at every step and its accumulator stays at zero.
pub proof fn lemma_zero_errors_yield_zero(c: Controller, es: Seq<int>)
    requires
        c.i == 0,
        forall|k: int| 0 <= k < es.len() ==> #[trigger] es[k] == 0,
    ensures
        spec_ctrl_final(c, es).i == 0,
        forall|k: int| 0 <= k < es.len() ==> #[trigger] spec_ctrl_outputs(c, es)[k] == 0,
    decreases es.len(),
{
    if es.len() > 0 {
        let step = spec_ctrl_work(c, es[0]);
        assert(es[0] == 0);
        assert(step.0.i == 0);
        assert(c.kp@ * es[0] == 0) by (nonlinear_arith)
            requires
                es[0] == 0,
        ;
        assert(c.ki@ * (c.i + es[0]) == 0) by (nonlinear_arith)
            requires
                es[0] == 0 && c.i == 0,
        ;
        assert(step.1 == 0);
        assert(forall|k: int|
            0 <= k < es.drop_first().len() ==> #[trigger] es.drop_first()[k] == es[k + 1]);
        lemma_zero_errors_yield_zero(step.0, es.drop_first());
        lemma_ctrl_outputs_len(step.0, es.drop_first());
        assert forall|k: int| 0 <= k < es.len() implies #[trigger] spec_ctrl_outputs(c, es)[k]
            == 0 by {
            if k > 0 {
                let rest = spec_ctrl_outputs(step.0, es.drop_first());
                assert(spec_ctrl_outputs(c, es)[k] == rest[k - 1]);
            }
        }
    }
}

impl Controller {
    /// A controller with the given gains and a zero integral accumulator.
    pub fn new(kp: Fixed, ki: Fixed) -> (r: Controller)
        ensures
            r.kp == kp,
            r.ki == ki,
            r.i == 0,
    {
        Controller { kp, ki, i: 0 }
    }

    /// Feeds one error value to the controller and returns the control
    /// signal `kp * e + ki * i`, where `i` is the updated running integral.
    pub fn work(&mut self, e: i64) -> (u: Fixed)
        requires
            i64::MIN <= old(self).i + e <= i64::MAX,
            i64::MIN <= old(self).kp@ * e <= i64::MAX,
            i64::MIN <= old(self).ki@ * (old(self).i + e) <= i64::MAX,
            i64::MIN <= old(self).kp@ * e + old(self).ki@ * (old(self).i + e) <= i64::MAX,
        ensures
            *final(self) == spec_ctrl_work(*old(self), e as int).0,
            u@ == spec_ctrl_work(*old(self), e as int).1,
            final(self).i == old(self).i + e,
            final(self).kp == old(self).kp,
            final(self).ki == old(self).ki,
    {
        self.i = self.i + e;
        Fixed { hundredths: self.kp.hundredths * e + self.ki.hundredths * self.i }
    }
}

} // verus!
