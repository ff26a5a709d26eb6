use pi_loop::SimError;
use pi_loop::buffer::Buffer;
use pi_loop::controller::Controller;
use pi_loop::driver::{close_loop, Data};
use pi_loop::fixed::Fixed;
use pi_loop::random::{MidpointRandom, RandomSource, SeededRandom};
use pi_loop::setpoint::{SetPointFn, StepSchedule};

fn canonical_controller() -> Controller {
    // kp = 1.25, ki = 0.01
    Controller::new(Fixed::from_hundredths(125), Fixed::from_hundredths(1))
}

fn canonical_buffer<R: RandomSource>(rng: R) -> Buffer<R> {
    match Buffer::new(50, 10, rng) {
        Ok(b) => b,
        Err(_) => panic!("canonical buffer must construct"),
    }
}

#[test]
fn golden_trace_midpoint_first_steps() {
    let mut c = canonical_controller();
    let mut b = canonical_buffer(MidpointRandom::new());
    let sp = StepSchedule::new();
    let data = close_loop(&mut c, &mut b, Some(5), &sp);
    assert_eq!(data.len(), 5);
    for t in 0..5i64 {
        let expected = Data { t, r: 0, e: 0, u: Fixed::zero(), y: 0 };
        assert_eq!(data[t as usize], expected);
    }
}

#[test]
fn golden_trace_midpoint_past_step_up() {
    let mut c = canonical_controller();
    let mut b = canonical_buffer(MidpointRandom::new());
    let sp = StepSchedule::new();
    let data = close_loop(&mut c, &mut b, Some(102), &sp);
    assert_eq!(data.len(), 102);
    // up to t = 99 the reference is zero and nothing moves
    assert_eq!(data[99], Data { t: 99, r: 0, e: 0, u: Fixed::zero(), y: 0 });
    // t = 100: r = 50, e = 50, u = 1.25*50 + 0.01*50 = 63.00; the buffer
    // admits 50, completes 25 (midpoint of [0, 50)), drains 5 (midpoint of
    // [0, 10) rounds to 5), leaving 20 queued
    assert_eq!(
        data[100],
        Data { t: 100, r: 50, e: 50, u: Fixed::from_hundredths(6300), y: 20 }
    );
    // t = 101: e = 30, integral = 80, u = 1.25*30 + 0.01*80 = 38.30; the
    // buffer admits 38 onto 25 in progress, completes 31 (midpoint of
    // [0, 63)), drains 5, leaving 46 queued
    assert_eq!(
        data[101],
        Data { t: 101, r: 50, e: 30, u: Fixed::from_hundredths(3830), y: 46 }
    );
}

#[test]
fn controller_zero_errors_return_zero() {
    let mut c = canonical_controller();
    for _ in 0..10 {
        let u = c.work(0);
        assert_eq!(u, Fixed::zero());
        assert_eq!(c.i, 0);
    }
}

#[test]
fn controller_accumulates_integral() {
    let mut c = canonical_controller();
    let u1 = c.work(2);
    assert_eq!(c.i, 2);
    assert_eq!(u1, Fixed::from_hundredths(252)); // 1.25*2 + 0.01*2 = 2.52
    let u2 = c.work(3);
    assert_eq!(c.i, 5);
    assert_eq!(u2, Fixed::from_hundredths(380)); // 1.25*3 + 0.01*5 = 3.80
}

#[test]
fn set_point_schedule_values() {
    let sp = StepSchedule::new();
    assert_eq!(sp.at(0), 0);
    assert_eq!(sp.at(99), 0);
    assert_eq!(sp.at(100), 50);
    assert_eq!(sp.at(300), 50);
    assert_eq!(sp.at(301), 10);
    assert_eq!(sp.at(5000), 10);
    assert_eq!(sp.at(-1), 10);
}

#[test]
fn set_point_pure_and_order_free() {
    let sp = StepSchedule::new();
    // the same index twice
    assert_eq!(sp.at(150), sp.at(150));
    // one order, then the other
    let forward: Vec<i64> = (0..400).map(|t| sp.at(t)).collect();
    let backward: Vec<i64> = (0..400).rev().map(|t| sp.at(t)).collect();
    let backward_reversed: Vec<i64> = backward.into_iter().rev().collect();
    assert_eq!(forward, backward_reversed);
}

#[test]
fn buffer_rejects_bad_configuration() {
    assert_eq!(
        Buffer::new(0, 10, MidpointRandom::new()).err(),
        Some(SimError::ConfigurationError)
    );
    assert_eq!(
        Buffer::new(-5, 10, MidpointRandom::new()).err(),
        Some(SimError::ConfigurationError)
    );
    assert_eq!(
        Buffer::new(10, -1, MidpointRandom::new()).err(),
        Some(SimError::ConfigurationError)
    );
    assert!(Buffer::new(10, 0, MidpointRandom::new()).is_ok());
    assert!(Buffer::new(1, 1, MidpointRandom::new()).is_ok());
}

#[test]
fn buffer_zero_flow_never_drains() {
    let mut b = match Buffer::new(50, 0, MidpointRandom::new()) {
        Ok(b) => b,
        Err(_) => panic!("zero flow bound must be accepted"),
    };
    // no commanded work: the queue is returned unchanged
    assert_eq!(b.work(Fixed::zero()), 0);
    assert_eq!(b.work(Fixed::from_hundredths(-500)), 0);
    // commanded work completes into the queue, but nothing ever leaves it
    let y1 = b.work(Fixed::from_int(10)); // admits 10, completes 5, drains 0
    assert_eq!(y1, 5);
    assert_eq!(b.work(Fixed::zero()), 5);
    let mut prev = 5;
    for _ in 0..20 {
        let y = b.work(Fixed::from_int(3));
        assert!(y >= prev, "a zero flow bound may never shrink the queue");
        prev = y;
    }
}

#[test]
fn sample_rejects_invalid_range() {
    let mut m = MidpointRandom::new();
    assert_eq!(
        m.sample(Fixed::from_int(1), Fixed::zero()),
        Err(SimError::InvalidRange)
    );
    assert_eq!(
        m.sample(Fixed::zero(), Fixed::zero()),
        Err(SimError::InvalidRange)
    );
    let mut s = SeededRandom::from_seed(1);
    assert_eq!(
        s.sample(Fixed::from_int(7), Fixed::from_int(7)),
        Err(SimError::InvalidRange)
    );
}

#[test]
fn seeded_samples_stay_in_range_and_vary() {
    let mut s = SeededRandom::from_seed(99);
    let mut distinct = false;
    let mut first: Option<i64> = None;
    for _ in 0..64 {
        let v = match s.sample(Fixed::from_int(2), Fixed::from_int(12)) {
            Ok(v) => v,
            Err(_) => panic!("a non-empty interval must sample"),
        };
        assert!(200 <= v.hundredths && v.hundredths < 1200);
        match first {
            None => first = Some(v.hundredths),
            Some(f) => {
                if f != v.hundredths {
                    distinct = true;
                }
            }
        }
    }
    assert!(distinct, "64 uniform draws over a thousand values should not all agree");
}

#[test]
fn seeded_sources_with_equal_seeds_agree() {
    let mut a = SeededRandom::from_seed(2024);
    let mut b = SeededRandom::from_seed(2024);
    for _ in 0..32 {
        let va = a.sample(Fixed::zero(), Fixed::from_int(1000));
        let vb = b.sample(Fixed::zero(), Fixed::from_int(1000));
        assert_eq!(va, vb);
    }
}

#[test]
fn replay_with_same_seed_reproduces_run() {
    let sp = StepSchedule::new();

    let mut c1 = canonical_controller();
    let mut b1 = canonical_buffer(SeededRandom::from_seed(42));
    let first = close_loop(&mut c1, &mut b1, Some(310), &sp);

    let mut c2 = canonical_controller();
    let mut b2 = canonical_buffer(SeededRandom::from_seed(42));
    let second = close_loop(&mut c2, &mut b2, Some(310), &sp);

    assert_eq!(first.len(), 310);
    assert_eq!(first, second);
}

#[test]
fn run_invariants_hold_under_seeded_randomness() {
    let mut c = canonical_controller();
    let mut b = canonical_buffer(SeededRandom::from_seed(7));
    let sp = StepSchedule::new();
    let data = close_loop(&mut c, &mut b, Some(310), &sp);
    let mut prev_y = 0i64;
    for rec in &data {
        assert!(rec.y >= 0);
        assert!(prev_y - rec.y <= 10, "the queue may drain by at most max_flow per step");
        assert_eq!(rec.e, rec.r - prev_y);
        prev_y = rec.y;
    }
}

#[test]
fn default_step_count_is_five_thousand() {
    let mut c = canonical_controller();
    let mut b = canonical_buffer(MidpointRandom::new());
    let sp = StepSchedule::new();
    let data = close_loop(&mut c, &mut b, None, &sp);
    assert_eq!(data.len(), 5000);
}

#[test]
fn empty_and_negative_step_counts_yield_empty_runs() {
    let sp = StepSchedule::new();
    let mut c = canonical_controller();
    let mut b = canonical_buffer(MidpointRandom::new());
    assert_eq!(close_loop(&mut c, &mut b, Some(0), &sp).len(), 0);
    assert_eq!(close_loop(&mut c, &mut b, Some(-3), &sp).len(), 0);
}

#[test]
fn rounding_is_half_up_and_truncation_toward_zero() {
    assert_eq!(Fixed::from_hundredths(125).round1(), Fixed::from_hundredths(130));
    assert_eq!(Fixed::from_hundredths(124).round1(), Fixed::from_hundredths(120));
    assert_eq!(Fixed::from_hundredths(-125).round1(), Fixed::from_hundredths(-130));
    assert_eq!(Fixed::from_hundredths(-124).round1(), Fixed::from_hundredths(-120));
    assert_eq!(Fixed::from_hundredths(5).round1(), Fixed::from_hundredths(10));
    assert_eq!(Fixed::from_hundredths(4).round1(), Fixed::zero());

    assert_eq!(Fixed::from_hundredths(130).trunc(), 1);
    assert_eq!(Fixed::from_hundredths(99).trunc(), 0);
    assert_eq!(Fixed::from_hundredths(-130).trunc(), -1);
    assert_eq!(Fixed::from_hundredths(-99).trunc(), 0);
    assert_eq!(Fixed::from_int(7).trunc(), 7);
}
