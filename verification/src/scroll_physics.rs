//! Release velocity of drag gestures, and the momentum that follows a fling.
use crate::geometry::{
    clamped, law_quotient_drops_its_fraction, lemma_trunc_div_error, magnitude, px, trunc_div, whole_pixels, CursorPoint, SUBPIXELS,
};
use std::time::Instant;
use vstd::prelude::*;

verus! {

/// Minimum fling speed that triggers a momentum animation, in sub-pixel steps
/// per second: 150 px/s.
pub const MIN_FLING_VELOCITY: i64 = 2_516_582_400;

/// Maximum fling speed along an axis, in sub-pixel steps per second:
/// 8000 px/s.
pub const MAX_FLING_VELOCITY: i64 = 134_217_728_000;

/// How long a sample of the pointer counts, in nanoseconds: 100 ms.
pub const VELOCITY_WINDOW_NANOS: u128 = 100_000_000;

/// Samples less than this apart, in nanoseconds, give no velocity: 1 ms.
pub const MIN_SAMPLE_SPAN_NANOS: u128 = 1_000_000;

/// How many of the most recent samples the release velocity is taken over.
/// Only the last few, so that earlier, slower movement does not count in.
pub const VELOCITY_SAMPLES: usize = 3;

/// Nanoseconds in a second.
pub const NANOS_PER_SEC: u128 = 1_000_000_000;

/// What stands for the whole of the way, or of the time, of an animation.
pub const CURVE_ONE: u32 = 16_777_216;

/// Declares `std::time::Instant`, an instant of the monotonic clock. It is only
/// carried along.
#[verifier::external_type_specification]
#[verifier::external_body]
pub struct ExInstant(std::time::Instant);

/// Calls `std::time::Instant::now`. The instant is the clock's: nothing is
/// claimed of it.
#[verifier::external_body]
fn clock_now() -> (now: Instant)
{
    Instant::now()
}

/// Calls `std::time::Instant::elapsed` and gives the time since `origin` in
/// nanoseconds. It is the clock's: nothing is claimed of it.
#[verifier::external_body]
fn nanos_since(origin: &Instant) -> (nanos: u128)
{
    origin.elapsed().as_nanos()
}

/// A position of the pointer and when it was seen, in nanoseconds since the
/// tracker was made.
#[derive(Clone, Copy, Debug, PartialEq, Eq, Structural)]
pub struct Sample {
    pub position: CursorPoint,
    pub time: u128,
}

/// Rolling-window velocity tracker for drag gestures.
pub struct VelocityTracker {
    origin: Instant,
    samples: Vec<Sample>,
}

impl View for VelocityTracker {
    type V = Seq<Sample>;

    closed spec fn view(&self) -> Seq<Sample> {
        self.samples@
    }
}

impl VelocityTracker {
    /// The instant that the times of the samples count from.
    pub closed spec fn origin(&self) -> Instant {
        self.origin
    }
}

/// A sample is still in the window that ends `now`.
pub open spec fn in_window(sample: Sample, now: u128) -> bool {
    sample.time + VELOCITY_WINDOW_NANOS >= now
}

/// The samples after one more was taken `now`: those still in the window, in
/// the order in which they came, the new one last.
pub open spec fn sampled(samples: Seq<Sample>, position: CursorPoint, now: u128) -> Seq<Sample> {
    samples.push(Sample { position, time: now }).filter(|s: Sample| in_window(s, now))
}

/// The velocity of a move by `distance` in `nanos`, in steps per second,
/// fractions dropped and held to the maximum.
pub open spec fn axis_velocity(distance: int, nanos: int) -> int {
    clamped(
        trunc_div(distance * NANOS_PER_SEC, nanos),
        -MAX_FLING_VELOCITY as int,
        MAX_FLING_VELOCITY as int,
    )
}

/// First of the samples that the velocity is taken over.
pub open spec fn first_recent(samples: Seq<Sample>) -> Sample {
    if samples.len() <= VELOCITY_SAMPLES {
        samples[0]
    } else {
        samples[samples.len() - VELOCITY_SAMPLES]
    }
}

/// The samples are enough to tell a velocity: two at least, and the recent
/// ones far enough apart in time.
pub open spec fn has_velocity(samples: Seq<Sample>) -> bool {
    &&& samples.len() >= 2
    &&& samples.last().time >= first_recent(samples).time + MIN_SAMPLE_SPAN_NANOS
}

/// Velocity over the recent samples, as `(vx, vy)`.
pub open spec fn velocity_of(samples: Seq<Sample>) -> (int, int) {
    if has_velocity(samples) {
        let from = first_recent(samples);
        let to = samples.last();
        (
            axis_velocity(to.position.x - from.position.x, to.time - from.time),
            axis_velocity(to.position.y - from.position.y, to.time - from.time),
        )
    } else {
        (0, 0)
    }
}

/// The velocity along one axis.
fn get_axis_velocity(from: i64, to: i64, nanos: u128) -> (velocity: i64)
    requires
        nanos > 0,
    ensures
        velocity == axis_velocity(to - from, nanos as int),
{
    let distance: i128 = to as i128 - from as i128;
    let length: u128 = if distance < 0 {
        (-distance) as u128
    } else {
        distance as u128
    };
    let speed: u128 = length * NANOS_PER_SEC / nanos;
    assert(magnitude(distance as int) * NANOS_PER_SEC == magnitude(distance * NANOS_PER_SEC));
    if speed > MAX_FLING_VELOCITY as u128 {
        if distance < 0 {
            -MAX_FLING_VELOCITY
        } else {
            MAX_FLING_VELOCITY
        }
    } else if distance < 0 {
        -(speed as i64)
    } else {
        speed as i64
    }
}

impl Default for VelocityTracker {
    fn default() -> (tracker: Self)
        ensures
            tracker@ == Seq::<Sample>::empty(),
    {
        VelocityTracker { origin: clock_now(), samples: Vec::new() }
    }
}

impl Clone for VelocityTracker {
    fn clone(&self) -> (tracker: Self)
        ensures
            tracker@ == self@,
            tracker.origin() == self.origin(),
    {
        let samples: Vec<Sample> = self.samples.clone();
        assert(samples@ =~= self.samples@);
        VelocityTracker { origin: self.origin, samples }
    }
}

impl VelocityTracker {
    /// Takes a sample of the pointer at `position` now.
    pub fn push(&mut self, position: CursorPoint)
        ensures
            exists|now: u128| final(self)@ == #[trigger] sampled(old(self)@, position, now),
            final(self).origin() == old(self).origin(),
    {
        let now: u128 = self.now();
        self.push_at(position, now);
    }

    /// The time, in nanoseconds since the tracker was made.
    pub(crate) fn now(&self) -> (now: u128) {
        nanos_since(&self.origin)
    }

    /// Takes a sample of the pointer at `position` at time `now`, in
    /// nanoseconds since the tracker was made, and drops those that fell out
    /// of the window.
    pub fn push_at(&mut self, position: CursorPoint, now: u128)
        ensures
            final(self)@ == sampled(old(self)@, position, now),
            final(self).origin() == old(self).origin(),
    {
        let ghost keep = |s: Sample| in_window(s, now);
        self.samples.push(Sample { position, time: now });
        let ghost all = self.samples@;
        let cutoff: u128 = if now >= VELOCITY_WINDOW_NANOS {
            now - VELOCITY_WINDOW_NANOS
        } else {
            0
        };
        let mut kept: Vec<Sample> = Vec::new();
        let mut i: usize = 0;
        while i < self.samples.len()
            invariant
                self.samples@ == all,
                self.origin == old(self).origin,
                i <= all.len(),
                kept@ == all.take(i as int).filter(keep),
                keep == (|s: Sample| in_window(s, now)),
                now >= VELOCITY_WINDOW_NANOS ==> cutoff == now - VELOCITY_WINDOW_NANOS,
                now < VELOCITY_WINDOW_NANOS ==> cutoff == 0,
            decreases all.len() - i,
        {
            let sample: Sample = self.samples[i];
            proof {
                assert(all.take(i + 1).drop_last() =~= all.take(i as int));
                reveal(Seq::filter);
            }
            if sample.time >= cutoff {
                kept.push(sample);
            }
            i = i + 1;
        }
        assert(all.take(all.len() as int) =~= all);
        self.samples = kept;
    }

    /// Forgets all samples.
    pub fn clear(&mut self)
        ensures
            final(self)@ == Seq::<Sample>::empty(),
            final(self).origin() == old(self).origin(),
    {
        self.samples.clear();
    }

    /// Velocity in sub-pixel steps per second as `(vx, vy)`.
    ///
    /// Only the most recent samples are used, so that the estimate reflects
    /// the speed at release rather than the average over the whole gesture.
    pub fn velocity(&self) -> (velocity: (i64, i64))
        ensures
            (velocity.0 as int, velocity.1 as int) == velocity_of(self@),
    {
        let len: usize = self.samples.len();
        if len < 2 {
            return (0, 0);
        }
        let start: usize = if len >= VELOCITY_SAMPLES {
            len - VELOCITY_SAMPLES
        } else {
            0
        };
        let from: Sample = self.samples[start];
        let to: Sample = self.samples[len - 1];
        if to.time < from.time || to.time - from.time < MIN_SAMPLE_SPAN_NANOS {
            return (0, 0);
        }
        let nanos: u128 = to.time - from.time;
        (
            get_axis_velocity(from.position.x, to.position.x, nanos),
            get_axis_velocity(from.position.y, to.position.y, nanos),
        )
    }
}

/// What velocity times nanoseconds is divided by for the distance of a fling:
/// the deceleration rate, 2.358 or `ln(0.78) / ln(0.9)`, times the nanoseconds
/// of a second.
pub const FLING_DIVISOR: i128 = 2_358_000_000;

/// Square of the minimum fling speed.
pub const MIN_FLING_VELOCITY_SQUARED: u128 = 6_333_186_975_989_760_000;

/// Distance of a fling along an axis, fractions dropped: the velocity along it,
/// times the duration of the fling, over the deceleration rate.
pub open spec fn fling_distance_of(velocity: int, nanos: int) -> int {
    trunc_div(velocity * nanos, FLING_DIVISOR as int)
}

/// The velocity is that of a fling: its speed reaches the minimum.
pub open spec fn is_fling(vel_x: int, vel_y: int) -> bool {
    vel_x * vel_x + vel_y * vel_y >= MIN_FLING_VELOCITY * MIN_FLING_VELOCITY
}

/// Lowest position that content of size `inner` can be scrolled to.
pub open spec fn lowest_position(inner: int, viewport: int) -> int {
    if inner > viewport {
        viewport - inner
    } else {
        0
    }
}

/// How far a fling moves the content along an axis: its distance, cut off at
/// the bounds of the content.
pub open spec fn fling_travel(
    start: int,
    velocity: int,
    nanos: int,
    inner: int,
    viewport: int,
) -> int {
    let position = start * SUBPIXELS;
    clamped(
        position + fling_distance_of(velocity, nanos),
        lowest_position(inner, viewport),
        0,
    ) - position
}

/// Position, in whole pixels, once `curve` of the travel is done.
pub open spec fn frame_position(start: int, travel: int, curve: int) -> int {
    clamped(
        trunc_div(
            start * SUBPIXELS * CURVE_ONE + travel * curve,
            SUBPIXELS * CURVE_ONE,
        ),
        i32::MIN as int,
        i32::MAX as int,
    )
}

/// The part of an animation of `duration` nanoseconds that is over after
/// `elapsed` of them, `CURVE_ONE` once all of it is.
pub open spec fn progress_of(elapsed: int, duration: int) -> int {
    if elapsed >= duration {
        CURVE_ONE as int
    } else {
        elapsed * CURVE_ONE / duration
    }
}

/// Distance of a fling along an axis.
///
/// The velocity falls as `v(t) = v * (1 - t / T)^(rate - 1)`, so that the way
/// is `v * T / rate`. Taken along each axis by itself this splits the way of
/// the fling in proportion to the velocity.
pub fn fling_distance(velocity: i64, nanos: u64) -> (distance: i128)
    ensures
        distance == fling_distance_of(velocity as int, nanos as int),
        -0x1_0000_0000_0000_0000_0000_0000 < distance < 0x1_0000_0000_0000_0000_0000_0000,
{
    assert(-0x8000_0000_0000_0000_0000_0000_0000_0000 < velocity * nanos
        < 0x7fff_ffff_ffff_ffff_ffff_ffff_ffff_ffff) by (nonlinear_arith)
        requires
            i64::MIN <= velocity <= i64::MAX,
            0 <= nanos <= u64::MAX,
    ;
    velocity as i128 * nanos as i128 / FLING_DIVISOR
}

/// A momentum animation: where it starts, how far it moves the content along
/// each axis, and for how long.
pub struct MomentumScroll {
    start_x: i32,
    start_y: i32,
    travel_x: i128,
    travel_y: i128,
    duration: u64,
}

/// What a momentum animation is made of.
pub struct MomentumPlan {
    pub start_x: int,
    pub start_y: int,
    pub travel_x: int,
    pub travel_y: int,
    pub duration: int,
}

/// Position of the content in a frame of an animation, and whether the frame
/// is the last one.
#[derive(Clone, Copy, Debug, PartialEq, Eq, Structural)]
pub struct MomentumFrame {
    pub x: i32,
    pub y: i32,
    pub finished: bool,
}

impl View for MomentumScroll {
    type V = MomentumPlan;

    closed spec fn view(&self) -> MomentumPlan {
        MomentumPlan {
            start_x: self.start_x as int,
            start_y: self.start_y as int,
            travel_x: self.travel_x as int,
            travel_y: self.travel_y as int,
            duration: self.duration as int,
        }
    }
}

/// How far a fling moves the content along an axis.
fn get_fling_travel(start: i32, velocity: i64, nanos: u64, inner: i128, viewport: i64) -> (travel:
    i128)
    ensures
        travel == fling_travel(
            start as int,
            velocity as int,
            nanos as int,
            inner as int,
            viewport as int,
        ),
        -0x10_0000_0000_0000_0000_0000_0000 < travel < 0x10_0000_0000_0000_0000_0000_0000,
{
    let position: i128 = px(start) as i128;
    let distance: i128 = fling_distance(velocity, nanos);
    let target: i128 = position + distance;
    if target >= 0 || inner <= viewport as i128 {
        -position
    } else if inner < viewport as i128 - target {
        viewport as i128 - inner - position
    } else {
        target - position
    }
}

/// Speed along an axis.
pub fn axis_speed(velocity: i64) -> (speed: u64)
    ensures
        speed == magnitude(velocity as int),
{
    if velocity < 0 {
        (-(velocity as i128)) as u64
    } else {
        velocity as u64
    }
}

/// Plans the momentum that follows a fling gesture: content at
/// `(start_x, start_y)`, in pixels, let go of at a velocity that carries on for
/// `duration` nanoseconds.
///
/// A positive velocity is that of a pointer that moves right or down, and
/// moves the content along. The content stops at its bounds. There is nothing
/// to animate where the velocity is below that of a fling, where it carries on
/// for no time, or where the content has less than a pixel to go.
pub fn momentum_scroll(
    start_x: i32,
    start_y: i32,
    vel_x: i64,
    vel_y: i64,
    duration: u64,
    inner_width: i128,
    inner_height: i128,
    viewport_width: i64,
    viewport_height: i64,
) -> (momentum: Option<MomentumScroll>)
    ensures
        ({
            let travel_x = fling_travel(
                start_x as int,
                vel_x as int,
                duration as int,
                inner_width as int,
                viewport_width as int,
            );
            let travel_y = fling_travel(
                start_y as int,
                vel_y as int,
                duration as int,
                inner_height as int,
                viewport_height as int,
            );
            &&& momentum is Some <==> {
                &&& is_fling(vel_x as int, vel_y as int)
                &&& duration > 0
                &&& magnitude(travel_x) >= SUBPIXELS || magnitude(travel_y) >= SUBPIXELS
            }
            &&& momentum matches Some(m) ==> m@ == (MomentumPlan {
                start_x: start_x as int,
                start_y: start_y as int,
                travel_x,
                travel_y,
                duration: duration as int,
            }) && m.wf()
        }),
{
    let speed_x: u64 = axis_speed(vel_x);
    let speed_y: u64 = axis_speed(vel_y);
    proof {
        assert(0 <= speed_x * speed_x <= 0x4000_0000_0000_0000_0000_0000_0000_0000)
            by (nonlinear_arith)
            requires
                0 <= speed_x <= 0x8000_0000_0000_0000,
        ;
        assert(0 <= speed_y * speed_y <= 0x4000_0000_0000_0000_0000_0000_0000_0000)
            by (nonlinear_arith)
            requires
                0 <= speed_y <= 0x8000_0000_0000_0000,
        ;
        assert(speed_x * speed_x == vel_x * vel_x) by (nonlinear_arith)
            requires
                speed_x == vel_x || speed_x == -vel_x,
        ;
        assert(speed_y * speed_y == vel_y * vel_y) by (nonlinear_arith)
            requires
                speed_y == vel_y || speed_y == -vel_y,
        ;
    }
    let speed_squared: u128 = speed_x as u128 * speed_x as u128 + speed_y as u128
        * speed_y as u128;
    if speed_squared < MIN_FLING_VELOCITY_SQUARED || duration == 0 {
        return None;
    }
    let travel_x: i128 = get_fling_travel(
        start_x,
        vel_x,
        duration,
        inner_width,
        viewport_width,
    );
    let travel_y: i128 = get_fling_travel(
        start_y,
        vel_y,
        duration,
        inner_height,
        viewport_height,
    );
    let pixel: i128 = SUBPIXELS as i128;
    if -pixel < travel_x && travel_x < pixel && -pixel < travel_y && travel_y < pixel {
        return None;
    }
    Some(MomentumScroll { start_x, start_y, travel_x, travel_y, duration })
}

/// Position along one axis in a frame.
fn get_frame_position(start: i32, travel: i128, curve: u32) -> (position: i32)
    requires
        -0x10_0000_0000_0000_0000_0000_0000 < travel < 0x10_0000_0000_0000_0000_0000_0000,
        curve <= CURVE_ONE,
    ensures
        position == frame_position(start as int, travel as int, curve as int),
{
    assert(-0x1000_0000_0000_0000_0000_0000_0000_0000 <= travel * curve
        <= 0x1000_0000_0000_0000_0000_0000_0000_0000) by (nonlinear_arith)
        requires
            -0x10_0000_0000_0000_0000_0000_0000 < travel < 0x10_0000_0000_0000_0000_0000_0000,
            0 <= curve <= 0x100_0000,
    ;
    let position: i128 = px(start) as i128;
    assert(-0x100_0000_0000_0000_0000_0000 <= position * CURVE_ONE
        <= 0x100_0000_0000_0000_0000_0000) by (nonlinear_arith)
        requires
            i64::MIN <= position <= i64::MAX,
            CURVE_ONE == 0x100_0000,
    ;
    let way: i128 = position * CURVE_ONE as i128 + travel * curve as i128;
    let whole: i128 = way / (SUBPIXELS as i128 * CURVE_ONE as i128);
    if whole < i32::MIN as i128 {
        i32::MIN
    } else if whole > i32::MAX as i128 {
        i32::MAX
    } else {
        whole as i32
    }
}

impl MomentumScroll {
    /// The animation lasts, and its way is one that a fling can go.
    pub closed spec fn wf(self) -> bool {
        &&& self.duration > 0
        &&& -0x10_0000_0000_0000_0000_0000_0000 < self.travel_x
            < 0x10_0000_0000_0000_0000_0000_0000
        &&& -0x10_0000_0000_0000_0000_0000_0000 < self.travel_y
            < 0x10_0000_0000_0000_0000_0000_0000
    }

    /// The part of the animation's time that is over after `elapsed`
    /// nanoseconds, `CURVE_ONE` once all of it is.
    pub fn progress(&self, elapsed: u128) -> (t: u32)
        requires
            self.wf(),
        ensures
            t == progress_of(elapsed as int, self@.duration),
            t <= CURVE_ONE,
    {
        if elapsed >= self.duration as u128 {
            return CURVE_ONE;
        }
        assert(0 <= elapsed as int * CURVE_ONE as int / self.duration as int <= CURVE_ONE)
            by (nonlinear_arith)
            requires
                0 <= elapsed < self.duration,
                CURVE_ONE == 0x100_0000,
        ;
        (elapsed * CURVE_ONE as u128 / self.duration as u128) as u32
    }

    /// The frame to show `elapsed` nanoseconds into the animation, at which
    /// `curve` of the way is done. When the time is over all of it is.
    pub fn frame(&self, elapsed: u128, curve: u32) -> (frame: MomentumFrame)
        requires
            self.wf(),
            curve <= CURVE_ONE,
        ensures
            frame.finished <==> elapsed >= self@.duration,
            ({
                let done: int = if elapsed >= self@.duration {
                    CURVE_ONE as int
                } else {
                    curve as int
                };
                &&& frame.x == frame_position(self@.start_x, self@.travel_x, done)
                &&& frame.y == frame_position(self@.start_y, self@.travel_y, done)
            }),
    {
        let finished: bool = elapsed >= self.duration as u128;
        let done: u32 = if finished {
            CURVE_ONE
        } else {
            curve
        };
        MomentumFrame {
            x: get_frame_position(self.start_x, self.travel_x, done),
            y: get_frame_position(self.start_y, self.travel_y, done),
            finished,
        }
    }
}

/// After a sample was taken the newest sample is the last one, and all that
/// are kept are from the window that ends with it.
pub proof fn law_samples_stay_in_window(samples: Seq<Sample>, position: CursorPoint, now: u128)
    ensures
        sampled(samples, position, now).len() > 0,
        sampled(samples, position, now).last() == (Sample { position, time: now }),
        forall|i: int|
            0 <= i < sampled(samples, position, now).len() ==> in_window(
                #[trigger] sampled(samples, position, now)[i],
                now,
            ),
{
    let keep = |s: Sample| in_window(s, now);
    let all = samples.push(Sample { position, time: now });
    assert(all.drop_last() =~= samples);
    reveal(Seq::filter);
    assert forall|i: int| 0 <= i < sampled(samples, position, now).len() implies in_window(
        #[trigger] sampled(samples, position, now)[i],
        now,
    ) by {
        all.lemma_filter_pred(keep, i);
    }
}

/// A sample that is still in the window is kept.
pub proof fn law_recent_samples_are_kept(
    samples: Seq<Sample>,
    position: CursorPoint,
    now: u128,
    i: int,
)
    requires
        0 <= i < samples.len(),
        in_window(samples[i], now),
    ensures
        sampled(samples, position, now).contains(samples[i]),
{
    let keep = |s: Sample| in_window(s, now);
    let all = samples.push(Sample { position, time: now });
    assert(all[i] == samples[i]);
    all.lemma_filter_contains(keep, i);
}

/// The times of the samples do not fall.
pub open spec fn times_in_order(samples: Seq<Sample>) -> bool {
    forall|i: int, j: int|
        0 <= i <= j < samples.len() ==> #[trigger] samples[i].time <= #[trigger] samples[j].time
}

proof fn lemma_filter_keeps_order(samples: Seq<Sample>, keep: spec_fn(Sample) -> bool)
    requires
        times_in_order(samples),
    ensures
        times_in_order(samples.filter(keep)),
        samples.len() > 0 ==> forall|i: int|
            0 <= i < samples.filter(keep).len() ==> (#[trigger] samples.filter(keep)[i]).time
                <= samples.last().time,
    decreases samples.len(),
{
    reveal(Seq::filter);
    if samples.len() > 0 {
        let rest = samples.drop_last();
        assert(times_in_order(rest));
        lemma_filter_keeps_order(rest, keep);
        if rest.len() > 0 {
            assert(rest.last().time <= samples.last().time) by {
                assert(samples[rest.len() - 1].time <= samples[samples.len() - 1].time);
            }
        }
    }
}

/// Samples taken in the order of time stay in it.
pub proof fn law_sample_times_stay_in_order(
    samples: Seq<Sample>,
    position: CursorPoint,
    now: u128,
)
    requires
        times_in_order(samples),
        samples.len() > 0 ==> samples.last().time <= now,
    ensures
        times_in_order(sampled(samples, position, now)),
{
    let all = samples.push(Sample { position, time: now });
    assert forall|i: int, j: int| 0 <= i <= j < all.len() implies #[trigger] all[i].time
        <= #[trigger] all[j].time by {
        if j == samples.len() && i < j {
            assert(samples[i].time <= samples[samples.len() - 1].time);
        }
    }
    lemma_filter_keeps_order(all, |s: Sample| in_window(s, now));
}

/// Along each axis the velocity is at most the maximum.
pub proof fn law_velocity_is_bounded(samples: Seq<Sample>)
    ensures
        -MAX_FLING_VELOCITY <= velocity_of(samples).0 <= MAX_FLING_VELOCITY,
        -MAX_FLING_VELOCITY <= velocity_of(samples).1 <= MAX_FLING_VELOCITY,
{
}

/// Only the most recent samples count towards the velocity.
pub proof fn law_velocity_uses_recent_samples(samples: Seq<Sample>)
    requires
        samples.len() > VELOCITY_SAMPLES,
    ensures
        velocity_of(samples) == velocity_of(samples.skip(samples.len() - VELOCITY_SAMPLES)),
{
    let recent = samples.skip(samples.len() - VELOCITY_SAMPLES);
    assert(recent.last() == samples.last());
    assert(first_recent(recent) == first_recent(samples));
}

/// The velocity points where the pointer went.
pub proof fn law_velocity_follows_pointer(samples: Seq<Sample>)
    requires
        has_velocity(samples),
    ensures
        samples.last().position.x >= first_recent(samples).position.x ==> velocity_of(samples).0
            >= 0,
        samples.last().position.x <= first_recent(samples).position.x ==> velocity_of(samples).0
            <= 0,
        samples.last().position.y >= first_recent(samples).position.y ==> velocity_of(samples).1
            >= 0,
        samples.last().position.y <= first_recent(samples).position.y ==> velocity_of(samples).1
            <= 0,
{
    let from = first_recent(samples);
    let to = samples.last();
    let nanos = to.time - from.time;
    lemma_trunc_div_error((to.position.x - from.position.x) * NANOS_PER_SEC, nanos);
    lemma_trunc_div_error((to.position.y - from.position.y) * NANOS_PER_SEC, nanos);
}

/// The way of a fling is split along the axes in proportion to the velocity
/// along them, but for the fractions of a step that are dropped.
pub proof fn law_fling_distance_is_proportional(vel_x: i64, vel_y: i64, nanos: u64)
    ensures
        magnitude(
            fling_distance_of(vel_x as int, nanos as int) * vel_y - fling_distance_of(
                vel_y as int,
                nanos as int,
            ) * vel_x,
        ) <= magnitude(vel_x as int) + magnitude(vel_y as int),
{
    let d = FLING_DIVISOR as int;
    let x = vel_x as int;
    let y = vel_y as int;
    let t = nanos as int;
    let a = fling_distance_of(x, t);
    let b = fling_distance_of(y, t);
    let r = x * t - a * d;
    let q = y * t - b * d;
    lemma_trunc_div_error(x * t, d);
    lemma_trunc_div_error(y * t, d);
    assert((a * y - b * x) * d == q * x - r * y) by (nonlinear_arith)
        requires
            r == x * t - a * d,
            q == y * t - b * d,
    ;
    assert(-(d * magnitude(x)) <= q * x <= d * magnitude(x)) by (nonlinear_arith)
        requires
            -d < q < d,
            d > 0,
    ;
    assert(-(d * magnitude(y)) <= r * y <= d * magnitude(y)) by (nonlinear_arith)
        requires
            -d < r < d,
            d > 0,
    ;
    let n = magnitude(x) + magnitude(y);
    let e = a * y - b * x;
    assert(d * magnitude(x) + d * magnitude(y) == d * n) by (nonlinear_arith)
        requires
            n == magnitude(x) + magnitude(y),
    ;
    assert(-n <= e <= n) by (nonlinear_arith)
        requires
            -(d * n) <= e * d <= d * n,
            d > 0,
    ;
}

/// A fling ends within the bounds of the content.
pub proof fn law_fling_ends_in_bounds(
    start: i32,
    velocity: i64,
    nanos: u64,
    inner: i128,
    viewport: i64,
)
    ensures
        lowest_position(inner as int, viewport as int) <= start * SUBPIXELS + fling_travel(
            start as int,
            velocity as int,
            nanos as int,
            inner as int,
            viewport as int,
        ) <= 0,
{
}

/// Content that starts within its bounds moves the way of the velocity, if at
/// all.
pub proof fn law_fling_follows_velocity(
    start: i32,
    velocity: i64,
    nanos: u64,
    inner: i128,
    viewport: i64,
)
    requires
        lowest_position(inner as int, viewport as int) <= start * SUBPIXELS <= 0,
    ensures
        ({
            let travel = fling_travel(
                start as int,
                velocity as int,
                nanos as int,
                inner as int,
                viewport as int,
            );
            &&& velocity >= 0 ==> 0 <= travel <= fling_distance_of(velocity as int, nanos as int)
            &&& velocity <= 0 ==> fling_distance_of(velocity as int, nanos as int) <= travel <= 0
        }),
{
    lemma_trunc_div_error(velocity * nanos, FLING_DIVISOR as int);
    assert(velocity >= 0 ==> velocity * nanos >= 0) by (nonlinear_arith)
        requires
            nanos >= 0,
    ;
    assert(velocity <= 0 ==> velocity * nanos <= 0) by (nonlinear_arith)
        requires
            nanos >= 0,
    ;
}

proof fn lemma_trunc_div_monotone(a: int, b: int, d: int)
    requires
        a <= b,
        d > 0,
    ensures
        trunc_div(a, d) <= trunc_div(b, d),
{
    if a >= 0 {
        vstd::arithmetic::div_mod::lemma_div_is_ordered(a, b, d);
    } else if b < 0 {
        vstd::arithmetic::div_mod::lemma_div_is_ordered(-b, -a, d);
    } else {
        lemma_trunc_div_error(a, d);
        lemma_trunc_div_error(b, d);
    }
}

proof fn lemma_trunc_div_exact(a: int, d: int)
    requires
        d > 0,
    ensures
        trunc_div(a * d, d) == a,
{
    let m = magnitude(a);
    vstd::arithmetic::div_mod::lemma_div_by_multiple(m, d);
    assert(magnitude(a * d) == m * d && (a >= 0 <==> a * d >= 0)) by (nonlinear_arith)
        requires
            d > 0,
            m == magnitude(a),
    ;
}

/// What is shown of an animation moves one way only: with more of the way done
/// the content is no less far along.
pub proof fn law_momentum_never_turns(start: int, travel: int, curve: int, later: int)
    requires
        0 <= curve <= later,
    ensures
        travel >= 0 ==> frame_position(start, travel, curve) <= frame_position(
            start,
            travel,
            later,
        ),
        travel <= 0 ==> frame_position(start, travel, curve) >= frame_position(
            start,
            travel,
            later,
        ),
{
    let base = start * SUBPIXELS * CURVE_ONE;
    let unit = SUBPIXELS * CURVE_ONE;
    if travel >= 0 {
        assert(travel * curve <= travel * later) by (nonlinear_arith)
            requires
                travel >= 0,
                curve <= later,
        ;
        lemma_trunc_div_monotone(base + travel * curve, base + travel * later, unit);
    }
    if travel <= 0 {
        assert(travel * curve >= travel * later) by (nonlinear_arith)
            requires
                travel <= 0,
                curve <= later,
        ;
        lemma_trunc_div_monotone(base + travel * later, base + travel * curve, unit);
    }
}

/// An animation starts where the content is, and with all of the way done the
/// content is where the fling takes it.
pub proof fn law_momentum_goes_from_start_to_target(start: i32, travel: int)
    ensures
        frame_position(start as int, travel, 0) == start,
        frame_position(start as int, travel, CURVE_ONE as int) == whole_pixels(
            start * SUBPIXELS + travel,
        ),
{
    let one = CURVE_ONE as int;
    let s = SUBPIXELS as int;
    let unit = s * one;
    assert(start * s * one + travel * 0 == start * unit) by (nonlinear_arith)
        requires
            unit == s * one,
    ;
    lemma_trunc_div_exact(start as int, unit);
    let target = start * s + travel;
    assert(start * s * one + travel * one == target * one) by (nonlinear_arith)
        requires
            target == start * s + travel,
    ;
    assert(trunc_div(target * one, unit) == trunc_div(target, s)) by {
        let m = magnitude(target);
        vstd::arithmetic::div_mod::lemma_div_multiples_vanish_quotient(one, m, s);
        assert(one * m == m * one && one * s == unit) by (nonlinear_arith)
            requires
                unit == s * one,
        ;
        assert(magnitude(target * one) == m * one) by (nonlinear_arith)
            requires
                one > 0,
                m == magnitude(target),
        ;
    }
}

/// Content that is within its bounds is never shown outside of them by a
/// momentum animation: there is no over-scroll.
pub proof fn law_momentum_never_overscrolls(
    start: i32,
    velocity: i64,
    nanos: u64,
    inner: i128,
    viewport: i64,
    curve: u32,
)
    requires
        lowest_position(inner as int, viewport as int) <= start * SUBPIXELS <= 0,
        curve <= CURVE_ONE,
    ensures
        ({
            let travel = fling_travel(
                start as int,
                velocity as int,
                nanos as int,
                inner as int,
                viewport as int,
            );
            lowest_position(inner as int, viewport as int) <= frame_position(
                start as int,
                travel,
                curve as int,
            ) * SUBPIXELS <= 0
        }),
{
    let travel = fling_travel(
        start as int,
        velocity as int,
        nanos as int,
        inner as int,
        viewport as int,
    );
    let s = SUBPIXELS as int;
    let target = start * s + travel;
    let position = frame_position(start as int, travel, curve as int);
    law_momentum_goes_from_start_to_target(start, travel);
    law_momentum_never_turns(start as int, travel, 0, curve as int);
    law_momentum_never_turns(start as int, travel, curve as int, CURVE_ONE as int);
    lemma_trunc_div_error(target, s);
    let last = whole_pixels(target);
    assert(lowest_position(inner as int, viewport as int) <= last * s <= 0);
    assert(position * s <= 0);
    assert(start <= position || last <= position);
}

/// The part of an animation that is over does not fall as time goes on.
pub proof fn law_progress_never_falls(elapsed: u128, later: u128, duration: u64)
    requires
        duration > 0,
        elapsed <= later,
    ensures
        0 <= progress_of(elapsed as int, duration as int) <= progress_of(
            later as int,
            duration as int,
        ) <= CURVE_ONE,
{
    let one = CURVE_ONE as int;
    let d = duration as int;
    let a = elapsed as int * one;
    let b = later as int * one;
    assert(0 <= a <= b);
    vstd::arithmetic::div_mod::lemma_div_pos_is_pos(a, d);
    vstd::arithmetic::div_mod::lemma_div_is_ordered(a, b, d);
    if elapsed < duration {
        assert(a / d <= one) by (nonlinear_arith)
            requires
                a == elapsed as int * one,
                0 <= elapsed < d,
                one > 0,
        ;
    }
    if later < duration {
        assert(b / d <= one) by (nonlinear_arith)
            requires
                b == later as int * one,
                0 <= later < d,
                one > 0,
        ;
    }
}

/// The frames of a momentum animation along an axis, for any run of curve
/// values that do not fall: content that starts within its bounds stays within
/// them, and goes from its start to where the fling takes it without ever
/// turning back.
pub proof fn law_momentum_run_never_bounces(
    start: i32,
    velocity: i64,
    nanos: u64,
    inner: i128,
    viewport: i64,
    curves: Seq<u32>,
    i: int,
    j: int,
)
    requires
        lowest_position(inner as int, viewport as int) <= start * SUBPIXELS <= 0,
        forall|a: int, b: int|
            0 <= a <= b < curves.len() ==> #[trigger] curves[a] <= #[trigger] curves[b],
        forall|a: int| 0 <= a < curves.len() ==> #[trigger] curves[a] <= CURVE_ONE,
        0 <= i <= j < curves.len(),
    ensures
        ({
            let travel = fling_travel(
                start as int,
                velocity as int,
                nanos as int,
                inner as int,
                viewport as int,
            );
            let target = whole_pixels(start * SUBPIXELS + travel);
            let earlier = frame_position(start as int, travel, curves[i] as int);
            let later = frame_position(start as int, travel, curves[j] as int);
            &&& lowest_position(inner as int, viewport as int) <= earlier * SUBPIXELS <= 0
            &&& lowest_position(inner as int, viewport as int) <= later * SUBPIXELS <= 0
            &&& travel >= 0 ==> start <= earlier <= later <= target
            &&& travel <= 0 ==> start >= earlier >= later >= target
        }),
{
    let travel = fling_travel(
        start as int,
        velocity as int,
        nanos as int,
        inner as int,
        viewport as int,
    );
    law_momentum_goes_from_start_to_target(start, travel);
    law_momentum_never_turns(start as int, travel, 0, curves[i] as int);
    law_momentum_never_turns(start as int, travel, curves[i] as int, curves[j] as int);
    law_momentum_never_turns(start as int, travel, curves[j] as int, CURVE_ONE as int);
    law_momentum_never_overscrolls(start, velocity, nanos, inner, viewport, curves[i]);
    law_momentum_never_overscrolls(start, velocity, nanos, inner, viewport, curves[j]);
}

/// Which samples are kept, one by one from the first: a sample stays, in its
/// place, exactly where it is at most 100 ms old, and the new sample comes last.
pub proof fn law_samples_are_those_of_the_window(
    first: Sample,
    rest: Seq<Sample>,
    position: CursorPoint,
    now: u128,
)
    ensures
        sampled(Seq::<Sample>::empty(), position, now) == seq![Sample { position, time: now }],
        sampled(seq![first] + rest, position, now) == (if first.time + 100_000_000 >= now {
            seq![first]
        } else {
            Seq::<Sample>::empty()
        }) + sampled(rest, position, now),
{
    let new = Sample { position, time: now };
    let keep = |s: Sample| in_window(s, now);
    reveal_with_fuel(Seq::filter, 2);
    assert(Seq::<Sample>::empty().push(new).drop_last() =~= Seq::<Sample>::empty());
    assert(sampled(Seq::<Sample>::empty(), position, now) =~= seq![new]);
    assert((seq![first] + rest).push(new) =~= seq![first] + rest.push(new));
    Seq::filter_distributes_over_add(seq![first], rest.push(new), keep);
    assert(seq![first].drop_last() =~= Seq::<Sample>::empty());
    assert(seq![first].filter(keep) =~= if first.time + 100_000_000 >= now {
        seq![first]
    } else {
        Seq::<Sample>::empty()
    });
}

/// The velocity along an axis times the time is the way that the pointer went,
/// up to the fraction that is dropped, unless it is held to the maximum.
proof fn lemma_axis_velocity_is_way_over_time(distance: int, nanos: int)
    requires
        nanos > 0,
    ensures
        ({
            let v = axis_velocity(distance, nanos);
            let way = distance * 1_000_000_000;
            &&& -134_217_728_000 <= v <= 134_217_728_000
            &&& distance >= 0 ==> v >= 0 && v * nanos <= way && (way < v * nanos + nanos || v
                == 134_217_728_000)
            &&& distance <= 0 ==> v <= 0 && v * nanos >= way && (way > v * nanos - nanos || v
                == -134_217_728_000)
        }),
{
    let way = distance * 1_000_000_000;
    let q = trunc_div(way, nanos);
    let v = axis_velocity(distance, nanos);
    law_quotient_drops_its_fraction(way, nanos);
    assert(v <= q ==> v * nanos <= q * nanos) by (nonlinear_arith)
        requires
            nanos > 0,
    ;
    assert(v >= q ==> v * nanos >= q * nanos) by (nonlinear_arith)
        requires
            nanos > 0,
    ;
}

/// The velocity of a drag, in terms of its samples. Over the last three samples,
/// or all of them where there are fewer, the velocity along each axis times the
/// time between the first and the last is the way between them, up to the
/// fraction that is dropped, and at most 8000 px/s. A single sample, or samples
/// less than a millisecond apart, tell none.
pub proof fn law_velocity_is_way_over_time(samples: Seq<Sample>)
    ensures
        ({
            let from = if samples.len() > 3 {
                samples[samples.len() - 3]
            } else {
                samples[0]
            };
            let to = samples[samples.len() - 1];
            let nanos = to.time - from.time;
            let dx = to.position.x - from.position.x;
            let dy = to.position.y - from.position.y;
            let (vx, vy) = velocity_of(samples);
            &&& samples.len() < 2 || nanos < 1_000_000 ==> vx == 0 && vy == 0
            &&& samples.len() >= 2 && nanos >= 1_000_000 ==> {
                &&& -134_217_728_000 <= vx <= 134_217_728_000
                &&& -134_217_728_000 <= vy <= 134_217_728_000
                &&& dx >= 0 ==> vx >= 0 && vx * nanos <= dx * 1_000_000_000 && (dx * 1_000_000_000
                    < vx * nanos + nanos || vx == 134_217_728_000)
                &&& dx <= 0 ==> vx <= 0 && vx * nanos >= dx * 1_000_000_000 && (dx * 1_000_000_000
                    > vx * nanos - nanos || vx == -134_217_728_000)
                &&& dy >= 0 ==> vy >= 0 && vy * nanos <= dy * 1_000_000_000 && (dy * 1_000_000_000
                    < vy * nanos + nanos || vy == 134_217_728_000)
                &&& dy <= 0 ==> vy <= 0 && vy * nanos >= dy * 1_000_000_000 && (dy * 1_000_000_000
                    > vy * nanos - nanos || vy == -134_217_728_000)
            }
        }),
{
    let from = if samples.len() > 3 {
        samples[samples.len() - 3]
    } else {
        samples[0]
    };
    let to = samples[samples.len() - 1];
    let nanos = to.time - from.time;
    if samples.len() >= 2 && nanos >= 1_000_000 {
        lemma_axis_velocity_is_way_over_time(to.position.x - from.position.x, nanos);
        lemma_axis_velocity_is_way_over_time(to.position.y - from.position.y, nanos);
    }
}

/// The distance of a fling times the deceleration rate is the velocity times
/// the duration, up to the fraction that is dropped.
pub proof fn law_fling_distance_is_exact(velocity: i64, nanos: u64)
    ensures
        ({
            let d = fling_distance_of(velocity as int, nanos as int);
            let way = velocity * nanos;
            &&& way >= 0 ==> d >= 0 && d * 2_358_000_000 <= way < d * 2_358_000_000
                + 2_358_000_000
            &&& way <= 0 ==> d <= 0 && d * 2_358_000_000 - 2_358_000_000 < way <= d
                * 2_358_000_000
        }),
{
    law_quotient_drops_its_fraction(velocity * nanos, 2_358_000_000);
}

/// A velocity is that of a fling exactly where its speed is 150 px/s or more.
pub proof fn law_fling_speed(vel_x: i64, vel_y: i64)
    ensures
        is_fling(vel_x as int, vel_y as int) <==> vel_x * vel_x + vel_y * vel_y
            >= 2_516_582_400int * 2_516_582_400,
{
}

/// A fling takes the content as far as its distance goes, or else to the bound
/// of the content that lies on the way: its start, or where its end meets the
/// end of the viewport.
pub proof fn law_fling_travel_is_exact(
    start: i32,
    velocity: i64,
    nanos: u64,
    inner: i128,
    viewport: i64,
)
    ensures
        ({
            let position = start * 16_777_216;
            let free = position + fling_distance_of(velocity as int, nanos as int);
            let target = position + fling_travel(
                start as int,
                velocity as int,
                nanos as int,
                inner as int,
                viewport as int,
            );
            let lowest = if inner > viewport {
                viewport - inner
            } else {
                0
            };
            &&& lowest <= target <= 0
            &&& target == free || (target < free && target == 0) || (target > free && target
                == lowest)
        }),
{
}

/// The progress of an animation times its duration is the time that is over,
/// up to the fraction that is dropped, until all of it is.
pub proof fn law_progress_is_part_of_the_time(elapsed: u128, duration: u64)
    requires
        duration > 0,
    ensures
        ({
            let t = progress_of(elapsed as int, duration as int);
            &&& elapsed >= duration ==> t == 16_777_216
            &&& elapsed < duration ==> t * duration <= elapsed * 16_777_216 < t * duration
                + duration
        }),
{
    let way = elapsed * 16_777_216;
    let d = duration as int;
    vstd::arithmetic::div_mod::lemma_fundamental_div_mod(way, d);
    assert(d * (way / d) == (way / d) * d) by (nonlinear_arith);
}

/// A frame shows the content on its way: once `curve` of the travel is done, at
/// the start plus that part of the travel, to within a pixel and never past it.
/// A position that `i32` cannot hold is shown as the nearest that it can.
pub proof fn law_frame_is_on_its_way(start: int, travel: int, curve: int)
    ensures
        ({
            let pixel = 281_474_976_710_656int;
            let way = start * pixel + travel * curve;
            let shown = frame_position(start, travel, curve);
            &&& 0 <= way < 2_147_483_648 * pixel ==> shown >= 0 && shown * pixel <= way < shown
                * pixel + pixel
            &&& -2_147_483_649 * pixel < way <= 0 ==> shown <= 0 && shown * pixel - pixel < way
                <= shown * pixel
            &&& way >= 2_147_483_648 * pixel ==> shown == 2_147_483_647
            &&& way <= -2_147_483_649 * pixel ==> shown == -2_147_483_648
        }),
{
    let pixel = 281_474_976_710_656int;
    let way = start * pixel + travel * curve;
    assert(start * SUBPIXELS * CURVE_ONE + travel * curve == way);
    assert(SUBPIXELS * CURVE_ONE == pixel);
    law_quotient_drops_its_fraction(way, pixel);
}

} // verus!
