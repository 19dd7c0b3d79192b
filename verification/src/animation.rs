use vstd::prelude::*;

verus! {

/// The fixed-point scale of animation time: one frame of the item list.
/// `current_time` advances in these ticks; its whole part is the frame
/// index, its remainder the sub-frame position.
pub const TICKS_PER_FRAME: i64 = 1_000_000;

/// The fixed-point scale of the playback speed factor: a stored speed of
/// `SPEED_SCALE` plays at natural speed, negative values play backward.
pub const SPEED_SCALE: i64 = 1000;

/// The largest per-frame duration accepted, in milliseconds.
pub const MAX_DURATION: i64 = 1_000_000;

/// The largest magnitude the stored speed factor may take.
pub const MAX_SPEED: i64 = 0x10_0000;

/// The largest magnitude of one `update` step, in ticks.
pub const MAX_DT: i64 = 0x8000_0000;

/// The largest magnitude `current_time` may reach.
pub const MAX_TIME: i64 = 0x80_0000_0000_0000;

/// How far from `MAX_TIME` the time must stay before an `update`: one
/// step moves the clock by far less than this.
pub const UPDATE_MARGIN: i64 = 0x4_0000_0000_0000;

/// Truncating division by a positive divisor, as the machine divides.
pub open spec fn div_trunc(x: int, d: int) -> int {
    if x >= 0 {
        x / d
    } else {
        -((-x) / d)
    }
}

/// Truncating remainder by a positive divisor: it keeps the dividend's sign.
pub open spec fn rem_trunc(x: int, d: int) -> int {
    if x >= 0 {
        x % d
    } else {
        -((-x) % d)
    }
}

/// The elapsed playback time of one step: `dt` ticks scaled by the speed
/// factor.
pub open spec fn elapsed_of(speed: int, dt: int) -> int {
    div_trunc(dt * speed, SPEED_SCALE as int)
}

/// The frame index a clock of `time` ticks points at, reduced modulo the
/// item count with an always-non-negative remainder, so that a transiently
/// negative clock still selects a valid frame.
pub open spec fn frame_of(time: int, count: int) -> int {
    (time / (TICKS_PER_FRAME as int)) % count
}

/// The duration table entry for frame `f`, clamped to at least one
/// millisecond; a well-formed animation never needs the clamp.
pub open spec fn dur_at(durs: Seq<i64>, f: int) -> int {
    if 0 <= f < durs.len() && durs[f] >= 1 {
        durs[f] as int
    } else {
        1
    }
}

/// Steps the clock back one whole frame at a time while the lag is
/// negative, refunding each stepped frame's duration into the lag.
/// The lag is measured in `3 * ticks * milliseconds`.
pub open spec fn settle_back(t: int, lag: int, durs: Seq<i64>, count: int) -> (int, int)
    decreases (if lag < 0 {
        -lag
    } else {
        0
    }),
    via settle_back_decreases
{
    if lag >= 0 {
        (t, lag)
    } else {
        let t2 = t - TICKS_PER_FRAME;
        settle_back(
            t2,
            lag + 3 * (TICKS_PER_FRAME as int) * dur_at(durs, frame_of(t2, count)),
            durs,
            count,
        )
    }
}

#[via_fn]
proof fn settle_back_decreases(t: int, lag: int, durs: Seq<i64>, count: int) {
    if lag < 0 {
        let d = dur_at(durs, frame_of(t - TICKS_PER_FRAME, count));
        assert(d >= 1);
        assert(3 * (TICKS_PER_FRAME as int) * d >= 3 * (TICKS_PER_FRAME as int))
            by (nonlinear_arith)
            requires
                d >= 1,
        ;
    }
}

/// Steps the clock forward one whole frame at a time while the lag covers
/// the current frame's full duration, consuming that duration.
pub open spec fn settle_forward(t: int, lag: int, durs: Seq<i64>, count: int) -> (int, int)
    decreases (if lag > 0 {
        lag
    } else {
        0
    }),
    via settle_forward_decreases
{
    let d = dur_at(durs, frame_of(t, count));
    if lag >= 3 * (TICKS_PER_FRAME as int) * d {
        settle_forward(t + TICKS_PER_FRAME, lag - 3 * (TICKS_PER_FRAME as int) * d, durs, count)
    } else {
        (t, lag)
    }
}

#[via_fn]
proof fn settle_forward_decreases(t: int, lag: int, durs: Seq<i64>, count: int) {
    let d = dur_at(durs, frame_of(t, count));
    assert(d >= 1);
    assert(3 * (TICKS_PER_FRAME as int) * d >= 3 * (TICKS_PER_FRAME as int)) by (nonlinear_arith)
        requires
            d >= 1,
    ;
}

/// The clock after one duration-weighted step: the sub-frame position is
/// converted into lag against the current frame's duration, the elapsed
/// time is added as lag, whole frames are consumed backward then forward,
/// and the remaining lag is re-distributed proportionally into the clock.
pub open spec fn step_durations(t0: int, elapsed: int, durs: Seq<i64>, count: int) -> int {
    let s = TICKS_PER_FRAME as int;
    let d0 = dur_at(durs, frame_of(t0, count));
    let lag0 = 3 * rem_trunc(t0, s) * d0 + 50 * elapsed;
    let r1 = settle_back(t0, lag0, durs, count);
    let t1f = (r1.0 / s) * s;
    let r2 = settle_forward(t1f, r1.1, durs, count);
    r2.0 + r2.1 / (3 * dur_at(durs, frame_of(r2.0, count)))
}

/// Uniform looped playback advances one frame per full-frame step: from
/// the start of frame `i` of `n`, a step worth exactly one frame of
/// forward playback reports frame `(i + 1) % n`, marked as wrapped
/// exactly when the step closed the loop. (With a single frame the index
/// cannot change, so no event is reported; hence `n >= 2`.)
pub proof fn lemma_uniform_step<Item>(a: Animation<Item>, dt: int, i: int, n: int)
    requires
        a.wf(),
        a.durations_view().len() == 0,
        a.looped_flag(),
        a.speed_factor() > 0,
        n == a.items_view().len(),
        2 <= n,
        0 <= i < n,
        a.time() == i * TICKS_PER_FRAME,
        elapsed_of(a.speed_factor(), dt) == TICKS_PER_FRAME,
    ensures
        a.updated_time(dt) == (i + 1) * TICKS_PER_FRAME,
        a.update_event(dt) == Some(((i + 1) % n, i + 1 == n)),
{
    let s = TICKS_PER_FRAME as int;
    assert((i * s) / s == i) by {
        vstd::arithmetic::div_mod::lemma_div_multiples_vanish(i, s);
    }
    assert(a.stepped_time(dt) == (i + 1) * s);
    assert(((i + 1) * s) / s == i + 1) by {
        vstd::arithmetic::div_mod::lemma_div_multiples_vanish(i + 1, s);
    }
    assert(frame_of(a.time(), n) == i % n);
    assert(frame_of(a.stepped_time(dt), n) == (i + 1) % n);
    assert(i % n == i) by {
        vstd::arithmetic::div_mod::lemma_small_mod(i as nat, n as nat);
    }
    if i + 1 == n {
        assert(n % n == 0) by {
            vstd::arithmetic::div_mod::lemma_mod_self_0(n);
        }
    } else {
        assert((i + 1) % n == i + 1) by {
            vstd::arithmetic::div_mod::lemma_small_mod((i + 1) as nat, n as nat);
        }
    }
}

/// A non-looped animation driven to or past its end clamps to the start
/// of its last frame, stops playing, and reports the last frame as a
/// wrapped event.
pub proof fn lemma_clamp_at_end<Item>(a: Animation<Item>, dt: int, n: int)
    requires
        a.wf(),
        !a.looped_flag(),
        n == a.items_view().len(),
        n > 0,
        a.stepped_time(dt) >= n * TICKS_PER_FRAME,
    ensures
        a.updated_time(dt) == (n - 1) * TICKS_PER_FRAME,
        !a.updated_playing(dt),
        a.update_event(dt) == Some((n - 1, true)),
{
    assert(n * (TICKS_PER_FRAME as int) > 0) by (nonlinear_arith)
        requires
            n > 0,
    ;
}

/// A non-looped animation driven below zero clamps to time zero, stops
/// playing, and reports frame zero as a wrapped event.
pub proof fn lemma_clamp_at_start<Item>(a: Animation<Item>, dt: int)
    requires
        a.wf(),
        !a.looped_flag(),
        a.items_view().len() > 0,
        a.stepped_time(dt) < 0,
    ensures
        a.updated_time(dt) == 0,
        !a.updated_playing(dt),
        a.update_event(dt) == Some((0int, true)),
{
}

/// A frame sequencer over an ordered item list: a fixed-point clock in
/// ticks of a frame, optional per-frame durations in milliseconds,
/// direction-aware looping and boundary clamping, and a signed variable
/// speed. With an empty duration list playback is uniform; otherwise each
/// frame holds for its own duration.
pub struct Animation<Item> {
    items: Vec<Item>,
    durations: Vec<i64>,
    looped: bool,
    speed: i64,
    playing: bool,
    current_time: i64,
}

impl<Item> Animation<Item> {
    /// The ordered items, one per frame.
    pub closed spec fn items_view(&self) -> Seq<Item> {
        self.items@
    }

    /// The per-frame durations in milliseconds, or empty for uniform
    /// playback.
    pub closed spec fn durations_view(&self) -> Seq<i64> {
        self.durations@
    }

    /// Whether playback wraps around instead of clamping at the ends.
    pub closed spec fn looped_flag(&self) -> bool {
        self.looped
    }

    /// The stored speed factor, scaled by `SPEED_SCALE`.
    pub closed spec fn speed_factor(&self) -> int {
        self.speed as int
    }

    /// Whether the animation is marked as playing.
    pub closed spec fn playing_flag(&self) -> bool {
        self.playing
    }

    /// The clock, in ticks of a frame.
    pub closed spec fn time(&self) -> int {
        self.current_time as int
    }

    /// Well-formedness: the duration list is empty or matches the item
    /// list, durations are positive and bounded, and speed, clock and
    /// item count stay within their fixed-point ranges.
    pub open spec fn wf(&self) -> bool {
        &&& (self.durations_view().len() == 0 || self.durations_view().len()
            == self.items_view().len())
        &&& (forall|i: int|
            0 <= i < self.durations_view().len() ==> 1 <= #[trigger] self.durations_view()[i]
                <= MAX_DURATION)
        &&& -MAX_SPEED <= self.speed_factor() <= MAX_SPEED
        &&& -MAX_TIME <= self.time() <= MAX_TIME
        &&& self.items_view().len() <= 0x1_0000_0000
    }

    /// The clock after one step of `dt` ticks, before boundary handling.
    pub open spec fn stepped_time(&self, dt: int) -> int {
        let elapsed = elapsed_of(self.speed_factor(), dt);
        if self.durations_view().len() > 0 {
            step_durations(
                self.time(),
                elapsed,
                self.durations_view(),
                self.items_view().len() as int,
            )
        } else {
            self.time() + elapsed
        }
    }

    /// The clock after one step of `dt` ticks: when not looped it clamps
    /// to zero below and to the start of the last frame above.
    pub open spec fn updated_time(&self, dt: int) -> int {
        let count = self.items_view().len() as int;
        let t1 = self.stepped_time(dt);
        if t1 < 0 && !self.looped_flag() {
            0
        } else if t1 >= count * TICKS_PER_FRAME && !self.looped_flag() {
            (count - 1) * TICKS_PER_FRAME
        } else {
            t1
        }
    }

    /// Whether the animation still plays after one step of `dt` ticks:
    /// hitting a boundary while not looped stops it; the step itself is
    /// taken whether or not the animation was playing.
    pub open spec fn updated_playing(&self, dt: int) -> bool {
        let count = self.items_view().len() as int;
        let t1 = self.stepped_time(dt);
        if t1 < 0 && !self.looped_flag() {
            false
        } else if t1 >= count * TICKS_PER_FRAME && !self.looped_flag() {
            false
        } else {
            self.playing_flag()
        }
    }

    /// The event one step of `dt` ticks reports: the clamped boundary
    /// frame with a wrap mark when not looped, the new frame when the
    /// frame index changed (marked as wrapped exactly when a looped
    /// boundary was crossed against the playback direction), and nothing
    /// when the frame stayed.
    pub open spec fn update_event(&self, dt: int) -> Option<(int, bool)> {
        let count = self.items_view().len() as int;
        let t1 = self.stepped_time(dt);
        let prev = frame_of(self.time(), count);
        let fr = frame_of(t1, count);
        if t1 < 0 && !self.looped_flag() {
            Some((0, true))
        } else if t1 >= count * TICKS_PER_FRAME && !self.looped_flag() {
            Some((count - 1, true))
        } else if prev != fr {
            let back = self.speed_factor() > 0 && fr < prev;
            let fore = self.speed_factor() < 0 && fr > prev;
            Some((fr, self.looped_flag() && (back || fore)))
        } else {
            None
        }
    }

    /// An animation over the given items, initially looped, stopped, at
    /// natural speed and at time zero. The duration list must be empty or
    /// match the item list one for one.
    pub fn new(items: Vec<Item>, durations: Vec<i64>) -> (r: Animation<Item>)
        requires
            durations@.len() == 0 || durations@.len() == items@.len(),
            forall|i: int|
                0 <= i < durations@.len() ==> 1 <= #[trigger] durations@[i] <= MAX_DURATION,
            items@.len() <= 0x1_0000_0000,
        ensures
            r.wf(),
            r.items_view() == items@,
            r.durations_view() == durations@,
            r.looped_flag(),
            r.speed_factor() == SPEED_SCALE,
            !r.playing_flag(),
            r.time() == 0,
    {
        Animation {
            items,
            durations,
            looped: true,
            speed: SPEED_SCALE,
            playing: false,
            current_time: 0,
        }
    }

    /// Whether the animation holds no items.
    pub fn is_empty(&self) -> (r: bool)
        ensures
            r == (self.items_view().len() == 0),
    {
        self.items.len() == 0
    }

    /// The total number of frames, the same as the number of items.
    pub fn len(&self) -> (r: usize)
        ensures
            r == self.items_view().len(),
    {
        self.items.len()
    }

    /// The speed the animation plays at, scaled by `SPEED_SCALE`; higher
    /// is faster, negative plays backward.
    pub fn speed(&self) -> (r: i64)
        ensures
            r == self.speed_factor(),
    {
        self.speed
    }

    /// Sets the speed the animation plays at, scaled by `SPEED_SCALE`.
    pub fn set_speed(&mut self, speed: i64)
        requires
            -MAX_SPEED <= speed <= MAX_SPEED,
        ensures
            final(self).speed_factor() == speed,
            final(self).items_view() == old(self).items_view(),
            final(self).durations_view() == old(self).durations_view(),
            final(self).looped_flag() == old(self).looped_flag(),
            final(self).playing_flag() == old(self).playing_flag(),
            final(self).time() == old(self).time(),
            old(self).wf() ==> final(self).wf(),
    {
        self.speed = speed;
    }

    /// Whether the animation repeats after playing.
    pub fn is_looped(&self) -> (r: bool)
        ensures
            r == self.looped_flag(),
    {
        self.looped
    }

    /// Sets whether the animation repeats after playing.
    pub fn set_looped(&mut self, looped: bool)
        ensures
            final(self).looped_flag() == looped,
            final(self).items_view() == old(self).items_view(),
            final(self).durations_view() == old(self).durations_view(),
            final(self).speed_factor() == old(self).speed_factor(),
            final(self).playing_flag() == old(self).playing_flag(),
            final(self).time() == old(self).time(),
            old(self).wf() ==> final(self).wf(),
    {
        self.looped = looped;
    }

    /// Whether the animation is currently marked as playing.
    pub fn is_playing(&self) -> (r: bool)
        ensures
            r == self.playing_flag(),
    {
        self.playing
    }

    /// Marks the animation as playing.
    pub fn play(&mut self)
        ensures
            final(self).playing_flag(),
            final(self).items_view() == old(self).items_view(),
            final(self).durations_view() == old(self).durations_view(),
            final(self).looped_flag() == old(self).looped_flag(),
            final(self).speed_factor() == old(self).speed_factor(),
            final(self).time() == old(self).time(),
            old(self).wf() ==> final(self).wf(),
    {
        self.playing = true;
    }

    /// Marks the animation as stopped.
    pub fn stop(&mut self)
        ensures
            !final(self).playing_flag(),
            final(self).items_view() == old(self).items_view(),
            final(self).durations_view() == old(self).durations_view(),
            final(self).looped_flag() == old(self).looped_flag(),
            final(self).speed_factor() == old(self).speed_factor(),
            final(self).time() == old(self).time(),
            old(self).wf() ==> final(self).wf(),
    {
        self.playing = false;
    }

    /// Goes to the start of the given frame and begins playing.
    pub fn goto_and_play(&mut self, frame: usize)
        requires
            frame * TICKS_PER_FRAME <= MAX_TIME,
        ensures
            final(self).time() == frame * TICKS_PER_FRAME,
            final(self).playing_flag(),
            final(self).items_view() == old(self).items_view(),
            final(self).durations_view() == old(self).durations_view(),
            final(self).looped_flag() == old(self).looped_flag(),
            final(self).speed_factor() == old(self).speed_factor(),
            old(self).wf() ==> final(self).wf(),
    {
        self.current_time = (frame as i64) * TICKS_PER_FRAME;
        self.playing = true;
    }

    /// Stops the animation and goes to the start of the given frame.
    pub fn goto_and_stop(&mut self, frame: usize)
        requires
            frame * TICKS_PER_FRAME <= MAX_TIME,
        ensures
            final(self).time() == frame * TICKS_PER_FRAME,
            !final(self).playing_flag(),
            final(self).items_view() == old(self).items_view(),
            final(self).durations_view() == old(self).durations_view(),
            final(self).looped_flag() == old(self).looped_flag(),
            final(self).speed_factor() == old(self).speed_factor(),
            old(self).wf() ==> final(self).wf(),
    {
        self.playing = false;
        self.current_time = (frame as i64) * TICKS_PER_FRAME;
    }

    /// The current frame index: the whole part of the clock, reduced
    /// modulo the item count with a non-negative remainder.
    pub fn current_frame(&self) -> (r: usize)
        requires
            self.wf(),
            self.items_view().len() > 0,
        ensures
            r as int == frame_of(self.time(), self.items_view().len() as int),
            r < self.items_view().len(),
    {
        let count = self.items.len() as i64;
        let q = self.current_time.checked_div_euclid(TICKS_PER_FRAME).unwrap();
        let r = q.checked_rem_euclid(count).unwrap();
        r as usize
    }

    fn frame_at(&self, t: i64) -> (r: usize)
        requires
            self.wf(),
            self.items_view().len() > 0,
        ensures
            r as int == frame_of(t as int, self.items_view().len() as int),
            r < self.items_view().len(),
    {
        let count = self.items.len() as i64;
        let q = t.checked_div_euclid(TICKS_PER_FRAME).unwrap();
        let r = q.checked_rem_euclid(count).unwrap();
        r as usize
    }

    /// Advances the clock by `dt` ticks of playback (scaled by the speed
    /// factor) and reports the frame event this produced, if any: the new
    /// frame with its wrap mark, or the clamped boundary frame when a
    /// non-looped animation ran off an end, which also stops it. The step
    /// is taken whether or not the animation is marked as playing.
    pub fn update(&mut self, dt: i64) -> (r: Option<(usize, bool)>)
        requires
            old(self).wf(),
            old(self).items_view().len() > 0,
            -MAX_DT <= dt <= MAX_DT,
            -MAX_TIME + UPDATE_MARGIN <= old(self).time() <= MAX_TIME - UPDATE_MARGIN,
        ensures
            final(self).wf(),
            final(self).items_view() == old(self).items_view(),
            final(self).durations_view() == old(self).durations_view(),
            final(self).looped_flag() == old(self).looped_flag(),
            final(self).speed_factor() == old(self).speed_factor(),
            final(self).time() == old(self).updated_time(dt as int),
            final(self).playing_flag() == old(self).updated_playing(dt as int),
            match r {
                Some(ev) => old(self).update_event(dt as int) == Some((ev.0 as int, ev.1)),
                None => old(self).update_event(dt as int) is None,
            },
    {
        let ghost durs = self.durations@;
        let ghost count = self.items@.len() as int;
        let ghost t0 = self.current_time as int;

        let prev = self.current_frame();

        proof {
            assert(-0x8_0000_0000_0000 <= dt * self.speed <= 0x8_0000_0000_0000)
                by (nonlinear_arith)
                requires
                    -MAX_DT <= dt <= MAX_DT,
                    -MAX_SPEED <= self.speed <= MAX_SPEED,
                    MAX_DT == 0x8000_0000,
                    MAX_SPEED == 0x10_0000,
            ;
        }
        let prod: i64 = dt * self.speed;
        let elapsed: i64 = prod.checked_div(SPEED_SCALE).unwrap();
        proof {
            assert(elapsed as int == elapsed_of(self.speed as int, dt as int));
            if prod >= 0 {
                vstd::arithmetic::div_mod::lemma_div_is_ordered(
                    prod as int,
                    0x8_0000_0000_0000,
                    1000,
                );
                vstd::arithmetic::div_mod::lemma_div_pos_is_pos(prod as int, 1000);
            } else {
                vstd::arithmetic::div_mod::lemma_div_is_ordered(
                    -(prod as int),
                    0x8_0000_0000_0000,
                    1000,
                );
                vstd::arithmetic::div_mod::lemma_div_pos_is_pos(-(prod as int), 1000);
            }
            assert(-3_000_000_000_000 <= elapsed <= 3_000_000_000_000);
        }

        if self.durations.len() > 0 {
            let s = TICKS_PER_FRAME;
            let f0 = self.current_frame();
            let d0 = self.durations[f0];
            let frac = self.current_time.checked_rem(s).unwrap();
            proof {
                if t0 >= 0 {
                    vstd::arithmetic::div_mod::lemma_mod_bound(t0, 1_000_000);
                } else {
                    vstd::arithmetic::div_mod::lemma_mod_bound(-t0, 1_000_000);
                }
                assert(frac as int == rem_trunc(t0, s as int));
                assert(-1_000_000 < frac < 1_000_000);
                assert(-3_000_000_000_000 <= 3 * (frac as int) * (d0 as int)
                    <= 3_000_000_000_000) by (nonlinear_arith)
                    requires
                        -1_000_000 < (frac as int) < 1_000_000,
                        1 <= (d0 as int) <= 1_000_000,
                ;
            }
            let mut lag: i64 = 3 * frac * d0 + 50 * elapsed;
            let mut t: i64 = self.current_time;
            let ghost lag0 = lag as int;
            assert(-153_000_000_000_000 <= lag0 <= 153_000_000_000_000);

            while lag < 0
                invariant
                    self.wf(),
                    durs == self.durations@,
                    count == self.items@.len() as int,
                    count > 0,
                    durs.len() == count,
                    -MAX_TIME + UPDATE_MARGIN <= t0 <= MAX_TIME - UPDATE_MARGIN,
                    -153_000_000_000_000 <= lag0 <= 153_000_000_000_000,
                    s == TICKS_PER_FRAME,
                    lag >= lag0,
                    lag == lag0 || lag <= 3_000_000_000_000,
                    t <= t0,
                    3 * (t0 - t as int) <= lag - lag0,
                    settle_back(t as int, lag as int, durs, count) == settle_back(
                        t0,
                        lag0,
                        durs,
                        count,
                    ),
                decreases (if lag < 0 {
                    -(lag as int)
                } else {
                    0
                }),
            {
                let ghost t_pre = t as int;
                let ghost lag_pre = lag as int;
                t = t - s;
                let f = self.frame_at(t);
                let d = self.durations[f];
                lag = lag + 3 * s * d;
                proof {
                    assert(dur_at(durs, frame_of(t as int, count)) == d as int);
                    assert(settle_back(t_pre, lag_pre, durs, count) == settle_back(
                        t as int,
                        lag as int,
                        durs,
                        count,
                    ));
                }
            }
            let ghost r1 = settle_back(t0, lag0, durs, count);
            proof {
                assert(settle_back(t as int, lag as int, durs, count) == (t as int, lag as int));
                assert(r1 == (t as int, lag as int));
            }
            assert(0 <= lag <= 153_000_000_000_000);
            assert(t0 - 102_000_000_000_000 <= t as int <= t0);

            let tq = t.checked_div_euclid(s).unwrap();
            proof {
                vstd::arithmetic::div_mod::lemma_fundamental_div_mod(t as int, s as int);
                vstd::arithmetic::div_mod::lemma_mod_bound(t as int, s as int);
            }
            t = tq * s;
            let ghost t1f = t as int;
            proof {
                assert(t1f == (r1.0 / (s as int)) * (s as int));
                assert(r1.0 - s < t1f <= r1.0);
            }

            let mut f = self.frame_at(t);
            let mut d = self.durations[f];
            proof {
                assert(d as int == self.durations_view()[f as int]);
                assert(1 <= self.durations_view()[f as int] <= MAX_DURATION);
            }
            let mut limit: i64 = 3 * s * d;
            let ghost lag1 = lag as int;
            while lag >= limit
                invariant
                    limit == 3 * (s as int) * (d as int),
                    self.wf(),
                    durs == self.durations@,
                    count == self.items@.len() as int,
                    count > 0,
                    durs.len() == count,
                    0 <= lag1 <= 153_000_000_000_000,
                    -MAX_TIME <= t1f <= MAX_TIME,
                    s == TICKS_PER_FRAME,
                    f as int == frame_of(t as int, count),
                    f < self.items@.len(),
                    d as int == dur_at(durs, frame_of(t as int, count)),
                    1 <= d <= MAX_DURATION,
                    0 <= lag <= lag1,
                    t1f <= t as int,
                    3 * (t as int - t1f) <= lag1 - lag,
                    settle_forward(t as int, lag as int, durs, count) == settle_forward(
                        t1f,
                        lag1,
                        durs,
                        count,
                    ),
                decreases lag,
            {
                let ghost t_pre = t as int;
                let ghost lag_pre = lag as int;
                proof {
                    assert(limit >= 3 * (s as int)) by (nonlinear_arith)
                        requires
                            limit == 3 * (s as int) * (d as int),
                            1 <= d,
                            s >= 1,
                    ;
                }
                lag = lag - limit;
                t = t + s;
                f = self.frame_at(t);
                d = self.durations[f];
                proof {
                    assert(d as int == self.durations_view()[f as int]);
                    assert(1 <= self.durations_view()[f as int] <= MAX_DURATION);
                }
                limit = 3_000_000 * d;
                proof {
                    assert(limit == 3 * (s as int) * (d as int)) by (nonlinear_arith)
                        requires
                            s == 1_000_000,
                            limit == 3_000_000 * (d as int),
                    ;
                    assert(settle_forward(t_pre, lag_pre, durs, count) == settle_forward(
                        t as int,
                        lag as int,
                        durs,
                        count,
                    ));
                }
            }
            let ghost r2 = settle_forward(t1f, lag1, durs, count);
            proof {
                assert(settle_forward(t as int, lag as int, durs, count) == (t as int, lag as int));
                assert(r2 == (t as int, lag as int));
            }

            let frac2 = lag.checked_div(3 * d).unwrap();
            proof {
                if lag > 0 {
                    vstd::arithmetic::div_mod::lemma_div_pos_is_pos(lag as int, 3 * (d as int));
                }
                vstd::arithmetic::div_mod::lemma_multiply_divide_lt(
                    lag as int,
                    3 * (d as int),
                    s as int,
                );
                assert(frac2 as int == (lag as int) / (3 * (d as int)));
                assert(0 <= frac2 < s);
            }
            t = t + frac2;
            proof {
                assert(d as int == dur_at(durs, frame_of(r2.0, count)));
                assert(t as int == r2.0 + r2.1 / (3 * dur_at(durs, frame_of(r2.0, count))));
                assert(d0 as int == dur_at(durs, frame_of(t0, count)));
                assert(lag0 == 3 * rem_trunc(t0, s as int) * (d0 as int) + 50 * (elapsed as int));
                assert(t as int == step_durations(t0, elapsed as int, durs, count));
            }
            self.current_time = t;
        } else {
            self.current_time = self.current_time + elapsed;
        }

        assert(self.current_time as int == old(self).stepped_time(dt as int));
        assert(-MAX_TIME <= self.current_time as int <= MAX_TIME);

        let count_e = self.items.len();
        let frame = self.current_frame();
        if self.current_time < 0 && !self.looped {
            self.playing = false;
            self.current_time = 0;
            Some((0, true))
        } else if self.current_time >= (count_e as i64) * TICKS_PER_FRAME && !self.looped {
            let last = count_e - 1;
            self.playing = false;
            self.current_time = (last as i64) * TICKS_PER_FRAME;
            Some((last, true))
        } else if prev != frame {
            let back = self.speed > 0 && frame < prev;
            let fore = self.speed < 0 && frame > prev;
            Some((frame, self.looped && (back || fore)))
        } else {
            None
        }
    }
}

} // verus!
