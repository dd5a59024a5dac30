//! The spin state machine: a press freezes the wheel, the release sets it
//! spinning with the momentum of the drag, and each tick turns it by a
//! speed that decays linearly until it stops.
//!
//! The rotation is kept in hundred-thousandths of a radian, time in
//! milliseconds and momentum in thousandths, so that a speed of
//! `(momentum - elapsed) / 100` radians per tick is exactly
//! `momentum - elapsed` rotation units.
use vstd::prelude::*;
use crate::gesture::{drag_momentum, momentum_spec, lemma_still_drag, Point};

verus! {

/// Rotation units in one radian.
pub const UNITS_PER_RADIAN: i64 = 100_000;

/// Milliseconds in one second.
pub const MILLIS_PER_SECOND: i64 = 1000;

/// Below this speed, in rotation units per tick, a spinning wheel stops:
/// a thousandth of a radian.
pub const STOP_SPEED: i128 = 100;

/// Whether the wheel stands still or spins.
#[derive(Clone, Copy, Debug, PartialEq, Eq, Structural)]
pub enum SpinState {
    /// Frozen at `angle`.
    Stopped { angle: i64 },
    /// Set spinning at `start_time` with `momentum`.
    Spinning { start_time: i64, momentum: u64 },
}

/// The state of the wheel: its live rotation, whether it spins, and the
/// position of a press that has not been released yet.
#[derive(Clone, Copy, Debug)]
pub struct Wheel {
    pub rotation: i64,
    pub spin: SpinState,
    pub gesture: Option<Point>,
}

/// Speed, in rotation units per tick, after `time` milliseconds of a spin
/// with `momentum`.
pub open spec fn decay_spec(time: int, momentum: int) -> int {
    momentum - time
}

/// Linear decay: the speed of a spin with `momentum` after `time`
/// milliseconds.
pub fn decelerate(time: i128, momentum: u64) -> (r: i128)
    requires
        -0x1_0000_0000_0000_0000 <= time <= 0x1_0000_0000_0000_0000,
    ensures
        r == decay_spec(time as int, momentum as int),
{
    momentum as i128 - time
}

impl Wheel {
    /// A frozen wheel shows its frozen angle.
    pub open spec fn wf(&self) -> bool {
        match self.spin {
            SpinState::Stopped { angle } => self.rotation == angle,
            SpinState::Spinning { .. } => true,
        }
    }

    /// The wheel frozen where it stands.
    pub open spec fn stopped(self) -> Wheel {
        Wheel { spin: SpinState::Stopped { angle: self.rotation }, ..self }
    }

    /// The wheel set spinning at `now` with `momentum`.
    pub open spec fn started(self, now: i64, momentum: u64) -> Wheel {
        Wheel { spin: SpinState::Spinning { start_time: now, momentum }, ..self }
    }

    /// After a press at `p`: with no press pending, the press is recorded
    /// and the wheel frozen; otherwise nothing changes.
    pub open spec fn pressed(self, p: Point) -> Wheel {
        match self.gesture {
            Some(_) => self,
            None => Wheel { gesture: Some(p), ..self.stopped() },
        }
    }

    /// After a release at `p` at time `now`: a pending press is consumed
    /// and the wheel spins with the momentum of the drag; with none
    /// pending nothing changes.
    pub open spec fn released(self, p: Point, now: i64) -> Wheel {
        match self.gesture {
            Some(g) => Wheel { gesture: None, ..self.started(now, momentum_spec(g, p) as u64) },
            None => self,
        }
    }

    /// Speed of the spin at time `now` (zero when frozen).
    pub open spec fn speed_at(self, now: i64) -> int {
        match self.spin {
            SpinState::Spinning { start_time, momentum } => decay_spec(
                now - start_time,
                momentum as int,
            ),
            SpinState::Stopped { .. } => 0,
        }
    }

    /// A tick at `now` keeps the rotation within `i64`.
    pub open spec fn update_fits(self, now: i64) -> bool {
        match self.spin {
            SpinState::Spinning { .. } => self.speed_at(now) < STOP_SPEED || self.rotation
                + self.speed_at(now) <= i64::MAX,
            SpinState::Stopped { .. } => true,
        }
    }

    /// After a tick at `now`: a spinning wheel turns by its speed, or stops
    /// where it stands once the speed falls below `STOP_SPEED`; a frozen
    /// wheel shows its frozen angle.
    pub open spec fn updated(self, now: i64) -> Wheel {
        match self.spin {
            SpinState::Spinning { .. } => if self.speed_at(now) < STOP_SPEED {
                self.stopped()
            } else {
                Wheel { rotation: (self.rotation + self.speed_at(now)) as i64, ..self }
            },
            SpinState::Stopped { angle } => Wheel { rotation: angle, ..self },
        }
    }

    /// A wheel at rest at angle zero, with no press pending.
    pub fn new() -> (r: Wheel)
        ensures
            r.wf(),
            r.rotation == 0,
            r.spin == (SpinState::Stopped { angle: 0 }),
            r.gesture.is_none(),
    {
        Wheel { rotation: 0, spin: SpinState::Stopped { angle: 0 }, gesture: None }
    }

    /// Whether the wheel spins.
    pub fn is_running(&self) -> (r: bool)
        ensures
            r == self.spin is Spinning,
    {
        match self.spin {
            SpinState::Spinning { .. } => true,
            SpinState::Stopped { .. } => false,
        }
    }

    /// Freezes the wheel where it stands.
    pub fn stop(&mut self)
        ensures
            *final(self) == old(self).stopped(),
            final(self).wf(),
    {
        self.spin = SpinState::Stopped { angle: self.rotation };
    }

    /// Sets the wheel spinning at `now` with `momentum`.
    pub fn start(&mut self, now: i64, momentum: u64)
        ensures
            *final(self) == old(self).started(now, momentum),
            final(self).wf(),
    {
        self.spin = SpinState::Spinning { start_time: now, momentum };
    }

    /// A press at `p`.
    pub fn mouse_pressed(&mut self, p: Point)
        requires
            old(self).wf(),
        ensures
            *final(self) == old(self).pressed(p),
            final(self).wf(),
    {
        match self.gesture {
            Some(_) => {},
            None => {
                self.gesture = Some(p);
                self.stop();
            },
        }
    }

    /// A release at `p` at time `now`.
    pub fn mouse_released(&mut self, p: Point, now: i64)
        requires
            old(self).wf(),
        ensures
            *final(self) == old(self).released(p, now),
            final(self).wf(),
    {
        match self.gesture {
            Some(g) => {
                let momentum = drag_momentum(g, p);
                self.gesture = None;
                self.start(now, momentum);
            },
            None => {},
        }
    }

    /// Whether a tick at `now` keeps the rotation within `i64`.
    pub fn can_update(&self, now: i64) -> (r: bool)
        ensures
            r == self.update_fits(now),
    {
        match self.spin {
            SpinState::Spinning { start_time, momentum } => {
                let speed = decelerate(now as i128 - start_time as i128, momentum);
                speed < STOP_SPEED || self.rotation as i128 + speed <= i64::MAX as i128
            },
            SpinState::Stopped { .. } => true,
        }
    }

    /// A tick of the clock at time `now`.
    pub fn update(&mut self, now: i64)
        requires
            old(self).wf(),
            old(self).update_fits(now),
        ensures
            *final(self) == old(self).updated(now),
            final(self).wf(),
    {
        match self.spin {
            SpinState::Spinning { start_time, momentum } => {
                let speed = decelerate(now as i128 - start_time as i128, momentum);
                if speed < STOP_SPEED {
                    self.stop();
                } else {
                    self.rotation = (self.rotation as i128 + speed) as i64;
                }
            },
            SpinState::Stopped { angle } => {
                self.rotation = angle;
            },
        }
    }
}

/// The wheel after a tick at each of `times`, in order.
pub open spec fn updated_all(w: Wheel, times: Seq<i64>) -> Wheel
    decreases times.len(),
{
    if times.len() == 0 {
        w
    } else {
        updated_all(w.updated(times[0]), times.drop_first())
    }
}

/// A spin's speed at its start is its momentum (`momentum / 100` radians
/// per tick).
pub proof fn lemma_decay_at_start(w: Wheel, start_time: i64, momentum: u64)
    requires
        w.spin == (SpinState::Spinning { start_time, momentum }),
    ensures
        w.speed_at(start_time) == momentum,
{
}

/// Once as many milliseconds as the momentum have passed, the speed is at
/// most zero and the next tick stops the wheel where it stands.
pub proof fn lemma_decay_exhausted(w: Wheel, now: i64)
    requires
        w.wf(),
        w.spin matches SpinState::Spinning { start_time, momentum } && now - start_time
            >= momentum,
    ensures
        w.speed_at(now) <= 0,
        w.updated(now) == w.stopped(),
        w.updated(now).rotation == w.rotation,
        w.updated(now).spin == (SpinState::Stopped { angle: w.rotation }),
{
}

/// Ticks never move a frozen wheel, however many there are.
pub proof fn lemma_stopped_stays(w: Wheel, times: Seq<i64>)
    requires
        w.wf(),
        w.spin is Stopped,
    ensures
        updated_all(w, times) == w,
    decreases times.len(),
{
    if times.len() > 0 {
        lemma_stopped_stays(w.updated(times[0]), times.drop_first());
    }
}

/// A press and a release at the same position leave no momentum: the
/// first tick after the release stops the wheel at the angle it had.
pub proof fn lemma_still_gesture(w: Wheel, p: Point, t: i64, now: i64)
    requires
        w.wf(),
        w.gesture.is_none(),
        t <= now,
    ensures
        w.pressed(p).released(p, t).spin == (SpinState::Spinning { start_time: t, momentum: 0 }),
        w.pressed(p).released(p, t).updated(now).spin == (SpinState::Stopped {
            angle: w.rotation,
        }),
        w.pressed(p).released(p, t).updated(now).rotation == w.rotation,
        w.pressed(p).released(p, t).updated(now).gesture.is_none(),
{
    lemma_still_drag(p);
}

} // verus!
