//! The LED ring: four output levels animated by a rotating cycle or set from a pattern.
use vstd::prelude::*;

verus! {

/// Number of LEDs on the ring.
pub const NUM_LEDS: usize = 4;

/// The cycle direction of the LED ring.
///
/// The direction can be interpreted as such when the mini-USB port of the board is being held
/// down.
#[derive(Clone, Copy, Debug, PartialEq, Eq, Structural)]
pub enum Direction {
    /// Cycle clockwise.
    Clockwise,
    /// Cycle counter-clockwise.
    CounterClockwise,
}

impl Direction {
    /// The opposite direction.
    pub open spec fn flipped(self) -> Direction {
        match self {
            Direction::Clockwise => Direction::CounterClockwise,
            Direction::CounterClockwise => Direction::Clockwise,
        }
    }

    /// How far the leading index moves (modulo the ring size) on one step.
    pub open spec fn step(self) -> int {
        match self {
            Direction::Clockwise => 1,
            Direction::CounterClockwise => 3,
        }
    }

    /// Returns the flipped/reversed direction.
    pub fn flip(&self) -> (r: Direction)
        ensures
            r == self.flipped(),
    {
        match self {
            Direction::Clockwise => Direction::CounterClockwise,
            Direction::CounterClockwise => Direction::Clockwise,
        }
    }
}

/// The mode the LED ring is in.
#[derive(Clone, Copy, Debug, PartialEq, Eq, Structural)]
pub enum Mode {
    /// All LEDs are off.
    Off,
    /// The LEDs are cycling (two on at any time) following some direction.
    Cycle,
    /// The LEDs follow the accelerometer (shows which side of the board is pointing down).
    Accelerometer,
}

/// The abstract state of a ring: its direction, mode, leading index and the four output levels
/// in the order `[east, south, west, north]`.
pub struct RingView {
    pub direction: Direction,
    pub mode: Mode,
    pub index: int,
    pub leds: Seq<bool>,
}

impl RingView {
    /// The leading index is a position of the ring and there are exactly four outputs.
    pub open spec fn wf(self) -> bool {
        0 <= self.index < NUM_LEDS && self.leds.len() == NUM_LEDS
    }

    pub open spec fn with_mode(self, mode: Mode) -> RingView {
        RingView { mode, ..self }
    }

    pub open spec fn reversed(self) -> RingView {
        RingView { direction: self.direction.flipped(), ..self }
    }

    /// One cycle step: the output at the index goes high, the one opposite to it goes low, and
    /// the index moves one position in the current direction.
    pub open spec fn advanced(self) -> RingView {
        RingView {
            index: (self.index + self.direction.step()) % (NUM_LEDS as int),
            leds: self.leds.update(self.index, true).update(
                (self.index + 2) % (NUM_LEDS as int),
                false,
            ),
            ..self
        }
    }

    pub open spec fn with_leds(self, leds: Seq<bool>) -> RingView {
        RingView { leds, ..self }
    }

    /// The state after `n` cycle steps.
    pub open spec fn advanced_n(self, n: nat) -> RingView
        decreases n,
    {
        if n == 0 {
            self
        } else {
            self.advanced_n((n - 1) as nat).advanced()
        }
    }

    /// Output `p` is the one lit by one of the next four cycle steps.
    pub open spec fn lit_within_four(self, p: int) -> bool {
        exists|k: nat| k < 4 && #[trigger] self.advanced_n(k).index == p
    }

    pub open spec fn is_cycle(self) -> bool {
        self.mode == Mode::Cycle
    }

    pub open spec fn is_accel(self) -> bool {
        self.mode == Mode::Accelerometer
    }
}

/// The LED ring.
///
/// The ring on this board is comprised of four LEDs. This struct keeps the level that each of
/// them is driven to, in the order `[east, south, west, north]`, and provides methods for
/// animating them.
pub struct LedRing {
    /// The current cycle direction.
    direction: Direction,
    /// The current mode.
    mode: Mode,
    /// The index of the current LED being lit.
    index: usize,
    /// The output levels of the LEDs comprising the ring (`true` is lit).
    leds: [bool; 4],
}

impl View for LedRing {
    type V = RingView;

    closed spec fn view(&self) -> RingView {
        RingView {
            direction: self.direction,
            mode: self.mode,
            index: self.index as int,
            leds: self.leds@,
        }
    }
}

impl LedRing {
    #[verifier::type_invariant]
    spec fn inv(self) -> bool {
        self.index < NUM_LEDS
    }

    /// Sets up the LED ring from the four current LED output levels.
    pub fn from(leds: [bool; 4]) -> (r: LedRing)
        ensures
            r@ == (RingView {
                direction: Direction::Clockwise,
                mode: Mode::Cycle,
                index: 0,
                leds: leds@,
            }),
    {
        LedRing { direction: Direction::Clockwise, mode: Mode::Cycle, index: 0, leds }
    }

    /// Returns the current cycle mode.
    pub fn mode(&self) -> (r: Mode)
        ensures
            r == self@.mode,
    {
        self.mode
    }

    /// Enables cycle mode.
    pub fn enable_cycle(&mut self)
        ensures
            final(self)@ == old(self)@.with_mode(Mode::Cycle),
    {
        proof {
            use_type_invariant(&*self);
        }
        self.mode = Mode::Cycle;
    }

    /// Enables accelerometer mode.
    pub fn enable_accel(&mut self)
        ensures
            final(self)@ == old(self)@.with_mode(Mode::Accelerometer),
    {
        proof {
            use_type_invariant(&*self);
        }
        self.mode = Mode::Accelerometer;
    }

    /// Disables either cycle or accelerometer mode.
    pub fn disable(&mut self)
        ensures
            final(self)@ == old(self)@.with_mode(Mode::Off),
    {
        proof {
            use_type_invariant(&*self);
        }
        self.mode = Mode::Off;
    }

    /// Returns whether the LED ring is in cycle mode.
    pub fn is_mode_cycle(&self) -> (r: bool)
        ensures
            r == self@.is_cycle(),
    {
        self.mode == Mode::Cycle
    }

    /// Returns whether the LED ring is in accelerometer mode.
    pub fn is_mode_accel(&self) -> (r: bool)
        ensures
            r == self@.is_accel(),
    {
        self.mode == Mode::Accelerometer
    }

    /// Returns the current cycle direction.
    pub fn direction(&self) -> (r: Direction)
        ensures
            r == self@.direction,
    {
        self.direction
    }

    /// Reverses the cycle direction.
    ///
    /// This has no immediately visible effect; the new direction is used by the next step.
    pub fn reverse(&mut self)
        ensures
            final(self)@ == old(self)@.reversed(),
    {
        proof {
            use_type_invariant(&*self);
        }
        self.direction = self.direction.flip();
    }

    /// Advances the cycling one step.
    ///
    /// This has a directly visible effect regardless of the mode the LED ring is in and
    /// overrides what is shown at that moment.
    pub fn advance(&mut self)
        ensures
            final(self)@ == old(self)@.advanced(),
    {
        proof {
            use_type_invariant(&*self);
        }
        let num_leds: usize = NUM_LEDS;
        let index: usize = self.index;
        let mut leds: [bool; 4] = self.leds;
        leds[index] = true;
        leds[(index + 2) % num_leds] = false;
        let next: usize = match self.direction {
            Direction::Clockwise => (index + 1) % num_leds,
            Direction::CounterClockwise => (index + 3) % num_leds,
        };
        *self = LedRing { direction: self.direction, mode: self.mode, index: next, leds };
    }

    /// Turns all LEDs on.
    ///
    /// This is done immediately, regardless of the current mode.
    pub fn all_on(&mut self)
        ensures
            final(self)@ == old(self)@.with_leds(seq![true, true, true, true]),
    {
        proof {
            use_type_invariant(&*self);
        }
        self.leds = [true, true, true, true];
    }

    /// Turns all LEDs off.
    ///
    /// This is done immediately, regardless of the current mode.
    pub fn all_off(&mut self)
        ensures
            final(self)@ == old(self)@.with_leds(seq![false, false, false, false]),
    {
        proof {
            use_type_invariant(&*self);
        }
        self.leds = [false, false, false, false];
    }

    /// Turns on specific LEDs based on the "direction" array.
    ///
    /// When looking with the mini-USB port of the board held down (south), the directions of
    /// the array can be interpreted as: `[east, south, west, north]`.
    pub fn specific_on(&mut self, directions: [bool; 4])
        ensures
            final(self)@ == old(self)@.with_leds(directions@),
    {
        proof {
            use_type_invariant(&*self);
        }
        self.leds = directions;
    }

    /// Returns the current output levels, as `[east, south, west, north]`.
    pub fn leds_mut(&self) -> (r: [bool; 4])
        ensures
            r@ == self@.leds,
    {
        self.leds
    }
}

/// Four cycle steps bring the leading index back to where it started, whatever the direction.
/// On the way each of the four outputs is lit exactly once, and the output lit on one step is
/// the one cleared two steps later.
pub proof fn lemma_four_steps_visit_all(v: RingView)
    requires
        v.wf(),
    ensures
        v.advanced_n(4).index == v.index,
        forall|p: int| 0 <= p < NUM_LEDS ==> #[trigger] v.lit_within_four(p),
        forall|j: nat, k: nat|
            j < k < 4 ==> #[trigger] v.advanced_n(j).index != #[trigger] v.advanced_n(k).index,
        forall|k: nat|
            k < 4 ==> (#[trigger] v.advanced_n(k + 2).index + 2) % (NUM_LEDS as int)
                == v.advanced_n(k).index,
{
    let d = v.direction;
    let i = v.index;
    let a1 = v.advanced_n(1);
    let a2 = v.advanced_n(2);
    let a3 = v.advanced_n(3);
    let a4 = v.advanced_n(4);
    let a5 = v.advanced_n(5);
    assert(v.advanced_n(0) == v);
    assert(a1.direction == d && a2.direction == d && a3.direction == d && a4.direction == d);
    if d == Direction::Clockwise {
        assert(a1.index == (i + 1) % 4);
        assert(a2.index == (i + 2) % 4);
        assert(a3.index == (i + 3) % 4);
        assert(a4.index == i);
        assert(a5.index == (i + 1) % 4);
    } else {
        assert(a1.index == (i + 3) % 4);
        assert(a2.index == (i + 2) % 4);
        assert(a3.index == (i + 1) % 4);
        assert(a4.index == i);
        assert(a5.index == (i + 3) % 4);
    }
    assert forall|p: int| 0 <= p < NUM_LEDS implies #[trigger] v.lit_within_four(p) by {
        if v.advanced_n(0).index == p {
        } else if a1.index == p {
        } else if a2.index == p {
        } else {
            assert(a3.index == p);
        }
    }
}

/// Reversing twice restores the original direction, and nothing else changes.
pub proof fn lemma_reverse_twice(v: RingView)
    ensures
        v.reversed().reversed() == v,
        v.reversed().direction != v.direction,
{
}

/// Enabling a mode or disabling is idempotent, and afterwards exactly one of "cycle",
/// "accelerometer" and "neither" holds, the one that was asked for.
pub proof fn lemma_modes_idempotent_exclusive(v: RingView)
    ensures
        v.with_mode(Mode::Cycle).with_mode(Mode::Cycle) == v.with_mode(Mode::Cycle),
        v.with_mode(Mode::Accelerometer).with_mode(Mode::Accelerometer) == v.with_mode(
            Mode::Accelerometer,
        ),
        v.with_mode(Mode::Off).with_mode(Mode::Off) == v.with_mode(Mode::Off),
        v.with_mode(Mode::Cycle).is_cycle() && !v.with_mode(Mode::Cycle).is_accel(),
        v.with_mode(Mode::Accelerometer).is_accel() && !v.with_mode(Mode::Accelerometer).is_cycle(),
        !v.with_mode(Mode::Off).is_cycle() && !v.with_mode(Mode::Off).is_accel(),
{
}

} // verus!
