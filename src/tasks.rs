//! What each task decides when it runs: the effect on the LED ring, the bytes to send and
//! whether it arms itself again. Running the tasks and the peripherals is left to the caller.
use vstd::prelude::*;
use crate::arbiter::Task;
use crate::interpreter::CR;
use crate::led_ring::LedRing;
use crate::sensor::{is_level, orientation_pattern, pattern_of};

verus! {

/// Default number of clock cycles between two runs of a periodic task.
pub const PERIOD: u32 = 8_000_000;

/// The notifications sent on the serial line without being asked for.
#[derive(Clone, Copy, Debug, PartialEq, Eq, Structural)]
pub enum Notice {
    /// `init`: start-up is complete.
    Init,
    /// `button`: the user button was pressed.
    Button,
    /// `level`: the accelerometer reads zero on both axes.
    Level,
}

/// The bytes of a notification: its word in ASCII followed by a carriage return.
pub open spec fn notice_text(n: Notice) -> Seq<u8> {
    match n {
        Notice::Init => seq![0x69u8, 0x6e, 0x69, 0x74, CR],
        Notice::Button => seq![0x62u8, 0x75, 0x74, 0x74, 0x6f, 0x6e, CR],
        Notice::Level => seq![0x6cu8, 0x65, 0x76, 0x65, 0x6c, CR],
    }
}

/// What a periodic task hands back after one run.
pub struct StepOutcome {
    /// The bytes to send on the serial line.
    pub output: Vec<u8>,
    /// Whether the task arms itself to run again after one period.
    pub rearm: bool,
}

/// Returns the bytes of a notification.
pub fn notice_bytes(n: Notice) -> (r: Vec<u8>)
    ensures
        r@ == notice_text(n),
{
    let r: Vec<u8> = match n {
        Notice::Init => vec![0x69u8, 0x6e, 0x69, 0x74, CR],
        Notice::Button => vec![0x62u8, 0x75, 0x74, 0x74, 0x6f, 0x6e, CR],
        Notice::Level => vec![0x6cu8, 0x65, 0x76, 0x65, 0x6c, CR],
    };
    assert(r@ =~= notice_text(n));
    r
}

/// The periodic task that starts at start-up, given the ring's initial mode.
pub fn startup_task(ring: &LedRing) -> (r: Option<Task>)
    ensures
        r == (if ring@.is_cycle() {
            Some(Task::CycleLeds)
        } else if ring@.is_accel() {
            Some(Task::AccelLeds)
        } else {
            None
        }),
{
    if ring.is_mode_cycle() {
        Some(Task::CycleLeds)
    } else if ring.is_mode_accel() {
        Some(Task::AccelLeds)
    } else {
        None
    }
}

/// One run of the cycle task: in cycle mode the ring advances one step and the task arms
/// itself again; otherwise nothing changes and the task goes dormant.
pub fn cycle_step(ring: &mut LedRing) -> (rearm: bool)
    ensures
        rearm == old(ring)@.is_cycle(),
        final(ring)@ == (if rearm {
            old(ring)@.advanced()
        } else {
            old(ring)@
        }),
{
    if ring.is_mode_cycle() {
        ring.advance();
        true
    } else {
        false
    }
}

/// One run of the sensor task on a reading `(x, y)`: a level reading is reported; in
/// accelerometer mode the ring shows the orientation pattern and the task arms itself again,
/// otherwise the ring is left alone and the task goes dormant.
pub fn accel_step(ring: &mut LedRing, x: i8, y: i8) -> (r: StepOutcome)
    ensures
        r.output@ == (if x == 0 && y == 0 {
            notice_text(Notice::Level)
        } else {
            Seq::<u8>::empty()
        }),
        r.rearm == old(ring)@.is_accel(),
        final(ring)@ == (if r.rearm {
            old(ring)@.with_leds(pattern_of(x, y))
        } else {
            old(ring)@
        }),
{
    let output: Vec<u8> = if is_level(x, y) {
        notice_bytes(Notice::Level)
    } else {
        Vec::new()
    };
    if ring.is_mode_accel() {
        ring.specific_on(orientation_pattern(x, y));
        StepOutcome { output, rearm: true }
    } else {
        StepOutcome { output, rearm: false }
    }
}

/// The button handler: reverses the cycle direction and returns the notification to send.
pub fn button_step(ring: &mut LedRing) -> (r: Vec<u8>)
    ensures
        final(ring)@ == old(ring)@.reversed(),
        r@ == notice_text(Notice::Button),
{
    ring.reverse();
    notice_bytes(Notice::Button)
}

} // verus!
