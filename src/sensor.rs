//! The accelerometer: the frames exchanged on the sensor bus and the mapping from a tilt
//! reading to the pattern of lit LEDs.
use vstd::prelude::*;

verus! {

/// Register address of the control register that powers the sensor up.
pub const CTRL_REG1: u8 = 0x20;

/// Control value: normal power mode, 100 Hz output rate, X, Y and Z axes enabled.
pub const CTRL_POWER_UP_XYZ: u8 = 0x47;

/// Register address of the X axis output (followed by Y at two addresses further).
pub const OUT_X: u8 = 0x29;

/// Read bit and auto-increment bit of a register address sent on the bus.
pub const READ_MULTIPLE: u8 = 0xC0;

/// The value of a byte read as a two's-complement signed number.
pub open spec fn signed_of(b: u8) -> int {
    if b < 128 {
        b as int
    } else {
        b as int - 256
    }
}

/// The pattern `[east, south, west, north]` of LEDs to light for a tilt reading: the LEDs on
/// the side pointing down are lit.
pub open spec fn pattern_of(x: i8, y: i8) -> Seq<bool> {
    seq![y < 0, x < 0, y > 0, x > 0]
}

/// The frame that initializes the sensor: a write of the power-up value to the control register.
pub fn init_frame() -> (r: [u8; 2])
    ensures
        r@ == seq![CTRL_REG1, CTRL_POWER_UP_XYZ],
{
    [CTRL_REG1, CTRL_POWER_UP_XYZ]
}

/// The frame that reads one sample: the read command for the X output register followed by
/// three placeholder bytes, during which X, a reserved byte and Y are clocked back.
pub fn read_frame() -> (r: [u8; 4])
    ensures
        r@ == seq![READ_MULTIPLE | OUT_X, 0u8, 0u8, 0u8],
        r@[0] == 0xE9,
{
    let command: u8 = READ_MULTIPLE | OUT_X;
    assert(command == 0xE9) by (bit_vector)
        requires
            command == READ_MULTIPLE | OUT_X,
    ;
    [command, 0, 0, 0]
}

/// Reads a byte as a two's-complement signed number.
pub fn to_signed(b: u8) -> (r: i8)
    ensures
        r as int == signed_of(b),
{
    if b < 128 {
        b as i8
    } else {
        (b as i16 - 256) as i8
    }
}

/// The X and Y readings in the response to a read frame.
pub fn axes_from_response(response: [u8; 4]) -> (r: (i8, i8))
    ensures
        r.0 as int == signed_of(response@[1]),
        r.1 as int == signed_of(response@[3]),
{
    (to_signed(response[1]), to_signed(response[3]))
}

/// Converts a tilt reading into the pattern `[east, south, west, north]` of LEDs to light.
pub fn orientation_pattern(x: i8, y: i8) -> (r: [bool; 4])
    ensures
        r@ == pattern_of(x, y),
{
    let r: [bool; 4] = [y < 0, x < 0, y > 0, x > 0];
    assert(r@ =~= pattern_of(x, y));
    r
}

/// Whether the board lies level: both axes read exactly zero.
pub fn is_level(x: i8, y: i8) -> (r: bool)
    ensures
        r == (x == 0 && y == 0),
{
    x == 0 && y == 0
}

} // verus!
