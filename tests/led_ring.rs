use stm32f4disc_demo::led_ring::{Direction, LedRing, Mode};

fn get_4() -> [bool; 4] {
    [false, false, false, false]
}

fn assert_pins(pins: [bool; 4], expected: [bool; 4]) {
    assert_eq!(pins[0], expected[0], "(pin 0)");
    assert_eq!(pins[1], expected[1], "(pin 1)");
    assert_eq!(pins[2], expected[2], "(pin 2)");
    assert_eq!(pins[3], expected[3], "(pin 3)");
}

#[test]
fn direction_flip() {
    let cw_dir = Direction::Clockwise;
    assert_eq!(cw_dir.flip(), Direction::CounterClockwise);
    let ccw_dir = Direction::CounterClockwise;
    assert_eq!(ccw_dir.flip(), Direction::Clockwise);
}

#[test]
fn led_ring_init() {
    let led_ring = LedRing::from(get_4());

    assert_eq!(led_ring.direction(), Direction::Clockwise);
    assert_eq!(led_ring.mode(), Mode::Cycle);
}

#[test]
fn led_ring_mode() {
    let mut led_ring = LedRing::from(get_4());

    led_ring.enable_accel();
    assert_eq!(led_ring.mode(), Mode::Accelerometer);
    assert!(led_ring.is_mode_accel());
    assert!(!led_ring.is_mode_cycle());

    led_ring.disable();
    assert_eq!(led_ring.mode(), Mode::Off);
    assert!(!led_ring.is_mode_accel());
    assert!(!led_ring.is_mode_cycle());

    led_ring.enable_cycle();
    assert_eq!(led_ring.mode(), Mode::Cycle);
    assert!(!led_ring.is_mode_accel());
    assert!(led_ring.is_mode_cycle());
}

#[test]
fn led_ring_direction() {
    let mut led_ring = LedRing::from(get_4());

    led_ring.reverse();
    assert_eq!(led_ring.direction(), Direction::CounterClockwise);

    led_ring.reverse();
    assert_eq!(led_ring.direction(), Direction::Clockwise);
}

#[test]
fn led_ring_advance() {
    let mut led_ring = LedRing::from(get_4());

    assert_pins(led_ring.leds_mut(), [false, false, false, false]);
    led_ring.advance();
    assert_pins(led_ring.leds_mut(), [true, false, false, false]);
    led_ring.advance();
    assert_pins(led_ring.leds_mut(), [true, true, false, false]);
    led_ring.advance();
    assert_pins(led_ring.leds_mut(), [false, true, true, false]);
    led_ring.advance();
    assert_pins(led_ring.leds_mut(), [false, false, true, true]);
    led_ring.advance();
    assert_pins(led_ring.leds_mut(), [true, false, false, true]);
    led_ring.advance();
    assert_pins(led_ring.leds_mut(), [true, true, false, false]);
    led_ring.advance();
}

#[test]
fn led_ring_all_on_off() {
    let mut led_ring = LedRing::from(get_4());

    assert_pins(led_ring.leds_mut(), [false, false, false, false]);
    led_ring.all_on();
    assert_pins(led_ring.leds_mut(), [true, true, true, true]);
    led_ring.all_off();
    assert_pins(led_ring.leds_mut(), [false, false, false, false]);
}

#[test]
fn led_ring_specific_on() {
    let mut led_ring = LedRing::from(get_4());

    assert_pins(led_ring.leds_mut(), [false, false, false, false]);
    led_ring.specific_on([true, false, true, false]);
    assert_pins(led_ring.leds_mut(), [true, false, true, false]);
}

#[test]
fn advance_counter_clockwise_sequence() {
    let mut led_ring = LedRing::from(get_4());
    led_ring.reverse();
    led_ring.advance();
    assert_eq!(led_ring.leds_mut(), [true, false, false, false]);
    led_ring.advance();
    assert_eq!(led_ring.leds_mut(), [true, false, false, true]);
    led_ring.advance();
    assert_eq!(led_ring.leds_mut(), [false, false, true, true]);
    led_ring.advance();
    assert_eq!(led_ring.leds_mut(), [false, true, true, false]);
    led_ring.advance();
    assert_eq!(led_ring.leds_mut(), [true, true, false, false]);
}

#[test]
fn four_advances_light_each_led_once() {
    for reversed in [false, true] {
        let mut led_ring = LedRing::from(get_4());
        if reversed {
            led_ring.reverse();
        }
        let mut lit_count = [0u32; 4];
        // Prime the ring, then watch four steps.
        led_ring.advance();
        led_ring.advance();
        for _ in 0..4 {
            let before = led_ring.leds_mut();
            led_ring.advance();
            let after = led_ring.leds_mut();
            for p in 0..4 {
                if after[p] && !before[p] {
                    lit_count[p] += 1;
                }
            }
            assert_eq!(after.iter().filter(|l| **l).count(), 2);
        }
        assert_eq!(lit_count, [1, 1, 1, 1]);
    }
}

#[test]
fn reverse_twice_restores_direction() {
    let mut led_ring = LedRing::from(get_4());
    led_ring.reverse();
    led_ring.reverse();
    assert_eq!(led_ring.direction(), Direction::Clockwise);
    led_ring.reverse();
    assert_eq!(led_ring.direction(), Direction::CounterClockwise);
    led_ring.reverse();
    led_ring.reverse();
    assert_eq!(led_ring.direction(), Direction::CounterClockwise);
}

#[test]
fn reverse_takes_effect_on_next_advance_only() {
    let mut led_ring = LedRing::from(get_4());
    led_ring.advance();
    led_ring.reverse();
    assert_eq!(led_ring.leds_mut(), [true, false, false, false]);
    led_ring.advance();
    // Index had moved to 1 before the reversal: LED 1 lights, LED 3 clears.
    assert_eq!(led_ring.leds_mut(), [true, true, false, false]);
    led_ring.advance();
    // Counter-clockwise from 1 leads back to 0.
    assert_eq!(led_ring.leds_mut(), [true, true, false, false]);
    led_ring.advance();
    assert_eq!(led_ring.leds_mut(), [true, false, false, true]);
}

#[test]
fn mode_setters_idempotent_and_exclusive() {
    let mut led_ring = LedRing::from(get_4());
    led_ring.enable_cycle();
    led_ring.enable_cycle();
    assert!(led_ring.is_mode_cycle() && !led_ring.is_mode_accel());
    led_ring.enable_accel();
    led_ring.enable_accel();
    assert!(!led_ring.is_mode_cycle() && led_ring.is_mode_accel());
    led_ring.disable();
    led_ring.disable();
    assert!(!led_ring.is_mode_cycle() && !led_ring.is_mode_accel());
    assert_eq!(led_ring.mode(), Mode::Off);
}

#[test]
fn modes_leave_outputs_alone() {
    let mut led_ring = LedRing::from([true, false, true, false]);
    led_ring.disable();
    led_ring.enable_accel();
    led_ring.reverse();
    assert_eq!(led_ring.leds_mut(), [true, false, true, false]);
    led_ring.all_on();
    assert_eq!(led_ring.mode(), Mode::Accelerometer);
}
