use stm32f4disc_demo::arbiter::Task;
use stm32f4disc_demo::interpreter::{parse_command, Command, CommandInterpreter, Reply};
use stm32f4disc_demo::led_ring::{Direction, LedRing, Mode};

fn feed(interp: &mut CommandInterpreter, ring: &mut LedRing, bytes: &[u8]) -> Vec<Reply> {
    bytes.iter().map(|b| interp.handle_byte(ring, *b)).collect()
}

fn fresh() -> (CommandInterpreter, LedRing) {
    (CommandInterpreter::new(), LedRing::from([false; 4]))
}

#[test]
fn cycle_line_dispatches_once_and_clears() {
    let (mut interp, mut ring) = fresh();
    ring.disable();
    let replies = feed(&mut interp, &mut ring, b"cycle\r");
    let spawns: Vec<Option<Task>> = replies.iter().map(|r| r.spawn).collect();
    assert_eq!(spawns, vec![None, None, None, None, None, Some(Task::CycleLeds)]);
    assert_eq!(ring.mode(), Mode::Cycle);
    assert_eq!(interp.line(), b"");
    let reply = interp.handle_byte(&mut ring, b'x');
    assert_eq!(reply.output, b"x".to_vec());
    assert_eq!(reply.spawn, None);
    assert_eq!(interp.line(), b"x");
}

#[test]
fn echo_and_line_feed_on_known_command() {
    let (mut interp, mut ring) = fresh();
    let replies = feed(&mut interp, &mut ring, b"flip\r");
    let output: Vec<u8> = replies.iter().flat_map(|r| r.output.clone()).collect();
    assert_eq!(output, b"flip\r\n".to_vec());
    assert_eq!(ring.direction(), Direction::CounterClockwise);
}

#[test]
fn unknown_command_replies_question_mark() {
    let (mut interp, mut ring) = fresh();
    let replies = feed(&mut interp, &mut ring, b"Flip\r");
    let last = replies.last().unwrap();
    assert_eq!(last.output, b"\r\n?\r".to_vec());
    assert_eq!(last.spawn, None);
    assert_eq!(ring.direction(), Direction::Clockwise);
    assert_eq!(ring.mode(), Mode::Cycle);
    assert_eq!(interp.line(), b"");
}

#[test]
fn empty_line_is_unknown() {
    let (mut interp, mut ring) = fresh();
    let reply = interp.handle_byte(&mut ring, b'\r');
    assert_eq!(reply.output, b"\r\n?\r".to_vec());
}

#[test]
fn ninth_byte_is_dropped() {
    let (mut interp, mut ring) = fresh();
    let replies = feed(&mut interp, &mut ring, b"abcdefghi");
    let overflows: Vec<bool> = replies.iter().map(|r| r.overflow).collect();
    assert_eq!(overflows, vec![false, false, false, false, false, false, false, false, true]);
    assert_eq!(interp.line(), b"abcdefgh");
    assert_eq!(interp.line().len(), 8);
    assert_eq!(replies[8].output, b"i".to_vec());
}

#[test]
fn delete_on_empty_line_is_noop() {
    let (mut interp, mut ring) = fresh();
    let reply = interp.handle_byte(&mut ring, 0x7F);
    assert_eq!(reply.output, b"\r".to_vec());
    assert_eq!(reply.spawn, None);
    assert!(!reply.overflow);
    assert_eq!(interp.line(), b"");
}

#[test]
fn delete_erases_last_byte_and_redraws() {
    let (mut interp, mut ring) = fresh();
    feed(&mut interp, &mut ring, b"offx");
    let reply = interp.handle_byte(&mut ring, 0x7F);
    assert_eq!(reply.output, b"\roff".to_vec());
    assert_eq!(interp.line(), b"off");
    let reply = interp.handle_byte(&mut ring, b'\r');
    assert_eq!(reply.output, b"\r\n".to_vec());
    assert_eq!(ring.mode(), Mode::Off);
    assert_eq!(ring.leds_mut(), [false; 4]);
}

#[test]
fn delete_after_full_line_makes_room() {
    let (mut interp, mut ring) = fresh();
    feed(&mut interp, &mut ring, b"12345678");
    interp.handle_byte(&mut ring, 0x7F);
    let reply = interp.handle_byte(&mut ring, b'9');
    assert!(!reply.overflow);
    assert_eq!(interp.line(), b"12345679");
}

#[test]
fn each_command_effect() {
    let (mut interp, mut ring) = fresh();
    feed(&mut interp, &mut ring, b"stop\r");
    assert_eq!(ring.mode(), Mode::Off);
    let replies = feed(&mut interp, &mut ring, b"accel\r");
    assert_eq!(replies[5].spawn, Some(Task::AccelLeds));
    assert_eq!(ring.mode(), Mode::Accelerometer);
    feed(&mut interp, &mut ring, b"on\r");
    assert_eq!(ring.mode(), Mode::Off);
    assert_eq!(ring.leds_mut(), [true; 4]);
    feed(&mut interp, &mut ring, b"off\r");
    assert_eq!(ring.mode(), Mode::Off);
    assert_eq!(ring.leds_mut(), [false; 4]);
}

#[test]
fn parse_command_exact_match() {
    assert_eq!(parse_command(b"flip"), Some(Command::Flip));
    assert_eq!(parse_command(b"stop"), Some(Command::Stop));
    assert_eq!(parse_command(b"cycle"), Some(Command::Cycle));
    assert_eq!(parse_command(b"accel"), Some(Command::Accel));
    assert_eq!(parse_command(b"off"), Some(Command::Off));
    assert_eq!(parse_command(b"on"), Some(Command::On));
    assert_eq!(parse_command(b"on "), None);
    assert_eq!(parse_command(b"ON"), None);
    assert_eq!(parse_command(b""), None);
    assert_eq!(parse_command(b"cycl"), None);
}
