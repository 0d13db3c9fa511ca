//! The serial command interpreter: collects received bytes into a line, supports erasing the
//! last byte, and dispatches a completed line to a command on the LED ring.
use vstd::prelude::*;
use crate::arbiter::Task;
use crate::led_ring::{LedRing, Mode, RingView};
use crate::line_buffer::{buffer_bytes, buffer_clear, buffer_new, buffer_pop, buffer_push, held, CAPACITY};

verus! {

/// Carriage return: ends a command line.
pub const CR: u8 = 0x0D;

/// Line feed: sent after the echo of a carriage return.
pub const LF: u8 = 0x0A;

/// Delete: erases the last byte of the line.
pub const DEL: u8 = 0x7F;

/// The question mark sent back for an unknown command.
pub const QUESTION: u8 = 0x3F;

/// The commands understood on the serial line.
#[derive(Clone, Copy, Debug, PartialEq, Eq, Structural)]
pub enum Command {
    /// `flip`: reverse the cycle direction.
    Flip,
    /// `stop`: disable the ring.
    Stop,
    /// `cycle`: enable cycle mode and start the cycle task.
    Cycle,
    /// `accel`: enable accelerometer mode and start the sensor task.
    Accel,
    /// `off`: disable the ring and turn all LEDs off.
    Off,
    /// `on`: disable the ring and turn all LEDs on.
    On,
}

/// The text of each command, in ASCII.
pub open spec fn command_text(c: Command) -> Seq<u8> {
    match c {
        Command::Flip => seq![0x66u8, 0x6c, 0x69, 0x70],
        Command::Stop => seq![0x73u8, 0x74, 0x6f, 0x70],
        Command::Cycle => seq![0x63u8, 0x79, 0x63, 0x6c, 0x65],
        Command::Accel => seq![0x61u8, 0x63, 0x63, 0x65, 0x6c],
        Command::Off => seq![0x6fu8, 0x66, 0x66],
        Command::On => seq![0x6fu8, 0x6e],
    }
}

/// The command whose text is exactly `line`, if any.
pub open spec fn command_of(line: Seq<u8>) -> Option<Command> {
    if line == command_text(Command::Flip) {
        Some(Command::Flip)
    } else if line == command_text(Command::Stop) {
        Some(Command::Stop)
    } else if line == command_text(Command::Cycle) {
        Some(Command::Cycle)
    } else if line == command_text(Command::Accel) {
        Some(Command::Accel)
    } else if line == command_text(Command::Off) {
        Some(Command::Off)
    } else if line == command_text(Command::On) {
        Some(Command::On)
    } else {
        None
    }
}

/// The ring after a command.
pub open spec fn applied(v: RingView, c: Command) -> RingView {
    match c {
        Command::Flip => v.reversed(),
        Command::Stop => v.with_mode(Mode::Off),
        Command::Cycle => v.with_mode(Mode::Cycle),
        Command::Accel => v.with_mode(Mode::Accelerometer),
        Command::Off => v.with_mode(Mode::Off).with_leds(seq![false, false, false, false]),
        Command::On => v.with_mode(Mode::Off).with_leds(seq![true, true, true, true]),
    }
}

/// The task a command starts, if any.
pub open spec fn started_by(c: Command) -> Option<Task> {
    match c {
        Command::Cycle => Some(Task::CycleLeds),
        Command::Accel => Some(Task::AccelLeds),
        _ => None,
    }
}

/// Whether `line` is exactly `word`.
fn is_word(line: &[u8], word: &[u8]) -> (r: bool)
    ensures
        r == (line@ == word@),
{
    if line.len() != word.len() {
        return false;
    }
    let mut i: usize = 0;
    while i < line.len()
        invariant
            i <= line.len(),
            line@.len() == word@.len(),
            forall|j: int| 0 <= j < i ==> line@[j] == word@[j],
        decreases line.len() - i,
    {
        if line[i] != word[i] {
            assert(line@[i as int] != word@[i as int]);
            return false;
        }
        i = i + 1;
    }
    assert(line@ =~= word@);
    true
}

/// Looks up the command whose text is exactly `line` (no trimming, no case folding).
pub fn parse_command(line: &[u8]) -> (r: Option<Command>)
    ensures
        r == command_of(line@),
{
    let flip: &[u8] = &[0x66u8, 0x6c, 0x69, 0x70];
    let stop: &[u8] = &[0x73u8, 0x74, 0x6f, 0x70];
    let cycle: &[u8] = &[0x63u8, 0x79, 0x63, 0x6c, 0x65];
    let accel: &[u8] = &[0x61u8, 0x63, 0x63, 0x65, 0x6c];
    let off: &[u8] = &[0x6fu8, 0x66, 0x66];
    let on: &[u8] = &[0x6fu8, 0x6e];
    assert(flip@ =~= command_text(Command::Flip));
    assert(stop@ =~= command_text(Command::Stop));
    assert(cycle@ =~= command_text(Command::Cycle));
    assert(accel@ =~= command_text(Command::Accel));
    assert(off@ =~= command_text(Command::Off));
    assert(on@ =~= command_text(Command::On));
    if is_word(line, flip) {
        Some(Command::Flip)
    } else if is_word(line, stop) {
        Some(Command::Stop)
    } else if is_word(line, cycle) {
        Some(Command::Cycle)
    } else if is_word(line, accel) {
        Some(Command::Accel)
    } else if is_word(line, off) {
        Some(Command::Off)
    } else if is_word(line, on) {
        Some(Command::On)
    } else {
        None
    }
}

/// Performs a command on the ring and returns the task it starts, if any.
pub fn execute(ring: &mut LedRing, c: Command) -> (r: Option<Task>)
    ensures
        final(ring)@ == applied(old(ring)@, c),
        r == started_by(c),
{
    match c {
        Command::Flip => {
            ring.reverse();
            None
        },
        Command::Stop => {
            ring.disable();
            None
        },
        Command::Cycle => {
            ring.enable_cycle();
            Some(Task::CycleLeds)
        },
        Command::Accel => {
            ring.enable_accel();
            Some(Task::AccelLeds)
        },
        Command::Off => {
            ring.disable();
            ring.all_off();
            None
        },
        Command::On => {
            ring.disable();
            ring.all_on();
            None
        },
    }
}

/// The line after receiving `byte`: cleared by a carriage return, shortened by one by a delete
/// (unless already empty), otherwise extended while there is room.
pub open spec fn next_line(line: Seq<u8>, byte: u8) -> Seq<u8> {
    if byte == CR {
        Seq::empty()
    } else if byte == DEL {
        if line.len() > 0 {
            line.drop_last()
        } else {
            line
        }
    } else if line.len() < CAPACITY {
        line.push(byte)
    } else {
        line
    }
}

/// The bytes sent back on receiving `byte` with `line` in the buffer.
///
/// A carriage return is echoed and followed by a line feed, and by `?` and a carriage return
/// when the line is no command. A delete is answered by a carriage return and the remaining
/// line, redrawn. Any other byte is echoed.
pub open spec fn reply_of(line: Seq<u8>, byte: u8) -> Seq<u8> {
    if byte == CR {
        if command_of(line) is Some {
            seq![CR, LF]
        } else {
            seq![CR, LF, QUESTION, CR]
        }
    } else if byte == DEL {
        seq![CR] + next_line(line, byte)
    } else {
        seq![byte]
    }
}

/// The command completed by receiving `byte` with `line` in the buffer, if any.
pub open spec fn completed(line: Seq<u8>, byte: u8) -> Option<Command> {
    if byte == CR {
        command_of(line)
    } else {
        None
    }
}

/// Whether receiving `byte` with `line` in the buffer drops the byte for want of room.
pub open spec fn overflows(line: Seq<u8>, byte: u8) -> bool {
    byte != CR && byte != DEL && line.len() >= CAPACITY
}

/// What the interpreter hands back for one received byte.
pub struct Reply {
    /// The bytes to send on the serial line, in order.
    pub output: Vec<u8>,
    /// The task to start, if the byte completed a command that starts one.
    pub spawn: Option<Task>,
    /// Whether the byte was dropped because the line buffer was full.
    pub overflow: bool,
}

/// The serial command interpreter and its line buffer.
pub struct CommandInterpreter {
    buffer: heapless::Vec<u8, 8>,
}

impl View for CommandInterpreter {
    type V = Seq<u8>;

    /// The line received so far.
    closed spec fn view(&self) -> Seq<u8> {
        held(self.buffer)
    }
}

impl CommandInterpreter {
    #[verifier::type_invariant]
    spec fn inv(self) -> bool {
        held(self.buffer).len() <= CAPACITY
    }

    /// An interpreter with an empty line.
    pub fn new() -> (r: CommandInterpreter)
        ensures
            r@ == Seq::<u8>::empty(),
    {
        CommandInterpreter { buffer: buffer_new() }
    }

    /// Returns the line received so far.
    pub fn line(&self) -> (r: &[u8])
        ensures
            r@ == self@,
    {
        buffer_bytes(&self.buffer)
    }

    /// Handles one byte received on the serial line, performing a completed command on `ring`.
    pub fn handle_byte(&mut self, ring: &mut LedRing, byte: u8) -> (r: Reply)
        ensures
            final(self)@ == next_line(old(self)@, byte),
            r.output@ == reply_of(old(self)@, byte),
            final(ring)@ == (match completed(old(self)@, byte) {
                Some(c) => applied(old(ring)@, c),
                None => old(ring)@,
            }),
            r.spawn == (match completed(old(self)@, byte) {
                Some(c) => started_by(c),
                None => None,
            }),
            r.overflow == overflows(old(self)@, byte),
    {
        proof {
            use_type_invariant(&*self);
        }
        let mut output: Vec<u8> = Vec::new();
        if byte == CR {
            output.push(CR);
            output.push(LF);
            let command: Option<Command> = parse_command(buffer_bytes(&self.buffer));
            let spawn: Option<Task> = match command {
                Some(c) => execute(ring, c),
                None => {
                    output.push(QUESTION);
                    output.push(CR);
                    None
                },
            };
            buffer_clear(&mut self.buffer);
            assert(output@ =~= reply_of(old(self)@, byte));
            Reply { output, spawn, overflow: false }
        } else if byte == DEL {
            let _ = buffer_pop(&mut self.buffer);
            output.push(CR);
            let line: &[u8] = buffer_bytes(&self.buffer);
            let mut i: usize = 0;
            while i < line.len()
                invariant
                    i <= line@.len(),
                    output@ == seq![CR] + line@.subrange(0, i as int),
                decreases line.len() - i,
            {
                output.push(line[i]);
                i = i + 1;
                assert(output@ =~= seq![CR] + line@.subrange(0, i as int));
            }
            assert(line@.subrange(0, line@.len() as int) =~= line@);
            Reply { output, spawn: None, overflow: false }
        } else {
            output.push(byte);
            let pushed: Result<(), u8> = buffer_push(&mut self.buffer, byte);
            assert(output@ =~= seq![byte]);
            Reply { output, spawn: None, overflow: pushed.is_err() }
        }
    }
}

/// The line after receiving `bytes` one after another, starting from `line`.
pub open spec fn fed(line: Seq<u8>, bytes: Seq<u8>) -> Seq<u8>
    decreases bytes.len(),
{
    if bytes.len() == 0 {
        line
    } else {
        next_line(fed(line, bytes.drop_last()), bytes.last())
    }
}

/// Bytes that are neither a carriage return nor a delete fill an empty line up to its capacity;
/// each one after that is dropped, reported as an overflow, and the line keeps exactly the
/// first `CAPACITY` bytes.
pub proof fn lemma_fill_then_drop(bytes: Seq<u8>)
    requires
        forall|i: int| 0 <= i < bytes.len() ==> bytes[i] != CR && bytes[i] != DEL,
    ensures
        bytes.len() <= CAPACITY ==> fed(Seq::empty(), bytes) == bytes,
        bytes.len() >= CAPACITY ==> fed(Seq::empty(), bytes) == bytes.take(CAPACITY as int),
        forall|i: int|
            0 <= i < bytes.len() ==> (#[trigger] overflows(fed(Seq::empty(), bytes.take(i)), bytes[i])
                <==> i >= CAPACITY),
    decreases bytes.len(),
{
    if bytes.len() > 0 {
        let prefix = bytes.drop_last();
        lemma_fill_then_drop(prefix);
        if bytes.len() <= CAPACITY {
            assert(prefix.push(bytes.last()) =~= bytes);
        } else {
            assert(prefix.take(CAPACITY as int) =~= bytes.take(CAPACITY as int));
        }
        assert forall|i: int|
            0 <= i < bytes.len() implies (#[trigger] overflows(fed(Seq::empty(), bytes.take(i)), bytes[i])
                <==> i >= CAPACITY) by {
            if i < prefix.len() {
                assert(prefix.take(i) =~= bytes.take(i));
                assert(prefix[i] == bytes[i]);
                assert(overflows(fed(Seq::empty(), prefix.take(i)), prefix[i]) <==> i >= CAPACITY);
            } else {
                assert(bytes.take(i) =~= prefix);
                if prefix.len() >= CAPACITY {
                    assert(prefix.take(CAPACITY as int).len() == CAPACITY);
                }
            }
        }
    }
}

} // verus!
