use vstd::prelude::*;
use vstd::slice::slice_subrange;

use crate::beeper::Chip8Beeper;
use crate::display::Chip8Display;
use crate::execute::{cycle_spec, execute_spec, fetch_spec, reads_ports, Fault, PortInput};
use crate::instruction::Instruction;
use crate::keyboard::Chip8Keyboard;
use crate::state::{Chip8State, Machine, MEMORY_SIZE};
use crate::timer::CycleClock;

verus! {

/// Why a cycle did not complete.
#[derive(Debug)]
pub enum Chip8Error {
    /// The machine faulted; its state is as before the cycle.
    Fault(Fault),
    /// A peripheral failed.
    Io(std::io::Error),
}

/// Relies on `rand::random::<u8>`, which draws a byte from the thread-local
/// generator; nothing is known of its value.
#[verifier::external_body]
fn random_byte() -> u8 {
    rand::random::<u8>()
}

/// Faults do not depend on what the peripherals answer.
proof fn lemma_fault_ignores_input(m: Machine, ins: Instruction, a: PortInput, b: PortInput)
    requires
        execute_spec(m, ins, a) is Err,
    ensures
        execute_spec(m, ins, b) == execute_spec(m, ins, a),
{
}

/// An instruction that reads no port has the same effect whatever the ports
/// answer.
proof fn lemma_portless_ignores_input(m: Machine, ins: Instruction, a: PortInput, b: PortInput)
    requires
        !reads_ports(ins),
    ensures
        execute_spec(m, ins, b) == execute_spec(m, ins, a),
{
}

/// The execution engine: a clock rate and the three peripheral ports.
pub struct Chip8Interpreter<D: Chip8Display, K: Chip8Keyboard, B: Chip8Beeper> {
    pub max_clock_speed: u32,
    pub display: D,
    pub keyboard: K,
    pub beeper: B,
}

impl<D: Chip8Display, K: Chip8Keyboard, B: Chip8Beeper> Chip8Interpreter<D, K, B> {
    pub fn new(max_clock_speed: u32, display: D, keyboard: K, beeper: B) -> (r: Self)
        ensures
            r.max_clock_speed == max_clock_speed,
            r.display == display,
            r.keyboard == keyboard,
            r.beeper == beeper,
    {
        Chip8Interpreter { max_clock_speed, display, keyboard, beeper }
    }

    /// Fetches, decodes and executes one instruction, asking the ports what
    /// it needs to know: the display draws and reports a collision, the
    /// keyboard says whether a key is held or which key was newly pressed,
    /// and `Cxnn` draws a random byte. On success the state moved as one
    /// cycle does for some answer of the ports; on an error it is unchanged.
    /// Only clearing the screen and drawing can fail on the display's side;
    /// every other instruction succeeds or faults as the machine prescribes.
    pub fn step(&mut self, state: &mut Chip8State) -> (r: Result<(), Chip8Error>)
        ensures
            r is Ok ==> exists|input: PortInput| cycle_spec(old(state)@, input) == Ok::<
                Machine,
                Fault,
            >(final(state)@),
            r matches Err(Chip8Error::Fault(f)) ==> forall|input: PortInput|
                cycle_spec(old(state)@, input) == Err::<Machine, Fault>(f),
            (r is Ok && (fetch_spec(old(state)@) matches Ok(ins) && !reads_ports(ins))) ==> forall|
                input: PortInput,
            | cycle_spec(old(state)@, input) == Ok::<Machine, Fault>(final(state)@),
            r matches Err(Chip8Error::Io(_)) ==> (fetch_spec(old(state)@) matches Ok(ins) && (
            ins is ClearScreen || ins is Draw)),
            r is Err ==> final(state)@ == old(state)@,
    {
        let ins = match state.fetch() {
            Ok(ins) => ins,
            Err(f) => return Err(Chip8Error::Fault(f)),
        };
        let mut input = PortInput { collision: false, key_down: false, key_pressed: None, random: 0 };
        match ins {
            Instruction::ClearScreen => {
                if let Err(e) = self.display.clear() {
                    return Err(Chip8Error::Io(e));
                }
            },
            Instruction::Draw { x, y, n } => {
                let start = state.index_register as usize;
                if start + n as usize <= MEMORY_SIZE {
                    let sprite = slice_subrange(state.ram.as_slice(), start, start + n as usize);
                    let vx = state.register(x);
                    let vy = state.register(y);
                    match self.display.draw(vx, vy, sprite) {
                        Ok(collision) => {
                            input.collision = collision;
                        },
                        Err(e) => return Err(Chip8Error::Io(e)),
                    }
                }
            },
            Instruction::SkipKeyDown { x } | Instruction::SkipKeyUp { x } => {
                input.key_down = self.keyboard.is_key_down(state.register(x));
            },
            Instruction::WaitKey { x } => {
                input.key_pressed = self.keyboard.last_key_pressed();
            },
            Instruction::Random { x, nn } => {
                input.random = random_byte();
            },
            _ => {},
        }
        match state.execute(ins, &input) {
            Ok(()) => {
                assert(cycle_spec(old(state)@, input) == Ok::<Machine, Fault>(state@));
                proof {
                    if !reads_ports(ins) {
                        assert forall|other: PortInput|
                            cycle_spec(old(state)@, other) == Ok::<Machine, Fault>(state@) by {
                            lemma_portless_ignores_input(old(state)@, ins, input, other);
                        }
                    }
                }
                Ok(())
            },
            Err(f) => {
                assert forall|other: PortInput|
                    cycle_spec(old(state)@, other) == Err::<Machine, Fault>(f) by {
                    lemma_fault_ignores_input(old(state)@, ins, input, other);
                }
                Err(Chip8Error::Fault(f))
            },
        }
    }

    /// Ends a cycle at `now` (nanoseconds on a monotonic clock). When the
    /// timer clock fires, both timers count down, the tone plays while the
    /// sound timer was running and pauses otherwise, and the display is
    /// flushed. Then the keyboard polls for what is left of the cycle's
    /// budget, which is where the machine waits.
    pub fn end_cycle(&mut self, state: &mut Chip8State, clock: &mut CycleClock, now: u64) -> (r:
        std::io::Result<()>)
        ensures
            final(state)@ == if old(clock).timer.due(now) {
                old(state)@.tick()
            } else {
                old(state)@
            },
            old(clock).timer.due(now) ==> final(self).beeper.playing() == (old(state).sound_timer
                > 0),
            !old(clock).timer.due(now) ==> final(self).beeper == old(self).beeper,
            final(clock).cycle_nanos == old(clock).cycle_nanos,
            final(clock).next_cycle == if old(clock).next_cycle + old(clock).cycle_nanos
                <= u64::MAX {
                old(clock).next_cycle + old(clock).cycle_nanos
            } else {
                u64::MAX as int
            },
            final(clock).timer.interval == old(clock).timer.interval,
            final(clock).timer.last_tick == if old(clock).timer.due(now) {
                old(clock).timer.last_tick + old(clock).timer.interval
            } else {
                old(clock).timer.last_tick as int
            },
    {
        let tick = clock.advance(now);
        if tick.timer_fired {
            if state.tick_timers() {
                self.beeper.play();
            } else {
                self.beeper.pause();
            }
            self.display.flush()?;
        }
        self.keyboard.update_keystates(tick.idle_micros)
    }
}

} // verus!
