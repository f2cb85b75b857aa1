use std::io;

use crab8::{
    Chip8Beeper, Chip8Error, Chip8Interpreter, Chip8Keyboard, Chip8State, CycleClock, Fault,
    FrameBuffer,
};

struct ScriptedKeys {
    held: Vec<u8>,
    pressed: Option<u8>,
    polls: Vec<u64>,
}

impl Chip8Keyboard for ScriptedKeys {
    fn new() -> Self {
        ScriptedKeys { held: Vec::new(), pressed: None, polls: Vec::new() }
    }

    fn update_keystates(&mut self, max_duration_microseconds: u64) -> io::Result<()> {
        self.polls.push(max_duration_microseconds);
        Ok(())
    }

    fn is_key_down(&self, key: u8) -> bool {
        self.held.contains(&key)
    }

    fn last_key_pressed(&self) -> Option<u8> {
        self.pressed
    }
}

#[derive(Default)]
struct CountingBeeper {
    plays: usize,
    pauses: usize,
    on: bool,
}

impl Chip8Beeper for CountingBeeper {
    fn playing(&self) -> bool {
        self.on
    }

    fn play(&mut self) {
        self.plays += 1;
        self.on = true;
    }

    fn pause(&mut self) {
        self.pauses += 1;
        self.on = false;
    }
}

struct FailingDisplay;

impl crab8::Chip8Display for FailingDisplay {
    fn new() -> Self {
        FailingDisplay
    }

    fn clear(&mut self) -> io::Result<()> {
        Err(io::Error::new(io::ErrorKind::Other, "no terminal"))
    }

    fn draw(&mut self, _x: u8, _y: u8, _data: &[u8]) -> io::Result<bool> {
        Err(io::Error::new(io::ErrorKind::Other, "no terminal"))
    }

    fn flush(&mut self) -> io::Result<()> {
        Err(io::Error::new(io::ErrorKind::Other, "no terminal"))
    }
}

fn interpreter() -> Chip8Interpreter<FrameBuffer, ScriptedKeys, CountingBeeper> {
    Chip8Interpreter::new(700, FrameBuffer::blank(), ScriptedKeys::new(), CountingBeeper::default())
}

fn machine_with(program: &[u8]) -> Chip8State {
    let mut state = Chip8State::default();
    state.load_program(program);
    state
}

#[test]
fn draw_program_end_to_end() {
    let mut machine = interpreter();
    let mut state = machine_with(&[0xA2, 0x00, 0xD0, 0x05]);
    machine.step(&mut state).unwrap();
    assert_eq!(state.index_register, 0x200);
    machine.step(&mut state).unwrap();
    assert_eq!(state.register(0xF), 0);
    assert_eq!(state.program_counter, 0x204);
    let sprite = [0xA2u8, 0x00, 0xD0, 0x05, 0x00];
    for (row, bits) in sprite.iter().enumerate() {
        for col in 0..8 {
            let expected = bits & (0x80 >> col) != 0;
            assert_eq!(machine.display.pixel(row, col), expected, "row {row} col {col}");
        }
        for col in 8..64 {
            assert!(!machine.display.pixel(row, col));
        }
    }
    for row in 5..32 {
        for col in 0..64 {
            assert!(!machine.display.pixel(row, col));
        }
    }
}

#[test]
fn redraw_reports_collision_and_erases() {
    let mut machine = interpreter();
    let mut state = machine_with(&[0xA2, 0x00, 0xD0, 0x05, 0xD0, 0x05]);
    for _ in 0..3 {
        machine.step(&mut state).unwrap();
    }
    assert_eq!(state.register(0xF), 1);
    for row in 0..32 {
        for col in 0..64 {
            assert!(!machine.display.pixel(row, col));
        }
    }
}

#[test]
fn clear_screen_blanks_the_display() {
    let mut machine = interpreter();
    let mut state = machine_with(&[0xD0, 0x05, 0x00, 0xE0]);
    machine.step(&mut state).unwrap();
    assert!(machine.display.pixel(0, 0));
    machine.step(&mut state).unwrap();
    assert!(!machine.display.pixel(0, 0));
}

#[test]
fn key_skips_ask_the_keyboard() {
    let mut machine = interpreter();
    machine.keyboard.held = vec![0x7];
    let mut state = machine_with(&[0x60, 0x07, 0xE0, 0x9E]);
    machine.step(&mut state).unwrap();
    machine.step(&mut state).unwrap();
    assert_eq!(state.program_counter, 0x206);

    let mut state = machine_with(&[0x60, 0x06, 0xE0, 0x9E]);
    machine.step(&mut state).unwrap();
    machine.step(&mut state).unwrap();
    assert_eq!(state.program_counter, 0x204);
}

#[test]
fn wait_key_asks_for_the_newly_pressed_key() {
    let mut machine = interpreter();
    let mut state = machine_with(&[0xF5, 0x0A]);
    machine.step(&mut state).unwrap();
    assert_eq!(state.program_counter, 0x200);
    machine.keyboard.pressed = Some(0xC);
    machine.step(&mut state).unwrap();
    assert_eq!(state.program_counter, 0x202);
    assert_eq!(state.register(5), 0xC);
}

#[test]
fn random_with_zero_mask_is_zero() {
    let mut machine = interpreter();
    let mut state = machine_with(&[0x63, 0xFF, 0xC3, 0x00, 0xC4, 0xF0]);
    for _ in 0..3 {
        machine.step(&mut state).unwrap();
    }
    assert_eq!(state.register(3), 0);
    assert_eq!(state.register(4) & 0x0F, 0);
}

#[test]
fn step_reports_faults_and_keeps_state() {
    let mut machine = interpreter();
    let mut state = machine_with(&[0xFF, 0xFF]);
    match machine.step(&mut state) {
        Err(Chip8Error::Fault(Fault::UnknownInstruction { word })) => assert_eq!(word, 0xFFFF),
        other => panic!("unexpected {other:?}"),
    }
    assert_eq!(state.program_counter, 0x200);
}

#[test]
fn step_passes_display_errors_on() {
    let mut machine =
        Chip8Interpreter::new(700, FailingDisplay, ScriptedKeys::new(), CountingBeeper::default());
    let mut state = machine_with(&[0x00, 0xE0]);
    assert!(matches!(machine.step(&mut state), Err(Chip8Error::Io(_))));
    assert_eq!(state.program_counter, 0x200);
}

#[test]
fn end_cycle_ticks_timers_beeps_and_polls() {
    let mut machine = interpreter();
    let mut state = Chip8State::default();
    state.delay_timer = 3;
    state.sound_timer = 1;
    let mut clock = CycleClock::new(1000, 0);
    // Before the timer is due: only the poll happens, for the rest of the budget.
    machine.end_cycle(&mut state, &mut clock, 400_000).unwrap();
    assert_eq!((state.delay_timer, state.sound_timer), (3, 1));
    assert_eq!(machine.keyboard.polls, vec![600]);
    assert_eq!((machine.beeper.plays, machine.beeper.pauses), (0, 0));
    // The timer is due: counts down and plays while the sound timer ran.
    machine.end_cycle(&mut state, &mut clock, 16_666_667).unwrap();
    assert_eq!((state.delay_timer, state.sound_timer), (2, 0));
    assert_eq!((machine.beeper.plays, machine.beeper.pauses), (1, 0));
    assert!(machine.beeper.playing());
    assert_eq!(machine.keyboard.polls, vec![600, 0]);
    // Next tick: the sound timer is out, so the tone pauses.
    machine.end_cycle(&mut state, &mut clock, 33_333_334).unwrap();
    assert_eq!((state.delay_timer, state.sound_timer), (1, 0));
    assert_eq!((machine.beeper.plays, machine.beeper.pauses), (1, 1));
    assert!(!machine.beeper.playing());
}

#[test]
fn end_cycle_passes_flush_errors_on() {
    let mut machine =
        Chip8Interpreter::new(700, FailingDisplay, ScriptedKeys::new(), CountingBeeper::default());
    let mut state = Chip8State::default();
    let mut clock = CycleClock::new(700, 0);
    assert!(machine.end_cycle(&mut state, &mut clock, 20_000_000).is_err());
    assert!(machine.end_cycle(&mut state, &mut clock, 20_000_001).is_ok());
}

#[test]
fn step_without_display_work_succeeds_on_a_broken_display() {
    let mut machine =
        Chip8Interpreter::new(700, FailingDisplay, ScriptedKeys::new(), CountingBeeper::default());
    let mut state = machine_with(&[0x60, 0x05, 0xA3, 0x00, 0xF0, 0x33, 0xD0, 0x01]);
    for _ in 0..3 {
        machine.step(&mut state).unwrap();
    }
    assert_eq!(&state.ram[0x300..0x303], &[0, 0, 5]);
    assert!(matches!(machine.step(&mut state), Err(Chip8Error::Io(_))));
    assert_eq!(state.program_counter, 0x206);
}
