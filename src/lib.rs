//! An interpreter core for a classic 8-bit virtual machine with sixteen
//! byte registers, 4 KiB of memory, a return stack, two countdown timers and
//! a 64 x 32 monochrome display.

use vstd::prelude::*;

pub mod beeper;
pub mod display;
pub mod execute;
pub mod instruction;
pub mod interpreter;
pub mod keyboard;
pub mod lemmas;
pub mod menu;
pub mod state;
pub mod timer;

pub use beeper::Chip8Beeper;
pub use display::{Chip8Display, FrameBuffer};
pub use execute::{Fault, PortInput};
pub use instruction::Instruction;
pub use interpreter::{Chip8Error, Chip8Interpreter};
pub use keyboard::{Chip8Keyboard, KeyAction, KeyState};
pub use menu::MenuCursor;
pub use state::Chip8State;
pub use timer::{ClockTick, CycleClock, Timer};

verus! {

/// Declares `std::io::Error`, which the port traits return, so that it can be
/// carried through; nothing is assumed of its contents.
#[verifier::external_type_specification]
#[verifier::external_body]
pub struct ExIoError(std::io::Error);

} // verus!
