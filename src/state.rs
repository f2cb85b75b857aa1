use vstd::prelude::*;

verus! {

/// Number of bytes of addressable memory.
pub const MEMORY_SIZE: usize = 4096;

/// Address at which program bytes are mapped and execution starts.
pub const PROGRAM_START: u16 = 0x200;

/// Largest program image that fits between `PROGRAM_START` and the end of memory.
pub const MAX_PROGRAM_LEN: usize = 3584;

/// Number of general-purpose registers.
pub const NUM_REGISTERS: usize = 16;

/// Register written as a side effect by the carry, borrow, shift and draw instructions.
pub const FLAG_REGISTER: u8 = 0xF;

/// Slots of backing storage for the return stack.
pub const STACK_SLOTS: usize = 256;

/// Deepest nesting of subroutine calls.
pub const STACK_CAPACITY: u8 = 16;

/// Length of the built-in glyph table.
pub const FONT_LEN: usize = 80;

/// Bitmaps of the hexadecimal digits 0 to F, five rows each.
pub const FONT: [u8; 80] = [
    0xF0, 0x90, 0x90, 0x90, 0xF0,  // 0
    0x20, 0x60, 0x20, 0x20, 0x70,  // 1
    0xF0, 0x10, 0xF0, 0x80, 0xF0,  // 2
    0xF0, 0x10, 0xF0, 0x10, 0xF0,  // 3
    0x90, 0x90, 0xF0, 0x10, 0x10,  // 4
    0xF0, 0x80, 0xF0, 0x10, 0xF0,  // 5
    0xF0, 0x80, 0xF0, 0x90, 0xF0,  // 6
    0xF0, 0x10, 0x20, 0x40, 0x40,  // 7
    0xF0, 0x90, 0xF0, 0x90, 0xF0,  // 8
    0xF0, 0x90, 0xF0, 0x10, 0xF0,  // 9
    0xF0, 0x90, 0xF0, 0x90, 0x90,  // A
    0xE0, 0x90, 0xE0, 0x90, 0xE0,  // B
    0xF0, 0x80, 0x80, 0x80, 0xF0,  // C
    0xE0, 0x90, 0x90, 0x90, 0xE0,  // D
    0xF0, 0x80, 0xF0, 0x80, 0xF0,  // E
    0xF0, 0x80, 0xF0, 0x80, 0x80,  // F
];

/// The complete register, memory and stack record of the machine.
pub struct Chip8State {
    pub data_registers: [u8; 16],
    pub index_register: u16,
    pub program_counter: u16,
    pub stack_pointer: u8,
    pub ram: [u8; 4096],
    pub stack: [u16; 256],
    pub delay_timer: u8,
    pub sound_timer: u8,
}

/// Mathematical model of a `Chip8State`.
pub ghost struct Machine {
    pub regs: Seq<u8>,
    pub index: u16,
    pub pc: u16,
    pub sp: u8,
    pub ram: Seq<u8>,
    pub stack: Seq<u16>,
    pub delay: u8,
    pub sound: u8,
}

impl Machine {
    /// The shape every model of a `Chip8State` has.
    pub open spec fn wf(self) -> bool {
        &&& self.regs.len() == NUM_REGISTERS
        &&& self.ram.len() == MEMORY_SIZE
        &&& self.stack.len() == STACK_SLOTS
    }

    /// The model with register `i` set to `v`.
    pub open spec fn set_reg(self, i: int, v: u8) -> Machine {
        Machine { regs: self.regs.update(i, v), ..self }
    }

    /// The model after one tick of the 60 Hz timer clock.
    pub open spec fn tick(self) -> Machine {
        Machine {
            delay: if self.delay > 0 { (self.delay - 1) as u8 } else { 0 },
            sound: if self.sound > 0 { (self.sound - 1) as u8 } else { 0 },
            ..self
        }
    }

    /// The model with the flag register set to 1 or 0.
    pub open spec fn set_flag(self, flag: bool) -> Machine {
        self.set_reg(FLAG_REGISTER as int, if flag { 1u8 } else { 0u8 })
    }
}

/// The model of a freshly reset machine.
pub open spec fn reset_machine() -> Machine {
    Machine {
        regs: Seq::new(16, |i: int| 0u8),
        index: 0,
        pc: PROGRAM_START,
        sp: 0,
        ram: Seq::new(4096, |i: int| 0u8),
        stack: Seq::new(256, |i: int| 0u16),
        delay: 0,
        sound: 0,
    }
}

/// Memory after the glyph table has been copied to its start.
pub open spec fn with_font(ram: Seq<u8>) -> Seq<u8> {
    Seq::new(ram.len(), |a: int| if a < FONT_LEN { FONT@[a] } else { ram[a] })
}

/// Memory after `program` has been copied to `PROGRAM_START`.
pub open spec fn with_program(ram: Seq<u8>, program: Seq<u8>) -> Seq<u8> {
    Seq::new(
        ram.len(),
        |a: int|
            if PROGRAM_START <= a < PROGRAM_START + program.len() {
                program[a - PROGRAM_START]
            } else {
                ram[a]
            },
    )
}

impl View for Chip8State {
    type V = Machine;

    open spec fn view(&self) -> Machine {
        Machine {
            regs: self.data_registers@,
            index: self.index_register,
            pc: self.program_counter,
            sp: self.stack_pointer,
            ram: self.ram@,
            stack: self.stack@,
            delay: self.delay_timer,
            sound: self.sound_timer,
        }
    }
}

impl Default for Chip8State {
    fn default() -> (r: Self)
        ensures
            r@ == reset_machine(),
    {
        let r = Chip8State {
            data_registers: [0u8; 16],
            index_register: 0,
            program_counter: PROGRAM_START,
            stack_pointer: 0,
            ram: [0u8; 4096],
            stack: [0u16; 256],
            delay_timer: 0,
            sound_timer: 0,
        };
        assert(r@.regs =~= reset_machine().regs);
        assert(r@.ram =~= reset_machine().ram);
        assert(r@.stack =~= reset_machine().stack);
        r
    }
}


impl Chip8State {
    /// Zeroes every register, timer, stack slot and byte of memory, and puts
    /// the program counter back at `PROGRAM_START`.
    pub fn reset(&mut self)
        ensures
            final(self)@ == reset_machine(),
    {
        *self = Chip8State::default();
    }

    /// Copies `fonts` to the start of memory.
    pub fn load_font_data(&mut self, fonts: &[u8])
        requires
            fonts@.len() <= MEMORY_SIZE,
        ensures
            final(self)@ == (Machine {
                ram: Seq::new(
                    4096,
                    |a: int| if a < fonts@.len() { fonts@[a] } else { old(self)@.ram[a] },
                ),
                ..old(self)@
            }),
    {
        let mut i: usize = 0;
        while i < fonts.len()
            invariant
                fonts@.len() <= MEMORY_SIZE,
                i <= fonts@.len(),
                self.data_registers == old(self).data_registers,
                self.index_register == old(self).index_register,
                self.program_counter == old(self).program_counter,
                self.stack_pointer == old(self).stack_pointer,
                self.stack == old(self).stack,
                self.delay_timer == old(self).delay_timer,
                self.sound_timer == old(self).sound_timer,
                forall|a: int|
                    0 <= a < MEMORY_SIZE ==> #[trigger] self.ram@[a] == if a < i {
                        fonts@[a]
                    } else {
                        old(self)@.ram[a]
                    },
            decreases fonts@.len() - i,
        {
            self.ram[i] = fonts[i];
            i = i + 1;
        }
        assert(self@.ram =~= Seq::new(
            4096,
            |a: int| if a < fonts@.len() { fonts@[a] } else { old(self)@.ram[a] },
        ));
    }

    /// Writes the glyph table, then copies `program` to `PROGRAM_START`.
    pub fn load_program(&mut self, program: &[u8])
        requires
            program@.len() <= MAX_PROGRAM_LEN,
        ensures
            final(self)@ == (Machine {
                ram: with_program(with_font(old(self)@.ram), program@),
                ..old(self)@
            }),
    {
        self.load_font_data(&FONT);
        assert(self@.ram =~= with_font(old(self)@.ram));
        let ghost fonted = self@.ram;
        let mut i: usize = 0;
        while i < program.len()
            invariant
                program@.len() <= MAX_PROGRAM_LEN,
                i <= program@.len(),
                fonted.len() == MEMORY_SIZE,
                self.data_registers == old(self).data_registers,
                self.index_register == old(self).index_register,
                self.program_counter == old(self).program_counter,
                self.stack_pointer == old(self).stack_pointer,
                self.stack == old(self).stack,
                self.delay_timer == old(self).delay_timer,
                self.sound_timer == old(self).sound_timer,
                forall|a: int|
                    0 <= a < MEMORY_SIZE ==> #[trigger] self.ram@[a] == if PROGRAM_START <= a
                        < PROGRAM_START + i {
                        program@[a - PROGRAM_START]
                    } else {
                        fonted[a]
                    },
            decreases program@.len() - i,
        {
            self.ram[0x200 + i] = program[i];
            i = i + 1;
        }
        assert(self@.ram =~= with_program(fonted, program@));
    }

    /// The value of register `register_index`.
    pub fn register(&self, register_index: u8) -> (r: u8)
        requires
            register_index < NUM_REGISTERS,
        ensures
            r == self@.regs[register_index as int],
    {
        self.data_registers[register_index as usize]
    }

    /// A mutable slot for register `register_index`.
    pub fn register_mut(&mut self, register_index: u8) -> (r: &mut u8)
        requires
            register_index < NUM_REGISTERS,
        ensures
            *r == old(self)@.regs[register_index as int],
            final(self)@ == old(self)@.set_reg(register_index as int, *final(r)),
    {
        &mut self.data_registers[register_index as usize]
    }

    /// Counts both timers down by one, stopping at zero, and reports whether
    /// the sound timer was still running, that is whether the tone sounds.
    pub fn tick_timers(&mut self) -> (sounding: bool)
        ensures
            sounding == (old(self).sound_timer > 0),
            final(self)@ == old(self)@.tick(),
    {
        if self.delay_timer > 0 {
            self.delay_timer = self.delay_timer - 1;
        }
        if self.sound_timer > 0 {
            self.sound_timer = self.sound_timer - 1;
            true
        } else {
            false
        }
    }

    /// Writes 1 or 0 to the flag register.
    pub fn set_flag(&mut self, flag: bool)
        ensures
            final(self)@ == old(self)@.set_flag(flag),
    {
        *self.register_mut(FLAG_REGISTER) = if flag { 1 } else { 0 };
    }
}

} // verus!
