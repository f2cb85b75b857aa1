use vstd::prelude::*;

use crate::instruction::{decode, decode_spec, word_of, Instruction};
use crate::state::{Chip8State, Machine, MEMORY_SIZE, STACK_CAPACITY};

verus! {

/// A condition under which the machine cannot go on.
#[derive(Clone, Copy, Debug, PartialEq, Eq, Structural)]
pub enum Fault {
    /// The instruction word at the program counter encodes no instruction.
    UnknownInstruction { word: u16 },
    /// An instruction reads or writes memory past its last byte.
    MemoryOutOfBounds,
    /// A call with the return stack already at capacity.
    StackOverflow,
    /// A return with an empty return stack.
    StackUnderflow,
}

/// What the peripherals answered during one cycle. Each instruction reads at
/// most one of the fields.
#[derive(Clone, Copy, Debug, PartialEq, Eq, Structural)]
pub struct PortInput {
    /// Whether the sprite drawn by `Dxyn` cleared a lit pixel.
    pub collision: bool,
    /// Whether the key named by `Vx` is held (`Ex9E`, `ExA1`).
    pub key_down: bool,
    /// The key newly pressed during the last poll, if any (`Fx0A`).
    pub key_pressed: Option<u8>,
    /// A random byte (`Cxnn`).
    pub random: u8,
}

/// `v` reduced to 8 bits.
pub open spec fn wrap8(v: int) -> u8 {
    (v % 256) as u8
}

/// `v` reduced to 16 bits.
pub open spec fn wrap16(v: int) -> u16 {
    (v % 65536) as u16
}

/// The model with the program counter moved `d` bytes, modulo 16 bits.
pub open spec fn move_pc(m: Machine, d: int) -> Machine {
    Machine { pc: wrap16(m.pc + d), ..m }
}

/// The instruction at the program counter, or why there is none.
pub open spec fn fetch_spec(m: Machine) -> Result<Instruction, Fault> {
    if m.pc + 1 >= MEMORY_SIZE {
        Err(Fault::MemoryOutOfBounds)
    } else {
        let hi = m.ram[m.pc as int];
        let lo = m.ram[m.pc + 1];
        match decode_spec(hi, lo) {
            Some(ins) => Ok(ins),
            None => Err(Fault::UnknownInstruction { word: word_of(hi, lo) }),
        }
    }
}

/// The effect of `ins` on `n`, whose program counter has already moved past it.
pub open spec fn apply_spec(n: Machine, ins: Instruction, input: PortInput) -> Result<
    Machine,
    Fault,
> {
    match ins {
        Instruction::ClearScreen => Ok(n),
        Instruction::Return => if n.sp == 0 {
            Err(Fault::StackUnderflow)
        } else {
            Ok(Machine { pc: n.stack[n.sp as int], sp: (n.sp - 1) as u8, ..n })
        },
        Instruction::Jump { addr } => Ok(Machine { pc: addr, ..n }),
        Instruction::Call { addr } => if n.sp >= STACK_CAPACITY {
            Err(Fault::StackOverflow)
        } else {
            Ok(
                Machine {
                    sp: (n.sp + 1) as u8,
                    stack: n.stack.update(n.sp + 1, n.pc),
                    pc: addr,
                    ..n
                },
            )
        },
        Instruction::SkipEqImm { x, nn } => Ok(
            if n.regs[x as int] == nn {
                move_pc(n, 2)
            } else {
                n
            },
        ),
        Instruction::SkipNeImm { x, nn } => Ok(
            if n.regs[x as int] != nn {
                move_pc(n, 2)
            } else {
                n
            },
        ),
        Instruction::SkipEqReg { x, y } => Ok(
            if n.regs[x as int] == n.regs[y as int] {
                move_pc(n, 2)
            } else {
                n
            },
        ),
        Instruction::LoadImm { x, nn } => Ok(n.set_reg(x as int, nn)),
        Instruction::AddImm { x, nn } => Ok(n.set_reg(x as int, wrap8(n.regs[x as int] + nn))),
        Instruction::Copy { x, y } => Ok(n.set_reg(x as int, n.regs[y as int])),
        Instruction::Or { x, y } => Ok(n.set_reg(x as int, n.regs[x as int] | n.regs[y as int])),
        Instruction::And { x, y } => Ok(n.set_reg(x as int, n.regs[x as int] & n.regs[y as int])),
        Instruction::Xor { x, y } => Ok(n.set_reg(x as int, n.regs[x as int] ^ n.regs[y as int])),
        Instruction::AddReg { x, y } => {
            let a = n.regs[x as int];
            let b = n.regs[y as int];
            Ok(n.set_reg(x as int, wrap8(a + b)).set_flag(a + b > 255))
        },
        Instruction::SubReg { x, y } => {
            let a = n.regs[x as int];
            let b = n.regs[y as int];
            Ok(n.set_reg(x as int, wrap8(a - b)).set_flag(a >= b))
        },
        Instruction::ShiftRight { x } => {
            let a = n.regs[x as int];
            Ok(n.set_reg(x as int, a / 2).set_flag(a % 2 == 1))
        },
        Instruction::SubReverse { x, y } => {
            let a = n.regs[x as int];
            let b = n.regs[y as int];
            Ok(n.set_reg(x as int, wrap8(b - a)).set_flag(b >= a))
        },
        Instruction::ShiftLeft { x } => {
            let a = n.regs[x as int];
            Ok(n.set_reg(x as int, wrap8(2 * a)).set_flag(a >= 128))
        },
        Instruction::SkipNeReg { x, y } => Ok(
            if n.regs[x as int] != n.regs[y as int] {
                move_pc(n, 2)
            } else {
                n
            },
        ),
        Instruction::SetIndex { addr } => Ok(Machine { index: addr, ..n }),
        Instruction::JumpOffset { addr } => Ok(Machine { pc: (n.regs[0] + addr) as u16, ..n }),
        Instruction::Random { x, nn } => Ok(n.set_reg(x as int, nn & input.random)),
        Instruction::Draw { x, y, n: height } => if n.index + height > MEMORY_SIZE {
            Err(Fault::MemoryOutOfBounds)
        } else {
            Ok(n.set_flag(input.collision))
        },
        Instruction::SkipKeyDown { x } => Ok(
            if input.key_down {
                move_pc(n, 2)
            } else {
                n
            },
        ),
        Instruction::SkipKeyUp { x } => Ok(
            if !input.key_down {
                move_pc(n, 2)
            } else {
                n
            },
        ),
        Instruction::LoadDelay { x } => Ok(n.set_reg(x as int, n.delay)),
        Instruction::WaitKey { x } => match input.key_pressed {
            Some(k) => Ok(n.set_reg(x as int, k)),
            None => Ok(move_pc(n, -2)),
        },
        Instruction::SetDelay { x } => Ok(Machine { delay: n.regs[x as int], ..n }),
        Instruction::SetSound { x } => Ok(Machine { sound: n.regs[x as int], ..n }),
        Instruction::AddIndex { x } => {
            let s = n.index + n.regs[x as int];
            Ok(Machine { index: wrap16(s), ..n }.set_flag(s > 0xFFFF))
        },
        Instruction::FontChar { x } => Ok(Machine { index: (n.regs[x as int] * 5) as u16, ..n }),
        Instruction::StoreBcd { x } => if n.index + 2 >= MEMORY_SIZE {
            Err(Fault::MemoryOutOfBounds)
        } else {
            let v = n.regs[x as int];
            let i = n.index as int;
            Ok(
                Machine {
                    ram: n.ram.update(i, v / 100).update(i + 1, v / 10 % 10).update(i + 2, v % 10),
                    ..n
                },
            )
        },
        Instruction::StoreRegs { x } => if n.index + x >= MEMORY_SIZE {
            Err(Fault::MemoryOutOfBounds)
        } else {
            Ok(
                Machine {
                    ram: Seq::new(
                        n.ram.len(),
                        |a: int|
                            if n.index <= a <= n.index + x {
                                n.regs[a - n.index]
                            } else {
                                n.ram[a]
                            },
                    ),
                    ..n
                },
            )
        },
        Instruction::LoadRegs { x } => if n.index + x >= MEMORY_SIZE {
            Err(Fault::MemoryOutOfBounds)
        } else {
            Ok(
                Machine {
                    regs: Seq::new(
                        n.regs.len(),
                        |i: int|
                            if i <= x {
                                n.ram[n.index + i]
                            } else {
                                n.regs[i]
                            },
                    ),
                    ..n
                },
            )
        },
    }
}

/// Whether the effect of `ins` depends on what the peripherals answer.
pub open spec fn reads_ports(ins: Instruction) -> bool {
    ||| ins is Draw
    ||| ins is SkipKeyDown
    ||| ins is SkipKeyUp
    ||| ins is WaitKey
    ||| ins is Random
}

/// The effect of executing `ins`, fetched from the program counter of `m`:
/// the counter moves past the instruction word first.
pub open spec fn execute_spec(m: Machine, ins: Instruction, input: PortInput) -> Result<
    Machine,
    Fault,
> {
    apply_spec(move_pc(m, 2), ins, input)
}

/// One full cycle: fetch, decode and execute.
pub open spec fn cycle_spec(m: Machine, input: PortInput) -> Result<Machine, Fault> {
    match fetch_spec(m) {
        Ok(ins) => execute_spec(m, ins, input),
        Err(f) => Err(f),
    }
}

impl Chip8State {
    /// Reads and decodes the instruction at the program counter.
    pub fn fetch(&self) -> (r: Result<Instruction, Fault>)
        ensures
            r == fetch_spec(self@),
            r matches Ok(i) ==> i.wf(),
    {
        if self.program_counter as usize + 1 >= MEMORY_SIZE {
            return Err(Fault::MemoryOutOfBounds);
        }
        let byte_a = self.ram[self.program_counter as usize];
        let byte_b = self.ram[self.program_counter as usize + 1];
        match decode(byte_a, byte_b) {
            Some(ins) => Ok(ins),
            None => Err(Fault::UnknownInstruction { word: (byte_a as u16) * 256 + byte_b as u16 }),
        }
    }

    /// Executes `ins`, with `input` as the peripherals' answers. On a fault the
    /// state is left as it was.
    pub fn execute(&mut self, ins: Instruction, input: &PortInput) -> (r: Result<(), Fault>)
        requires
            ins.wf(),
        ensures
            match execute_spec(old(self)@, ins, *input) {
                Ok(m) => r is Ok && final(self)@ == m,
                Err(f) => r == Err::<(), Fault>(f) && final(self)@ == old(self)@,
            },
    {
        match ins {
            Instruction::ClearScreen | Instruction::Return | Instruction::Jump { .. }
            | Instruction::Call { .. } | Instruction::JumpOffset { .. }
            | Instruction::SkipEqImm { .. } | Instruction::SkipNeImm { .. }
            | Instruction::SkipEqReg { .. } | Instruction::SkipNeReg { .. }
            | Instruction::SkipKeyDown { .. } | Instruction::SkipKeyUp { .. }
            | Instruction::WaitKey { .. } => {
                self.execute_flow(ins, input)
            },
            Instruction::LoadImm { .. } | Instruction::AddImm { .. } | Instruction::Copy { .. }
            | Instruction::Or { .. } | Instruction::And { .. } | Instruction::Xor { .. }
            | Instruction::AddReg { .. } | Instruction::SubReg { .. }
            | Instruction::ShiftRight { .. } | Instruction::SubReverse { .. }
            | Instruction::ShiftLeft { .. } | Instruction::Random { .. } => {
                self.execute_alu(ins, input)
            },
            Instruction::SetIndex { .. } | Instruction::AddIndex { .. }
            | Instruction::FontChar { .. } | Instruction::Draw { .. } | Instruction::StoreBcd { .. }
            | Instruction::StoreRegs { .. } | Instruction::LoadRegs { .. }
            | Instruction::LoadDelay { .. } | Instruction::SetDelay { .. }
            | Instruction::SetSound { .. } => {
                self.execute_memory(ins, input)
            },
        }
    }

    /// Executes a jump, call, return, skip, key wait or screen clear.
    fn execute_flow(&mut self, ins: Instruction, input: &PortInput) -> (r: Result<(), Fault>)
        requires
            ins.wf(),
            ins is ClearScreen || ins is Return || ins is Jump || ins is Call || ins is JumpOffset
                || ins is SkipEqImm || ins is SkipNeImm || ins is SkipEqReg || ins is SkipNeReg
                || ins is SkipKeyDown || ins is SkipKeyUp || ins is WaitKey,
        ensures
            match execute_spec(old(self)@, ins, *input) {
                Ok(m) => r is Ok && final(self)@ == m,
                Err(f) => r == Err::<(), Fault>(f) && final(self)@ == old(self)@,
            },
    {
        let pc = self.program_counter.wrapping_add(2);
        match ins {
            Instruction::ClearScreen => {
                self.program_counter = pc;
            },
            Instruction::Return => {
                if self.stack_pointer == 0 {
                    return Err(Fault::StackUnderflow);
                }
                self.program_counter = self.stack[self.stack_pointer as usize];
                self.stack_pointer = self.stack_pointer - 1;
            },
            Instruction::Jump { addr } => {
                self.program_counter = addr;
            },
            Instruction::Call { addr } => {
                if self.stack_pointer >= STACK_CAPACITY {
                    return Err(Fault::StackOverflow);
                }
                self.stack_pointer = self.stack_pointer + 1;
                self.stack[self.stack_pointer as usize] = pc;
                self.program_counter = addr;
            },
            Instruction::JumpOffset { addr } => {
                self.program_counter = self.data_registers[0] as u16 + addr;
            },
            Instruction::SkipEqImm { x, nn } => {
                self.program_counter = if self.data_registers[x as usize] == nn {
                    pc.wrapping_add(2)
                } else {
                    pc
                };
            },
            Instruction::SkipNeImm { x, nn } => {
                self.program_counter = if self.data_registers[x as usize] != nn {
                    pc.wrapping_add(2)
                } else {
                    pc
                };
            },
            Instruction::SkipEqReg { x, y } => {
                self.program_counter = if self.data_registers[x as usize]
                    == self.data_registers[y as usize] {
                    pc.wrapping_add(2)
                } else {
                    pc
                };
            },
            Instruction::SkipNeReg { x, y } => {
                self.program_counter = if self.data_registers[x as usize]
                    != self.data_registers[y as usize] {
                    pc.wrapping_add(2)
                } else {
                    pc
                };
            },
            Instruction::SkipKeyDown { x } => {
                self.program_counter = if input.key_down {
                    pc.wrapping_add(2)
                } else {
                    pc
                };
            },
            Instruction::SkipKeyUp { x } => {
                self.program_counter = if !input.key_down {
                    pc.wrapping_add(2)
                } else {
                    pc
                };
            },
            Instruction::WaitKey { x } => {
                match input.key_pressed {
                    Some(k) => {
                        self.program_counter = pc;
                        self.data_registers[x as usize] = k;
                    },
                    None => {
                        self.program_counter = pc.wrapping_sub(2);
                    },
                }
            },
            _ => {},
        }
        Ok(())
    }

    /// Executes an instruction that computes a register value.
    fn execute_alu(&mut self, ins: Instruction, input: &PortInput) -> (r: Result<(), Fault>)
        requires
            ins.wf(),
            ins is LoadImm || ins is AddImm || ins is Copy || ins is Or || ins is And || ins is Xor
                || ins is AddReg || ins is SubReg || ins is ShiftRight || ins is SubReverse
                || ins is ShiftLeft || ins is Random,
        ensures
            match execute_spec(old(self)@, ins, *input) {
                Ok(m) => r is Ok && final(self)@ == m,
                Err(f) => r == Err::<(), Fault>(f) && final(self)@ == old(self)@,
            },
    {
        let pc = self.program_counter.wrapping_add(2);
        match ins {
            Instruction::LoadImm { x, nn } => {
                self.program_counter = pc;
                self.data_registers[x as usize] = nn;
            },
            Instruction::AddImm { x, nn } => {
                self.program_counter = pc;
                self.data_registers[x as usize] = self.data_registers[x as usize].wrapping_add(nn);
            },
            Instruction::Copy { x, y } => {
                self.program_counter = pc;
                self.data_registers[x as usize] = self.data_registers[y as usize];
            },
            Instruction::Or { x, y } => {
                self.program_counter = pc;
                self.data_registers[x as usize] = self.data_registers[x as usize]
                    | self.data_registers[y as usize];
            },
            Instruction::And { x, y } => {
                self.program_counter = pc;
                self.data_registers[x as usize] = self.data_registers[x as usize]
                    & self.data_registers[y as usize];
            },
            Instruction::Xor { x, y } => {
                self.program_counter = pc;
                self.data_registers[x as usize] = self.data_registers[x as usize]
                    ^ self.data_registers[y as usize];
            },
            Instruction::AddReg { x, y } => {
                self.program_counter = pc;
                let a = self.data_registers[x as usize];
                let b = self.data_registers[y as usize];
                self.data_registers[x as usize] = a.wrapping_add(b);
                self.set_flag(a as u16 + b as u16 > 255);
            },
            Instruction::SubReg { x, y } => {
                self.program_counter = pc;
                let a = self.data_registers[x as usize];
                let b = self.data_registers[y as usize];
                self.data_registers[x as usize] = a.wrapping_sub(b);
                self.set_flag(a >= b);
            },
            Instruction::ShiftRight { x } => {
                self.program_counter = pc;
                let a = self.data_registers[x as usize];
                self.data_registers[x as usize] = a / 2;
                self.set_flag(a % 2 == 1);
            },
            Instruction::SubReverse { x, y } => {
                self.program_counter = pc;
                let a = self.data_registers[x as usize];
                let b = self.data_registers[y as usize];
                self.data_registers[x as usize] = b.wrapping_sub(a);
                self.set_flag(b >= a);
            },
            Instruction::ShiftLeft { x } => {
                self.program_counter = pc;
                let a = self.data_registers[x as usize];
                self.data_registers[x as usize] = a.wrapping_mul(2);
                self.set_flag(a >= 128);
            },
            Instruction::Random { x, nn } => {
                self.program_counter = pc;
                self.data_registers[x as usize] = nn & input.random;
            },
            _ => {},
        }
        Ok(())
    }

    /// Executes an instruction on the index register, the timers or memory.
    fn execute_memory(&mut self, ins: Instruction, input: &PortInput) -> (r: Result<(), Fault>)
        requires
            ins.wf(),
            ins is SetIndex || ins is AddIndex || ins is FontChar || ins is Draw || ins is StoreBcd
                || ins is StoreRegs || ins is LoadRegs || ins is LoadDelay || ins is SetDelay
                || ins is SetSound,
        ensures
            match execute_spec(old(self)@, ins, *input) {
                Ok(m) => r is Ok && final(self)@ == m,
                Err(f) => r == Err::<(), Fault>(f) && final(self)@ == old(self)@,
            },
    {
        let pc = self.program_counter.wrapping_add(2);
        match ins {
            Instruction::SetIndex { addr } => {
                self.program_counter = pc;
                self.index_register = addr;
            },
            Instruction::AddIndex { x } => {
                self.program_counter = pc;
                let s = self.index_register as u32 + self.data_registers[x as usize] as u32;
                self.index_register = self.index_register.wrapping_add(
                    self.data_registers[x as usize] as u16,
                );
                self.set_flag(s > 0xFFFF);
            },
            Instruction::FontChar { x } => {
                self.program_counter = pc;
                self.index_register = self.data_registers[x as usize] as u16 * 5;
            },
            Instruction::Draw { x, y, n } => {
                if self.index_register as usize + n as usize > MEMORY_SIZE {
                    return Err(Fault::MemoryOutOfBounds);
                }
                self.program_counter = pc;
                self.set_flag(input.collision);
            },
            Instruction::StoreBcd { x } => {
                if self.index_register as usize + 2 >= MEMORY_SIZE {
                    return Err(Fault::MemoryOutOfBounds);
                }
                self.program_counter = pc;
                let value = self.data_registers[x as usize];
                let i = self.index_register as usize;
                self.ram[i] = value / 100;
                self.ram[i + 1] = value / 10 % 10;
                self.ram[i + 2] = value % 10;
            },
            Instruction::StoreRegs { x } => {
                if self.index_register as usize + x as usize >= MEMORY_SIZE {
                    return Err(Fault::MemoryOutOfBounds);
                }
                self.program_counter = pc;
                self.store_registers(x);
            },
            Instruction::LoadRegs { x } => {
                if self.index_register as usize + x as usize >= MEMORY_SIZE {
                    return Err(Fault::MemoryOutOfBounds);
                }
                self.program_counter = pc;
                self.load_registers(x);
            },
            Instruction::LoadDelay { x } => {
                self.program_counter = pc;
                self.data_registers[x as usize] = self.delay_timer;
            },
            Instruction::SetDelay { x } => {
                self.program_counter = pc;
                self.delay_timer = self.data_registers[x as usize];
            },
            Instruction::SetSound { x } => {
                self.program_counter = pc;
                self.sound_timer = self.data_registers[x as usize];
            },
            _ => {},
        }
        Ok(())
    }

    /// Copies registers `0..=x` to memory starting at the index register.
    fn store_registers(&mut self, x: u8)
        requires
            x < 16,
            old(self).index_register + x < MEMORY_SIZE,
        ensures
            final(self)@ == (Machine {
                ram: Seq::new(
                    MEMORY_SIZE as nat,
                    |a: int|
                        if old(self)@.index <= a <= old(self)@.index + x {
                            old(self)@.regs[a - old(self)@.index]
                        } else {
                            old(self)@.ram[a]
                        },
                ),
                ..old(self)@
            }),
    {
        let base = self.index_register as usize;
        let mut i: usize = 0;
        while i <= x as usize
            invariant
                x < 16,
                base == old(self).index_register,
                base + x < MEMORY_SIZE,
                i <= x + 1,
                self.data_registers == old(self).data_registers,
                self.index_register == old(self).index_register,
                self.program_counter == old(self).program_counter,
                self.stack_pointer == old(self).stack_pointer,
                self.stack == old(self).stack,
                self.delay_timer == old(self).delay_timer,
                self.sound_timer == old(self).sound_timer,
                forall|a: int|
                    0 <= a < MEMORY_SIZE ==> #[trigger] self.ram@[a] == if base <= a < base + i {
                        old(self)@.regs[a - base]
                    } else {
                        old(self)@.ram[a]
                    },
            decreases x + 1 - i,
        {
            self.ram[base + i] = self.data_registers[i];
            i = i + 1;
        }
        assert(self@.ram =~= Seq::new(
            MEMORY_SIZE as nat,
            |a: int|
                if old(self)@.index <= a <= old(self)@.index + x {
                    old(self)@.regs[a - old(self)@.index]
                } else {
                    old(self)@.ram[a]
                },
        ));
    }

    /// Copies memory starting at the index register into registers `0..=x`.
    fn load_registers(&mut self, x: u8)
        requires
            x < 16,
            old(self).index_register + x < MEMORY_SIZE,
        ensures
            final(self)@ == (Machine {
                regs: Seq::new(
                    16,
                    |i: int|
                        if i <= x {
                            old(self)@.ram[old(self)@.index + i]
                        } else {
                            old(self)@.regs[i]
                        },
                ),
                ..old(self)@
            }),
    {
        let base = self.index_register as usize;
        let mut i: usize = 0;
        while i <= x as usize
            invariant
                x < 16,
                base == old(self).index_register,
                base + x < MEMORY_SIZE,
                i <= x + 1,
                self.ram == old(self).ram,
                self.index_register == old(self).index_register,
                self.program_counter == old(self).program_counter,
                self.stack_pointer == old(self).stack_pointer,
                self.stack == old(self).stack,
                self.delay_timer == old(self).delay_timer,
                self.sound_timer == old(self).sound_timer,
                forall|j: int|
                    0 <= j < 16 ==> #[trigger] self.data_registers@[j] == if j < i {
                        old(self)@.ram[base + j]
                    } else {
                        old(self)@.regs[j]
                    },
            decreases x + 1 - i,
        {
            self.data_registers[i] = self.ram[base + i];
            i = i + 1;
        }
        assert(self@.regs =~= Seq::new(
            16,
            |i: int|
                if i <= x {
                    old(self)@.ram[old(self)@.index + i]
                } else {
                    old(self)@.regs[i]
                },
        ));
    }

    /// Runs one full cycle, with `input` as the peripherals' answers. On a fault
    /// the state is left as it was.
    pub fn cycle(&mut self, input: &PortInput) -> (r: Result<(), Fault>)
        ensures
            match cycle_spec(old(self)@, *input) {
                Ok(m) => r is Ok && final(self)@ == m,
                Err(f) => r == Err::<(), Fault>(f) && final(self)@ == old(self)@,
            },
    {
        let ins = self.fetch()?;
        self.execute(ins, input)
    }
}

} // verus!
