use vstd::prelude::*;

use crate::execute::{cycle_spec, execute_spec, fetch_spec, move_pc, wrap8, Fault, PortInput};
use crate::instruction::Instruction;
use crate::state::{Machine, FLAG_REGISTER, MEMORY_SIZE, STACK_CAPACITY};

verus! {

/// Whether the instruction word at the program counter of `m` is `hi`, `lo`.
pub open spec fn word_at_pc(m: Machine, hi: u8, lo: u8) -> bool {
    &&& m.pc + 1 < MEMORY_SIZE
    &&& m.ram[m.pc as int] == hi
    &&& m.ram[m.pc + 1] == lo
}

/// `8xy4` adds with carry: `Vx` becomes the sum modulo 256 and the flag
/// register is 1 exactly when the sum exceeds 255.
pub proof fn lemma_add_sets_carry(m: Machine, x: u8, y: u8, input: PortInput)
    requires
        m.wf(),
        x < 16,
        y < 16,
        x != FLAG_REGISTER,
        word_at_pc(m, (0x80 + x) as u8, (y * 16 + 4) as u8),
    ensures
        cycle_spec(m, input) matches Ok(r) && {
            let a = m.regs[x as int];
            let b = m.regs[y as int];
            &&& r.regs[x as int] == (a + b) % 256
            &&& (r.regs[FLAG_REGISTER as int] == 1) == (a + b > 255)
            &&& r.regs[FLAG_REGISTER as int] <= 1
            &&& r.pc == m.pc + 2
        },
{
}

/// `8xy5` subtracts with borrow: `Vx` becomes the difference modulo 256 and
/// the flag register is 1 exactly when no borrow occurred.
pub proof fn lemma_sub_sets_no_borrow(m: Machine, x: u8, y: u8, input: PortInput)
    requires
        m.wf(),
        x < 16,
        y < 16,
        x != FLAG_REGISTER,
        word_at_pc(m, (0x80 + x) as u8, (y * 16 + 5) as u8),
    ensures
        cycle_spec(m, input) matches Ok(r) && {
            let a = m.regs[x as int];
            let b = m.regs[y as int];
            &&& r.regs[x as int] == (a - b) % 256
            &&& (r.regs[FLAG_REGISTER as int] == 1) == (a >= b)
            &&& r.regs[FLAG_REGISTER as int] <= 1
            &&& r.pc == m.pc + 2
        },
{
}

/// `8xy6` shifts `Vx` right by one and puts the bit shifted out in the flag
/// register; the outcome is the same for every `y`, so `Vy` plays no part.
pub proof fn lemma_shift_right_ignores_vy(m: Machine, x: u8, y: u8, input: PortInput)
    requires
        m.wf(),
        x < 16,
        y < 16,
        x != FLAG_REGISTER,
        word_at_pc(m, (0x80 + x) as u8, (y * 16 + 6) as u8),
    ensures
        ({
            let a = m.regs[x as int];
            cycle_spec(m, input) == Ok::<Machine, Fault>(
                move_pc(m, 2).set_reg(x as int, a / 2).set_flag(a % 2 == 1),
            )
        }),
{
}

/// `8xyE` shifts `Vx` left by one and puts the bit shifted out in the flag
/// register; the outcome is the same for every `y`, so `Vy` plays no part.
pub proof fn lemma_shift_left_ignores_vy(m: Machine, x: u8, y: u8, input: PortInput)
    requires
        m.wf(),
        x < 16,
        y < 16,
        x != FLAG_REGISTER,
        word_at_pc(m, (0x80 + x) as u8, (y * 16 + 0xE) as u8),
    ensures
        ({
            let a = m.regs[x as int];
            cycle_spec(m, input) == Ok::<Machine, Fault>(
                move_pc(m, 2).set_reg(x as int, wrap8(2 * a)).set_flag(a / 128 == 1),
            )
        }),
{
}

/// `Fx0A` with no newly pressed key leaves the whole machine, the program
/// counter included, as it was, so the same instruction runs again; with a
/// key it moves on and `Vx` receives the key.
pub proof fn lemma_wait_key(m: Machine, x: u8, input: PortInput)
    requires
        m.wf(),
        x < 16,
        word_at_pc(m, (0xF0 + x) as u8, 0x0A),
    ensures
        input.key_pressed is None ==> cycle_spec(m, input) == Ok::<
            Machine,
            Fault,
        >(m),
        input.key_pressed matches Some(k) ==> cycle_spec(m, input) matches Ok(r) && r.pc == m.pc
            + 2 && r.regs[x as int] == k && r == move_pc(m, 2).set_reg(x as int, k),
{
    if input.key_pressed is None {
        assert(move_pc(move_pc(m, 2), -2) == m);
    }
}

/// Storing `V0..=Vx` with `Fx55` and loading them back from the same address
/// with `Fx65` gives back the original registers.
pub proof fn lemma_store_load_round_trip(m: Machine, x: u8, input: PortInput)
    requires
        m.wf(),
        x < 16,
        m.index + x < MEMORY_SIZE,
    ensures
        execute_spec(m, Instruction::StoreRegs { x }, input) matches Ok(m1) && execute_spec(
            m1,
            Instruction::LoadRegs { x },
            input,
        ) matches Ok(m2) && m2.regs == m.regs,
{
    let m1 = execute_spec(m, Instruction::StoreRegs { x }, input)->Ok_0;
    let m2 = execute_spec(m1, Instruction::LoadRegs { x }, input)->Ok_0;
    assert(m2.regs =~= m.regs);
}

/// Runs one cycle per entry of `inputs`, each with that entry as the
/// peripherals' answers, stopping at the first fault.
pub open spec fn run_cycles(m: Machine, inputs: Seq<PortInput>) -> Result<Machine, Fault>
    decreases inputs.len(),
{
    if inputs.len() == 0 {
        Ok(m)
    } else {
        match cycle_spec(m, inputs[0]) {
            Ok(n) => run_cycles(n, inputs.drop_first()),
            Err(f) => Err(f),
        }
    }
}

/// Whether the stack pointer stays at `depth` or above after every cycle of
/// `run_cycles(m, inputs)`: whatever runs there returns no further than
/// `depth`.
pub open spec fn stays_at_depth(m: Machine, inputs: Seq<PortInput>, depth: int) -> bool
    decreases inputs.len(),
{
    if inputs.len() == 0 {
        true
    } else {
        match cycle_spec(m, inputs[0]) {
            Ok(n) => n.sp >= depth && stays_at_depth(n, inputs.drop_first(), depth),
            Err(f) => true,
        }
    }
}

/// One cycle keeps the model's shape, and leaves the stack at and below
/// `depth` alone as long as the stack pointer does not go below it.
proof fn lemma_cycle_keeps_frame(m: Machine, input: PortInput, depth: int)
    requires
        m.wf(),
        0 <= depth <= m.sp,
        cycle_spec(m, input) is Ok,
    ensures
        cycle_spec(m, input)->Ok_0.wf(),
        cycle_spec(m, input)->Ok_0.sp >= depth ==> forall|j: int|
            0 <= j <= depth ==> #[trigger] cycle_spec(m, input)->Ok_0.stack[j] == m.stack[j],
{
}

proof fn lemma_cycles_keep_frame(m: Machine, inputs: Seq<PortInput>, depth: int)
    requires
        m.wf(),
        0 <= depth <= m.sp,
        stays_at_depth(m, inputs, depth),
        run_cycles(m, inputs) is Ok,
    ensures
        run_cycles(m, inputs)->Ok_0.wf(),
        run_cycles(m, inputs)->Ok_0.sp >= depth,
        forall|j: int|
            0 <= j <= depth ==> #[trigger] run_cycles(m, inputs)->Ok_0.stack[j] == m.stack[j],
    decreases inputs.len(),
{
    if inputs.len() > 0 {
        lemma_cycle_keeps_frame(m, inputs[0], depth);
        let n = cycle_spec(m, inputs[0])->Ok_0;
        lemma_cycles_keep_frame(n, inputs.drop_first(), depth);
    }
}

/// `00EE` after `2nnn` resumes at the instruction right after the call. The
/// call is fetched at `m`; any cycles may run in between, with any answers of
/// the peripherals, as long as they never return past the call's frame; the
/// return is the one that finds the stack pointer back where the call left
/// it. The stack pointer and the stack below the call come back as they were.
pub proof fn lemma_call_return(m: Machine, call_input: PortInput, inputs: Seq<PortInput>, ret_input: PortInput)
    requires
        m.wf(),
        fetch_spec(m) matches Ok(ins) && ins is Call,
        m.sp < STACK_CAPACITY,
        stays_at_depth(cycle_spec(m, call_input)->Ok_0, inputs, m.sp + 1),
        run_cycles(cycle_spec(m, call_input)->Ok_0, inputs) matches Ok(n) && n.sp == m.sp + 1
            && fetch_spec(n) == Ok::<Instruction, Fault>(Instruction::Return),
    ensures
        ({
            let n = run_cycles(cycle_spec(m, call_input)->Ok_0, inputs)->Ok_0;
            cycle_spec(n, ret_input) matches Ok(r) && {
                &&& r.pc == move_pc(m, 2).pc
                &&& r.sp == m.sp
                &&& forall|j: int| 0 <= j <= m.sp ==> #[trigger] r.stack[j] == m.stack[j]
            }
        }),
{
    let m1 = cycle_spec(m, call_input)->Ok_0;
    assert(m1.wf());
    assert(m1.stack[m.sp + 1] == move_pc(m, 2).pc);
    lemma_cycles_keep_frame(m1, inputs, m.sp + 1);
}

} // verus!
