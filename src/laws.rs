use vstd::prelude::*;

use crate::model::{
    bit_set, collides, drawn, execute_instruction, fetch_word, skip, sprite_hits, step_machine,
    well_sized, Fault, Instruction, Machine, FLAG, PIXELS, STACK_SIZE,
};

verus! {

/// `8xy4` sets `VF` to 1 exactly when `Vx + Vy` exceeds 255 and to 0
/// otherwise, and leaves `(Vx + Vy) mod 256` in `Vx` unless `x` is the flag
/// register itself.
pub proof fn law_add_sets_carry(m: Machine, x: u8, y: u8, rnd: u8)
    requires
        well_sized(m),
        x < 16,
        y < 16,
    ensures
        ({
            let sum = m.regs[x as int] + m.regs[y as int];
            match execute_instruction(m, Instruction::AddReg { x, y }, rnd) {
                Ok(n) => {
                    &&& n.regs[FLAG as int] == (if sum > 255 { 1u8 } else { 0u8 })
                    &&& x != FLAG ==> n.regs[x as int] == sum % 256
                },
                Err(_) => false,
            }
        }),
{
}

/// `8xy6` puts the low bit of `Vx` in `VF` and `Vx >> 1` in `Vx`; `8xyE` puts
/// the high bit of `Vx` in `VF` and `Vx << 1`, truncated to 8 bits, in `Vx`.
/// Both read `Vx` before writing the flag, so `x` is any register but `VF`.
pub proof fn law_shifts_extract_bit(m: Machine, x: u8, y: u8, rnd: u8)
    requires
        well_sized(m),
        x < 15,
        y < 16,
    ensures
        ({
            let a = m.regs[x as int];
            match execute_instruction(m, Instruction::ShiftRight { x, y }, rnd) {
                Ok(n) => n.regs[FLAG as int] == a & 1 && n.regs[x as int] == a >> 1u8,
                Err(_) => false,
            }
        }),
        ({
            let a = m.regs[x as int];
            match execute_instruction(m, Instruction::ShiftLeft { x, y }, rnd) {
                Ok(n) => n.regs[FLAG as int] == (a & 0x80) >> 7u8 && n.regs[x as int] == a << 1u8,
                Err(_) => false,
            }
        }),
{
    let a = m.regs[x as int];
    assert(a & 1 == a % 2 && a >> 1u8 == a / 2) by (bit_vector);
    assert((a & 0x80) >> 7u8 == a / 128 && a << 1u8 == ((a * 2) % 256) as u8) by (bit_vector);
}

/// After `00E0` every cell of the framebuffer is off.
pub proof fn law_clear_blanks_screen(m: Machine, rnd: u8)
    requires
        well_sized(m),
    ensures
        match execute_instruction(m, Instruction::Cls, rnd) {
            Ok(n) => n.display.len() == PIXELS && forall|p: int| 0 <= p < PIXELS ==> !n.display[p],
            Err(_) => false,
        },
{
}

/// A `2nnn` call followed by a `00EE` return brings back the program counter
/// and the stack depth that the call started from.
pub proof fn law_call_then_return(m: Machine, nnn: u16, rnd: u8)
    requires
        well_sized(m),
        m.sp < STACK_SIZE,
    ensures
        match execute_instruction(m, Instruction::Call { nnn }, rnd) {
            Ok(called) => match execute_instruction(called, Instruction::Ret, rnd) {
                Ok(back) => back.pc == m.pc && back.sp == m.sp,
                Err(_) => false,
            },
            Err(_) => false,
        },
{
}

/// Drawing a one-row sprite of eight set pixels twice at the same place on a
/// blank screen leaves the screen blank, and the second draw reports a
/// collision in `VF`. The origin registers are not `VF`, which the first draw
/// overwrites.
pub proof fn law_draw_twice_restores(m: Machine, x: u8, y: u8, rnd: u8)
    requires
        well_sized(m),
        x < 15,
        y < 15,
        m.i < 4096,
        m.ram[m.i as int] == 0xFF,
        forall|p: int| 0 <= p < PIXELS ==> !m.display[p],
    ensures
        match execute_instruction(m, Instruction::Draw { x, y, n: 1 }, rnd) {
            Ok(once) => match execute_instruction(once, Instruction::Draw { x, y, n: 1 }, rnd) {
                Ok(twice) => twice.display == m.display && twice.regs[FLAG as int] == 1,
                Err(_) => false,
            },
            Err(_) => false,
        },
{
    let ox = (m.regs[x as int] % 64) as int;
    let oy = (m.regs[y as int] % 32) as int;
    let once = execute_instruction(m, Instruction::Draw { x, y, n: 1 }, rnd)->Ok_0;
    assert(once.regs[x as int] == m.regs[x as int] && once.regs[y as int] == m.regs[y as int]);
    assert forall|r: int, c: int|
        sprite_hits(once, ox, oy, r, c, 1, 0) == sprite_hits(m, ox, oy, r, c, 1, 0) by {}
    assert(drawn(once, ox, oy, 1, 0) =~= m.display);
    let p = oy * 64 + ox;
    assert(p / 64 == oy && p % 64 == ox);
    assert(0xFFu8 & (0x80u8 >> 0u8) != 0) by (bit_vector);
    assert(bit_set(m.ram[m.i as int], 0));
    assert(sprite_hits(m, ox, oy, p / 64, p % 64, 1, 0));
    assert(once.display[p]);
    assert(collides(once, ox, oy, 1, 0));
}

/// A step that fetches the word `FFFF`, which encodes no instruction, reports
/// it as unknown and changes nothing but the advanced program counter and the
/// timer tick: registers, memory, stack and screen stay as they were.
pub proof fn law_unknown_word_is_noop(m: Machine, rnd: u8)
    requires
        well_sized(m),
        fetch_word(m) == Some(0xFFFFu16),
    ensures
        ({
            let (n, r) = step_machine(m, rnd);
            &&& r == Err::<(), Fault>(Fault::UnknownOpcode(0xFFFF))
            &&& n.pc == skip(m).pc
            &&& n.pc == m.pc + 2
            &&& n.i == m.i
            &&& n.sp == m.sp
            &&& n.regs == m.regs
            &&& n.ram == m.ram
            &&& n.stack == m.stack
            &&& n.display == m.display
        }),
{
}

} // verus!
