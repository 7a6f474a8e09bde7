use vstd::prelude::*;

use crate::model::{
    applied, bit_set, collides, copied, drawn, sprite_hits, decode_word, execute_instruction, fetch_word, font_glyphs, initial_machine,
    first_pressed, loaded_ram, step_machine, Fault, Instruction, Machine, FONT_SET_LEN, FONT_SET_START_ADDRESS,
    FLAG, HEIGHT, KEY_COUNT, MEMORY_SIZE, PIXELS, PROGRAM_START, REGISTERS_NUMBER, STACK_SIZE, WIDTH,
};

verus! {

/// One CHIP-8 machine. Every field is open to the host: it writes `keypad`
/// between steps and reads `display` and `sound_t` after them. Nothing here is
/// assumed of the fields; every step checks the addresses it uses.
pub struct Chip8 {
    /// Address of the next instruction.
    pub pc: u16,
    /// The index register `I`.
    pub i: u16,
    /// Number of return addresses on the stack.
    pub sp: u8,
    /// The delay timer, ticking down once per step.
    pub delay_t: u8,
    /// The sound timer, ticking down once per step; sound plays while it is positive.
    pub sound_t: u8,
    pub stack: [u16; STACK_SIZE],
    pub regs: [u8; REGISTERS_NUMBER],
    pub ram: [u8; MEMORY_SIZE],
    /// Whether each key 0 to F is held down.
    pub keypad: [bool; KEY_COUNT],
    /// The 64 by 32 framebuffer, row by row; `true` is a lit pixel.
    pub display: [bool; PIXELS],
}

impl View for Chip8 {
    type V = Machine;

    open spec fn view(&self) -> Machine {
        Machine {
            pc: self.pc,
            i: self.i,
            sp: self.sp,
            delay_t: self.delay_t,
            sound_t: self.sound_t,
            stack: self.stack@,
            regs: self.regs@,
            ram: self.ram@,
            keypad: self.keypad@,
            display: self.display@,
        }
    }
}

/// Relies on `rand::random::<u8>`: a byte drawn from the thread-local
/// generator. Nothing is assumed of its value.
#[verifier::external_body]
fn random_byte() -> u8 {
    rand::random::<u8>()
}

/// The built-in hexadecimal font.
fn font_set() -> (r: [u8; FONT_SET_LEN])
    ensures
        r@ == font_glyphs(),
{
    let r: [u8; FONT_SET_LEN] = [
        0xF0, 0x90, 0x90, 0x90, 0xF0, 0x20, 0x60, 0x20, 0x20, 0x70,
        0xF0, 0x10, 0xF0, 0x80, 0xF0, 0xF0, 0x10, 0xF0, 0x10, 0xF0,
        0x90, 0x90, 0xF0, 0x10, 0x10, 0xF0, 0x80, 0xF0, 0x10, 0xF0,
        0xF0, 0x80, 0xF0, 0x90, 0xF0, 0xF0, 0x10, 0x20, 0x40, 0x40,
        0xF0, 0x90, 0xF0, 0x90, 0xF0, 0xF0, 0x90, 0xF0, 0x10, 0xF0,
        0xF0, 0x90, 0xF0, 0x90, 0x90, 0xE0, 0x90, 0xE0, 0x90, 0xE0,
        0xF0, 0x80, 0x80, 0x80, 0xF0, 0xE0, 0x90, 0x90, 0x90, 0xE0,
        0xF0, 0x80, 0xF0, 0x80, 0xF0, 0xF0, 0x80, 0xF0, 0x80, 0x80,
    ];
    assert(r@ =~= font_glyphs());
    r
}

/// The instruction that `op` encodes, or `None` when it matches no opcode.
pub fn decode(op: u16) -> (r: Option<Instruction>)
    ensures
        r == decode_word(op),
        r matches Some(ins) ==> ins.well_formed(),
{
    let x = ((op / 0x100) % 0x10) as u8;
    let y = ((op / 0x10) % 0x10) as u8;
    let n = (op % 0x10) as u8;
    let kk = (op % 0x100) as u8;
    let nnn = op % 0x1000;
    let f = op / 0x1000;
    if f == 0x0 {
        if op == 0x00E0 {
            Some(Instruction::Cls)
        } else if op == 0x00EE {
            Some(Instruction::Ret)
        } else {
            None
        }
    } else if f == 0x1 {
        Some(Instruction::Jump { nnn })
    } else if f == 0x2 {
        Some(Instruction::Call { nnn })
    } else if f == 0x3 {
        Some(Instruction::SkipEqByte { x, kk })
    } else if f == 0x4 {
        Some(Instruction::SkipNeByte { x, kk })
    } else if f == 0x5 {
        if n == 0 { Some(Instruction::SkipEqReg { x, y }) } else { None }
    } else if f == 0x6 {
        Some(Instruction::LoadByte { x, kk })
    } else if f == 0x7 {
        Some(Instruction::AddByte { x, kk })
    } else if f == 0x8 {
        if n == 0x0 {
            Some(Instruction::LoadReg { x, y })
        } else if n == 0x1 {
            Some(Instruction::Or { x, y })
        } else if n == 0x2 {
            Some(Instruction::And { x, y })
        } else if n == 0x3 {
            Some(Instruction::Xor { x, y })
        } else if n == 0x4 {
            Some(Instruction::AddReg { x, y })
        } else if n == 0x5 {
            Some(Instruction::SubReg { x, y })
        } else if n == 0x6 {
            Some(Instruction::ShiftRight { x, y })
        } else if n == 0x7 {
            Some(Instruction::SubNeg { x, y })
        } else if n == 0xE {
            Some(Instruction::ShiftLeft { x, y })
        } else {
            None
        }
    } else if f == 0x9 {
        if n == 0 { Some(Instruction::SkipNeReg { x, y }) } else { None }
    } else if f == 0xA {
        Some(Instruction::LoadIndex { nnn })
    } else if f == 0xB {
        Some(Instruction::JumpOffset { nnn })
    } else if f == 0xC {
        Some(Instruction::Random { x, kk })
    } else if f == 0xD {
        Some(Instruction::Draw { x, y, n })
    } else if f == 0xE {
        if kk == 0x9E {
            Some(Instruction::SkipKeyPressed { x })
        } else if kk == 0xA1 {
            Some(Instruction::SkipKeyReleased { x })
        } else {
            None
        }
    } else {
        if kk == 0x07 {
            Some(Instruction::ReadDelay { x })
        } else if kk == 0x0A {
            Some(Instruction::WaitKey { x })
        } else if kk == 0x15 {
            Some(Instruction::SetDelay { x })
        } else if kk == 0x18 {
            Some(Instruction::SetSound { x })
        } else if kk == 0x1E {
            Some(Instruction::AddIndex { x })
        } else if kk == 0x29 {
            Some(Instruction::LoadGlyph { x })
        } else if kk == 0x33 {
            Some(Instruction::StoreBcd { x })
        } else if kk == 0x55 {
            Some(Instruction::StoreRegs { x })
        } else if kk == 0x65 {
            Some(Instruction::LoadRegs { x })
        } else {
            None
        }
    }
}

/// Taking one more sprite bit into account changes at most the one cell it
/// lands on, and adds a collision exactly when that cell is lit.
proof fn lemma_draw_step(m: Machine, ox: int, oy: int, row: int, col: int)
    requires
        m.display.len() == PIXELS,
        0 <= ox < 64,
        0 <= oy < 32,
        0 <= row,
        0 <= col < 8,
    ensures
        ({
            let hit = bit_set(m.ram[m.i + row], col) && oy + row < 32 && ox + col < 64;
            let p = (oy + row) * 64 + ox + col;
            let d0 = drawn(m, ox, oy, row, col);
            &&& hit ==> 0 <= p < PIXELS && d0[p] == m.display[p]
            &&& drawn(m, ox, oy, row, col + 1) == if hit {
                d0.update(p, !d0[p])
            } else {
                d0
            }
            &&& collides(m, ox, oy, row, col + 1) == (collides(m, ox, oy, row, col) || (hit
                && d0[p]))
        }),
{
    let hit = bit_set(m.ram[m.i + row], col) && oy + row < 32 && ox + col < 64;
    let p = (oy + row) * 64 + ox + col;
    let d0 = drawn(m, ox, oy, row, col);
    let d1 = drawn(m, ox, oy, row, col + 1);
    if hit {
        assert(d1 =~= d0.update(p, !d0[p]));
    } else {
        assert(d1 =~= d0);
    }
    if collides(m, ox, oy, row, col + 1) {
        let q = choose|q: int|
            0 <= q < PIXELS && #[trigger] m.display[q] && sprite_hits(
                m,
                ox,
                oy,
                q / 64,
                q % 64,
                row,
                col + 1,
            );
        if !sprite_hits(m, ox, oy, q / 64, q % 64, row, col) {
            assert(q == p && hit);
        }
    }
    if collides(m, ox, oy, row, col) {
        let q = choose|q: int|
            0 <= q < PIXELS && #[trigger] m.display[q] && sprite_hits(
                m,
                ox,
                oy,
                q / 64,
                q % 64,
                row,
                col,
            );
        assert(sprite_hits(m, ox, oy, q / 64, q % 64, row, col + 1));
    }
    if hit && d0[p] {
        assert(m.display[p] && sprite_hits(m, ox, oy, p / 64, p % 64, row, col + 1));
    }
}

/// A finished sprite row is the same as the start of the next one.
proof fn lemma_draw_row(m: Machine, ox: int, oy: int, row: int)
    ensures
        drawn(m, ox, oy, row, 8) == drawn(m, ox, oy, row + 1, 0),
        collides(m, ox, oy, row, 8) == collides(m, ox, oy, row + 1, 0),
{
    assert forall|r: int, c: int|
        sprite_hits(m, ox, oy, r, c, row, 8) == sprite_hits(m, ox, oy, r, c, row + 1, 0) by {}
    assert(drawn(m, ox, oy, row, 8) =~= drawn(m, ox, oy, row + 1, 0));
}

impl Chip8 {
    /// A machine at reset, with the font in memory.
    pub fn new() -> (r: Self)
        ensures
            r@ == initial_machine(),
    {
        let mut chip = Chip8 {
            pc: PROGRAM_START as u16,
            i: 0,
            sp: 0,
            delay_t: 0,
            sound_t: 0,
            stack: [0u16; STACK_SIZE],
            regs: [0u8; REGISTERS_NUMBER],
            ram: [0u8; MEMORY_SIZE],
            keypad: [false; KEY_COUNT],
            display: [false; PIXELS],
        };
        let ghost zeros = chip.ram@;
        assert(zeros =~= Seq::new(MEMORY_SIZE as nat, |a: int| 0u8));
        chip.load_font_set();
        proof {
            let m = initial_machine();
            assert(chip.stack@ =~= m.stack);
            assert(chip.regs@ =~= m.regs);
            assert(chip.keypad@ =~= m.keypad);
            assert(chip.display@ =~= m.display);
            assert(chip.ram@ =~= m.ram);
        }
        chip
    }

    /// Writes the font to its place in memory.
    fn load_font_set(&mut self)
        ensures
            final(self)@ == (Machine {
                ram: copied(old(self)@.ram, FONT_SET_START_ADDRESS as int, font_glyphs()),
                ..old(self)@
            }),
    {
        let font = font_set();
        let ghost m0 = self@;
        let mut k: usize = 0;
        assert(copied(m0.ram, FONT_SET_START_ADDRESS as int, font@.take(0)) =~= m0.ram);
        while k < FONT_SET_LEN
            invariant
                k <= FONT_SET_LEN,
                font@ == font_glyphs(),
                self@ == (Machine {
                    ram: copied(m0.ram, FONT_SET_START_ADDRESS as int, font@.take(k as int)),
                    ..m0
                }),
            decreases FONT_SET_LEN - k,
        {
            self.ram[FONT_SET_START_ADDRESS + k] = font[k];
            k = k + 1;
            assert(self.ram@ =~= copied(
                m0.ram,
                FONT_SET_START_ADDRESS as int,
                font@.take(k as int),
            ));
        }
        assert(font@.take(FONT_SET_LEN as int) =~= font@);
    }

    /// Copies `program` into memory from the program address on, or fails with
    /// `ProgramTooLarge`, changing nothing, when it does not fit.
    pub fn load_program(&mut self, program: &[u8]) -> (r: Result<(), Fault>)
        ensures
            match loaded_ram(old(self)@.ram, program@) {
                Some(ram) => r == Ok::<(), Fault>(()) && final(self)@ == (Machine {
                    ram,
                    ..old(self)@
                }),
                None => r == Err::<(), Fault>(Fault::ProgramTooLarge) && final(self)@ == old(
                    self,
                )@,
            },
    {
        if program.len() > MEMORY_SIZE - PROGRAM_START {
            return Err(Fault::ProgramTooLarge);
        }
        let ghost m0 = self@;
        let mut k: usize = 0;
        assert(copied(m0.ram, PROGRAM_START as int, program@.take(0)) =~= m0.ram);
        while k < program.len()
            invariant
                k <= program@.len(),
                PROGRAM_START + program@.len() <= MEMORY_SIZE,
                self@ == (Machine {
                    ram: copied(m0.ram, PROGRAM_START as int, program@.take(k as int)),
                    ..m0
                }),
            decreases program@.len() - k,
        {
            self.ram[PROGRAM_START + k] = program[k];
            k = k + 1;
            assert(self.ram@ =~= copied(m0.ram, PROGRAM_START as int, program@.take(k as int)));
        }
        assert(program@.take(program@.len() as int) =~= program@);
        Ok(())
    }

    /// The instruction word at `pc`, high byte first, or `None` when it would
    /// be read past the end of memory.
    pub fn fetch(&self) -> (r: Option<u16>)
        ensures
            r == fetch_word(self@),
    {
        if (self.pc as usize) + 1 < MEMORY_SIZE {
            let hi = self.ram[self.pc as usize] as u16;
            let lo = self.ram[self.pc as usize + 1] as u16;
            Some(hi * 256 + lo)
        } else {
            None
        }
    }

    /// Runs one step: fetches the instruction word at `pc`, advances `pc` by
    /// 2, decodes and executes the instruction, then ticks both timers.
    /// `rnd` is the random byte that `Cxkk` uses.
    ///
    /// A fetch past the end of memory fails with `AddressOutOfRange` and
    /// changes nothing. An unknown instruction word fails with
    /// `UnknownOpcode` and is otherwise a no-op; so is an instruction that
    /// faults. In both cases `pc` stays advanced and the timers tick.
    pub fn step(&mut self, rnd: u8) -> (r: Result<(), Fault>)
        ensures
            (final(self)@, r) == step_machine(old(self)@, rnd),
    {
        let op = match self.fetch() {
            Some(op) => op,
            None => {
                return Err(Fault::AddressOutOfRange);
            },
        };
        self.pc = self.pc + 2;
        let r = match decode(op) {
            Some(ins) => self.execute(ins, rnd),
            None => Err(Fault::UnknownOpcode(op)),
        };
        if self.delay_t > 0 {
            self.delay_t = self.delay_t - 1;
        }
        if self.sound_t > 0 {
            self.sound_t = self.sound_t - 1;
        }
        r
    }

    /// Runs one step with a random byte from the thread-local generator:
    /// the outcome is that of `step` for some byte.
    pub fn cycle(&mut self) -> (r: Result<(), Fault>)
        ensures
            exists|rnd: u8| step_machine(old(self)@, rnd) == (final(self)@, r),
    {
        let rnd = random_byte();
        let r = self.step(rnd);
        assert(step_machine(old(self)@, rnd) == (self@, r));
        r
    }

    /// Executes `ins` on a machine whose `pc` is already past it.
    fn execute(&mut self, ins: Instruction, rnd: u8) -> (r: Result<(), Fault>)
        requires
            ins.well_formed(),
            2 <= old(self).pc <= MEMORY_SIZE,
        ensures
            applied(old(self)@, final(self)@, r, execute_instruction(old(self)@, ins, rnd)),
    {
        match ins {
            Instruction::Cls => {
                self.op_00e0();
                Ok(())
            },
            Instruction::Ret => self.op_00ee(),
            Instruction::Jump { nnn } => {
                self.op_1nnn(nnn);
                Ok(())
            },
            Instruction::Call { nnn } => self.op_2nnn(nnn),
            Instruction::SkipEqByte { x, kk } => {
                self.op_3xkk(x, kk);
                Ok(())
            },
            Instruction::SkipNeByte { x, kk } => {
                self.op_4xkk(x, kk);
                Ok(())
            },
            Instruction::SkipEqReg { x, y } => {
                self.op_5xy0(x, y);
                Ok(())
            },
            Instruction::LoadByte { x, kk } => {
                self.op_6xkk(x, kk);
                Ok(())
            },
            Instruction::AddByte { x, kk } => {
                self.op_7xkk(x, kk);
                Ok(())
            },
            Instruction::LoadReg { x, y } => {
                self.op_8xy0(x, y);
                Ok(())
            },
            Instruction::Or { x, y } => {
                self.op_8xy1(x, y);
                Ok(())
            },
            Instruction::And { x, y } => {
                self.op_8xy2(x, y);
                Ok(())
            },
            Instruction::Xor { x, y } => {
                self.op_8xy3(x, y);
                Ok(())
            },
            Instruction::AddReg { x, y } => {
                self.op_8xy4(x, y);
                Ok(())
            },
            Instruction::SubReg { x, y } => {
                self.op_8xy5(x, y);
                Ok(())
            },
            Instruction::ShiftRight { x, y } => {
                self.op_8xy6(x, y);
                Ok(())
            },
            Instruction::SubNeg { x, y } => {
                self.op_8xy7(x, y);
                Ok(())
            },
            Instruction::ShiftLeft { x, y } => {
                self.op_8xye(x, y);
                Ok(())
            },
            Instruction::SkipNeReg { x, y } => {
                self.op_9xy0(x, y);
                Ok(())
            },
            Instruction::LoadIndex { nnn } => {
                self.op_annnn(nnn);
                Ok(())
            },
            Instruction::JumpOffset { nnn } => {
                self.op_bnnnn(nnn);
                Ok(())
            },
            Instruction::Random { x, kk } => {
                self.op_cxkk(x, kk, rnd);
                Ok(())
            },
            Instruction::Draw { x, y, n } => self.op_dxyn(x, y, n),
            Instruction::SkipKeyPressed { x } => self.op_ex9e(x),
            Instruction::SkipKeyReleased { x } => self.op_exa1(x),
            Instruction::ReadDelay { x } => {
                self.op_fx07(x);
                Ok(())
            },
            Instruction::WaitKey { x } => {
                self.op_fx0a(x);
                Ok(())
            },
            Instruction::SetDelay { x } => {
                self.op_fx15(x);
                Ok(())
            },
            Instruction::SetSound { x } => {
                self.op_fx18(x);
                Ok(())
            },
            Instruction::AddIndex { x } => {
                self.op_fx1e(x);
                Ok(())
            },
            Instruction::LoadGlyph { x } => {
                self.op_fx29(x);
                Ok(())
            },
            Instruction::StoreBcd { x } => self.op_fx33(x),
            Instruction::StoreRegs { x } => self.op_fx55(x),
            Instruction::LoadRegs { x } => self.op_fx65(x),
        }
    }

    /// `00E0`: turns every pixel off.
    fn op_00e0(&mut self)
        ensures
            execute_instruction(old(self)@, Instruction::Cls, 0) == Ok::<Machine, Fault>(final(self)@),
    {
        self.display = [false; PIXELS];
        assert(self.display@ =~= Seq::new(PIXELS as nat, |p: int| false));
    }

    /// `00EE`: pops the return address into `pc`.
    fn op_00ee(&mut self) -> (r: Result<(), Fault>)
        ensures
            applied(old(self)@, final(self)@, r, execute_instruction(old(self)@, Instruction::Ret, 0)),
    {
        if self.sp == 0 {
            return Err(Fault::StackUnderflow);
        }
        if self.sp as usize > STACK_SIZE {
            return Err(Fault::StackOverflow);
        }
        self.sp = self.sp - 1;
        self.pc = self.stack[self.sp as usize];
        Ok(())
    }

    /// `1nnn`: jumps to `nnn`.
    fn op_1nnn(&mut self, nnn: u16)
        ensures
            execute_instruction(old(self)@, Instruction::Jump { nnn }, 0) == Ok::<Machine, Fault>(final(self)@),
    {
        self.pc = nnn;
    }

    /// `2nnn`: pushes `pc` and jumps to `nnn`.
    fn op_2nnn(&mut self, nnn: u16) -> (r: Result<(), Fault>)
        ensures
            applied(old(self)@, final(self)@, r, execute_instruction(old(self)@, Instruction::Call { nnn }, 0)),
    {
        if self.sp as usize >= STACK_SIZE {
            return Err(Fault::StackOverflow);
        }
        self.stack[self.sp as usize] = self.pc;
        self.sp = self.sp + 1;
        self.pc = nnn;
        Ok(())
    }

    /// `3xkk`: skips the next instruction if `Vx == kk`.
    fn op_3xkk(&mut self, x: u8, kk: u8)
        requires
            x < 16,
            old(self).pc <= MEMORY_SIZE,
        ensures
            execute_instruction(old(self)@, Instruction::SkipEqByte { x, kk }, 0) == Ok::<Machine, Fault>(final(self)@),
    {
        if self.regs[x as usize] == kk {
            self.pc = self.pc + 2;
        }
    }

    /// `4xkk`: skips the next instruction if `Vx != kk`.
    fn op_4xkk(&mut self, x: u8, kk: u8)
        requires
            x < 16,
            old(self).pc <= MEMORY_SIZE,
        ensures
            execute_instruction(old(self)@, Instruction::SkipNeByte { x, kk }, 0) == Ok::<Machine, Fault>(final(self)@),
    {
        if self.regs[x as usize] != kk {
            self.pc = self.pc + 2;
        }
    }

    /// `5xy0`: skips the next instruction if `Vx == Vy`.
    fn op_5xy0(&mut self, x: u8, y: u8)
        requires
            x < 16,
            y < 16,
            old(self).pc <= MEMORY_SIZE,
        ensures
            execute_instruction(old(self)@, Instruction::SkipEqReg { x, y }, 0) == Ok::<Machine, Fault>(final(self)@),
    {
        if self.regs[x as usize] == self.regs[y as usize] {
            self.pc = self.pc + 2;
        }
    }

    /// `6xkk`: `Vx = kk`.
    fn op_6xkk(&mut self, x: u8, kk: u8)
        requires
            x < 16,
        ensures
            execute_instruction(old(self)@, Instruction::LoadByte { x, kk }, 0) == Ok::<Machine, Fault>(final(self)@),
    {
        self.regs[x as usize] = kk;
    }

    /// `7xkk`: `Vx = Vx + kk`, wrapping, with no flag.
    fn op_7xkk(&mut self, x: u8, kk: u8)
        requires
            x < 16,
        ensures
            execute_instruction(old(self)@, Instruction::AddByte { x, kk }, 0) == Ok::<Machine, Fault>(final(self)@),
    {
        let sum = (self.regs[x as usize] as u16 + kk as u16) % 256;
        self.regs[x as usize] = sum as u8;
    }

    /// `8xy0`: `Vx = Vy`.
    fn op_8xy0(&mut self, x: u8, y: u8)
        requires
            x < 16,
            y < 16,
        ensures
            execute_instruction(old(self)@, Instruction::LoadReg { x, y }, 0) == Ok::<Machine, Fault>(final(self)@),
    {
        let v = self.regs[y as usize];
        self.regs[x as usize] = v;
    }

    /// `8xy1`: `Vx = Vx | Vy`.
    fn op_8xy1(&mut self, x: u8, y: u8)
        requires
            x < 16,
            y < 16,
        ensures
            execute_instruction(old(self)@, Instruction::Or { x, y }, 0) == Ok::<Machine, Fault>(final(self)@),
    {
        let v = self.regs[x as usize] | self.regs[y as usize];
        self.regs[x as usize] = v;
    }

    /// `8xy2`: `Vx = Vx & Vy`.
    fn op_8xy2(&mut self, x: u8, y: u8)
        requires
            x < 16,
            y < 16,
        ensures
            execute_instruction(old(self)@, Instruction::And { x, y }, 0) == Ok::<Machine, Fault>(final(self)@),
    {
        let v = self.regs[x as usize] & self.regs[y as usize];
        self.regs[x as usize] = v;
    }

    /// `8xy3`: `Vx = Vx ^ Vy`.
    fn op_8xy3(&mut self, x: u8, y: u8)
        requires
            x < 16,
            y < 16,
        ensures
            execute_instruction(old(self)@, Instruction::Xor { x, y }, 0) == Ok::<Machine, Fault>(final(self)@),
    {
        let v = self.regs[x as usize] ^ self.regs[y as usize];
        self.regs[x as usize] = v;
    }

    /// `8xy4`: `Vx = Vx + Vy` modulo 256, then `VF` = the carry.
    fn op_8xy4(&mut self, x: u8, y: u8)
        requires
            x < 16,
            y < 16,
        ensures
            execute_instruction(old(self)@, Instruction::AddReg { x, y }, 0) == Ok::<Machine, Fault>(final(self)@),
    {
        let sum = self.regs[x as usize] as u16 + self.regs[y as usize] as u16;
        self.regs[x as usize] = (sum % 256) as u8;
        if sum > 255 {
            self.regs[FLAG] = 1;
        } else {
            self.regs[FLAG] = 0;
        }
    }

    /// `8xy5`: `VF` = whether `Vx >= Vy`, then `Vx = Vx - Vy` modulo 256.
    fn op_8xy5(&mut self, x: u8, y: u8)
        requires
            x < 16,
            y < 16,
        ensures
            execute_instruction(old(self)@, Instruction::SubReg { x, y }, 0) == Ok::<Machine, Fault>(final(self)@),
    {
        let a = self.regs[x as usize];
        let b = self.regs[y as usize];
        if a >= b {
            self.regs[FLAG] = 1;
        } else {
            self.regs[FLAG] = 0;
        }
        self.regs[x as usize] = ((a as u16 + 256 - b as u16) % 256) as u8;
    }

    /// `8xy6`: `VF` = the low bit of `Vx`, then `Vx = Vx >> 1`.
    fn op_8xy6(&mut self, x: u8, y: u8)
        requires
            x < 16,
        ensures
            execute_instruction(old(self)@, Instruction::ShiftRight { x, y }, 0) == Ok::<Machine, Fault>(final(self)@),
    {
        let a = self.regs[x as usize];
        self.regs[FLAG] = a % 2;
        self.regs[x as usize] = a / 2;
    }

    /// `8xy7`: `VF` = whether `Vy >= Vx`, then `Vx = Vy - Vx` modulo 256.
    fn op_8xy7(&mut self, x: u8, y: u8)
        requires
            x < 16,
            y < 16,
        ensures
            execute_instruction(old(self)@, Instruction::SubNeg { x, y }, 0) == Ok::<Machine, Fault>(final(self)@),
    {
        let a = self.regs[x as usize];
        let b = self.regs[y as usize];
        if b >= a {
            self.regs[FLAG] = 1;
        } else {
            self.regs[FLAG] = 0;
        }
        self.regs[x as usize] = ((b as u16 + 256 - a as u16) % 256) as u8;
    }

    /// `8xyE`: `VF` = the high bit of `Vx`, then `Vx = Vx << 1` modulo 256.
    fn op_8xye(&mut self, x: u8, y: u8)
        requires
            x < 16,
        ensures
            execute_instruction(old(self)@, Instruction::ShiftLeft { x, y }, 0) == Ok::<Machine, Fault>(final(self)@),
    {
        let a = self.regs[x as usize];
        self.regs[FLAG] = a / 128;
        self.regs[x as usize] = ((a as u16 * 2) % 256) as u8;
    }

    /// `9xy0`: skips the next instruction if `Vx != Vy`.
    fn op_9xy0(&mut self, x: u8, y: u8)
        requires
            x < 16,
            y < 16,
            old(self).pc <= MEMORY_SIZE,
        ensures
            execute_instruction(old(self)@, Instruction::SkipNeReg { x, y }, 0) == Ok::<Machine, Fault>(final(self)@),
    {
        if self.regs[x as usize] != self.regs[y as usize] {
            self.pc = self.pc + 2;
        }
    }

    /// `Annn`: `I = nnn`.
    fn op_annnn(&mut self, nnn: u16)
        ensures
            execute_instruction(old(self)@, Instruction::LoadIndex { nnn }, 0) == Ok::<Machine, Fault>(final(self)@),
    {
        self.i = nnn;
    }

    /// `Bnnn`: jumps to `V0 + nnn`.
    fn op_bnnnn(&mut self, nnn: u16)
        requires
            nnn < 0x1000,
        ensures
            execute_instruction(old(self)@, Instruction::JumpOffset { nnn }, 0) == Ok::<Machine, Fault>(final(self)@),
    {
        self.pc = self.regs[0] as u16 + nnn;
    }

    /// `Cxkk`: `Vx = rnd & kk`.
    fn op_cxkk(&mut self, x: u8, kk: u8, rnd: u8)
        requires
            x < 16,
        ensures
            execute_instruction(old(self)@, Instruction::Random { x, kk }, rnd) == Ok::<Machine, Fault>(final(self)@),
    {
        self.regs[x as usize] = rnd & kk;
    }

    /// `Dxyn`: XORs the `n`-row sprite at `I` onto the framebuffer at
    /// `(Vx mod 64, Vy mod 32)`, clipping at the edges; `VF` becomes 1 when a
    /// lit pixel is turned off and 0 otherwise.
    fn op_dxyn(&mut self, x: u8, y: u8, n: u8) -> (r: Result<(), Fault>)
        requires
            x < 16,
            y < 16,
            n < 16,
        ensures
            applied(
                old(self)@,
                final(self)@,
                r,
                execute_instruction(old(self)@, Instruction::Draw { x, y, n }, 0),
            ),
    {
        if self.i as usize + n as usize > MEMORY_SIZE {
            return Err(Fault::AddressOutOfRange);
        }
        let ox = (self.regs[x as usize] % 64) as usize;
        let oy = (self.regs[y as usize] % 32) as usize;
        let ghost m0 = self@;
        let mut collision = false;
        let mut row: usize = 0;
        assert(drawn(m0, ox as int, oy as int, 0, 0) =~= m0.display);
        while row < n as usize
            invariant
                row <= n,
                n < 16,
                m0.display.len() == PIXELS,
                m0.i + n <= MEMORY_SIZE,
                ox < 64,
                oy < 32,
                self@ == (Machine { display: drawn(m0, ox as int, oy as int, row as int, 0), ..m0 }),
                collision == collides(m0, ox as int, oy as int, row as int, 0),
            decreases n - row,
        {
            let byte = self.ram[self.i as usize + row];
            let mut col: usize = 0;
            while col < 8
                invariant
                    row < n,
                    n < 16,
                    m0.display.len() == PIXELS,
                    m0.i + n <= MEMORY_SIZE,
                    ox < 64,
                    oy < 32,
                    col <= 8,
                    byte == m0.ram[m0.i + row],
                    self@ == (Machine {
                        display: drawn(m0, ox as int, oy as int, row as int, col as int),
                        ..m0
                    }),
                    collision == collides(m0, ox as int, oy as int, row as int, col as int),
                decreases 8 - col,
            {
                proof {
                    lemma_draw_step(m0, ox as int, oy as int, row as int, col as int);
                }
                if byte & (0x80u8 >> (col as u8)) != 0 && oy + row < HEIGHT && ox + col < WIDTH {
                    let p = (oy + row) * WIDTH + ox + col;
                    let lit = self.display[p];
                    if lit {
                        collision = true;
                    }
                    self.display[p] = !lit;
                }
                col = col + 1;
            }
            proof {
                lemma_draw_row(m0, ox as int, oy as int, row as int);
            }
            row = row + 1;
        }
        if collision {
            self.regs[FLAG] = 1;
        } else {
            self.regs[FLAG] = 0;
        }
        Ok(())
    }

    /// `Ex9E`: skips the next instruction if key `Vx` is held down.
    fn op_ex9e(&mut self, x: u8) -> (r: Result<(), Fault>)
        requires
            x < 16,
            old(self).pc <= MEMORY_SIZE,
        ensures
            applied(
                old(self)@,
                final(self)@,
                r,
                execute_instruction(old(self)@, Instruction::SkipKeyPressed { x }, 0),
            ),
    {
        let key = self.regs[x as usize];
        if key as usize >= KEY_COUNT {
            return Err(Fault::InvalidKey);
        }
        if self.keypad[key as usize] {
            self.pc = self.pc + 2;
        }
        Ok(())
    }

    /// `ExA1`: skips the next instruction if key `Vx` is not held down.
    fn op_exa1(&mut self, x: u8) -> (r: Result<(), Fault>)
        requires
            x < 16,
            old(self).pc <= MEMORY_SIZE,
        ensures
            applied(
                old(self)@,
                final(self)@,
                r,
                execute_instruction(old(self)@, Instruction::SkipKeyReleased { x }, 0),
            ),
    {
        let key = self.regs[x as usize];
        if key as usize >= KEY_COUNT {
            return Err(Fault::InvalidKey);
        }
        if !self.keypad[key as usize] {
            self.pc = self.pc + 2;
        }
        Ok(())
    }

    /// `Fx07`: `Vx = delay timer`.
    fn op_fx07(&mut self, x: u8)
        requires
            x < 16,
        ensures
            execute_instruction(old(self)@, Instruction::ReadDelay { x }, 0) == Ok::<Machine, Fault>(final(self)@),
    {
        self.regs[x as usize] = self.delay_t;
    }

    /// `Fx0A`: stores the lowest pressed key in `Vx`; with no key pressed, moves
    /// `pc` back so that the instruction runs again on the next step.
    fn op_fx0a(&mut self, x: u8)
        requires
            x < 16,
            old(self).pc >= 2,
        ensures
            execute_instruction(old(self)@, Instruction::WaitKey { x }, 0) == Ok::<Machine, Fault>(final(self)@),
    {
        let ghost m0 = self@;
        let mut k: usize = 0;
        while k < KEY_COUNT
            invariant
                k <= KEY_COUNT,
                x < 16,
                self@ == m0,
                m0 == old(self)@,
                first_pressed(m0.keypad, 0) == first_pressed(m0.keypad, k as int),
            decreases KEY_COUNT - k,
        {
            if self.keypad[k] {
                assert(first_pressed(m0.keypad, k as int) == k);
                self.regs[x as usize] = k as u8;
                return;
            }
            k = k + 1;
        }
        self.pc = self.pc - 2;
    }

    /// `Fx15`: `delay timer = Vx`.
    fn op_fx15(&mut self, x: u8)
        requires
            x < 16,
        ensures
            execute_instruction(old(self)@, Instruction::SetDelay { x }, 0) == Ok::<Machine, Fault>(final(self)@),
    {
        self.delay_t = self.regs[x as usize];
    }

    /// `Fx18`: `sound timer = Vx`.
    fn op_fx18(&mut self, x: u8)
        requires
            x < 16,
        ensures
            execute_instruction(old(self)@, Instruction::SetSound { x }, 0) == Ok::<Machine, Fault>(final(self)@),
    {
        self.sound_t = self.regs[x as usize];
    }

    /// `Fx1E`: `I = I + Vx`, wrapping at 16 bits, with no flag.
    fn op_fx1e(&mut self, x: u8)
        requires
            x < 16,
        ensures
            execute_instruction(old(self)@, Instruction::AddIndex { x }, 0) == Ok::<Machine, Fault>(final(self)@),
    {
        self.i = ((self.i as u32 + self.regs[x as usize] as u32) % 0x10000) as u16;
    }

    /// `Fx29`: points `I` at the glyph of digit `Vx`.
    fn op_fx29(&mut self, x: u8)
        requires
            x < 16,
        ensures
            execute_instruction(old(self)@, Instruction::LoadGlyph { x }, 0) == Ok::<Machine, Fault>(final(self)@),
    {
        self.i = FONT_SET_START_ADDRESS as u16 + 5 * (self.regs[x as usize] as u16);
    }

    /// `Fx33`: writes the hundreds, tens and units digits of `Vx` to
    /// `I`, `I + 1` and `I + 2`.
    fn op_fx33(&mut self, x: u8) -> (r: Result<(), Fault>)
        requires
            x < 16,
        ensures
            applied(
                old(self)@,
                final(self)@,
                r,
                execute_instruction(old(self)@, Instruction::StoreBcd { x }, 0),
            ),
    {
        let at = self.i as usize;
        if at + 3 > MEMORY_SIZE {
            return Err(Fault::AddressOutOfRange);
        }
        let v = self.regs[x as usize];
        self.ram[at] = v / 100;
        self.ram[at + 1] = (v / 10) % 10;
        self.ram[at + 2] = v % 10;
        Ok(())
    }

    /// `Fx55`: copies `V0` to `Vx` into memory from `I` on.
    fn op_fx55(&mut self, x: u8) -> (r: Result<(), Fault>)
        requires
            x < 16,
        ensures
            applied(
                old(self)@,
                final(self)@,
                r,
                execute_instruction(old(self)@, Instruction::StoreRegs { x }, 0),
            ),
    {
        let at = self.i as usize;
        let count = x as usize + 1;
        if at + count > MEMORY_SIZE {
            return Err(Fault::AddressOutOfRange);
        }
        let ghost m0 = self@;
        let mut k: usize = 0;
        assert(copied(m0.ram, at as int, m0.regs.take(0)) =~= m0.ram);
        while k < count
            invariant
                k <= count,
                count <= REGISTERS_NUMBER,
                at == m0.i,
                at + count <= MEMORY_SIZE,
                self@ == (Machine { ram: copied(m0.ram, at as int, m0.regs.take(k as int)), ..m0 }),
            decreases count - k,
        {
            self.ram[at + k] = self.regs[k];
            k = k + 1;
            assert(self.ram@ =~= copied(m0.ram, at as int, m0.regs.take(k as int)));
        }
        Ok(())
    }

    /// `Fx65`: copies memory from `I` on into `V0` to `Vx`.
    fn op_fx65(&mut self, x: u8) -> (r: Result<(), Fault>)
        requires
            x < 16,
        ensures
            applied(
                old(self)@,
                final(self)@,
                r,
                execute_instruction(old(self)@, Instruction::LoadRegs { x }, 0),
            ),
    {
        let at = self.i as usize;
        let count = x as usize + 1;
        if at + count > MEMORY_SIZE {
            return Err(Fault::AddressOutOfRange);
        }
        let ghost m0 = self@;
        let mut k: usize = 0;
        assert(copied(m0.regs, 0, m0.ram.subrange(at as int, at as int)) =~= m0.regs);
        while k < count
            invariant
                k <= count,
                count <= REGISTERS_NUMBER,
                at == m0.i,
                at + count <= MEMORY_SIZE,
                self@ == (Machine {
                    regs: copied(m0.regs, 0, m0.ram.subrange(at as int, at + k)),
                    ..m0
                }),
            decreases count - k,
        {
            self.regs[k] = self.ram[at + k];
            k = k + 1;
            assert(self.regs@ =~= copied(m0.regs, 0, m0.ram.subrange(at as int, at + k)));
        }
        Ok(())
    }
}

} // verus!
