use vstd::prelude::*;

verus! {

/// Bytes of addressable memory.
pub const MEMORY_SIZE: usize = 4096;

/// Return addresses the call stack can hold.
pub const STACK_SIZE: usize = 16;

/// General-purpose registers `V0` to `VF`.
pub const REGISTERS_NUMBER: usize = 16;

/// Keys of the hexadecimal keypad.
pub const KEY_COUNT: usize = 16;

/// Framebuffer width in pixels.
pub const WIDTH: usize = 64;

/// Framebuffer height in pixels.
pub const HEIGHT: usize = 32;

/// Pixels of the framebuffer, stored row by row.
pub const PIXELS: usize = 2048;

/// Address at which programs are loaded and execution starts.
pub const PROGRAM_START: usize = 0x200;

/// Address of the first glyph of the built-in hexadecimal font.
pub const FONT_SET_START_ADDRESS: usize = 0x50;

/// Bytes of the built-in font: sixteen glyphs of five rows each.
pub const FONT_SET_LEN: usize = 80;

/// The flag register `VF`.
pub const FLAG: usize = 15;

/// Why a step or a program load did not complete normally.
#[derive(PartialEq, Eq, Structural, Debug, Clone, Copy)]
pub enum Fault {
    /// The instruction word matches no opcode; the step was a no-op.
    UnknownOpcode(u16),
    /// The program does not fit between the load address and the end of memory.
    ProgramTooLarge,
    /// An instruction fetch or a memory access would go past the end of memory.
    AddressOutOfRange,
    /// A call was made with the stack already full.
    StackOverflow,
    /// A return was made with the stack empty.
    StackUnderflow,
    /// A key instruction named a register whose value is not a key (0 to 15).
    InvalidKey,
}

/// One decoded instruction; `x` and `y` are register indices.
#[derive(PartialEq, Eq, Structural, Debug, Clone, Copy)]
pub enum Instruction {
    /// `00E0`: clear the framebuffer.
    Cls,
    /// `00EE`: return from a subroutine.
    Ret,
    /// `1nnn`: jump to `nnn`.
    Jump { nnn: u16 },
    /// `2nnn`: call the subroutine at `nnn`.
    Call { nnn: u16 },
    /// `3xkk`: skip if `Vx == kk`.
    SkipEqByte { x: u8, kk: u8 },
    /// `4xkk`: skip if `Vx != kk`.
    SkipNeByte { x: u8, kk: u8 },
    /// `5xy0`: skip if `Vx == Vy`.
    SkipEqReg { x: u8, y: u8 },
    /// `6xkk`: `Vx = kk`.
    LoadByte { x: u8, kk: u8 },
    /// `7xkk`: `Vx += kk`, wrapping.
    AddByte { x: u8, kk: u8 },
    /// `8xy0`: `Vx = Vy`.
    LoadReg { x: u8, y: u8 },
    /// `8xy1`: `Vx |= Vy`.
    Or { x: u8, y: u8 },
    /// `8xy2`: `Vx &= Vy`.
    And { x: u8, y: u8 },
    /// `8xy3`: `Vx ^= Vy`.
    Xor { x: u8, y: u8 },
    /// `8xy4`: `Vx += Vy` with carry into `VF`.
    AddReg { x: u8, y: u8 },
    /// `8xy5`: `Vx -= Vy` with no-borrow into `VF`.
    SubReg { x: u8, y: u8 },
    /// `8xy6`: shift `Vx` right, the lost bit into `VF`.
    ShiftRight { x: u8, y: u8 },
    /// `8xy7`: `Vx = Vy - Vx` with no-borrow into `VF`.
    SubNeg { x: u8, y: u8 },
    /// `8xyE`: shift `Vx` left, the lost bit into `VF`.
    ShiftLeft { x: u8, y: u8 },
    /// `9xy0`: skip if `Vx != Vy`.
    SkipNeReg { x: u8, y: u8 },
    /// `Annn`: `I = nnn`.
    LoadIndex { nnn: u16 },
    /// `Bnnn`: jump to `V0 + nnn`.
    JumpOffset { nnn: u16 },
    /// `Cxkk`: `Vx = random & kk`.
    Random { x: u8, kk: u8 },
    /// `Dxyn`: draw an `n`-row sprite at `(Vx, Vy)`.
    Draw { x: u8, y: u8, n: u8 },
    /// `Ex9E`: skip if key `Vx` is pressed.
    SkipKeyPressed { x: u8 },
    /// `ExA1`: skip if key `Vx` is not pressed.
    SkipKeyReleased { x: u8 },
    /// `Fx07`: `Vx = delay timer`.
    ReadDelay { x: u8 },
    /// `Fx0A`: wait for a key press and store the key in `Vx`.
    WaitKey { x: u8 },
    /// `Fx15`: `delay timer = Vx`.
    SetDelay { x: u8 },
    /// `Fx18`: `sound timer = Vx`.
    SetSound { x: u8 },
    /// `Fx1E`: `I += Vx`.
    AddIndex { x: u8 },
    /// `Fx29`: `I = address of the glyph of digit Vx`.
    LoadGlyph { x: u8 },
    /// `Fx33`: store the decimal digits of `Vx` at `I`.
    StoreBcd { x: u8 },
    /// `Fx55`: store `V0..=Vx` at `I`.
    StoreRegs { x: u8 },
    /// `Fx65`: load `V0..=Vx` from `I`.
    LoadRegs { x: u8 },
}

/// The whole state of one machine, as mathematical values.
pub struct Machine {
    pub pc: u16,
    pub i: u16,
    pub sp: u8,
    pub delay_t: u8,
    pub sound_t: u8,
    pub stack: Seq<u16>,
    pub regs: Seq<u8>,
    pub ram: Seq<u8>,
    pub keypad: Seq<bool>,
    pub display: Seq<bool>,
}

/// The sizes of a machine's sequences are those of the hardware.
pub open spec fn well_sized(m: Machine) -> bool {
    &&& m.stack.len() == STACK_SIZE
    &&& m.regs.len() == REGISTERS_NUMBER
    &&& m.ram.len() == MEMORY_SIZE
    &&& m.keypad.len() == KEY_COUNT
    &&& m.display.len() == PIXELS
}

/// The built-in glyphs for the hexadecimal digits 0 to F.
pub open spec fn font_glyphs() -> Seq<u8> {
    seq![
        0xF0u8, 0x90, 0x90, 0x90, 0xF0, 0x20, 0x60, 0x20, 0x20, 0x70,
        0xF0, 0x10, 0xF0, 0x80, 0xF0, 0xF0, 0x10, 0xF0, 0x10, 0xF0,
        0x90, 0x90, 0xF0, 0x10, 0x10, 0xF0, 0x80, 0xF0, 0x10, 0xF0,
        0xF0, 0x80, 0xF0, 0x90, 0xF0, 0xF0, 0x10, 0x20, 0x40, 0x40,
        0xF0, 0x90, 0xF0, 0x90, 0xF0, 0xF0, 0x90, 0xF0, 0x10, 0xF0,
        0xF0, 0x90, 0xF0, 0x90, 0x90, 0xE0, 0x90, 0xE0, 0x90, 0xE0,
        0xF0, 0x80, 0x80, 0x80, 0xF0, 0xE0, 0x90, 0x90, 0x90, 0xE0,
        0xF0, 0x80, 0xF0, 0x80, 0xF0, 0xF0, 0x80, 0xF0, 0x80, 0x80,
    ]
}

/// The machine at reset: memory holds the font and nothing else, execution
/// starts at the program address, everything else is zero, off or released.
pub open spec fn initial_machine() -> Machine {
    Machine {
        pc: PROGRAM_START as u16,
        i: 0,
        sp: 0,
        delay_t: 0,
        sound_t: 0,
        stack: Seq::new(STACK_SIZE as nat, |k: int| 0u16),
        regs: Seq::new(REGISTERS_NUMBER as nat, |k: int| 0u8),
        ram: copied(
            Seq::new(MEMORY_SIZE as nat, |a: int| 0u8),
            FONT_SET_START_ADDRESS as int,
            font_glyphs(),
        ),
        keypad: Seq::new(KEY_COUNT as nat, |k: int| false),
        display: Seq::new(PIXELS as nat, |p: int| false),
    }
}

/// `dest` with `bytes` written over it from index `at` on.
pub open spec fn copied<T>(dest: Seq<T>, at: int, bytes: Seq<T>) -> Seq<T> {
    Seq::new(
        dest.len(),
        |a: int|
            if at <= a < at + bytes.len() {
                bytes[a - at]
            } else {
                dest[a]
            },
    )
}

/// Memory after `program` is copied to the program address, or `None` when it
/// does not fit.
pub open spec fn loaded_ram(ram: Seq<u8>, program: Seq<u8>) -> Option<Seq<u8>> {
    if PROGRAM_START + program.len() > MEMORY_SIZE {
        None
    } else {
        Some(copied(ram, PROGRAM_START as int, program))
    }
}

/// The big-endian instruction word at `pc`, if both of its bytes are in memory.
pub open spec fn fetch_word(m: Machine) -> Option<u16> {
    if m.pc + 1 < MEMORY_SIZE {
        Some((m.ram[m.pc as int] * 256 + m.ram[m.pc + 1]) as u16)
    } else {
        None
    }
}

/// Bits 12 to 15 of an instruction word: the opcode family.
pub open spec fn family(op: u16) -> int {
    (op / 0x1000) as int
}

/// Bits 8 to 11: the register `x`.
pub open spec fn field_x(op: u16) -> u8 {
    ((op / 0x100) % 0x10) as u8
}

/// Bits 4 to 7: the register `y`.
pub open spec fn field_y(op: u16) -> u8 {
    ((op / 0x10) % 0x10) as u8
}

/// Bits 0 to 3: the nibble `n`.
pub open spec fn field_n(op: u16) -> u8 {
    (op % 0x10) as u8
}

/// Bits 0 to 7: the byte `kk`.
pub open spec fn field_kk(op: u16) -> u8 {
    (op % 0x100) as u8
}

/// Bits 0 to 11: the address `nnn`.
pub open spec fn field_nnn(op: u16) -> u16 {
    op % 0x1000
}

/// The instruction an instruction word encodes, or `None` when it matches no
/// opcode pattern.
pub open spec fn decode_word(op: u16) -> Option<Instruction> {
    let x = field_x(op);
    let y = field_y(op);
    let n = field_n(op);
    let kk = field_kk(op);
    let nnn = field_nnn(op);
    let f = family(op);
    if f == 0x0 {
        if op == 0x00E0 {
            Some(Instruction::Cls)
        } else if op == 0x00EE {
            Some(Instruction::Ret)
        } else {
            None
        }
    } else if f == 0x1 {
        Some(Instruction::Jump { nnn })
    } else if f == 0x2 {
        Some(Instruction::Call { nnn })
    } else if f == 0x3 {
        Some(Instruction::SkipEqByte { x, kk })
    } else if f == 0x4 {
        Some(Instruction::SkipNeByte { x, kk })
    } else if f == 0x5 {
        if n == 0 { Some(Instruction::SkipEqReg { x, y }) } else { None }
    } else if f == 0x6 {
        Some(Instruction::LoadByte { x, kk })
    } else if f == 0x7 {
        Some(Instruction::AddByte { x, kk })
    } else if f == 0x8 {
        if n == 0x0 {
            Some(Instruction::LoadReg { x, y })
        } else if n == 0x1 {
            Some(Instruction::Or { x, y })
        } else if n == 0x2 {
            Some(Instruction::And { x, y })
        } else if n == 0x3 {
            Some(Instruction::Xor { x, y })
        } else if n == 0x4 {
            Some(Instruction::AddReg { x, y })
        } else if n == 0x5 {
            Some(Instruction::SubReg { x, y })
        } else if n == 0x6 {
            Some(Instruction::ShiftRight { x, y })
        } else if n == 0x7 {
            Some(Instruction::SubNeg { x, y })
        } else if n == 0xE {
            Some(Instruction::ShiftLeft { x, y })
        } else {
            None
        }
    } else if f == 0x9 {
        if n == 0 { Some(Instruction::SkipNeReg { x, y }) } else { None }
    } else if f == 0xA {
        Some(Instruction::LoadIndex { nnn })
    } else if f == 0xB {
        Some(Instruction::JumpOffset { nnn })
    } else if f == 0xC {
        Some(Instruction::Random { x, kk })
    } else if f == 0xD {
        Some(Instruction::Draw { x, y, n })
    } else if f == 0xE {
        if kk == 0x9E {
            Some(Instruction::SkipKeyPressed { x })
        } else if kk == 0xA1 {
            Some(Instruction::SkipKeyReleased { x })
        } else {
            None
        }
    } else {
        if kk == 0x07 {
            Some(Instruction::ReadDelay { x })
        } else if kk == 0x0A {
            Some(Instruction::WaitKey { x })
        } else if kk == 0x15 {
            Some(Instruction::SetDelay { x })
        } else if kk == 0x18 {
            Some(Instruction::SetSound { x })
        } else if kk == 0x1E {
            Some(Instruction::AddIndex { x })
        } else if kk == 0x29 {
            Some(Instruction::LoadGlyph { x })
        } else if kk == 0x33 {
            Some(Instruction::StoreBcd { x })
        } else if kk == 0x55 {
            Some(Instruction::StoreRegs { x })
        } else if kk == 0x65 {
            Some(Instruction::LoadRegs { x })
        } else {
            None
        }
    }
}

impl Instruction {
    /// Register indices name registers, addresses are 12-bit, rows a nibble.
    pub open spec fn well_formed(self) -> bool {
        match self {
            Instruction::Jump { nnn } => nnn < 0x1000,
            Instruction::Call { nnn } => nnn < 0x1000,
            Instruction::LoadIndex { nnn } => nnn < 0x1000,
            Instruction::JumpOffset { nnn } => nnn < 0x1000,
            Instruction::SkipEqByte { x, kk } => x < 16,
            Instruction::SkipNeByte { x, kk } => x < 16,
            Instruction::LoadByte { x, kk } => x < 16,
            Instruction::AddByte { x, kk } => x < 16,
            Instruction::Random { x, kk } => x < 16,
            Instruction::SkipEqReg { x, y } => x < 16 && y < 16,
            Instruction::LoadReg { x, y } => x < 16 && y < 16,
            Instruction::Or { x, y } => x < 16 && y < 16,
            Instruction::And { x, y } => x < 16 && y < 16,
            Instruction::Xor { x, y } => x < 16 && y < 16,
            Instruction::AddReg { x, y } => x < 16 && y < 16,
            Instruction::SubReg { x, y } => x < 16 && y < 16,
            Instruction::ShiftRight { x, y } => x < 16 && y < 16,
            Instruction::SubNeg { x, y } => x < 16 && y < 16,
            Instruction::ShiftLeft { x, y } => x < 16 && y < 16,
            Instruction::SkipNeReg { x, y } => x < 16 && y < 16,
            Instruction::Draw { x, y, n } => x < 16 && y < 16 && n < 16,
            Instruction::SkipKeyPressed { x } => x < 16,
            Instruction::SkipKeyReleased { x } => x < 16,
            Instruction::ReadDelay { x } => x < 16,
            Instruction::WaitKey { x } => x < 16,
            Instruction::SetDelay { x } => x < 16,
            Instruction::SetSound { x } => x < 16,
            Instruction::AddIndex { x } => x < 16,
            Instruction::LoadGlyph { x } => x < 16,
            Instruction::StoreBcd { x } => x < 16,
            Instruction::StoreRegs { x } => x < 16,
            Instruction::LoadRegs { x } => x < 16,
            Instruction::Cls => true,
            Instruction::Ret => true,
        }
    }
}

/// `m` with register `x` set to `v`.
pub open spec fn set_reg(m: Machine, x: int, v: u8) -> Machine {
    Machine { regs: m.regs.update(x, v), ..m }
}

/// `m` with the program counter moved past the next instruction.
pub open spec fn skip(m: Machine) -> Machine {
    Machine { pc: (m.pc + 2) as u16, ..m }
}

/// `m` skipping the next instruction when `cond` holds.
pub open spec fn skip_if(m: Machine, cond: bool) -> Machine {
    if cond { skip(m) } else { m }
}

/// Whether bit `col` of `byte`, counted from the most significant, is set.
pub open spec fn bit_set(byte: u8, col: int) -> bool {
    byte & (0x80u8 >> (col as u8)) != 0
}

/// Whether the screen cell at row `r`, column `c` is covered by a set bit of
/// the sprite at `m.i` drawn with origin `(ox, oy)`, counting only the sprite
/// rows before `rows` and, of row `rows`, the columns before `cols`.
pub open spec fn sprite_hits(m: Machine, ox: int, oy: int, r: int, c: int, rows: int, cols: int) -> bool {
    let j = r - oy;
    let b = c - ox;
    &&& 0 <= j
    &&& 0 <= b < 8
    &&& (j < rows || (j == rows && b < cols))
    &&& bit_set(m.ram[m.i + j], b)
}

/// The framebuffer after XOR-ing in the covered part of the sprite; cells
/// outside the screen are clipped.
pub open spec fn drawn(m: Machine, ox: int, oy: int, rows: int, cols: int) -> Seq<bool> {
    Seq::new(
        PIXELS as nat,
        |p: int| m.display[p] != sprite_hits(m, ox, oy, p / 64, p % 64, rows, cols),
    )
}

/// Whether the covered part of the sprite turns some lit pixel off.
pub open spec fn collides(m: Machine, ox: int, oy: int, rows: int, cols: int) -> bool {
    exists|p: int|
        0 <= p < PIXELS && #[trigger] m.display[p] && sprite_hits(
            m,
            ox,
            oy,
            p / 64,
            p % 64,
            rows,
            cols,
        )
}

/// The first pressed key at index `from` or later, or 16 when there is none.
pub open spec fn first_pressed(keys: Seq<bool>, from: int) -> int
    decreases KEY_COUNT - from,
{
    if from >= KEY_COUNT {
        KEY_COUNT as int
    } else if keys[from] {
        from
    } else {
        first_pressed(keys, from + 1)
    }
}

/// The effect of executing `ins` on `m`, whose program counter is already past
/// `ins`; `rnd` is the random byte that `Cxkk` uses. On a fault the machine is
/// left as it was.
pub open spec fn execute_instruction(m: Machine, ins: Instruction, rnd: u8) -> Result<Machine, Fault> {
    match ins {
        Instruction::Cls => Ok(Machine { display: Seq::new(PIXELS as nat, |p: int| false), ..m }),
        Instruction::Ret => {
            if m.sp == 0 {
                Err(Fault::StackUnderflow)
            } else if m.sp > STACK_SIZE {
                Err(Fault::StackOverflow)
            } else {
                Ok(Machine { sp: (m.sp - 1) as u8, pc: m.stack[m.sp - 1], ..m })
            }
        },
        Instruction::Jump { nnn } => Ok(Machine { pc: nnn, ..m }),
        Instruction::Call { nnn } => {
            if m.sp >= STACK_SIZE {
                Err(Fault::StackOverflow)
            } else {
                Ok(
                    Machine {
                        stack: m.stack.update(m.sp as int, m.pc),
                        sp: (m.sp + 1) as u8,
                        pc: nnn,
                        ..m
                    },
                )
            }
        },
        Instruction::SkipEqByte { x, kk } => Ok(skip_if(m, m.regs[x as int] == kk)),
        Instruction::SkipNeByte { x, kk } => Ok(skip_if(m, m.regs[x as int] != kk)),
        Instruction::SkipEqReg { x, y } => Ok(skip_if(m, m.regs[x as int] == m.regs[y as int])),
        Instruction::LoadByte { x, kk } => Ok(set_reg(m, x as int, kk)),
        Instruction::AddByte { x, kk } => Ok(
            set_reg(m, x as int, ((m.regs[x as int] + kk) % 256) as u8),
        ),
        Instruction::LoadReg { x, y } => Ok(set_reg(m, x as int, m.regs[y as int])),
        Instruction::Or { x, y } => Ok(set_reg(m, x as int, m.regs[x as int] | m.regs[y as int])),
        Instruction::And { x, y } => Ok(set_reg(m, x as int, m.regs[x as int] & m.regs[y as int])),
        Instruction::Xor { x, y } => Ok(set_reg(m, x as int, m.regs[x as int] ^ m.regs[y as int])),
        Instruction::AddReg { x, y } => {
            let sum = m.regs[x as int] + m.regs[y as int];
            Ok(
                set_reg(
                    set_reg(m, x as int, (sum % 256) as u8),
                    FLAG as int,
                    if sum > 255 { 1u8 } else { 0u8 },
                ),
            )
        },
        Instruction::SubReg { x, y } => {
            let a = m.regs[x as int];
            let b = m.regs[y as int];
            Ok(
                set_reg(
                    set_reg(m, FLAG as int, if a >= b { 1u8 } else { 0u8 }),
                    x as int,
                    ((a - b + 256) % 256) as u8,
                ),
            )
        },
        Instruction::ShiftRight { x, y } => {
            let a = m.regs[x as int];
            Ok(set_reg(set_reg(m, FLAG as int, (a % 2) as u8), x as int, (a / 2) as u8))
        },
        Instruction::SubNeg { x, y } => {
            let a = m.regs[x as int];
            let b = m.regs[y as int];
            Ok(
                set_reg(
                    set_reg(m, FLAG as int, if b >= a { 1u8 } else { 0u8 }),
                    x as int,
                    ((b - a + 256) % 256) as u8,
                ),
            )
        },
        Instruction::ShiftLeft { x, y } => {
            let a = m.regs[x as int];
            Ok(set_reg(set_reg(m, FLAG as int, (a / 128) as u8), x as int, ((a * 2) % 256) as u8))
        },
        Instruction::SkipNeReg { x, y } => Ok(skip_if(m, m.regs[x as int] != m.regs[y as int])),
        Instruction::LoadIndex { nnn } => Ok(Machine { i: nnn, ..m }),
        Instruction::JumpOffset { nnn } => Ok(Machine { pc: (m.regs[0] + nnn) as u16, ..m }),
        Instruction::Random { x, kk } => Ok(set_reg(m, x as int, rnd & kk)),
        Instruction::Draw { x, y, n } => {
            if m.i + n > MEMORY_SIZE {
                Err(Fault::AddressOutOfRange)
            } else {
                let ox = (m.regs[x as int] % 64) as int;
                let oy = (m.regs[y as int] % 32) as int;
                Ok(
                    Machine {
                        display: drawn(m, ox, oy, n as int, 0),
                        regs: m.regs.update(
                            FLAG as int,
                            if collides(m, ox, oy, n as int, 0) { 1u8 } else { 0u8 },
                        ),
                        ..m
                    },
                )
            }
        },
        Instruction::SkipKeyPressed { x } => {
            if m.regs[x as int] >= KEY_COUNT {
                Err(Fault::InvalidKey)
            } else {
                Ok(skip_if(m, m.keypad[m.regs[x as int] as int]))
            }
        },
        Instruction::SkipKeyReleased { x } => {
            if m.regs[x as int] >= KEY_COUNT {
                Err(Fault::InvalidKey)
            } else {
                Ok(skip_if(m, !m.keypad[m.regs[x as int] as int]))
            }
        },
        Instruction::ReadDelay { x } => Ok(set_reg(m, x as int, m.delay_t)),
        Instruction::WaitKey { x } => {
            let k = first_pressed(m.keypad, 0);
            if k < KEY_COUNT {
                Ok(set_reg(m, x as int, k as u8))
            } else {
                Ok(Machine { pc: (m.pc - 2) as u16, ..m })
            }
        },
        Instruction::SetDelay { x } => Ok(Machine { delay_t: m.regs[x as int], ..m }),
        Instruction::SetSound { x } => Ok(Machine { sound_t: m.regs[x as int], ..m }),
        Instruction::AddIndex { x } => Ok(Machine { i: ((m.i + m.regs[x as int]) % 0x10000) as u16, ..m }),
        Instruction::LoadGlyph { x } => Ok(
            Machine { i: (FONT_SET_START_ADDRESS + 5 * m.regs[x as int]) as u16, ..m },
        ),
        Instruction::StoreBcd { x } => {
            if m.i + 3 > MEMORY_SIZE {
                Err(Fault::AddressOutOfRange)
            } else {
                let v = m.regs[x as int];
                Ok(
                    Machine {
                        ram: m.ram.update(m.i as int, (v / 100) as u8).update(
                            m.i + 1,
                            ((v / 10) % 10) as u8,
                        ).update(m.i + 2, (v % 10) as u8),
                        ..m
                    },
                )
            }
        },
        Instruction::StoreRegs { x } => {
            if m.i + x + 1 > MEMORY_SIZE {
                Err(Fault::AddressOutOfRange)
            } else {
                Ok(
                    Machine {
                        ram: copied(m.ram, m.i as int, m.regs.take(x + 1)),
                        ..m
                    },
                )
            }
        },
        Instruction::LoadRegs { x } => {
            if m.i + x + 1 > MEMORY_SIZE {
                Err(Fault::AddressOutOfRange)
            } else {
                Ok(
                    Machine {
                        regs: copied(m.regs, 0, m.ram.subrange(m.i as int, m.i + x + 1)),
                        ..m
                    },
                )
            }
        },
    }
}

/// Whether a call meant to have the effect `expected` on `before` ended in
/// `after` with result `r`: the new machine on success, the old one together
/// with the fault otherwise.
pub open spec fn applied(
    before: Machine,
    after: Machine,
    r: Result<(), Fault>,
    expected: Result<Machine, Fault>,
) -> bool {
    match expected {
        Ok(m) => r == Ok::<(), Fault>(()) && after == m,
        Err(f) => r == Err::<(), Fault>(f) && after == before,
    }
}

/// `m` after one tick of both timers, each stopping at zero.
pub open spec fn decay_timers(m: Machine) -> Machine {
    Machine {
        delay_t: if m.delay_t > 0 { (m.delay_t - 1) as u8 } else { 0 },
        sound_t: if m.sound_t > 0 { (m.sound_t - 1) as u8 } else { 0 },
        ..m
    }
}

/// One full cycle on `m`: fetch, advance the program counter, decode and
/// execute, then tick the timers. A failed fetch changes nothing; an unknown
/// or faulting instruction leaves only the advanced program counter and the
/// timer tick.
pub open spec fn step_machine(m: Machine, rnd: u8) -> (Machine, Result<(), Fault>) {
    match fetch_word(m) {
        None => (m, Err(Fault::AddressOutOfRange)),
        Some(op) => {
            let advanced = skip(m);
            match decode_word(op) {
                None => (decay_timers(advanced), Err(Fault::UnknownOpcode(op))),
                Some(ins) => match execute_instruction(advanced, ins, rnd) {
                    Ok(next) => (decay_timers(next), Ok(())),
                    Err(f) => (decay_timers(advanced), Err(f)),
                },
            }
        },
    }
}

} // verus!
