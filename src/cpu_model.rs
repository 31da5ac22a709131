//! The abstract interpreter state and the meaning of one cycle.
use vstd::prelude::*;
use crate::keypad::{after_event, KeyEvent, KeypadView, KEY_COUNT};
use crate::memory::{word_of, MEMORY_SIZE};
use crate::opcode::{decoded, Opcode};
use crate::screen::{anchor, collides, drawn, valid_grid, SIZE};

verus! {

/// Number of general-purpose registers; the last one, `VF`, doubles as flag.
pub const REGISTER_COUNT: u8 = 16;
/// Index of the flag register `VF`.
pub const FLAG: u8 = 0xF;
/// Depth of the call stack.
pub const STACK_DEPTH: u8 = 16;
/// Where programs are loaded and where execution starts.
pub const PROGRAM_START: u16 = 0x200;
/// Where the glyphs of the sixteen hexadecimal digits are installed.
pub const FONT_START: u16 = 0x50;
/// Bytes per glyph.
pub const GLYPH_SIZE: u16 = 5;
/// Addresses, and the program counter, are taken modulo this.
pub const ADDRESS_SPACE: u16 = 0x1000;
/// Nanoseconds per second.
pub const NANOS_PER_SECOND: u64 = 1_000_000_000;
/// Timer ticks per second.
pub const TIMER_RATE: u64 = 60;

/// A fatal condition: the program or the interpreter state is corrupt. Each
/// carries the address of the instruction that ran into it.
#[derive(Copy, Clone, Debug, PartialEq, Eq, Structural)]
pub enum Fault {
    /// The program counter does not leave room for a whole instruction.
    FetchOutOfBounds { address: u16 },
    /// A return with an empty call stack.
    StackUnderflow { address: u16 },
    /// A call with all sixteen stack entries in use.
    StackOverflow { address: u16 },
    /// A sprite read, digit write or register transfer reaching past memory.
    MemoryOutOfBounds { address: u16 },
}

/// What a cycle reports besides the new state.
#[derive(Copy, Clone, Debug, PartialEq, Eq)]
pub struct CycleReport {
    /// The raw word, when the instruction executed was not a known one.
    pub unknown_opcode: Option<u16>,
    /// Whether the sound timer ran out during this cycle.
    pub beep: bool,
}

/// The whole interpreter state.
pub struct CpuView {
    pub registers: Seq<u8>,
    pub memory: Seq<u8>,
    pub i_reg: u16,
    pub stack: Seq<u16>,
    pub stack_pointer: u8,
    pub program_counter: u16,
    pub screen: Seq<u8>,
    pub keypad: KeypadView,
    pub delay_timer: u8,
    /// When the delay timer was last set or decremented, in nanoseconds.
    pub delay_stamp: u64,
    pub sound_timer: u8,
    /// When the sound timer was last set or decremented, in nanoseconds.
    pub sound_stamp: u64,
    pub draw_flag: bool,
    pub waiting_for_key: bool,
    pub register_for_key: u8,
}

/// The shape that every reachable state has.
pub open spec fn valid(s: CpuView) -> bool {
    &&& s.registers.len() == REGISTER_COUNT
    &&& s.memory.len() == MEMORY_SIZE
    &&& s.i_reg < ADDRESS_SPACE
    &&& s.stack.len() == STACK_DEPTH
    &&& s.stack_pointer <= STACK_DEPTH
    &&& s.program_counter < ADDRESS_SPACE
    &&& valid_grid(s.screen)
    &&& s.keypad.keys.len() == KEY_COUNT
    &&& s.keypad.last_key < KEY_COUNT
    &&& s.register_for_key < REGISTER_COUNT
}

/// The glyphs of the digits `0` to `F`, five rows each.
pub open spec fn glyphs() -> Seq<u8> {
    seq![
        0xF0u8, 0x90, 0x90, 0x90, 0xF0, 0x20, 0x60, 0x20, 0x20, 0x70,
        0xF0, 0x10, 0xF0, 0x80, 0xF0, 0xF0, 0x10, 0xF0, 0x10, 0xF0,
        0x90, 0x90, 0xF0, 0x10, 0x10, 0xF0, 0x80, 0xF0, 0x10, 0xF0,
        0xF0, 0x80, 0xF0, 0x90, 0xF0, 0xF0, 0x10, 0x20, 0x40, 0x40,
        0xF0, 0x90, 0xF0, 0x90, 0xF0, 0xF0, 0x90, 0xF0, 0x10, 0xF0,
        0xF0, 0x90, 0xF0, 0x90, 0x90, 0xE0, 0x90, 0xE0, 0x90, 0xE0,
        0xF0, 0x80, 0x80, 0x80, 0xF0, 0xE0, 0x90, 0x90, 0x90, 0xE0,
        0xF0, 0x80, 0xF0, 0x80, 0xF0, 0xF0, 0x80, 0xF0, 0x80, 0x80,
    ]
}

/// Memory after a reset: zero but for the glyphs at `FONT_START`.
pub open spec fn initial_memory() -> Seq<u8> {
    let zeros = Seq::new(MEMORY_SIZE as nat, |i: int| 0u8);
    zeros.subrange(0, FONT_START as int) + glyphs() + zeros.subrange(
        FONT_START + glyphs().len(),
        MEMORY_SIZE as int,
    )
}

/// The state after a reset.
pub open spec fn power_on() -> CpuView {
    CpuView {
        registers: Seq::new(REGISTER_COUNT as nat, |i: int| 0u8),
        memory: initial_memory(),
        i_reg: 0,
        stack: Seq::new(STACK_DEPTH as nat, |i: int| 0u16),
        stack_pointer: 0,
        program_counter: PROGRAM_START,
        screen: Seq::new(SIZE as nat, |i: int| 0u8),
        keypad: KeypadView { keys: Seq::new(KEY_COUNT as nat, |i: int| false), last_key: 0 },
        delay_timer: 0,
        delay_stamp: 0,
        sound_timer: 0,
        sound_stamp: 0,
        draw_flag: false,
        waiting_for_key: false,
        register_for_key: 0,
    }
}

pub open spec fn reg(s: CpuView, r: u8) -> u8 {
    s.registers[r as int]
}

pub open spec fn set_reg(s: CpuView, r: u8, v: u8) -> CpuView {
    CpuView { registers: s.registers.update(r as int, v), ..s }
}

/// `s` with the flag register set first and then register `r` set: when `r`
/// is the flag register itself, the result wins.
pub open spec fn set_flag_then_reg(s: CpuView, flag: bool, r: u8, v: u8) -> CpuView {
    CpuView { registers: s.registers.update(FLAG as int, if flag { 1u8 } else { 0u8 }).update(r as int, v), ..s }
}

pub open spec fn jump(s: CpuView, pc: int) -> CpuView {
    CpuView { program_counter: pc as u16, ..s }
}

/// Advances past the next instruction too when `cond` holds.
pub open spec fn skip_if(s: CpuView, cond: bool) -> CpuView {
    if cond { jump(s, s.program_counter + 2) } else { s }
}

/// Whether the key named by a register value is held; values beyond the
/// sixteen keys name no key.
pub open spec fn key_held(s: CpuView, key: u8) -> bool {
    key < KEY_COUNT && s.keypad.keys[key as int]
}

/// The three decimal digits of `v`, most significant first.
pub open spec fn bcd_digits(v: u8) -> Seq<u8> {
    seq![(v / 100) as u8, ((v % 100) / 10) as u8, (v % 10) as u8]
}

/// Nanoseconds from `stamp` to `now`; none when the clock reads earlier.
pub open spec fn elapsed(stamp: u64, now: u64) -> int {
    if now >= stamp { now - stamp } else { 0 }
}

/// Whether at least a sixtieth of a second has gone by since `stamp`.
pub open spec fn tick_due(stamp: u64, now: u64) -> bool {
    TIMER_RATE * elapsed(stamp, now) >= NANOS_PER_SECOND
}

/// The effect of instruction `op` on `t`, the state whose program counter has
/// already moved past it (from `pc`). `now` is the current time, `random` the
/// byte that a random draw would give.
pub open spec fn effect(t: CpuView, pc: u16, op: Opcode, now: u64, random: u8) -> Result<CpuView, Fault> {
    match op {
        Opcode::CallAddress { .. } => Ok(t),
        Opcode::ClearScreen => Ok(CpuView { screen: Seq::new(SIZE as nat, |i: int| 0u8), draw_flag: true, ..t }),
        Opcode::Return => if t.stack_pointer == 0 {
            Err(Fault::StackUnderflow { address: pc })
        } else {
            Ok(CpuView {
                stack_pointer: (t.stack_pointer - 1) as u8,
                program_counter: t.stack[t.stack_pointer - 1],
                ..t
            })
        },
        Opcode::Goto { address } => Ok(jump(t, address as int)),
        Opcode::CallSubroutine { address } => if t.stack_pointer == STACK_DEPTH {
            Err(Fault::StackOverflow { address: pc })
        } else {
            Ok(CpuView {
                stack: t.stack.update(t.stack_pointer as int, t.program_counter),
                stack_pointer: (t.stack_pointer + 1) as u8,
                program_counter: address,
                ..t
            })
        },
        Opcode::IfRegEqual { register, immediate } => Ok(skip_if(t, reg(t, register) == immediate)),
        Opcode::IfRegNotEqual { register, immediate } => Ok(skip_if(t, reg(t, register) != immediate)),
        Opcode::IfRegsEqual { register1, register2 } => Ok(skip_if(t, reg(t, register1) == reg(t, register2))),
        Opcode::IfRegsNotEqual { register1, register2 } => Ok(skip_if(t, reg(t, register1) != reg(t, register2))),
        Opcode::SetRegister { register, immediate } => Ok(set_reg(t, register, immediate)),
        Opcode::AddToRegister { register, immediate } =>
            Ok(set_reg(t, register, ((reg(t, register) + immediate) % 256) as u8)),
        Opcode::MoveRegToReg { register1, register2 } => Ok(set_reg(t, register1, reg(t, register2))),
        Opcode::BitwiseOrRegs { register1, register2 } =>
            Ok(set_reg(t, register1, reg(t, register1) | reg(t, register2))),
        Opcode::BitwiseAndRegs { register1, register2 } =>
            Ok(set_reg(t, register1, reg(t, register1) & reg(t, register2))),
        Opcode::BitwiseXorRegs { register1, register2 } =>
            Ok(set_reg(t, register1, reg(t, register1) ^ reg(t, register2))),
        Opcode::AddRegs { register1, register2 } => {
            let a = reg(t, register1);
            let b = reg(t, register2);
            Ok(set_flag_then_reg(t, a + b > 255, register1, ((a + b) % 256) as u8))
        },
        Opcode::SubtractRegs { register1, register2 } => {
            let a = reg(t, register1);
            let b = reg(t, register2);
            Ok(set_flag_then_reg(t, a >= b, register1, ((a - b) % 256) as u8))
        },
        Opcode::SubtractRegsOppositeOrder { register1, register2 } => {
            let a = reg(t, register1);
            let b = reg(t, register2);
            Ok(set_flag_then_reg(t, b >= a, register1, ((b - a) % 256) as u8))
        },
        Opcode::RightShiftReg { register1 } => {
            let v = reg(t, register1);
            Ok(set_flag_then_reg(t, v % 2 == 1, register1, v / 2))
        },
        Opcode::LeftShiftReg { register1 } => {
            let v = reg(t, register1);
            Ok(set_flag_then_reg(t, v >= 128, register1, ((v * 2) % 256) as u8))
        },
        Opcode::SetIToAddress { address } => Ok(CpuView { i_reg: address, ..t }),
        Opcode::JumpIndirect { address } => Ok(jump(t, reg(t, 0) + address)),
        Opcode::Rand { register, immediate } => Ok(set_reg(t, register, random & immediate)),
        Opcode::Draw { register1, register2, height } => if t.i_reg + height > MEMORY_SIZE {
            Err(Fault::MemoryOutOfBounds { address: pc })
        } else {
            let sprite = t.memory.subrange(t.i_reg as int, t.i_reg + height);
            let (x0, y0) = anchor(reg(t, register1) as u16, reg(t, register2) as u16);
            let hit = collides(t.screen, sprite, x0, y0);
            Ok(CpuView {
                screen: drawn(t.screen, sprite, x0, y0),
                registers: t.registers.update(FLAG as int, if hit { 1u8 } else { 0u8 }),
                draw_flag: true,
                ..t
            })
        },
        Opcode::IfKeyEqual { register } => Ok(skip_if(t, key_held(t, reg(t, register)))),
        Opcode::IfKeyNotEqual { register } => Ok(skip_if(t, !key_held(t, reg(t, register)))),
        Opcode::GetDelay { register } => Ok(set_reg(t, register, t.delay_timer)),
        Opcode::GetKey { register } => Ok(CpuView { waiting_for_key: true, register_for_key: register, ..t }),
        Opcode::SetDelay { register } => Ok(CpuView { delay_timer: reg(t, register), delay_stamp: now, ..t }),
        Opcode::SetSound { register } => Ok(CpuView { sound_timer: reg(t, register), sound_stamp: now, ..t }),
        Opcode::AddRegToI { register } =>
            Ok(CpuView { i_reg: ((t.i_reg + reg(t, register)) % (ADDRESS_SPACE as int)) as u16, ..t }),
        Opcode::GetSpriteAddr { register } =>
            Ok(CpuView { i_reg: (FONT_START + GLYPH_SIZE * (reg(t, register) % 16)) as u16, ..t }),
        Opcode::ToBinaryCodedDecimal { register } => if t.i_reg + 3 > MEMORY_SIZE {
            Err(Fault::MemoryOutOfBounds { address: pc })
        } else {
            let d = bcd_digits(reg(t, register));
            let i = t.i_reg as int;
            Ok(CpuView { memory: t.memory.update(i, d[0]).update(i + 1, d[1]).update(i + 2, d[2]), ..t })
        },
        Opcode::DumpRegistersUntil { register } => if t.i_reg + register + 1 > MEMORY_SIZE {
            Err(Fault::MemoryOutOfBounds { address: pc })
        } else {
            let i = t.i_reg as int;
            let n = register + 1;
            Ok(CpuView {
                memory: t.memory.subrange(0, i) + t.registers.subrange(0, n) + t.memory.subrange(i + n, MEMORY_SIZE as int),
                ..t
            })
        },
        Opcode::LoadRegistersUntil { register } => if t.i_reg + register + 1 > MEMORY_SIZE {
            Err(Fault::MemoryOutOfBounds { address: pc })
        } else {
            let i = t.i_reg as int;
            let n = register + 1;
            Ok(CpuView {
                registers: t.memory.subrange(i, i + n) + t.registers.subrange(n, REGISTER_COUNT as int),
                ..t
            })
        },
        Opcode::Unknown { .. } => Ok(t),
    }
}

/// Executing `op`, fetched at the program counter of `s`: advance the counter
/// by two, apply the instruction, then wrap the counter into the address space.
pub open spec fn execute(s: CpuView, op: Opcode, now: u64, random: u8) -> Result<CpuView, Fault> {
    let t = CpuView { program_counter: (s.program_counter + 2) as u16, ..s };
    match effect(t, s.program_counter, op, now, random) {
        Ok(u) => Ok(CpuView { program_counter: (u.program_counter % ADDRESS_SPACE) as u16, ..u }),
        Err(e) => Err(e),
    }
}

/// The timers after a look at the clock at `now`: each one that is positive
/// and due goes down by one and remembers `now`. The second component says
/// whether the sound timer went from one to zero.
pub open spec fn tick(s: CpuView, now: u64) -> (CpuView, bool) {
    let delay_steps = s.delay_timer > 0 && tick_due(s.delay_stamp, now);
    let sound_steps = s.sound_timer > 0 && tick_due(s.sound_stamp, now);
    (
        CpuView {
            delay_timer: if delay_steps { (s.delay_timer - 1) as u8 } else { s.delay_timer },
            delay_stamp: if delay_steps { now } else { s.delay_stamp },
            sound_timer: if sound_steps { (s.sound_timer - 1) as u8 } else { s.sound_timer },
            sound_stamp: if sound_steps { now } else { s.sound_stamp },
            ..s
        },
        sound_steps && s.sound_timer == 1,
    )
}

/// The instruction word at the program counter of `s`.
pub open spec fn fetched(s: CpuView) -> u16 {
    word_of(s.memory[s.program_counter as int], s.memory[s.program_counter + 1])
}

/// One cycle at time `now`: unless waiting for a key, fetch, decode and
/// execute one instruction; then let the timers decay. The display flag tells
/// whether this cycle changed the display.
pub open spec fn cycle(s: CpuView, now: u64, random: u8) -> Result<(CpuView, CycleReport), Fault> {
    let s0 = CpuView { draw_flag: false, ..s };
    if s.waiting_for_key {
        let (u, beep) = tick(s0, now);
        Ok((u, CycleReport { unknown_opcode: None, beep }))
    } else if s.program_counter + 1 >= MEMORY_SIZE {
        Err(Fault::FetchOutOfBounds { address: s.program_counter })
    } else {
        let w = fetched(s);
        match execute(s0, decoded(w), now, random) {
            Ok(t) => {
                let (u, beep) = tick(t, now);
                Ok((u, CycleReport { unknown_opcode: if decoded(w) is Unknown { Some(w) } else { None }, beep }))
            },
            Err(e) => Err(e),
        }
    }
}

/// The state after a key event: the keypad takes it, and a press ends a
/// wait for a key by storing the key in the register that waits for it.
pub open spec fn input(s: CpuView, event: KeyEvent) -> CpuView {
    let (k, pressed) = after_event(s.keypad, event);
    let t = CpuView { keypad: k, ..s };
    if s.waiting_for_key && pressed {
        CpuView {
            waiting_for_key: false,
            registers: t.registers.update(s.register_for_key as int, k.last_key),
            ..t
        }
    } else {
        t
    }
}

/// The state after loading `program` at `PROGRAM_START`.
pub open spec fn loaded(s: CpuView, program: Seq<u8>) -> CpuView {
    let start = PROGRAM_START as int;
    CpuView {
        memory: s.memory.subrange(0, start) + program + s.memory.subrange(start + program.len(), MEMORY_SIZE as int),
        ..s
    }
}

/// `t` and `r` are what a cycle from `s` at `now` with `random` gives; after
/// a fault the state is left as it was.
pub open spec fn cycle_outcome(s: CpuView, t: CpuView, r: Result<CycleReport, Fault>, now: u64, random: u8) -> bool {
    match cycle(s, now, random) {
        Ok((u, report)) => t == u && r == Ok::<CycleReport, Fault>(report),
        Err(e) => t == s && r == Err::<CycleReport, Fault>(e),
    }
}

} // verus!
