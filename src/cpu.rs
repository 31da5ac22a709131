//! The interpreter: registers, stack, timers and the fetch-decode-execute cycle.
use vstd::prelude::*;
use std::time::Instant;
use vstd::slice::slice_subrange;
use crate::cpu_model::{
    cycle_outcome, execute, glyphs, initial_memory, input, loaded, power_on, tick, tick_due, valid,
    CpuView, CycleReport, Fault, ADDRESS_SPACE, FLAG, FONT_START, GLYPH_SIZE, PROGRAM_START,
    REGISTER_COUNT, STACK_DEPTH,
};
use crate::keypad::{KeyEvent, Keypad, KEY_COUNT};
use crate::memory::{Memory, OutOfBoundsError, MEMORY_SIZE};
use crate::opcode::{lemma_decode_total, operands_in_range, Opcode};
use crate::screen::Screen;

verus! {

#[verifier::external_type_specification]
#[verifier::external_body]
pub struct ExInstant(std::time::Instant);

/// Relies on `std::time::Instant::now`: a reading of the monotonic clock.
#[verifier::external_body]
fn clock_now() -> (r: Instant) {
    Instant::now()
}

/// Relies on `std::time::Instant::elapsed`: the time since `epoch`, in
/// nanoseconds. Nothing is known of the value.
#[verifier::external_body]
fn nanos_since(epoch: &Instant) -> (r: u64) {
    epoch.elapsed().as_nanos() as u64
}

/// Relies on `rand::random`: a byte drawn from the thread-local generator.
/// Nothing is known of the value.
#[verifier::external_body]
fn random_byte() -> (r: u8) {
    rand::random::<u8>()
}

/// Nanoseconds that make at least a sixtieth of a second.
const TICK_NANOS: u64 = 16_666_667;

/// The interpreter.
pub struct Cpu {
    registers: Vec<u8>,
    memory: Memory,
    i_reg: u16,
    stack_pointer: u8,
    stack: Vec<u16>,
    program_counter: u16,
    screen: Screen,
    keypad: Keypad,
    delay_timer: u8,
    delay_timer_stamp: u64,
    sound_timer: u8,
    sound_timer_stamp: u64,
    draw_flag: bool,
    waiting_for_key: bool,
    register_for_key: u8,
    /// The origin of the timer stamps.
    epoch: Instant,
}

impl View for Cpu {
    type V = CpuView;

    closed spec fn view(&self) -> CpuView {
        CpuView {
            registers: self.registers@,
            memory: self.memory@,
            i_reg: self.i_reg,
            stack: self.stack@,
            stack_pointer: self.stack_pointer,
            program_counter: self.program_counter,
            screen: self.screen@,
            keypad: self.keypad@,
            delay_timer: self.delay_timer,
            delay_stamp: self.delay_timer_stamp,
            sound_timer: self.sound_timer,
            sound_stamp: self.sound_timer_stamp,
            draw_flag: self.draw_flag,
            waiting_for_key: self.waiting_for_key,
            register_for_key: self.register_for_key,
        }
    }
}

/// `a - b` modulo 256.
fn wrapping_difference(a: u8, b: u8) -> (r: u8)
    ensures
        r == ((a - b) % 256) as u8,
{
    if a >= b {
        a - b
    } else {
        (256 - b as u16 + a as u16) as u8
    }
}

/// Whether a timer set at `stamp` is due at `now`.
fn due(stamp: u64, now: u64) -> (r: bool)
    ensures
        r == tick_due(stamp, now),
{
    now >= stamp && now - stamp >= TICK_NANOS
}

impl Cpu {
    pub open spec fn wf(&self) -> bool {
        valid(self@)
    }

    /// A freshly reset interpreter.
    pub fn new() -> (r: Self)
        ensures
            r.wf(),
            r@ == power_on(),
    {
        let mut cpu = Cpu {
            registers: vec![0u8; REGISTER_COUNT as usize],
            memory: Memory::default(),
            i_reg: 0,
            stack_pointer: 0,
            stack: vec![0u16; STACK_DEPTH as usize],
            program_counter: PROGRAM_START,
            screen: Screen::default(),
            keypad: Keypad::default(),
            delay_timer: 0,
            delay_timer_stamp: 0,
            sound_timer: 0,
            sound_timer_stamp: 0,
            draw_flag: false,
            waiting_for_key: false,
            register_for_key: 0,
            epoch: clock_now(),
        };
        cpu.reset();
        cpu
    }

    /// Clears all state, installs the glyphs and points the program counter
    /// at `PROGRAM_START`.
    pub fn reset(&mut self)
        requires
            old(self).wf(),
        ensures
            final(self).wf(),
            final(self)@ == power_on(),
    {
        self.screen.reset();
        self.memory.reset();
        self.keypad.reset();
        self.registers = vec![0u8; REGISTER_COUNT as usize];
        self.stack = vec![0u16; STACK_DEPTH as usize];
        self.stack_pointer = 0;
        self.i_reg = 0;
        self.program_counter = PROGRAM_START;
        self.delay_timer = 0;
        self.delay_timer_stamp = 0;
        self.sound_timer = 0;
        self.sound_timer_stamp = 0;
        self.draw_flag = false;
        self.waiting_for_key = false;
        self.register_for_key = 0;
        self.load_fontset();
        assert(self.registers@ =~= Seq::new(REGISTER_COUNT as nat, |i: int| 0u8));
        assert(self.stack@ =~= Seq::new(STACK_DEPTH as nat, |i: int| 0u16));
        assert(self@.keypad == power_on().keypad);
    }

    fn load_fontset(&mut self)
        requires
            old(self).memory.wf(),
            old(self).memory@ == Seq::new(MEMORY_SIZE as nat, |i: int| 0u8),
        ensures
            final(self).memory.wf(),
            final(self).memory@ == initial_memory(),
            final(self).registers == old(self).registers,
            final(self).stack == old(self).stack,
            final(self).screen == old(self).screen,
            final(self).keypad == old(self).keypad,
            final(self).i_reg == old(self).i_reg,
            final(self).stack_pointer == old(self).stack_pointer,
            final(self).program_counter == old(self).program_counter,
            final(self).delay_timer == old(self).delay_timer,
            final(self).delay_timer_stamp == old(self).delay_timer_stamp,
            final(self).sound_timer == old(self).sound_timer,
            final(self).sound_timer_stamp == old(self).sound_timer_stamp,
            final(self).draw_flag == old(self).draw_flag,
            final(self).waiting_for_key == old(self).waiting_for_key,
            final(self).register_for_key == old(self).register_for_key,
    {
        let font: Vec<u8> = vec![
            0xF0, 0x90, 0x90, 0x90, 0xF0, 0x20, 0x60, 0x20, 0x20, 0x70,
            0xF0, 0x10, 0xF0, 0x80, 0xF0, 0xF0, 0x10, 0xF0, 0x10, 0xF0,
            0x90, 0x90, 0xF0, 0x10, 0x10, 0xF0, 0x80, 0xF0, 0x10, 0xF0,
            0xF0, 0x80, 0xF0, 0x90, 0xF0, 0xF0, 0x10, 0x20, 0x40, 0x40,
            0xF0, 0x90, 0xF0, 0x90, 0xF0, 0xF0, 0x90, 0xF0, 0x10, 0xF0,
            0xF0, 0x90, 0xF0, 0x90, 0x90, 0xE0, 0x90, 0xE0, 0x90, 0xE0,
            0xF0, 0x80, 0x80, 0x80, 0xF0, 0xE0, 0x90, 0x90, 0x90, 0xE0,
            0xF0, 0x80, 0xF0, 0x80, 0xF0, 0xF0, 0x80, 0xF0, 0x80, 0x80,
        ];
        assert(font@ =~= glyphs());
        let written = self.memory.write_data(FONT_START, font.as_slice());
        assert(written is Ok);
    }

    /// Runs one cycle at time `now` (nanoseconds since the interpreter was
    /// made), with `random` as the byte that a random draw gives.
    #[verifier::rlimit(20)]
    pub fn emulate_cycle_at(&mut self, now: u64, random: u8) -> (r: Result<CycleReport, Fault>)
        requires
            old(self).wf(),
        ensures
            final(self).wf(),
            cycle_outcome(old(self)@, final(self)@, r, now, random),
    {
        let drew = self.draw_flag;
        let mut unknown: Option<u16> = None;
        if !self.waiting_for_key {
            let pc = self.program_counter;
            let word = match self.memory.get_u16(pc) {
                Ok(w) => w,
                Err(_) => {
                    return Err(Fault::FetchOutOfBounds { address: pc });
                },
            };
            let op = Opcode::from(word);
            proof {
                lemma_decode_total(word, word);
            }
            self.draw_flag = false;
            match self.execute(op, now, random) {
                Ok(()) => {},
                Err(e) => {
                    self.draw_flag = drew;
                    return Err(e);
                },
            }
            if let Opcode::Unknown { .. } = op {
                unknown = Some(word);
            }
        } else {
            self.draw_flag = false;
        }
        let beep = self.tick_timers(now);
        Ok(CycleReport { unknown_opcode: unknown, beep })
    }

    /// Runs one cycle: reads the clock and draws a random byte, then does
    /// what `emulate_cycle_at` does with them.
    pub fn emulate_cycle(&mut self) -> (r: Result<CycleReport, Fault>)
        requires
            old(self).wf(),
        ensures
            final(self).wf(),
            exists|now: u64, random: u8| cycle_outcome(old(self)@, final(self)@, r, now, random),
    {
        let now = nanos_since(&self.epoch);
        let random = random_byte();
        self.emulate_cycle_at(now, random)
    }

    /// Lets each timer decay if due; returns whether the sound timer ran out.
    fn tick_timers(&mut self, now: u64) -> (r: bool)
        requires
            old(self).wf(),
        ensures
            final(self).wf(),
            (final(self)@, r) == tick(old(self)@, now),
    {
        if self.delay_timer > 0 && due(self.delay_timer_stamp, now) {
            self.delay_timer = self.delay_timer - 1;
            self.delay_timer_stamp = now;
        }
        let mut beep = false;
        if self.sound_timer > 0 && due(self.sound_timer_stamp, now) {
            beep = self.sound_timer == 1;
            self.sound_timer = self.sound_timer - 1;
            self.sound_timer_stamp = now;
        }
        beep
    }

    /// Copies `program` into memory at `PROGRAM_START`; fails, changing
    /// nothing, when it does not fit.
    pub fn load_program(&mut self, program: &[u8]) -> (r: Result<(), OutOfBoundsError>)
        requires
            old(self).wf(),
        ensures
            final(self).wf(),
            r is Ok <==> PROGRAM_START + program@.len() <= MEMORY_SIZE,
            r is Ok ==> final(self)@ == loaded(old(self)@, program@),
            r is Err ==> final(self)@ == old(self)@,
    {
        self.memory.write_data(PROGRAM_START, program)
    }

    /// Whether the last cycle changed the display.
    pub fn draw_needed(&self) -> (r: bool)
        ensures
            r == self@.draw_flag,
    {
        self.draw_flag
    }

    /// The display, row by row, one byte (0 or 1) per pixel.
    pub fn get_pixel_data(&self) -> (r: &[u8])
        requires
            self.wf(),
        ensures
            r@ == self@.screen,
    {
        self.screen.get_pixel_data()
    }

    /// Passes a key event to the keypad; a key press ends a wait for a key.
    pub fn handle_input(&mut self, event: KeyEvent)
        requires
            old(self).wf(),
        ensures
            final(self).wf(),
            final(self)@ == input(old(self)@, event),
    {
        let pressed = self.keypad.handle_input(event);
        if self.waiting_for_key && pressed {
            self.waiting_for_key = false;
            let key = self.keypad.get_last_key();
            self.registers.set(self.register_for_key as usize, key);
        }
    }

    /// The address of the next instruction.
    pub fn program_counter(&self) -> (r: u16)
        ensures
            r == self@.program_counter,
    {
        self.program_counter
    }

    /// The value of register `V{index}`.
    pub fn register(&self, index: u8) -> (r: u8)
        requires
            self.wf(),
            index < REGISTER_COUNT,
        ensures
            r == self@.registers[index as int],
    {
        self.registers[index as usize]
    }

    /// The index register `I`.
    pub fn index_register(&self) -> (r: u16)
        ensures
            r == self@.i_reg,
    {
        self.i_reg
    }

    /// Number of return addresses on the call stack.
    pub fn stack_pointer(&self) -> (r: u8)
        ensures
            r == self@.stack_pointer,
    {
        self.stack_pointer
    }

    pub fn delay_timer(&self) -> (r: u8)
        ensures
            r == self@.delay_timer,
    {
        self.delay_timer
    }

    pub fn sound_timer(&self) -> (r: u8)
        ensures
            r == self@.sound_timer,
    {
        self.sound_timer
    }

    /// Whether execution is suspended until a key is pressed.
    pub fn is_waiting_for_key(&self) -> (r: bool)
        ensures
            r == self@.waiting_for_key,
    {
        self.waiting_for_key
    }

    /// The interpreter's memory.
    pub fn memory(&self) -> (r: &Memory)
        requires
            self.wf(),
        ensures
            r.wf(),
            r@ == self@.memory,
    {
        &self.memory
    }

    /// Executes `op`, fetched at the program counter: on a fault nothing
    /// changes.
    #[verifier::rlimit(40)]
    fn execute(&mut self, op: Opcode, now: u64, random: u8) -> (r: Result<(), Fault>)
        requires
            old(self).wf(),
            operands_in_range(op),
        ensures
            final(self).wf(),
            match execute(old(self)@, op, now, random) {
                Ok(t) => r is Ok && final(self)@ == t,
                Err(e) => r == Err::<(), Fault>(e) && final(self)@ == old(self)@,
            },
    {
        let pc = self.program_counter;
        let next = pc + 2;
        match op {
            Opcode::CallAddress { .. } => {
                self.program_counter = next;
            },
            Opcode::ClearScreen => {
                self.screen.reset();
                self.draw_flag = true;
                self.program_counter = next;
            },
            Opcode::Return => {
                if self.stack_pointer == 0 {
                    return Err(Fault::StackUnderflow { address: pc });
                }
                self.stack_pointer = self.stack_pointer - 1;
                self.program_counter = self.stack[self.stack_pointer as usize];
            },
            Opcode::Goto { address } => {
                self.program_counter = address;
            },
            Opcode::CallSubroutine { address } => {
                if self.stack_pointer == STACK_DEPTH {
                    return Err(Fault::StackOverflow { address: pc });
                }
                self.stack.set(self.stack_pointer as usize, next);
                self.stack_pointer = self.stack_pointer + 1;
                self.program_counter = address;
            },
            Opcode::IfRegEqual { register, immediate } => {
                let cond = self.registers[register as usize] == immediate;
                self.program_counter = if cond { next + 2 } else { next };
            },
            Opcode::IfRegNotEqual { register, immediate } => {
                let cond = self.registers[register as usize] != immediate;
                self.program_counter = if cond { next + 2 } else { next };
            },
            Opcode::IfRegsEqual { register1, register2 } => {
                let cond = self.registers[register1 as usize] == self.registers[register2 as usize];
                self.program_counter = if cond { next + 2 } else { next };
            },
            Opcode::IfRegsNotEqual { register1, register2 } => {
                let cond = self.registers[register1 as usize] != self.registers[register2 as usize];
                self.program_counter = if cond { next + 2 } else { next };
            },
            Opcode::SetRegister { register, immediate } => {
                self.registers.set(register as usize, immediate);
                self.program_counter = next;
            },
            Opcode::AddToRegister { register, immediate } => {
                let sum = self.registers[register as usize] as u16 + immediate as u16;
                self.registers.set(register as usize, (sum % 256) as u8);
                self.program_counter = next;
            },
            Opcode::MoveRegToReg { register1, register2 } => {
                let v = self.registers[register2 as usize];
                self.registers.set(register1 as usize, v);
                self.program_counter = next;
            },
            Opcode::BitwiseOrRegs { register1, register2 } => {
                let v = self.registers[register1 as usize] | self.registers[register2 as usize];
                self.registers.set(register1 as usize, v);
                self.program_counter = next;
            },
            Opcode::BitwiseAndRegs { register1, register2 } => {
                let v = self.registers[register1 as usize] & self.registers[register2 as usize];
                self.registers.set(register1 as usize, v);
                self.program_counter = next;
            },
            Opcode::BitwiseXorRegs { register1, register2 } => {
                let v = self.registers[register1 as usize] ^ self.registers[register2 as usize];
                self.registers.set(register1 as usize, v);
                self.program_counter = next;
            },
            Opcode::AddRegs { register1, register2 } => {
                let a = self.registers[register1 as usize] as u16;
                let b = self.registers[register2 as usize] as u16;
                let sum = a + b;
                self.registers.set(FLAG as usize, if sum > 255 { 1 } else { 0 });
                self.registers.set(register1 as usize, (sum % 256) as u8);
                self.program_counter = next;
            },
            Opcode::SubtractRegs { register1, register2 } => {
                let a = self.registers[register1 as usize];
                let b = self.registers[register2 as usize];
                self.registers.set(FLAG as usize, if a >= b { 1 } else { 0 });
                self.registers.set(register1 as usize, wrapping_difference(a, b));
                self.program_counter = next;
            },
            Opcode::SubtractRegsOppositeOrder { register1, register2 } => {
                let a = self.registers[register1 as usize];
                let b = self.registers[register2 as usize];
                self.registers.set(FLAG as usize, if b >= a { 1 } else { 0 });
                self.registers.set(register1 as usize, wrapping_difference(b, a));
                self.program_counter = next;
            },
            Opcode::RightShiftReg { register1 } => {
                let v = self.registers[register1 as usize];
                self.registers.set(FLAG as usize, v % 2);
                self.registers.set(register1 as usize, v / 2);
                self.program_counter = next;
            },
            Opcode::LeftShiftReg { register1 } => {
                let v = self.registers[register1 as usize];
                self.registers.set(FLAG as usize, if v >= 128 { 1 } else { 0 });
                self.registers.set(register1 as usize, ((v as u16 * 2) % 256) as u8);
                self.program_counter = next;
            },
            Opcode::SetIToAddress { address } => {
                self.i_reg = address;
                self.program_counter = next;
            },
            Opcode::JumpIndirect { address } => {
                self.program_counter = self.registers[0] as u16 + address;
            },
            Opcode::Rand { register, immediate } => {
                self.registers.set(register as usize, random & immediate);
                self.program_counter = next;
            },
            Opcode::Draw { register1, register2, height } => {
                let hit = match self.memory.get_data(self.i_reg, height as u16) {
                    Ok(sprite) => {
                        let x = self.registers[register1 as usize];
                        let y = self.registers[register2 as usize];
                        self.screen.draw_sprite(x as u16, y as u16, sprite)
                    },
                    Err(_) => {
                        return Err(Fault::MemoryOutOfBounds { address: pc });
                    },
                };
                self.registers.set(FLAG as usize, if hit { 1 } else { 0 });
                self.draw_flag = true;
                self.program_counter = next;
            },
            Opcode::IfKeyEqual { register } => {
                let key = self.registers[register as usize];
                let cond = key < KEY_COUNT && self.keypad.is_key_pressed(key);
                self.program_counter = if cond { next + 2 } else { next };
            },
            Opcode::IfKeyNotEqual { register } => {
                let key = self.registers[register as usize];
                let cond = !(key < KEY_COUNT && self.keypad.is_key_pressed(key));
                self.program_counter = if cond { next + 2 } else { next };
            },
            Opcode::GetDelay { register } => {
                self.registers.set(register as usize, self.delay_timer);
                self.program_counter = next;
            },
            Opcode::GetKey { register } => {
                self.waiting_for_key = true;
                self.register_for_key = register;
                self.program_counter = next;
            },
            Opcode::SetDelay { register } => {
                self.delay_timer = self.registers[register as usize];
                self.delay_timer_stamp = now;
                self.program_counter = next;
            },
            Opcode::SetSound { register } => {
                self.sound_timer = self.registers[register as usize];
                self.sound_timer_stamp = now;
                self.program_counter = next;
            },
            Opcode::AddRegToI { register } => {
                let sum = self.i_reg + self.registers[register as usize] as u16;
                self.i_reg = sum % ADDRESS_SPACE;
                self.program_counter = next;
            },
            Opcode::GetSpriteAddr { register } => {
                let digit = (self.registers[register as usize] % 16) as u16;
                self.i_reg = FONT_START + GLYPH_SIZE * digit;
                self.program_counter = next;
            },
            Opcode::ToBinaryCodedDecimal { register } => {
                if self.i_reg > MEMORY_SIZE - 3 {
                    return Err(Fault::MemoryOutOfBounds { address: pc });
                }
                let v = self.registers[register as usize];
                let i = self.i_reg;
                let w0 = self.memory.write_u8(i, v / 100);
                let w1 = self.memory.write_u8(i + 1, (v % 100) / 10);
                let w2 = self.memory.write_u8(i + 2, v % 10);
                assert(w0 is Ok && w1 is Ok && w2 is Ok);
                self.program_counter = next;
            },
            Opcode::DumpRegistersUntil { register } => {
                if self.i_reg as u32 + register as u32 + 1 > MEMORY_SIZE as u32 {
                    return Err(Fault::MemoryOutOfBounds { address: pc });
                }
                let n = register as usize + 1;
                let written = self.memory.write_data(self.i_reg, slice_subrange(self.registers.as_slice(), 0, n));
                assert(written is Ok);
                self.program_counter = next;
            },
            Opcode::LoadRegistersUntil { register } => {
                if self.i_reg as u32 + register as u32 + 1 > MEMORY_SIZE as u32 {
                    return Err(Fault::MemoryOutOfBounds { address: pc });
                }
                let ghost before = self.registers@;
                let i = self.i_reg;
                let mut k: u8 = 0;
                while k <= register
                    invariant
                        self.wf(),
                        self.i_reg == i,
                        register < REGISTER_COUNT,
                        i + register + 1 <= MEMORY_SIZE,
                        0 <= k <= register + 1,
                        self.memory@ == old(self).memory@,
                        self.registers@.len() == REGISTER_COUNT,
                        forall|j: int| 0 <= j < k ==> self.registers@[j] == self.memory@[i + j],
                        forall|j: int| k <= j < REGISTER_COUNT ==> self.registers@[j] == before[j],
                        self.program_counter == pc,
                        self.stack == old(self).stack,
                        self.screen == old(self).screen,
                        self.keypad == old(self).keypad,
                        self.stack_pointer == old(self).stack_pointer,
                        self.delay_timer == old(self).delay_timer,
                        self.delay_timer_stamp == old(self).delay_timer_stamp,
                        self.sound_timer == old(self).sound_timer,
                        self.sound_timer_stamp == old(self).sound_timer_stamp,
                        self.draw_flag == old(self).draw_flag,
                        self.waiting_for_key == old(self).waiting_for_key,
                        self.register_for_key == old(self).register_for_key,
                    decreases register + 1 - k,
                {
                    let b = self.memory.get_u8(i + k as u16);
                    if let Ok(v) = b {
                        self.registers.set(k as usize, v);
                    }
                    k = k + 1;
                }
                assert(self.registers@ =~= self.memory@.subrange(i as int, i + register + 1)
                    + before.subrange(register + 1, REGISTER_COUNT as int));
                self.program_counter = next;
            },
            Opcode::Unknown { .. } => {
                self.program_counter = next;
            },
        }
        self.program_counter = self.program_counter % ADDRESS_SPACE;
        Ok(())
    }
}

} // verus!
