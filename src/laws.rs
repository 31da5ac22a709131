//! Laws of the instruction set and of the timers, over the model of
//! `cpu_model`.
use vstd::prelude::*;
use crate::cpu_model::{execute, reg, tick, tick_due, valid, CpuView, FLAG, NANOS_PER_SECOND, REGISTER_COUNT, TIMER_RATE};
use crate::opcode::Opcode;

verus! {

/// Register-to-register addition: the destination gets `(a + b) mod 256`,
/// and the flag register is 1 exactly when `a + b > 255` (when the
/// destination is the flag register itself, the sum is what it keeps).
pub proof fn lemma_add_regs(s: CpuView, r1: u8, r2: u8, now: u64, random: u8)
    requires
        valid(s),
        r1 < REGISTER_COUNT,
        r2 < REGISTER_COUNT,
    ensures
        execute(s, Opcode::AddRegs { register1: r1, register2: r2 }, now, random) matches Ok(t) && {
            let a = reg(s, r1);
            let b = reg(s, r2);
            &&& reg(t, r1) == (a + b) % 256
            &&& r1 != FLAG ==> (reg(t, FLAG) == 1 <==> a + b > 255)
            &&& r1 != FLAG ==> (reg(t, FLAG) == 0 <==> a + b <= 255)
        },
{
}

/// Register-to-register subtraction: the destination gets `(a - b) mod 256`,
/// and the flag register is 1 exactly when `a >= b`, that is when no borrow
/// occurs (when the destination is the flag register itself, the difference
/// is what it keeps).
pub proof fn lemma_subtract_regs(s: CpuView, r1: u8, r2: u8, now: u64, random: u8)
    requires
        valid(s),
        r1 < REGISTER_COUNT,
        r2 < REGISTER_COUNT,
    ensures
        execute(s, Opcode::SubtractRegs { register1: r1, register2: r2 }, now, random) matches Ok(t) && {
            let a = reg(s, r1);
            let b = reg(s, r2);
            &&& reg(t, r1) == (a - b) % 256
            &&& r1 != FLAG ==> (reg(t, FLAG) == 1 <==> a >= b)
            &&& r1 != FLAG ==> (reg(t, FLAG) == 0 <==> a < b)
        },
{
}

/// Shifts: right by one puts `v & 1` in the flag register and `v >> 1` in the
/// register; left by one puts `v >> 7` in the flag register and
/// `(v << 1) mod 256` in the register (when the register is the flag
/// register itself, the shifted value is what it keeps).
pub proof fn lemma_shifts(s: CpuView, r: u8, now: u64, random: u8)
    requires
        valid(s),
        r < REGISTER_COUNT,
    ensures
        execute(s, Opcode::RightShiftReg { register1: r }, now, random) matches Ok(t) && {
            let v = reg(s, r);
            &&& reg(t, r) == v >> 1u8
            &&& r != FLAG ==> reg(t, FLAG) == v & 1u8
        },
        execute(s, Opcode::LeftShiftReg { register1: r }, now, random) matches Ok(t) && {
            let v = reg(s, r);
            &&& reg(t, r) == ((v as int) * 2) % 256
            &&& reg(t, r) == v << 1u8
            &&& r != FLAG ==> reg(t, FLAG) == v >> 7u8
        },
{
    let v = reg(s, r);
    assert(v / 2 == v >> 1u8 && v % 2 == v & 1u8) by (bit_vector);
    assert((if v >= 128 { 1u8 } else { 0u8 }) == v >> 7u8) by (bit_vector);
    assert((((v as u16) * 2) % 256) as u8 == v << 1u8) by (bit_vector);
}

/// A look at the clock lowers a positive timer by exactly one when at least a
/// sixtieth of a second has gone by since it was set or last lowered, and
/// leaves it alone otherwise; a timer never goes below zero.
pub proof fn lemma_timer_step(s: CpuView, now: u64)
    ensures
        ({
            let t = tick(s, now).0;
            &&& t.delay_timer == if s.delay_timer > 0 && tick_due(s.delay_stamp, now) {
                s.delay_timer - 1
            } else {
                s.delay_timer as int
            }
            &&& t.sound_timer == if s.sound_timer > 0 && tick_due(s.sound_stamp, now) {
                s.sound_timer - 1
            } else {
                s.sound_timer as int
            }
            &&& t.delay_timer >= 0 && t.sound_timer >= 0
            &&& tick_due(s.delay_stamp, now) <==> TIMER_RATE * (now - s.delay_stamp) >= NANOS_PER_SECOND
        }),
{
}

/// No instruction but the one that sets the delay timer touches it: the
/// timer's pace does not depend on how many instructions run.
pub proof fn lemma_timer_ignores_instructions(s: CpuView, op: Opcode, now: u64, random: u8)
    requires
        !(op is SetDelay),
    ensures
        execute(s, op, now, random) matches Ok(t) ==> t.delay_timer == s.delay_timer && t.delay_stamp
            == s.delay_stamp,
{
}

/// The state after looking at the clock at each of `times` in turn.
pub open spec fn ticks(s: CpuView, times: Seq<u64>) -> CpuView
    decreases times.len(),
{
    if times.len() == 0 {
        s
    } else {
        ticks(tick(s, times[0]).0, times.drop_first())
    }
}

/// Over looks at the clock at non-decreasing times, each step down of the
/// delay timer takes at least a sixtieth of a second: from `d` it reaches
/// `d - k` no sooner than `k` sixtieths of a second after it was set.
pub proof fn lemma_timer_pace(s: CpuView, times: Seq<u64>)
    requires
        forall|i: int, j: int| 0 <= i <= j < times.len() ==> times[i] <= times[j],
        times.len() > 0 ==> s.delay_stamp <= times[0],
    ensures
        TIMER_RATE * (ticks(s, times).delay_stamp - s.delay_stamp) >= NANOS_PER_SECOND * (
        s.delay_timer - ticks(s, times).delay_timer),
        ticks(s, times).delay_timer <= s.delay_timer,
        ticks(s, times).delay_stamp >= s.delay_stamp,
        times.len() > 0 ==> ticks(s, times).delay_stamp <= times.last(),
    decreases times.len(),
{
    if times.len() > 0 {
        let t = tick(s, times[0]).0;
        let rest = times.drop_first();
        lemma_timer_pace(t, rest);
        if rest.len() > 0 {
            assert(rest.last() == times.last());
        }
    }
}

} // verus!
