//! The state of the processor and of all that it owns.
use crate::bits::bit;
use crate::bits::test_bit;
use crate::cpu::instrs::execute_instruction;
use crate::cpu::instrs::is_defined;
use crate::cpu::instrs::is_known;
use crate::cpu::instrs::loads16::lemma_ram_keeps_short;
use crate::cpu::interrupts::InterruptType;
use crate::cpu::regs::Registers;
use crate::gpu::blank_frame;
use crate::gpu::blank_starts;
use crate::gpu::lemma_step_keeps_schedule;
use crate::gpu::lemma_steps_draw_nothing;
use crate::gpu::lemma_steps_follow_frame;
use crate::gpu::total_cycles;
use crate::gpu::FRAME_CYCLES;
use crate::io::IORegisters;
use crate::mem::GBMemory;
use crate::mem::MemView;
use crate::rom::load_error;
use crate::rom::GameROM;
use crate::rom::mapper_implemented;
use crate::rom::RomView;
use vstd::prelude::*;

verus! {

/// The most cycles that the timer counts before TIMA moves on.
pub const TIMER_SLOWEST: u32 = 1024;

/// The cycles that pass in one tick while the processor is halted or
/// stopped.
pub const STALL_CYCLES: u8 = 64;

/// An instruction word that names no instruction, and where it was fetched.
#[derive(PartialEq, Eq, Structural, Debug, Clone, Copy)]
pub struct BadInstruction {
    pub instr: u16,
    pub origin: u16,
}

/// The cycles after which TIMA moves on: the cycles of a second divided by
/// the frequency that the low two bits of TAC choose (4096, 262144, 65536
/// or 16384 Hz).
pub open spec fn timer_period(tac: u8) -> u32 {
    if tac % 4 == 0 {
        1024
    } else if tac % 4 == 1 {
        16
    } else if tac % 4 == 2 {
        64
    } else {
        256
    }
}

/// TIMA after one step: reloaded from TMA when it overflows.
pub open spec fn tima_next(tima: u8, tma: u8) -> u8 {
    if tima == 0xFF {
        tma
    } else {
        (tima + 1) as u8
    }
}

/// The timer after it has counted `counter` cycles: while the count
/// exceeds the period, the period is taken off it and TIMA moves on. Gives
/// what is left of the count, TIMA, and whether TIMA has overflowed.
pub open spec fn timer_settled(counter: int, tima: u8, tma: u8, period: int) -> (int, u8, bool)
    decreases counter,
{
    if period > 0 && counter > period {
        let rest = timer_settled(counter - period, tima_next(tima, tma), tma, period);
        (rest.0, rest.1, rest.2 || tima == 0xFF)
    } else {
        (counter, tima, false)
    }
}

/// The 16-bit value that lies `by` after `val`; the values wrap around.
pub open spec fn add16(val: u16, by: int) -> u16 {
    ((val + by) % 0x10000) as u16
}

/// The byte `val` read as a signed number.
pub open spec fn signed(val: u8) -> int {
    if val < 128 {
        val as int
    } else {
        val - 256
    }
}

/// The processor and all that it owns, as the contracts see it.
pub struct CpuView {
    pub regs: Registers,
    pub mem: MemView,
    /// The master interrupt enable (IME).
    pub interrupts_enabled: bool,
    /// The instructions that are still to end before IME is set; -1 when
    /// nothing is pending.
    pub interrupts_countdown: i8,
    pub stopped: bool,
    pub halted: bool,
    /// The cycles that the timer has counted towards the next step of TIMA.
    pub timer_counter: u32,
}

impl CpuView {
    /// What holds of every processor: the low four bits of F are zero, the
    /// countdown is -1, 0 or 1, the timer's count is within its longest period,
    /// and the bus is well formed.
    pub open spec fn wf(self) -> bool {
        &&& self.regs.wf()
        &&& self.mem.wf()
        &&& -1 <= self.interrupts_countdown <= 1
        &&& self.timer_counter <= TIMER_SLOWEST
    }

    pub open spec fn with_regs(self, regs: Registers) -> CpuView {
        CpuView { regs, ..self }
    }

    pub open spec fn with_mem(self, mem: MemView) -> CpuView {
        CpuView { mem, ..self }
    }

    pub open spec fn with_pc(self, pc: u16) -> CpuView {
        CpuView { regs: Registers { pc, ..self.regs }, ..self }
    }

    pub open spec fn with_sp(self, sp: u16) -> CpuView {
        CpuView { regs: Registers { sp, ..self.regs }, ..self }
    }

    pub open spec fn with_a(self, a: u8) -> CpuView {
        CpuView { regs: Registers { a, ..self.regs }, ..self }
    }

    /// The state with F holding exactly the four flags.
    pub open spec fn with_flags(self, z: bool, n: bool, h: bool, c: bool) -> CpuView {
        CpuView { regs: self.regs.with_flags(z, n, h, c), ..self }
    }

    /// The byte at the program counter.
    pub open spec fn immediate(self) -> u8 {
        self.mem.read(self.regs.pc)
    }

    /// The 16-bit value at the program counter, low byte first.
    pub open spec fn immediate16(self) -> u16 {
        self.mem.read_short(self.regs.pc)
    }

    /// The state with the program counter moved on by `by`.
    pub open spec fn advanced(self, by: int) -> CpuView {
        self.with_pc(add16(self.regs.pc, by))
    }

    /// The state after `val` was pushed: the stack pointer moves down by
    /// two, and the value is written there, low byte first.
    pub open spec fn pushed(self, val: u16) -> CpuView {
        CpuView {
            regs: Registers { sp: add16(self.regs.sp, -2), ..self.regs },
            mem: self.mem.write_short(add16(self.regs.sp, -2), val),
            ..self
        }
    }

    /// The 16-bit value on top of the stack.
    pub open spec fn top(self) -> u16 {
        self.mem.read_short(self.regs.sp)
    }

    /// The state after the top of the stack was taken off.
    pub open spec fn dropped(self) -> CpuView {
        self.with_sp(add16(self.regs.sp, 2))
    }
}

impl CpuView {
    /// The interrupts that are both pending and enabled.
    pub open spec fn pending(self) -> u8 {
        self.mem.ioregs.iflag & self.mem.interrupt_reg & 0x1F
    }

    /// The pending and enabled interrupt that comes first: the one with the
    /// lowest bit.
    pub open spec fn first_pending(self) -> Option<InterruptType> {
        if bit(self.pending(), 0) {
            Some(InterruptType::VBLANK)
        } else if bit(self.pending(), 1) {
            Some(InterruptType::LCDC)
        } else if bit(self.pending(), 2) {
            Some(InterruptType::TIMER)
        } else if bit(self.pending(), 3) {
            Some(InterruptType::SERIAL)
        } else if bit(self.pending(), 4) {
            Some(InterruptType::KEYPAD)
        } else {
            None
        }
    }

    /// The state after an interrupt was raised: its bit is set in IF.
    pub open spec fn thrown(self, interrupt: InterruptType) -> CpuView {
        self.with_mem(
            MemView {
                ioregs: IORegisters {
                    iflag: self.mem.ioregs.iflag | interrupt.mask(),
                    ..self.mem.ioregs
                },
                dirty_interrupts: true,
                ..self.mem
            },
        )
    }

    /// The state after a pending interrupt has woken the processor: HALT
    /// ends, and so does STOP if the interrupt is the joypad's.
    pub open spec fn woken(self, interrupt: InterruptType) -> CpuView {
        CpuView {
            halted: false,
            stopped: if interrupt == InterruptType::KEYPAD {
                false
            } else {
                self.stopped
            },
            ..self
        }
    }

    /// The state after a pending interrupt was served, and whether its
    /// routine was entered. The interrupt wakes the processor. With IME
    /// clear nothing else happens; with IME set the interrupt's bit in IF and
    /// IME are cleared, the program counter is pushed, and the interrupt's
    /// routine is jumped to.
    pub open spec fn tried(self, interrupt: InterruptType) -> (CpuView, bool) {
        if !self.interrupts_enabled {
            (self.woken(interrupt), false)
        } else {
            (
                (CpuView {
                    interrupts_enabled: false,
                    mem: MemView {
                        ioregs: IORegisters {
                            iflag: self.mem.ioregs.iflag & !interrupt.mask(),
                            ..self.mem.ioregs
                        },
                        ..self.mem
                    },
                    ..self.woken(interrupt)
                }).pushed(self.regs.pc).with_pc(interrupt.vector()),
                true,
            )
        }
    }

    /// The state after the interrupts were looked at, at the start of a
    /// tick: the first pending one is served, and no other.
    #[verifier::opaque]
    pub open spec fn dispatched(self) -> CpuView {
        match self.first_pending() {
            Some(interrupt) => self.tried(interrupt).0,
            None => self,
        }
    }

    /// The instruction word at the program counter: the opcode, and for
    /// the prefix 0xCB the byte after it in the high byte.
    pub open spec fn fetched(self) -> u16 {
        if self.immediate() == 0xCB {
            (0xCB + self.mem.read(add16(self.regs.pc, 1)) * 256) as u16
        } else {
            self.immediate() as u16
        }
    }

    /// The state after the instruction at the program counter has run,
    /// and the cycles that it took; a processor that is halted or stopped
    /// only lets time pass.
    #[verifier::opaque]
    pub open spec fn ran(self) -> (CpuView, u8) {
        if self.stopped || self.halted {
            (self, STALL_CYCLES)
        } else if self.immediate() == 0xCB {
            self.advanced(2).execute(self.fetched())
        } else {
            self.advanced(1).execute(self.fetched())
        }
    }

    /// The state after one more instruction has ended, as far as the
    /// delayed enabling of the interrupts goes: a countdown that runs counts
    /// down, and sets IME when it runs out.
    #[verifier::opaque]
    pub open spec fn counted(self) -> CpuView {
        if self.interrupts_countdown > -1 {
            CpuView {
                interrupts_countdown: (self.interrupts_countdown - 1) as i8,
                interrupts_enabled: self.interrupts_enabled || self.interrupts_countdown == 0,
                ..self
            }
        } else {
            self
        }
    }

    /// The state after the timers have counted `cycles` cycles. DIV counts
    /// all of them. While bit 2 of TAC is set, TIMA moves on once for each
    /// period that has passed, and raises the timer interrupt when it
    /// overflows.
    #[verifier::opaque]
    pub open spec fn timed(self, cycles: u8) -> CpuView {
        let ioregs = IORegisters { div: add16(self.mem.ioregs.div, cycles as int), ..self.mem.ioregs };
        if !bit(ioregs.tac, 2) {
            self.with_mem(MemView { ioregs, ..self.mem })
        } else {
            let settled = timer_settled(
                self.timer_counter + cycles,
                ioregs.tima,
                ioregs.tma,
                timer_period(ioregs.tac) as int,
            );
            let counted = CpuView {
                timer_counter: settled.0 as u32,
                mem: MemView { ioregs: IORegisters { tima: settled.1, ..ioregs }, ..self.mem },
                ..self
            };
            if settled.2 {
                counted.thrown(InterruptType::TIMER)
            } else {
                counted
            }
        }
    }

    /// The state after the sound engine has moved on by `cycles` cycles.
    #[verifier::opaque]
    pub open spec fn sounded(self, cycles: u8) -> CpuView {
        self.with_mem(
            MemView {
                sound: self.mem.sound.step(self.mem.ioregs, cycles).0,
                ioregs: self.mem.sound.step(self.mem.ioregs, cycles).1,
                ..self.mem
            },
        )
    }

    /// The state after the picture processor has moved on by `cycles`
    /// cycles, with the interrupt that it raises set in IF, and whether that
    /// interrupt is the vertical blank's. The vertical blank begins with a
    /// line and a mode, so that with it the LCDC interrupt is raised too where
    /// STAT enables it for that mode, or for the line that LYC asks for.
    #[verifier::opaque]
    pub open spec fn drawn(self, cycles: u8) -> (CpuView, bool) {
        let stepped = self.with_mem(
            MemView { gpu: self.mem.gpu.step(cycles as u32).0, ..self.mem },
        );
        match self.mem.gpu.step(cycles as u32).1 {
            Some(interrupt) => if interrupt == InterruptType::VBLANK
                && stepped.mem.gpu.line_interrupt() is Some {
                (stepped.thrown(interrupt).thrown(InterruptType::LCDC), true)
            } else {
                (stepped.thrown(interrupt), interrupt == InterruptType::VBLANK)
            },
            None => (stepped, false),
        }
    }

    /// The state after all that follows an instruction of `cycles` cycles:
    /// the delayed enabling of the interrupts, the timers, the sound engine
    /// and the picture processor, in this order. Tells whether the vertical
    /// blank has begun.
    pub open spec fn settled(self, cycles: u8) -> (CpuView, bool) {
        self.counted().timed(cycles).sounded(cycles).drawn(cycles)
    }

    /// One tick: the interrupts are looked at, one instruction runs, and
    /// the rest of the machine follows by the cycles that it took. The tick
    /// ends with an error, right after the interrupts were looked at, when
    /// the instruction word at the program counter names no instruction.
    pub open spec fn tick(self) -> (CpuView, Result<bool, BadInstruction>) {
        let ready = self.dispatched();
        if !ready.stopped && !ready.halted && !is_defined(ready.fetched()) {
            (ready, Err(BadInstruction { instr: ready.fetched(), origin: ready.regs.pc }))
        } else {
            (ready.ran().0.settled(ready.ran().1).0, Ok(ready.ran().0.settled(ready.ran().1).1))
        }
    }

    /// Ticks until the vertical blank begins, but no more than `ticks`
    /// times. Tells whether the vertical blank has begun, or which
    /// instruction word stopped the run.
    pub open spec fn run(self, ticks: nat) -> (CpuView, Result<bool, BadInstruction>)
        decreases ticks,
    {
        if ticks == 0 {
            (self, Ok(false))
        } else if self.tick().1 == Ok::<bool, BadInstruction>(false) {
            self.tick().0.run((ticks - 1) as nat)
        } else {
            self.tick()
        }
    }
}

pub struct CPU {
    pub regs: Registers,
    pub mem: GBMemory,
    pub interrupts_enabled: bool,
    pub interrupts_countdown: i8,
    pub stopped: bool,
    pub halted: bool,
    pub timer_counter: u32,
}

impl View for CPU {
    type V = CpuView;

    open spec fn view(&self) -> CpuView {
        CpuView {
            regs: self.regs,
            mem: self.mem@,
            interrupts_enabled: self.interrupts_enabled,
            interrupts_countdown: self.interrupts_countdown,
            stopped: self.stopped,
            halted: self.halted,
            timer_counter: self.timer_counter,
        }
    }
}

impl CPU {
    /// What holds of every processor: the low four bits of F are zero, the
    /// countdown is -1, 0 or 1, the timer's count is within its longest period,
    /// and the bus is well formed.
    pub open spec fn wf(&self) -> bool {
        &&& self@.wf()
        &&& self.mem.wf()
    }

    /// Whether the processor and all that it owns are well formed. A state
    /// that was built by this library and changed only through it is; one
    /// that was put together from outside may not be.
    pub fn is_valid(&self) -> (valid: bool)
        ensures
            valid == self.wf(),
    {
        self.regs.is_valid() && self.mem.is_valid() && -1 <= self.interrupts_countdown
            && self.interrupts_countdown <= 1 && self.timer_counter <= TIMER_SLOWEST
    }

    /// Pushes a 16-bit value onto the stack.
    pub fn push(&mut self, val: u16)
        requires
            old(self).wf(),
        ensures
            final(self).wf(),
            final(self)@ == old(self)@.pushed(val),
    {
        self.regs.sp = self.regs.sp.wrapping_sub(2);
        self.mem.write_short(self.regs.sp, val);
    }

    /// Takes a 16-bit value off the stack.
    pub fn pop(&mut self) -> (val: u16)
        requires
            old(self).wf(),
        ensures
            final(self).wf(),
            final(self)@ == old(self)@.dropped(),
            val == old(self)@.top(),
    {
        let val: u16 = self.mem.read_short(self.regs.sp);
        self.regs.sp = self.regs.sp.wrapping_add(2);
        val
    }
}

impl CPU {
    /// Ticks the processor and the other components by one instruction.
    /// Returns whether the vertical blank has begun.
    pub fn tick(&mut self) -> (outcome: Result<bool, BadInstruction>)
        requires
            old(self).wf(),
        ensures
            final(self).wf(),
            (final(self)@, outcome) == old(self)@.tick(),
    {
        self.dispatch();
        match self.run_instruction() {
            Ok(cycles) => Ok(self.settle(cycles)),
            Err(error) => Err(error),
        }
    }

    /// Runs the instruction at the program counter, and returns the cycles
    /// that it took. A processor that is halted or stopped only lets time
    /// pass. Nothing is changed when the instruction word names no
    /// instruction.
    fn run_instruction(&mut self) -> (outcome: Result<u8, BadInstruction>)
        requires
            old(self).wf(),
        ensures
            final(self).wf(),
            match outcome {
                Ok(cycles) => {
                    &&& (final(self)@, cycles) == old(self)@.ran()
                    &&& cycles <= 80
                    &&& old(self).stopped || old(self).halted || is_defined(old(self)@.fetched())
                },
                Err(error) => {
                    &&& final(self)@ == old(self)@
                    &&& !old(self).stopped && !old(self).halted && !is_defined(
                        old(self)@.fetched(),
                    )
                    &&& error == (BadInstruction {
                        instr: old(self)@.fetched(),
                        origin: old(self).regs.pc,
                    })
                },
            },
    {
        proof {
            reveal(CpuView::ran);
        }
        if self.stopped || self.halted {
            return Ok(STALL_CYCLES);
        }
        let current_instr: u16 = self.regs.pc;
        let mut raw_instruction: u16 = self.mem.read(current_instr) as u16;
        if raw_instruction == 0xCB {
            raw_instruction = 0xCB + (self.mem.read(current_instr.wrapping_add(1)) as u16) * 256;
        }
        if !is_known(raw_instruction) {
            return Err(BadInstruction { instr: raw_instruction, origin: current_instr });
        }
        self.regs.pc = self.regs.pc.wrapping_add(1);
        if raw_instruction % 256 == 0xCB {
            self.regs.pc = self.regs.pc.wrapping_add(1);
        }
        Ok(execute_instruction(self, raw_instruction, current_instr))
    }

    /// Runs the processor until the vertical blank begins, but for no
    /// more than `max_ticks` ticks. Returns whether the vertical blank has
    /// begun.
    pub fn run(&mut self, max_ticks: u32) -> (outcome: Result<bool, BadInstruction>)
        requires
            old(self).wf(),
        ensures
            final(self).wf(),
            (final(self)@, outcome) == old(self)@.run(max_ticks as nat),
    {
        let mut left: u32 = max_ticks;
        while left > 0
            invariant
                self.wf(),
                old(self)@.run(max_ticks as nat) == self@.run(left as nat),
            decreases left,
        {
            match self.tick() {
                Ok(false) => {},
                outcome => {
                    return outcome;
                },
            }
            left -= 1;
        }
        Ok(false)
    }

    /// Registers that an interrupt should be thrown.
    pub fn throw_interrupt(&mut self, interrupt: InterruptType) -> (thrown: bool)
        requires
            old(self).wf(),
        ensures
            final(self).wf(),
            final(self)@ == old(self)@.thrown(interrupt),
            thrown,
    {
        self.mem.ioregs.iflag |= interrupt.get_mask();
        self.mem.dirty_interrupts = true;
        true
    }

    /// Serves a pending interrupt. Returns whether its routine was entered.
    pub fn try_interrupt(&mut self, interrupt: InterruptType) -> (entered: bool)
        requires
            old(self).wf(),
        ensures
            final(self).wf(),
            (final(self)@, entered) == old(self)@.tried(interrupt),
    {
        self.halted = false;
        match interrupt {
            InterruptType::KEYPAD => {
                self.stopped = false;
            },
            _ => {},
        }
        if !self.interrupts_enabled {
            return false;
        }
        self.mem.ioregs.iflag &= !interrupt.get_mask();
        self.interrupts_enabled = false;
        let here: u16 = self.regs.pc;
        self.push(here);
        self.regs.pc = interrupt.get_vector();
        true
    }

    /// Looks at the interrupts: serves the first one that is pending and
    /// enabled.
    fn dispatch(&mut self)
        requires
            old(self).wf(),
        ensures
            final(self).wf(),
            final(self)@ == old(self)@.dispatched(),
    {
        proof {
            reveal(CpuView::dispatched);
        }
        let pending: u8 = self.mem.ioregs.iflag & self.mem.interrupt_reg & 0x1F;
        if test_bit(pending, 0) {
            self.try_interrupt(InterruptType::VBLANK);
        } else if test_bit(pending, 1) {
            self.try_interrupt(InterruptType::LCDC);
        } else if test_bit(pending, 2) {
            self.try_interrupt(InterruptType::TIMER);
        } else if test_bit(pending, 3) {
            self.try_interrupt(InterruptType::SERIAL);
        } else if test_bit(pending, 4) {
            self.try_interrupt(InterruptType::KEYPAD);
        }
    }

    /// Lets the timers count `cycles` cycles.
    fn step_timers(&mut self, cycles: u8)
        requires
            old(self).wf(),
        ensures
            final(self).wf(),
            final(self)@ == old(self)@.timed(cycles),
    {
        proof {
            reveal(CpuView::timed);
        }
        let cur_value: u16 = self.mem.ioregs.div;
        self.mem.ioregs.div = cur_value.wrapping_add(cycles as u16);
        let tac: u8 = self.mem.ioregs.tac;
        if !test_bit(tac, 2) {
            return ;
        }
        let period: u32 = match tac % 4 {
            0 => 1024,
            1 => 16,
            2 => 64,
            _ => 256,
        };
        let tma: u8 = self.mem.ioregs.tma;
        let mut tima: u8 = self.mem.ioregs.tima;
        let mut counter: u32 = self.timer_counter + cycles as u32;
        let mut overflowed: bool = false;
        let ghost start = timer_settled(counter as int, tima, tma, period as int);
        while counter > period
            invariant
                period > 0,
                start == ({
                    let rest = timer_settled(counter as int, tima, tma, period as int);
                    (rest.0, rest.1, rest.2 || overflowed)
                }),
            decreases counter,
        {
            counter -= period;
            if tima == 0xFF {
                tima = tma;
                overflowed = true;
            } else {
                tima += 1;
            }
        }
        self.timer_counter = counter;
        self.mem.ioregs.tima = tima;
        if overflowed {
            self.throw_interrupt(InterruptType::TIMER);
        }
    }

    /// Counts down to the delayed enabling of the interrupts.
    fn count_down(&mut self)
        requires
            old(self).wf(),
        ensures
            final(self).wf(),
            final(self)@ == old(self)@.counted(),
    {
        proof {
            reveal(CpuView::counted);
        }
        if self.interrupts_countdown > -1 {
            self.interrupts_countdown -= 1;
            if self.interrupts_countdown == -1 {
                self.interrupts_enabled = true;
            }
        }
    }

    /// Lets the sound engine move on by `cycles` cycles.
    fn step_sound(&mut self, cycles: u8)
        requires
            old(self).wf(),
        ensures
            final(self).wf(),
            final(self)@ == old(self)@.sounded(cycles),
    {
        proof {
            reveal(CpuView::sounded);
        }
        self.mem.sound.step(&mut self.mem.ioregs, cycles);
    }

    /// Lets the picture processor move on by `cycles` cycles, and raises
    /// the interrupt that it asks for. Returns whether the vertical blank has
    /// begun.
    fn step_gpu(&mut self, cycles: u8) -> (blank: bool)
        requires
            old(self).wf(),
            cycles <= 80,
        ensures
            final(self).wf(),
            (final(self)@, blank) == old(self)@.drawn(cycles),
    {
        proof {
            reveal(CpuView::drawn);
            lemma_step_keeps_schedule(self.mem.gpu@, cycles as u32);
        }
        let gpu_result = self.mem.gpu.step(cycles as u32);
        match gpu_result {
            Some(value) => {
                self.throw_interrupt(value);
                match value {
                    InterruptType::VBLANK => {
                        match self.mem.gpu.check_lyc() {
                            Some(status) => {
                                self.throw_interrupt(status);
                            },
                            None => {},
                        }
                        true
                    },
                    _ => false,
                }
            },
            None => false,
        }
    }

    /// Lets the rest of the machine follow an instruction of `cycles`
    /// cycles. Returns whether the vertical blank has begun.
    fn settle(&mut self, cycles: u8) -> (blank: bool)
        requires
            old(self).wf(),
            cycles <= 80,
        ensures
            final(self).wf(),
            (final(self)@, blank) == old(self)@.settled(cycles),
    {
        self.count_down();
        self.step_timers(cycles);
        self.step_sound(cycles);
        self.step_gpu(cycles)
    }

    /// Builds a processor around a memory bus, with the registers as they
    /// are at power-on.
    pub fn build(mem: GBMemory) -> (cpu: CPU)
        requires
            mem.wf(),
        ensures
            cpu.wf(),
            cpu.mem == mem,
            cpu@ == (CpuView {
                regs: Self::default_registers(),
                mem: mem@,
                interrupts_enabled: true,
                interrupts_countdown: -1i8,
                stopped: false,
                halted: false,
                timer_counter: 0,
            }),
    {
        CPU {
            regs: CPU::get_default_registers(),
            mem,
            interrupts_enabled: true,
            interrupts_countdown: -1,
            stopped: false,
            halted: false,
            timer_counter: 0,
        }
    }

    /// The registers at power-on.
    pub open spec fn default_registers() -> Registers {
        Registers {
            a: 0x01,
            f: 0xB0,
            b: 0x00,
            c: 0x13,
            d: 0x00,
            e: 0xD8,
            h: 0x01,
            l: 0x4D,
            sp: 0xFFFE,
            pc: 0x0100,
        }
    }

    /// Returns the default expected state for the registers.
    pub fn get_default_registers() -> (regs: Registers)
        ensures
            regs == Self::default_registers(),
            regs.wf(),
    {
        Registers {
            a: 0x01,
            f: 0xB0,
            b: 0x00,
            c: 0x13,
            d: 0x00,
            e: 0xD8,
            h: 0x01,
            l: 0x4D,
            sp: 0xFFFE,
            pc: 0x0100,
        }
    }
}

/// Builds the whole machine at power-on around the ROM image `data`, which
/// has to be one that can be loaded and whose cartridge type has its bank
/// switching implemented.
pub fn build_from_rom(data: Vec<u8>) -> (cpu: CPU)
    requires
        load_error(data@) is None,
        mapper_implemented(data@),
    ensures
        cpu.wf(),
        cpu@ == (CpuView {
            regs: CPU::default_registers(),
            mem: cpu@.mem,
            interrupts_enabled: true,
            interrupts_countdown: -1i8,
            stopped: false,
            halted: false,
            timer_counter: 0,
        }),
        cpu@.mem.is_power_on(RomView::fresh(data@)),
{
    CPU::build(GBMemory::build(GameROM::build(data)))
}

/// The sum of a sequence of cycle counts.
pub open spec fn cycles_sum(steps: Seq<u8>) -> int
    decreases steps.len(),
{
    if steps.len() == 0 {
        0
    } else {
        cycles_sum(steps.drop_last()) + steps.last()
    }
}

impl CpuView {
    /// The state after the timers have counted the cycles of `steps`, one
    /// count after the other.
    pub open spec fn timed_all(self, steps: Seq<u8>) -> CpuView
        decreases steps.len(),
    {
        if steps.len() == 0 {
            self
        } else {
            self.timed_all(steps.drop_last()).timed(steps.last())
        }
    }
}

/// The timer counts the same whether it is given its cycles at once or in
/// two parts.
pub proof fn lemma_timer_counts_on(counter: int, more: int, tima: u8, tma: u8, period: int)
    requires
        period > 0,
        0 <= more,
    ensures
        timer_settled(counter + more, tima, tma, period) == ({
            let first = timer_settled(counter, tima, tma, period);
            let second = timer_settled(first.0 + more, first.1, tma, period);
            (second.0, second.1, first.2 || second.2)
        }),
    decreases counter,
{
    if counter > period {
        lemma_timer_counts_on(counter - period, more, tima_next(tima, tma), tma, period);
    }
}

/// A timer that has counted part of a period moves TIMA on exactly once
/// over the cycles of one period: TIMA is one more, or on overflow from 0xFF
/// is reloaded from TMA.
pub proof fn lemma_timer_one_period(counter: int, tima: u8, tma: u8, period: int)
    requires
        period > 0,
        1 <= counter <= period,
    ensures
        timer_settled(counter + period, tima, tma, period) == (
            counter,
            tima_next(tima, tma),
            tima == 0xFF,
        ),
{
    assert(timer_settled(counter, tima_next(tima, tma), tma, period) == (
        counter,
        tima_next(tima, tma),
        false,
    ));
}

/// How the timers stand after they were given cycles in several counts.
proof fn lemma_timed_all(cpu: CpuView, steps: Seq<u8>)
    requires
        bit(cpu.mem.ioregs.tac, 2),
        cpu.timer_counter <= timer_period(cpu.mem.ioregs.tac),
    ensures
        ({
            let settled = timer_settled(
                cpu.timer_counter + cycles_sum(steps),
                cpu.mem.ioregs.tima,
                cpu.mem.ioregs.tma,
                timer_period(cpu.mem.ioregs.tac) as int,
            );
            &&& cycles_sum(steps) >= 0
            &&& 0 <= settled.0 <= TIMER_SLOWEST
            &&& cpu.timed_all(steps).timer_counter == settled.0
            &&& cpu.timed_all(steps).mem.ioregs.tima == settled.1
            &&& cpu.timed_all(steps).mem.ioregs.tma == cpu.mem.ioregs.tma
            &&& cpu.timed_all(steps).mem.ioregs.tac == cpu.mem.ioregs.tac
            &&& cpu.timed_all(steps).mem.ioregs.iflag == (if settled.2 {
                cpu.mem.ioregs.iflag | 0x04
            } else {
                cpu.mem.ioregs.iflag
            })
            &&& cpu.timed_all(steps).mem.ioregs.div == add16(cpu.mem.ioregs.div, cycles_sum(steps))
        }),
    decreases steps.len(),
{
    reveal(CpuView::timed);
    let tima = cpu.mem.ioregs.tima;
    let tma = cpu.mem.ioregs.tma;
    let period = timer_period(cpu.mem.ioregs.tac) as int;
    if steps.len() > 0 {
        let rest = steps.drop_last();
        lemma_timed_all(cpu, rest);
        lemma_timer_counts_on(
            cpu.timer_counter + cycles_sum(rest),
            steps.last() as int,
            tima,
            tma,
            period,
        );
        lemma_timer_bounded(cpu.timer_counter + cycles_sum(steps), tima, tma, period);
        lemma_timer_bounded(cpu.timer_counter + cycles_sum(rest), tima, tma, period);
        let flags = cpu.mem.ioregs.iflag;
        assert((flags | 0x04) | 0x04 == flags | 0x04) by (bit_vector);
        let div = cpu.mem.ioregs.div;
        assert(add16(add16(div, cycles_sum(rest)), steps.last() as int) == add16(
            div,
            cycles_sum(steps),
        )) by {
            vstd::arithmetic::div_mod::lemma_add_mod_noop(
                div + cycles_sum(rest),
                steps.last() as int,
                0x10000,
            );
            vstd::arithmetic::div_mod::lemma_mod_twice(div + cycles_sum(rest), 0x10000);
            vstd::arithmetic::div_mod::lemma_small_mod(steps.last() as nat, 0x10000);
        }
    } else {
        lemma_timer_bounded(cpu.timer_counter as int, tima, tma, period);
    }
}

/// What is left of the count after the timer has settled is no more than
/// the period.
proof fn lemma_timer_bounded(counter: int, tima: u8, tma: u8, period: int)
    requires
        period > 0,
        0 <= counter,
    ensures
        counter <= period ==> timer_settled(counter, tima, tma, period).0 == counter,
        counter > period ==> 1 <= timer_settled(counter, tima, tma, period).0 <= period,
    decreases counter,
{
    if counter > period {
        lemma_timer_bounded(counter - period, tima_next(tima, tma), tma, period);
    }
}

/// While bit 2 of TAC is set, the cycles of one period of the chosen
/// frequency, in whatever counts they come, move TIMA on exactly once: TIMA
/// is one more, or on overflow from 0xFF it is reloaded from TMA and the
/// timer interrupt is raised in IF. This holds once the timer has begun to
/// count: the period that starts from a count of zero is one cycle longer.
pub proof fn lemma_tima_steps_once_a_period(cpu: CpuView, steps: Seq<u8>)
    requires
        bit(cpu.mem.ioregs.tac, 2),
        1 <= cpu.timer_counter <= timer_period(cpu.mem.ioregs.tac),
        cycles_sum(steps) == timer_period(cpu.mem.ioregs.tac),
    ensures
        cpu.timed_all(steps).mem.ioregs.tima == tima_next(
            cpu.mem.ioregs.tima,
            cpu.mem.ioregs.tma,
        ),
        cpu.timed_all(steps).timer_counter == cpu.timer_counter,
        cpu.mem.ioregs.tima == 0xFF ==> cpu.timed_all(steps).mem.ioregs.iflag
            == cpu.mem.ioregs.iflag | 0x04,
        cpu.mem.ioregs.tima != 0xFF ==> cpu.timed_all(steps).mem.ioregs.iflag
            == cpu.mem.ioregs.iflag,
{
    lemma_timed_all(cpu, steps);
    lemma_timer_one_period(
        cpu.timer_counter as int,
        cpu.mem.ioregs.tima,
        cpu.mem.ioregs.tma,
        timer_period(cpu.mem.ioregs.tac) as int,
    );
}

/// Every tick that does not end with an error lets at least 4 and at most
/// 64 cycles pass.
pub proof fn lemma_tick_takes_time(cpu: CpuView)
    ensures
        4 <= cpu.ran().1 <= STALL_CYCLES,
{
    reveal(CpuView::ran);
    crate::cpu::instrs::lemma_cycles(cpu.advanced(1), cpu.fetched());
    crate::cpu::instrs::lemma_cycles(cpu.advanced(2), cpu.fetched());
}

/// While IME is clear, pending interrupts leave the registers, and so the
/// program counter, and the memory alone: all that they do is to end HALT.
/// They do so whenever an interrupt is both pending and enabled.
pub proof fn lemma_masked_interrupts_only_wake(cpu: CpuView)
    requires
        !cpu.interrupts_enabled,
    ensures
        cpu.dispatched().regs == cpu.regs,
        cpu.dispatched().mem == cpu.mem,
        !cpu.dispatched().interrupts_enabled,
        cpu.pending() != 0 ==> !cpu.dispatched().halted,
        cpu.pending() == 0 ==> cpu.dispatched() == cpu,
{
    reveal(CpuView::dispatched);
    let flags = cpu.mem.ioregs.iflag;
    let enabled = cpu.mem.interrupt_reg;
    assert((flags & enabled & 0x1F != 0) <==> ((((flags & enabled & 0x1F) >> 0u8) & 0x1 == 1) || (((
    flags & enabled & 0x1F) >> 1u8) & 0x1 == 1) || (((flags & enabled & 0x1F) >> 2u8) & 0x1 == 1)
        || (((flags & enabled & 0x1F) >> 3u8) & 0x1 == 1) || (((flags & enabled & 0x1F) >> 4u8)
        & 0x1 == 1))) by (bit_vector);
}

/// What follows an instruction leaves the registers, the cartridge, the
/// work RAM and the high RAM, HALT and STOP as they are, and touches the
/// enabling of the interrupts only through the countdown.
proof fn lemma_settled_keeps(cpu: CpuView, cycles: u8)
    ensures
        cpu.settled(cycles).0.interrupts_enabled == cpu.counted().interrupts_enabled,
        cpu.settled(cycles).0.interrupts_countdown == cpu.counted().interrupts_countdown,
        cpu.settled(cycles).0.regs == cpu.regs,
        cpu.settled(cycles).0.stopped == cpu.stopped,
        cpu.settled(cycles).0.halted == cpu.halted,
        cpu.settled(cycles).0.mem.rom == cpu.mem.rom,
        cpu.settled(cycles).0.mem.ram == cpu.mem.ram,
        cpu.settled(cycles).0.mem.high_ram == cpu.mem.high_ram,
{
    reveal(CpuView::counted);
    reveal(CpuView::timed);
    reveal(CpuView::sounded);
    reveal(CpuView::drawn);
}

/// EI that is followed by DI leaves IME clear: the enabling that EI asks
/// for takes effect only after the instruction that follows, and DI drops
/// it.
pub proof fn lemma_ei_then_di(cpu: CpuView)
    requires
        !cpu.dispatched().stopped && !cpu.dispatched().halted,
        cpu.dispatched().fetched() == 0xFB,
        !cpu.tick().0.dispatched().stopped && !cpu.tick().0.dispatched().halted,
        cpu.tick().0.dispatched().fetched() == 0xF3,
    ensures
        cpu.tick().1 is Ok,
        cpu.tick().0.tick().1 is Ok,
        !cpu.tick().0.tick().0.interrupts_enabled,
        cpu.tick().0.tick().0.interrupts_countdown == -1,
{
    reveal(CpuView::ran);
    reveal(CpuView::counted);
    reveal(CpuView::execute);
    reveal(CpuView::ei);
    reveal(CpuView::di);
    let first = cpu.dispatched();
    lemma_settled_keeps(first.ran().0, first.ran().1);
    let second = cpu.tick().0.dispatched();
    lemma_settled_keeps(second.ran().0, second.ran().1);
}

impl MemView {
    /// Whether `ptr` is an address of the work RAM, of its echo or of the
    /// high RAM: memory that nothing but a write changes.
    pub open spec fn is_ram(ptr: u16) -> bool {
        0xC000 <= ptr <= 0xFDFF || 0xFF80 <= ptr <= 0xFFFE
    }
}

/// What is read from the cartridge's ROM depends on the cartridge alone.
proof fn lemma_rom_reads(first: MemView, second: MemView, ptr: u16)
    requires
        first.rom == second.rom,
        ptr < 0x8000,
    ensures
        first.read(ptr) == second.read(ptr),
{
}

/// What is read from RAM depends on the RAM alone.
proof fn lemma_ram_reads(first: MemView, second: MemView, ptr: u16)
    requires
        first.ram == second.ram,
        first.high_ram == second.high_ram,
        MemView::is_ram(ptr),
        MemView::is_ram(MemView::next(ptr)),
    ensures
        first.read(ptr) == second.read(ptr),
        first.read_short(ptr) == second.read_short(ptr),
{
}

/// An interrupt that is served with IME set: the program counter is on the
/// stack, and the processor stands at the interrupt's routine with IME clear.
proof fn lemma_served(cpu: CpuView, interrupt: InterruptType)
    requires
        cpu.wf(),
        cpu.interrupts_enabled,
        cpu.first_pending() == Some(interrupt),
        MemView::is_ram(add16(cpu.regs.sp, -2)),
        MemView::is_ram(add16(cpu.regs.sp, -1)),
    ensures
        cpu.dispatched().regs == (Registers {
            pc: interrupt.vector(),
            sp: add16(cpu.regs.sp, -2),
            ..cpu.regs
        }),
        cpu.dispatched().mem.rom == cpu.mem.rom,
        cpu.dispatched().mem.read_short(add16(cpu.regs.sp, -2)) == cpu.regs.pc,
        !cpu.dispatched().interrupts_enabled,
        cpu.dispatched().interrupts_countdown == cpu.interrupts_countdown,
        !cpu.dispatched().halted,
        cpu.stopped || !cpu.dispatched().stopped,
{
    reveal(CpuView::dispatched);
    let sp = add16(cpu.regs.sp, -2);
    let cleared = MemView {
        ioregs: IORegisters {
            iflag: cpu.mem.ioregs.iflag & !interrupt.mask(),
            ..cpu.mem.ioregs
        },
        ..cpu.mem
    };
    assert(MemView::next(sp) == add16(cpu.regs.sp, -1));
    assert(cleared.keeps(sp) && cleared.keeps(MemView::next(sp)));
    lemma_ram_keeps_short(cleared, sp, cpu.regs.pc);
    assert(cpu.dispatched().mem == cleared.write_short(sp, cpu.regs.pc));
}

/// What LD B,n does when it runs.
proof fn lemma_runs_ld_b(cpu: CpuView, val: u8)
    requires
        !cpu.stopped,
        !cpu.halted,
        cpu.mem.read(cpu.regs.pc) == 0x06,
        cpu.mem.read(add16(cpu.regs.pc, 1)) == val,
    ensures
        cpu.fetched() == 0x06,
        is_defined(cpu.fetched()),
        cpu.ran().0 == cpu.with_regs(
            Registers { b: val, pc: add16(cpu.regs.pc, 2), ..cpu.regs },
        ),
{
    reveal(CpuView::ran);
    reveal(CpuView::execute);
    reveal(CpuView::ld_immediate);
}

/// What RETI does when it runs.
proof fn lemma_runs_reti(cpu: CpuView)
    requires
        !cpu.stopped,
        !cpu.halted,
        cpu.mem.read(cpu.regs.pc) == 0xD9,
    ensures
        cpu.fetched() == 0xD9,
        is_defined(cpu.fetched()),
        cpu.ran().0 == (CpuView {
            regs: Registers {
                pc: cpu.mem.read_short(cpu.regs.sp),
                sp: add16(cpu.regs.sp, 2),
                ..cpu.regs
            },
            interrupts_countdown: 1,
            ..cpu
        }),
{
    reveal(CpuView::ran);
    reveal(CpuView::execute);
    reveal(CpuView::reti);
}

/// The first tick of an interrupt that is served: the program counter is
/// pushed, and the first instruction of the routine, which loads a byte
/// into B, runs.
proof fn lemma_handler_entered(cpu: CpuView, interrupt: InterruptType, val: u8)
    requires
        cpu.wf(),
        cpu.interrupts_enabled,
        cpu.interrupts_countdown == -1,
        !cpu.stopped,
        cpu.first_pending() == Some(interrupt),
        cpu.mem.read(interrupt.vector()) == 0x06,
        cpu.mem.read(add16(interrupt.vector(), 1)) == val,
        MemView::is_ram(add16(cpu.regs.sp, -2)),
        MemView::is_ram(add16(cpu.regs.sp, -1)),
    ensures
        cpu.tick().1 is Ok,
        cpu.tick().0.regs == (Registers {
            b: val,
            pc: add16(interrupt.vector(), 2),
            sp: add16(cpu.regs.sp, -2),
            ..cpu.regs
        }),
        cpu.tick().0.mem.rom == cpu.mem.rom,
        cpu.tick().0.mem.read_short(add16(cpu.regs.sp, -2)) == cpu.regs.pc,
        !cpu.tick().0.interrupts_enabled,
        cpu.tick().0.interrupts_countdown == -1,
        !cpu.tick().0.stopped,
        !cpu.tick().0.halted,
{
    lemma_served(cpu, interrupt);
    let ready = cpu.dispatched();
    lemma_rom_reads(ready.mem, cpu.mem, interrupt.vector());
    lemma_rom_reads(ready.mem, cpu.mem, add16(interrupt.vector(), 1));
    lemma_runs_ld_b(ready, val);
    let ran = ready.ran();
    lemma_settled_keeps(ran.0, ran.1);
    assert(ran.0.counted() == ran.0) by {
        reveal(CpuView::counted);
    }
    lemma_ram_reads(cpu.tick().0.mem, ready.mem, add16(cpu.regs.sp, -2));
}

/// A tick that runs RETI while IME is clear and no enabling is pending:
/// the address on top of the stack is taken off and jumped to, and the
/// enabling of the interrupts is one instruction away.
proof fn lemma_handler_returned(cpu: CpuView)
    requires
        !cpu.interrupts_enabled,
        cpu.interrupts_countdown == -1,
        !cpu.stopped,
        !cpu.halted,
        cpu.mem.read(cpu.regs.pc) == 0xD9,
    ensures
        cpu.tick().1 is Ok,
        cpu.tick().0.regs == (Registers {
            pc: cpu.mem.read_short(cpu.regs.sp),
            sp: add16(cpu.regs.sp, 2),
            ..cpu.regs
        }),
        !cpu.tick().0.interrupts_enabled,
        cpu.tick().0.interrupts_countdown == 0,
{
    lemma_masked_interrupts_only_wake(cpu);
    let ready = cpu.dispatched();
    assert(!ready.stopped && !ready.halted && ready.interrupts_countdown == -1) by {
        reveal(CpuView::dispatched);
    }
    lemma_runs_reti(ready);
    let ran = ready.ran();
    lemma_settled_keeps(ran.0, ran.1);
    assert(!ran.0.counted().interrupts_enabled && ran.0.counted().interrupts_countdown == 0) by {
        reveal(CpuView::counted);
    }
}

/// A tick that begins with IME clear and the enabling of the interrupts
/// one instruction away ends with IME set, if its instruction leaves the
/// enabling alone.
proof fn lemma_enabled_after(cpu: CpuView)
    requires
        !cpu.interrupts_enabled,
        cpu.interrupts_countdown == 0,
        cpu.tick().1 is Ok,
        cpu.dispatched().ran().0.interrupts_enabled == cpu.dispatched().interrupts_enabled,
        cpu.dispatched().ran().0.interrupts_countdown == cpu.dispatched().interrupts_countdown,
    ensures
        cpu.tick().0.interrupts_enabled,
        cpu.tick().0.interrupts_countdown == -1,
        cpu.tick().0.regs == cpu.dispatched().ran().0.regs,
{
    lemma_masked_interrupts_only_wake(cpu);
    let ready = cpu.dispatched();
    assert(ready.interrupts_countdown == 0) by {
        reveal(CpuView::dispatched);
    }
    let ran = ready.ran();
    lemma_settled_keeps(ran.0, ran.1);
    assert(ran.0.counted().interrupts_enabled && ran.0.counted().interrupts_countdown == -1) by {
        reveal(CpuView::counted);
    }
}

/// An interrupt routine that loads a byte into B and returns with RETI.
/// Once its interrupt is pending, enabled and first in line, with IME set
/// and the stack in RAM, the first tick enters the routine and loads B; the
/// second returns to where the processor was, with the stack pointer as it
/// was; and after the third IME is set again, where the instruction that the
/// processor has returned to leaves the enabling of the interrupts alone.
/// B still holds the byte if that instruction leaves B alone.
pub proof fn lemma_handler_runs(cpu: CpuView, interrupt: InterruptType, val: u8)
    requires
        cpu.wf(),
        cpu.interrupts_enabled,
        cpu.interrupts_countdown == -1,
        !cpu.stopped,
        cpu.first_pending() == Some(interrupt),
        cpu.mem.read(interrupt.vector()) == 0x06,
        cpu.mem.read(add16(interrupt.vector(), 1)) == val,
        cpu.mem.read(add16(interrupt.vector(), 2)) == 0xD9,
        MemView::is_ram(add16(cpu.regs.sp, -2)),
        MemView::is_ram(add16(cpu.regs.sp, -1)),
        ({
            let back = cpu.tick().0.tick().0;
            &&& back.tick().1 is Ok
            &&& back.dispatched().ran().0.interrupts_enabled == back.dispatched().interrupts_enabled
            &&& back.dispatched().ran().0.interrupts_countdown
                == back.dispatched().interrupts_countdown
        }),
    ensures
        cpu.tick().1 is Ok,
        cpu.tick().0.regs.b == val,
        cpu.tick().0.tick().1 is Ok,
        cpu.tick().0.tick().0.regs == (Registers { b: val, ..cpu.regs }),
        cpu.tick().0.tick().0.tick().0.interrupts_enabled,
        ({
            let back = cpu.tick().0.tick().0;
            back.dispatched().ran().0.regs.b == back.regs.b ==> back.tick().0.regs.b == val
        }),
{
    lemma_handler_entered(cpu, interrupt, val);
    let entered = cpu.tick().0;
    lemma_rom_reads(entered.mem, cpu.mem, add16(interrupt.vector(), 2));
    lemma_handler_returned(entered);
    let back = entered.tick().0;
    lemma_enabled_after(back);
}

impl CpuView {
    /// The state after `count` ticks.
    pub open spec fn ticked(self, count: nat) -> CpuView
        decreases count,
    {
        if count == 0 {
            self
        } else {
            self.ticked((count - 1) as nat).tick().0
        }
    }

    /// The cycles that pass in the tick, if it does not end with an error.
    pub open spec fn tick_cycles(self) -> u8 {
        self.dispatched().ran().1
    }

    /// The cycles that pass in each of the first `count` ticks.
    pub open spec fn cycles_ticked(self, count: nat) -> Seq<u32>
        decreases count,
    {
        if count == 0 {
            Seq::empty()
        } else {
            self.cycles_ticked((count - 1) as nat).push(
                self.ticked((count - 1) as nat).tick_cycles() as u32,
            )
        }
    }

    /// How many of the first `count` ticks return that the vertical blank
    /// has begun.
    pub open spec fn blanks_returned(self, count: nat) -> int
        decreases count,
    {
        if count == 0 {
            0
        } else {
            self.blanks_returned((count - 1) as nat) + (if self.ticked(
                (count - 1) as nat,
            ).tick().1 == Ok::<bool, BadInstruction>(true) {
                1int
            } else {
                0int
            })
        }
    }

    /// Whether the tick ends without an error, and neither the interrupt
    /// that is served in it nor the instruction that runs in it writes to the
    /// picture processor.
    pub open spec fn leaves_screen(self) -> bool {
        self.tick().1 is Ok && self.dispatched().ran().0.mem.gpu == self.mem.gpu
    }

    /// Whether each of the first `count` ticks leaves the picture processor
    /// alone.
    pub open spec fn leaves_screen_for(self, count: nat) -> bool
        decreases count,
    {
        count == 0 || (self.leaves_screen_for((count - 1) as nat) && self.ticked(
            (count - 1) as nat,
        ).leaves_screen())
    }
}

/// A tick whose instruction leaves the picture processor alone steps it by
/// the cycles of the tick, and returns that the vertical blank has begun
/// exactly when that step raises the vertical blank interrupt, which is
/// then pending in IF.
pub proof fn lemma_tick_steps_screen(cpu: CpuView)
    requires
        cpu.leaves_screen(),
    ensures
        cpu.tick().0.mem.gpu == cpu.mem.gpu.step(cpu.tick_cycles() as u32).0,
        cpu.tick().1 == Ok::<bool, BadInstruction>(true) <==> cpu.mem.gpu.step(
            cpu.tick_cycles() as u32,
        ).1 == Some(InterruptType::VBLANK),
        cpu.tick().1 == Ok::<bool, BadInstruction>(true) ==> bit(cpu.tick().0.mem.ioregs.iflag, 0),
        4 <= cpu.tick_cycles() <= STALL_CYCLES,
{
    lemma_tick_takes_time(cpu.dispatched());
    reveal(CpuView::counted);
    reveal(CpuView::timed);
    reveal(CpuView::sounded);
    reveal(CpuView::drawn);
    let ran = cpu.dispatched().ran();
    let flags = ran.0.counted().timed(ran.1).sounded(ran.1).mem.ioregs.iflag;
    assert(((flags | 0x01) >> 0u8) & 0x1 == 1 && (((flags | 0x01) | 0x02) >> 0u8) & 0x1 == 1)
        by (bit_vector);
}

/// An interrupt of the vertical blank that is pending and enabled is the
/// first in line.
pub proof fn lemma_blank_comes_first(cpu: CpuView)
    requires
        bit(cpu.mem.ioregs.iflag, 0),
        bit(cpu.mem.interrupt_reg, 0),
    ensures
        cpu.first_pending() == Some(InterruptType::VBLANK),
{
    let flags = cpu.mem.ioregs.iflag;
    let enabled = cpu.mem.interrupt_reg;
    assert(((flags >> 0u8) & 0x1 == 1 && (enabled >> 0u8) & 0x1 == 1) ==> ((flags & enabled & 0x1F)
        >> 0u8) & 0x1 == 1) by (bit_vector);
}

/// How the picture processor stands after ticks that leave it alone.
proof fn lemma_ticks_step_screen(cpu: CpuView, count: nat)
    requires
        cpu.leaves_screen_for(count),
    ensures
        cpu.cycles_ticked(count).len() == count,
        forall|i: int| 0 <= i < count ==> 4 <= #[trigger] cpu.cycles_ticked(count)[i] <= 80,
        cpu.ticked(count).mem.gpu == cpu.mem.gpu.after(cpu.cycles_ticked(count)),
        cpu.blanks_returned(count) == cpu.mem.gpu.blanks_raised(cpu.cycles_ticked(count)),
    decreases count,
{
    if count > 0 {
        let before = (count - 1) as nat;
        lemma_ticks_step_screen(cpu, before);
        lemma_tick_steps_screen(cpu.ticked(before));
        assert(cpu.cycles_ticked(count).drop_last() =~= cpu.cycles_ticked(before));
    }
}

/// Over ticks that leave the picture processor alone, with the screen
/// enabled, the picture processor moves along the frame by the cycles of the
/// ticks, and the ticks that return that the vertical blank has begun are
/// as many as the times that this passes line 144: exactly one where the
/// cycles are those of one frame. Where the background, the window and the
/// sprites are switched off, the frame is all shade 0 once the end of the
/// vertical blank has been passed.
pub proof fn lemma_ticks_follow_frame(cpu: CpuView, count: nat)
    requires
        cpu.mem.gpu.wf(),
        cpu.mem.gpu.on_schedule(),
        cpu.mem.gpu.is_enabled(),
        cpu.leaves_screen_for(count),
    ensures
        cpu.ticked(count).mem.gpu.wf(),
        cpu.ticked(count).mem.gpu.on_schedule(),
        cpu.ticked(count).mem.gpu.is_enabled(),
        cpu.ticked(count).mem.gpu.position() == (cpu.mem.gpu.position() + total_cycles(
            cpu.cycles_ticked(count),
        )) % (FRAME_CYCLES as int),
        cpu.blanks_returned(count) == blank_starts(
            cpu.mem.gpu.position(),
            total_cycles(cpu.cycles_ticked(count)),
        ),
        total_cycles(cpu.cycles_ticked(count)) == FRAME_CYCLES ==> cpu.blanks_returned(count) == 1,
        cpu.mem.gpu.draws_nothing() ==> cpu.ticked(count).mem.gpu.pixel_data == (
        if cpu.mem.gpu.position() + total_cycles(cpu.cycles_ticked(count)) >= FRAME_CYCLES {
            blank_frame(cpu.mem.gpu.palette)
        } else {
            cpu.mem.gpu.pixel_data
        }),
{
    lemma_ticks_step_screen(cpu, count);
    let steps = cpu.cycles_ticked(count);
    lemma_steps_follow_frame(cpu.mem.gpu, steps);
    if total_cycles(steps) == FRAME_CYCLES {
        crate::gpu::lemma_one_blank_per_frame(cpu.mem.gpu, steps);
    }
    if cpu.mem.gpu.draws_nothing() {
        lemma_steps_draw_nothing(cpu.mem.gpu, steps);
    }
}

} // verus!
