//! The console assembly and its cycle-synchronization driver: one step of
//! the processor core, then the pixel unit advanced three times per core
//! cycle and the audio unit once per core cycle, in that fixed order. A
//! time-budgeted variant steps repeatedly until a cycle budget is spent
//! (the last step's overshoot past the budget is dropped).

use vstd::prelude::*;

use crate::apu::APU;
use crate::bus::{Bus, BusView};
use crate::cpu::{spec_step, CPU};
use crate::ppu::{spec_ppu_step, PPU};

verus! {

/// The console: the processor core, the two peripheral units, and the bus
/// they share.
pub struct Console {
    pub cpu: CPU,
    pub ppu: PPU,
    pub apu: APU,
    pub bus: Bus,
}

/// The pixel unit and the frame buffer after `n` of its steps.
pub open spec fn spec_ppu_steps(p: PPU, b: BusView, n: nat) -> (PPU, BusView)
    decreases n,
{
    if n == 0 {
        (p, b)
    } else {
        let (p1, b1) = spec_ppu_step(p, b);
        spec_ppu_steps(p1, b1, (n - 1) as nat)
    }
}

/// Iterating the pixel unit one step further appends that step at the
/// end: `n + 1` steps are `n` steps followed by one.
pub proof fn lemma_ppu_steps_snoc(p: PPU, b: BusView, n: nat)
    ensures
        spec_ppu_steps(p, b, n + 1) == {
            let (p1, b1) = spec_ppu_steps(p, b, n);
            spec_ppu_step(p1, b1)
        },
    decreases n,
{
    let (p1, b1) = spec_ppu_step(p, b);
    if n == 0 {
        assert(spec_ppu_steps(p1, b1, 0) == (p1, b1));
        assert(spec_ppu_steps(p, b, 1) == spec_ppu_steps(p1, b1, 0));
        assert(spec_ppu_steps(p, b, 0) == (p, b));
    } else {
        lemma_ppu_steps_snoc(p1, b1, (n - 1) as nat);
        assert(spec_ppu_steps(p, b, n + 1) == spec_ppu_steps(p1, b1, n as nat));
        assert(spec_ppu_steps(p, b, n) == spec_ppu_steps(p1, b1, (n - 1) as nat));
    }
}

/// Stepping the pixel unit preserves its well-formedness and the bus's;
/// the frame counter grows by at most one per step and the palette never
/// changes.
pub proof fn lemma_ppu_steps_wf(p: PPU, b: BusView, n: nat)
    requires
        p.wf(),
        crate::bus::view_wf(b),
    ensures
        spec_ppu_steps(p, b, n).0.wf(),
        crate::bus::view_wf(spec_ppu_steps(p, b, n).1),
        spec_ppu_steps(p, b, n).0.frame <= p.frame + n,
        spec_ppu_steps(p, b, n).0.palette_data == p.palette_data,
    decreases n,
{
    if n > 0 {
        let (p1, b1) = spec_ppu_step(p, b);
        lemma_ppu_steps_wf(p1, b1, (n - 1) as nat);
    }
}

/// The cycles the driver's loop still has to spend before its budget is
/// exhausted.
pub open spec fn spec_budget_left(budget: u32, spent: u32) -> int {
    if spent < budget {
        budget - spent
    } else {
        0
    }
}

impl Console {
    /// The parts the driver relies on: the bus dispatches into a full
    /// cartridge and the pixel unit's counters and palette are sound.
    pub open spec fn wf(&self) -> bool {
        self.bus.wf() && self.ppu.wf()
    }

    /// The reset transition of the core, through the shared bus.
    pub fn reset(&mut self)
        requires
            old(self).bus.wf(),
        ensures
            final(self).bus == old(self).bus,
            final(self).ppu == old(self).ppu,
            final(self).apu == old(self).apu,
            final(self).cpu == (CPU {
                pc: crate::bus::view_read16(old(self).bus@, 0xFFFC),
                sp: 0xFD,
                flags: crate::flags::Flags {
                    bits: crate::flags::FLAG_UNUSED | crate::flags::FLAG_INTERRUPT_DISABLE,
                },
                ..old(self).cpu
            }),
    {
        self.cpu.reset(&mut self.bus)
    }

    /// The diagnostic trace line for the instruction the core would
    /// execute next.
    pub fn log_string(&mut self) -> (r: String)
        requires
            old(self).bus.wf(),
            crate::optable::spec_instruction_size(
                crate::bus::view_read(old(self).bus@, old(self).cpu.pc),
            ) != 0,
        ensures
            *final(self) == *old(self),
            r@ == crate::trace::spec_log_line(old(self).cpu, old(self).bus@),
    {
        self.cpu.log_string(&self.bus)
    }

    /// One step of the whole machine: the core executes one instruction,
    /// then the pixel unit advances three times per consumed core cycle
    /// and the audio unit once per consumed core cycle, in that order.
    /// Returns the consumed core cycles: at least one, at most eleven.
    pub fn step(&mut self) -> (r: u32)
        requires
            old(self).wf(),
            old(self).cpu.cycles + 16 <= u64::MAX,
            old(self).ppu.frame + 34 <= u64::MAX,
            old(self).apu.cycle + 16 <= u32::MAX,
        ensures
            final(self).wf(),
            1 <= r <= 11,
            final(self).cpu.cycles == old(self).cpu.cycles + r,
            final(self).ppu.frame <= old(self).ppu.frame + 3 * r,
            final(self).apu.cycle == old(self).apu.cycle + r,
            final(self).apu.sample_rate == old(self).apu.sample_rate,
            ({
                let so = spec_step(old(self).cpu, old(self).bus@);
                let stepped = spec_ppu_steps(old(self).ppu, so.bus, 3 * r as nat);
                &&& final(self).cpu == so.cpu
                &&& final(self).ppu == stepped.0
                &&& final(self).bus@ == stepped.1
            }),
    {
        let before = self.cpu.cycles;
        let _running = self.cpu.step(&mut self.bus);
        let cpu_cycles = (self.cpu.cycles - before) as u32;
        let ppu_cycles = cpu_cycles * 3;

        let ghost cpu1 = self.cpu;
        let ghost apu1 = self.apu;
        let ghost ppu0 = self.ppu;
        let ghost bus0 = self.bus@;
        let mut i: u32 = 0;
        while i < ppu_cycles
            invariant
                i <= ppu_cycles,
                ppu_cycles <= 33,
                ppu0.wf(),
                crate::bus::view_wf(bus0),
                ppu0.frame + 34 <= u64::MAX,
                self.cpu == cpu1,
                self.apu == apu1,
                (self.ppu, self.bus@) == spec_ppu_steps(ppu0, bus0, i as nat),
            decreases ppu_cycles - i,
        {
            proof {
                lemma_ppu_steps_wf(ppu0, bus0, i as nat);
                lemma_ppu_steps_snoc(ppu0, bus0, i as nat);
            }
            self.ppu.step(&mut self.bus);
            i = i + 1;
        }
        proof {
            lemma_ppu_steps_wf(ppu0, bus0, ppu_cycles as nat);
        }

        let ghost ppu2 = self.ppu;
        let ghost bus2 = self.bus;
        let mut j: u32 = 0;
        while j < cpu_cycles
            invariant
                j <= cpu_cycles,
                cpu_cycles <= 11,
                apu1.cycle + 16 <= u32::MAX,
                self.cpu == cpu1,
                self.ppu == ppu2,
                self.bus == bus2,
                self.apu.cycle == apu1.cycle + j,
                self.apu.sample_rate == apu1.sample_rate,
            decreases cpu_cycles - j,
        {
            self.apu.step(&mut self.bus);
            j = j + 1;
        }
        cpu_cycles
    }

    /// The time-budgeted variant: step repeatedly until at least `budget`
    /// core cycles have been consumed, and report how many were. The last
    /// step may overshoot the budget by up to ten cycles; that overshoot
    /// is dropped, not carried into a later call.
    pub fn step_cycles(&mut self, budget: u32) -> (spent: u32)
        requires
            old(self).wf(),
            old(self).cpu.cycles + budget + 16 <= u64::MAX,
            old(self).ppu.frame + 3 * (budget + 16) <= u64::MAX,
            old(self).apu.cycle + budget + 16 <= u32::MAX,
        ensures
            final(self).wf(),
            spent >= budget,
            budget > 0 ==> spent < budget + 11,
            budget == 0 ==> spent == 0,
            final(self).cpu.cycles == old(self).cpu.cycles + spent,
            final(self).apu.cycle == old(self).apu.cycle + spent,
    {
        let mut spent: u32 = 0;
        while spent < budget
            invariant
                self.wf(),
                spent <= budget + 10,
                budget == 0 ==> spent == 0,
                self.cpu.cycles == old(self).cpu.cycles + spent,
                old(self).cpu.cycles + budget + 16 <= u64::MAX,
                self.ppu.frame <= old(self).ppu.frame + 3 * spent,
                old(self).ppu.frame + 3 * (budget + 16) <= u64::MAX,
                self.apu.cycle == old(self).apu.cycle + spent,
                old(self).apu.cycle + budget + 16 <= u32::MAX,
            decreases spec_budget_left(budget, spent),
    {
            let consumed = self.step();
            spent = spent + consumed;
        }
        spent
    }
}

} // verus!
