//! CPU test harness for instruction testing
//!
//! Provides a minimal environment for testing CPU instructions without
//! a full emulator. Contains just CPU state and memory bus.

use crate::cpu::execute::handlers::ExecError;
use crate::cpu::state::Cpu;
use crate::cpu::tier1::dispatch::step_effect;
use crate::memory::{is_writable, MemoryBus};
use vstd::prelude::*;

verus! {

/// Test harness for CPU instruction testing
///
/// Provides a minimal environment with CPU and memory for testing
/// individual instructions or short sequences.
pub struct CpuHarness {
    /// CPU state
    pub cpu: Cpu,
    /// Memory bus
    pub mem: MemoryBus,
}

/// `n` successful steps lead from `(oc, om)` to `(nc, nm)`.
pub open spec fn ran(oc: Cpu, om: MemoryBus, nc: Cpu, nm: MemoryBus, n: nat) -> bool
    decreases n,
{
    if n == 0 {
        nc == oc && nm == om
    } else {
        exists|mc: Cpu, mm: MemoryBus, cycles: u16|
            ran(oc, om, mc, mm, (n - 1) as nat) && #[trigger] step_effect(
                mc,
                mm,
                nc,
                nm,
                Ok(cycles),
            )
    }
}

/// `new` is `old` with `code` copied to the writable addresses from `base` on.
pub open spec fn program_loaded(old: MemoryBus, new: MemoryBus, base: u32, code: Seq<u8>) -> bool {
    &&& new.wf()
    &&& old.same_devices(new)
    &&& forall|a: u32| #[trigger]
        new.byte(a) == (if base <= a < base + code.len() && is_writable(a) {
            code[a - base]
        } else {
            old.byte(a)
        })
}

impl CpuHarness {
    /// The memory bus is well-formed.
    pub open spec fn wf(&self) -> bool {
        self.mem.wf()
    }

    /// Create a new test harness with initialized CPU and memory
    pub fn new() -> (r: Self)
        ensures
            r.wf(),
            r.cpu.is_initial(),
            forall|a: u32| crate::memory::is_ram(a) ==> #[trigger] r.mem.byte(a) == 0,
    {
        CpuHarness { cpu: Cpu::new(), mem: MemoryBus::new() }
    }

    /// Load a program at `segment:0`
    ///
    /// Sets CS:IP to point to the loaded program and clears the decode
    /// cache, since the loaded code may overwrite cached instructions.
    pub fn load_program(&mut self, code: &[u8], segment: u16)
        requires
            old(self).wf(),
            segment * 16 + code@.len() <= u32::MAX,
        ensures
            final(self).wf(),
            program_loaded(old(self).mem, final(self).mem, (segment * 16) as u32, code@),
            final(self).cpu == (Cpu {
                segments: final(self).cpu.segments,
                ip: 0,
                decode_cache: final(self).cpu.decode_cache,
                ..old(self).cpu
            }),
            final(self).cpu.segments@ == old(self).cpu.segments@.update(1, segment),
            final(self).cpu.decode_cache.entries@.len() == 0,
            final(self).cpu.decode_cache.max_entries == old(self).cpu.decode_cache.max_entries,
    {
        let base: u32 = (segment as u32) * 16;
        let mut i: usize = 0;
        while i < code.len()
            invariant
                0 <= i <= code@.len(),
                base == segment * 16,
                base + code@.len() <= u32::MAX,
                self.cpu == old(self).cpu,
                self.mem.wf(),
                old(self).mem.same_devices(self.mem),
                forall|a: u32| #[trigger]
                    self.mem.byte(a) == (if base <= a < base + i && is_writable(a) {
                        code@[a - base]
                    } else {
                        old(self).mem.byte(a)
                    }),
            decreases code@.len() - i,
        {
            let addr: u32 = base + (i as u32);
            self.mem.write_u8(addr, code[i]);
            i = i + 1;
        }
        self.cpu.segments[1] = segment;
        self.cpu.ip = 0;
        self.cpu.decode_cache.clear();
    }

    /// Execute one instruction
    ///
    /// Returns the number of cycles consumed by the instruction, or the
    /// error that stopped it.
    pub fn step(&mut self) -> (r: Result<u16, ExecError>)
        requires
            old(self).wf(),
        ensures
            final(self).wf(),
            step_effect(old(self).cpu, old(self).mem, final(self).cpu, final(self).mem, r),
    {
        self.cpu.step(&mut self.mem)
    }

    /// Execute `n` instructions, stopping at the first one that fails
    pub fn step_n(&mut self, n: usize) -> (r: Result<(), ExecError>)
        requires
            old(self).wf(),
        ensures
            final(self).wf(),
            match r {
                Ok(()) => ran(old(self).cpu, old(self).mem, final(self).cpu, final(self).mem, n as nat),
                Err(e) => exists|k: nat|
                    k < n && #[trigger] ran(
                        old(self).cpu,
                        old(self).mem,
                        final(self).cpu,
                        final(self).mem,
                        k,
                    ) && step_effect(
                        final(self).cpu,
                        final(self).mem,
                        final(self).cpu,
                        final(self).mem,
                        Err(e),
                    ),
            },
    {
        let mut i: usize = 0;
        while i < n
            invariant
                0 <= i <= n,
                self.wf(),
                ran(old(self).cpu, old(self).mem, self.cpu, self.mem, i as nat),
            decreases n - i,
        {
            let ghost pc = self.cpu;
            let ghost pm = self.mem;
            match self.step() {
                Ok(cycles) => {
                    assert(step_effect(pc, pm, self.cpu, self.mem, Ok(cycles)));
                    assert(ran(old(self).cpu, old(self).mem, self.cpu, self.mem, (i + 1) as nat));
                },
                Err(e) => {
                    assert(ran(old(self).cpu, old(self).mem, self.cpu, self.mem, i as nat));
                    return Err(e);
                },
            }
            i = i + 1;
        }
        Ok(())
    }

    /// Reset CPU to initial state
    pub fn reset(&mut self)
        requires
            old(self).wf(),
        ensures
            final(self).wf(),
            final(self).mem == old(self).mem,
            final(self).cpu.is_reset_of(old(self).cpu),
    {
        self.cpu.reset();
    }
}

impl Default for CpuHarness {
    fn default() -> (r: Self)
        ensures
            r.wf(),
            r.cpu.is_initial(),
            forall|a: u32| crate::memory::is_ram(a) ==> #[trigger] r.mem.byte(a) == 0,
    {
        Self::new()
    }
}

} // verus!
