//! ModR/M byte decoder for 8088 addressing modes
//!
//! The ModR/M byte encodes addressing modes and register operands.
//! Format: [mod:2][reg:3][r/m:3]
//! - mod: addressing mode (00, 01, 10, 11)
//! - reg: register operand (or opcode extension for some instructions)
//! - r/m: register or memory operand

use crate::cpu::state::Cpu;
use vstd::prelude::*;

verus! {

/// Addressing mode variants decoded from ModR/M byte
#[derive(Debug, Clone, Copy, PartialEq, Eq, Structural)]
pub enum AddressingMode {
    /// Register-to-register mode (mod=11); the r/m field specifies a register
    RegisterDirect { rm_reg: u8 },
    /// Memory indirect mode (mod=00), address from base/index registers
    MemoryIndirect { base_index: u8 },
    /// Memory with 8-bit displacement (mod=01)
    MemoryDisp8 { base_index: u8, disp: i8 },
    /// Memory with 16-bit displacement (mod=10)
    MemoryDisp16 { base_index: u8, disp: i16 },
    /// Direct memory address (mod=00, r/m=110); 16-bit address follows the ModR/M byte
    DirectAddress { addr: u16 },
}

/// Decoded ModR/M byte
#[derive(Debug, Clone, Copy, PartialEq, Eq, Structural)]
pub struct ModRM {
    /// The raw ModR/M byte
    pub raw: u8,
    /// Mod field (bits 7-6)
    pub mod_bits: u8,
    /// Reg field (bits 5-3) - register or opcode extension
    pub reg: u8,
    /// R/M field (bits 2-0) - register or memory operand
    pub rm: u8,
    /// Decoded addressing mode
    pub mode: AddressingMode,
}

/// The addressing mode selected by the mod and r/m fields, before any
/// displacement or address is read.
pub open spec fn mode_of(mod_bits: u8, rm: u8) -> AddressingMode {
    if mod_bits == 3 {
        AddressingMode::RegisterDirect { rm_reg: rm }
    } else if mod_bits == 0 {
        if rm == 6 {
            AddressingMode::DirectAddress { addr: 0 }
        } else {
            AddressingMode::MemoryIndirect { base_index: rm }
        }
    } else if mod_bits == 1 {
        AddressingMode::MemoryDisp8 { base_index: rm, disp: 0 }
    } else {
        AddressingMode::MemoryDisp16 { base_index: rm, disp: 0 }
    }
}

/// The displacement of a memory mode as a 16-bit two's complement value.
pub open spec fn mode_disp(mode: AddressingMode) -> u16 {
    match mode {
        AddressingMode::MemoryDisp8 { disp, .. } => disp as i16 as u16,
        AddressingMode::MemoryDisp16 { disp, .. } => disp as u16,
        _ => 0,
    }
}

impl ModRM {
    /// Decode a ModR/M byte (without displacement/address - those come from instruction stream)
    pub fn decode(modrm: u8) -> (r: Self)
        ensures
            r.raw == modrm,
            r.mod_bits == (modrm >> 6u8) & 0b11,
            r.reg == (modrm >> 3u8) & 0b111,
            r.rm == modrm & 0b111,
            r.mode == mode_of(r.mod_bits, r.rm),
    {
        let mod_bits = (modrm >> 6) & 0b11;
        let reg = (modrm >> 3) & 0b111;
        let rm = modrm & 0b111;
        let mode = if mod_bits == 0b11 {
            AddressingMode::RegisterDirect { rm_reg: rm }
        } else if mod_bits == 0b00 {
            if rm == 0b110 {
                AddressingMode::DirectAddress { addr: 0 }
            } else {
                AddressingMode::MemoryIndirect { base_index: rm }
            }
        } else if mod_bits == 0b01 {
            AddressingMode::MemoryDisp8 { base_index: rm, disp: 0 }
        } else {
            AddressingMode::MemoryDisp16 { base_index: rm, disp: 0 }
        };
        ModRM { raw: modrm, mod_bits, reg, rm, mode }
    }

    /// Update the addressing mode with an 8-bit displacement
    pub fn with_disp8(self, disp: i8) -> (r: Self)
        ensures
            r == (match self.mode {
                AddressingMode::MemoryDisp8 { base_index, .. } => ModRM {
                    mode: AddressingMode::MemoryDisp8 { base_index, disp },
                    ..self
                },
                _ => self,
            }),
    {
        let mut m = self;
        if let AddressingMode::MemoryDisp8 { base_index, .. } = self.mode {
            m.mode = AddressingMode::MemoryDisp8 { base_index, disp };
        }
        m
    }

    /// Update the addressing mode with a 16-bit displacement
    pub fn with_disp16(self, disp: i16) -> (r: Self)
        ensures
            r == (match self.mode {
                AddressingMode::MemoryDisp16 { base_index, .. } => ModRM {
                    mode: AddressingMode::MemoryDisp16 { base_index, disp },
                    ..self
                },
                _ => self,
            }),
    {
        let mut m = self;
        if let AddressingMode::MemoryDisp16 { base_index, .. } = self.mode {
            m.mode = AddressingMode::MemoryDisp16 { base_index, disp };
        }
        m
    }

    /// Update the addressing mode with a direct address
    pub fn with_direct_addr(self, addr: u16) -> (r: Self)
        ensures
            r == (match self.mode {
                AddressingMode::DirectAddress { .. } => ModRM {
                    mode: AddressingMode::DirectAddress { addr },
                    ..self
                },
                _ => self,
            }),
    {
        let mut m = self;
        if let AddressingMode::DirectAddress { .. } = self.mode {
            m.mode = AddressingMode::DirectAddress { addr };
        }
        m
    }

    /// Calculate the effective address for memory operands: the default
    /// segment index (0=ES, 1=CS, 2=SS, 3=DS) and the offset.
    pub fn calculate_address(&self, cpu: &Cpu) -> (r: (u8, u16))
        requires
            !(self.mode is RegisterDirect),
            match self.mode {
                AddressingMode::MemoryIndirect { base_index } => base_index < 8,
                AddressingMode::MemoryDisp8 { base_index, .. } => base_index < 8,
                AddressingMode::MemoryDisp16 { base_index, .. } => base_index < 8,
                _ => true,
            },
        ensures
            r == (match self.mode {
                AddressingMode::DirectAddress { addr } => (3u8, addr),
                AddressingMode::MemoryIndirect { base_index } => cpu.ea(base_index, 0),
                AddressingMode::MemoryDisp8 { base_index, .. } => cpu.ea(
                    base_index,
                    mode_disp(self.mode),
                ),
                AddressingMode::MemoryDisp16 { base_index, .. } => cpu.ea(
                    base_index,
                    mode_disp(self.mode),
                ),
                _ => (0u8, 0u16),
            }),
    {
        match self.mode {
            AddressingMode::DirectAddress { addr } => (3, addr),
            AddressingMode::MemoryIndirect { base_index } => self.calculate_ea(cpu, base_index),
            AddressingMode::MemoryDisp8 { base_index, .. } => self.calculate_ea(cpu, base_index),
            AddressingMode::MemoryDisp16 { base_index, .. } => self.calculate_ea(cpu, base_index),
            AddressingMode::RegisterDirect { .. } => (0, 0),
        }
    }

    /// Calculate effective address from base/index encoding
    fn calculate_ea(&self, cpu: &Cpu, base_index: u8) -> (r: (u8, u16))
        requires
            base_index < 8,
        ensures
            r == cpu.ea(base_index, mode_disp(self.mode)),
    {
        let disp: u16 = match self.mode {
            AddressingMode::MemoryDisp8 { disp, .. } => disp as i16 as u16,
            AddressingMode::MemoryDisp16 { disp, .. } => disp as u16,
            _ => 0,
        };
        cpu.effective_address(base_index, disp)
    }

    /// Check if this is register-direct addressing
    pub fn is_register_direct(&self) -> (r: bool)
        ensures
            r == (self.mode is RegisterDirect),
    {
        matches!(self.mode, AddressingMode::RegisterDirect { .. })
    }

    /// Get the register number for register-direct mode
    pub fn get_rm_register(&self) -> (r: u8)
        requires
            self.mode is RegisterDirect,
        ensures
            r == self.mode->rm_reg,
    {
        match self.mode {
            AddressingMode::RegisterDirect { rm_reg } => rm_reg,
            _ => 0,
        }
    }
}

/// The address of a displacement form is the address of the same form
/// without displacement plus the displacement, modulo 65536, in the same
/// segment; an 8-bit displacement counts as signed (-128 to 127).
pub proof fn law_modrm_displacement(m: ModRM, cpu: Cpu)
    ensures
        m.mode matches AddressingMode::MemoryDisp8 { base_index, disp } ==> {
            &&& cpu.ea(base_index, mode_disp(m.mode)).0 == cpu.ea(base_index, 0).0
            &&& cpu.ea(base_index, mode_disp(m.mode)).1 as int == (cpu.ea(base_index, 0).1 as int
                + disp as int) % 65536
        },
        m.mode matches AddressingMode::MemoryDisp16 { base_index, disp } ==> {
            &&& cpu.ea(base_index, mode_disp(m.mode)).0 == cpu.ea(base_index, 0).0
            &&& cpu.ea(base_index, mode_disp(m.mode)).1 as int == (cpu.ea(base_index, 0).1 as int
                + disp as int) % 65536
        },
{
    if let AddressingMode::MemoryDisp8 { base_index, disp } = m.mode {
        crate::cpu::tier1::decode::lemma_code_fields(0, 0, 0, disp, 0);
        let md = mode_disp(m.mode);
        law_ea_displacement(cpu, base_index, md);
        lemma_same_residue(cpu.ea(base_index, 0).1 as int, md as int, disp as int);
    }
    if let AddressingMode::MemoryDisp16 { base_index, disp } = m.mode {
        crate::cpu::tier1::decode::lemma_code_fields(0, 0, 0, 0, disp);
        let md = mode_disp(m.mode);
        law_ea_displacement(cpu, base_index, md);
        lemma_same_residue(cpu.ea(base_index, 0).1 as int, md as int, disp as int);
    }
}

/// Adding a displacement or its 16-bit two's complement form gives the same
/// offset modulo 65536.
proof fn lemma_same_residue(p: int, md: int, d: int)
    requires
        md == d || md == d + 65536,
    ensures
        (p + md) % 65536 == (p + d) % 65536,
{
}

/// A displacement adds to the base/index sum modulo 65536 and does not
/// change the default segment.
pub proof fn law_ea_displacement(cpu: Cpu, base_index: u8, disp: u16)
    ensures
        cpu.ea(base_index, disp).0 == cpu.ea(base_index, 0).0,
        cpu.ea(base_index, disp).1 as int == (cpu.ea(base_index, 0).1 as int + disp as int) % 65536,
{
}

} // verus!
