//! Decoding of the exception syndrome register (ESR) into a tagged trap
//! reason. Decoding is total: every 32-bit value has a defined result.

use vstd::prelude::*;

verus! {

/// The cause of an instruction or data abort, decoded from syndrome bits [5:2].
#[derive(Debug, PartialEq, Eq, Copy, Clone)]
pub enum Fault {
    AddressSize,
    Translation,
    AccessFlag,
    Permission,
    Alignment,
    TlbConflict,
    Other(u8),
}

/// The decoded reason for a synchronous exception.
#[derive(Debug, PartialEq, Eq, Copy, Clone)]
pub enum Syndrome {
    Unknown,
    WfiWfe,
    McrMrc,
    McrrMrrc,
    LdcStc,
    SimdFp,
    Vmrs,
    Mrrc,
    IllegalExecutionState,
    Svc(u16),
    Hvc(u16),
    Smc(u16),
    MsrMrsSystem,
    InstructionAbort { kind: Fault, level: u8 },
    PCAlignmentFault,
    DataAbort { kind: Fault, level: u8 },
    SpAlignmentFault,
    TrappedFpu,
    SError,
    Breakpoint,
    Step,
    Watchpoint,
    Brk(u16),
    Other(u32),
}

/// The exception class: bits [31:26] of the syndrome.
pub open spec fn spec_exception_class(esr: u32) -> u32 {
    esr >> 26
}

/// The translation level of an abort: bits [1:0] of the syndrome.
pub open spec fn spec_level(esr: u32) -> u32 {
    esr & 0x3
}

/// The fault status code of an abort: bits [5:2] of the syndrome.
pub open spec fn spec_fault_code(esr: u32) -> u32 {
    (esr >> 2) & 0xf
}

/// The low 16 bits of the syndrome: the immediate of `svc`, `hvc`, `smc`
/// and `brk` instructions.
pub open spec fn spec_imm16(esr: u32) -> u16 {
    (esr & 0xffff) as u16
}

/// The fault carried by an instruction abort.
pub open spec fn spec_instruction_abort_fault(esr: u32) -> Fault {
    let code = spec_fault_code(esr);
    if code == 0b0000 {
        Fault::AddressSize
    } else if code == 0b0001 {
        Fault::Translation
    } else if code == 0b0010 {
        Fault::AccessFlag
    } else if code == 0b0011 {
        Fault::Permission
    } else if code == 0b1100 {
        Fault::TlbConflict
    } else {
        Fault::Other(code as u8)
    }
}

/// The fault carried by a data abort; it admits `Alignment` in addition to
/// the instruction-abort faults.
pub open spec fn spec_data_abort_fault(esr: u32) -> Fault {
    let code = spec_fault_code(esr);
    if code == 0b1000 {
        Fault::Alignment
    } else {
        spec_instruction_abort_fault(esr)
    }
}

/// What `decode_syndrome` returns for a raw syndrome value, by exception
/// class.
pub open spec fn spec_decode_syndrome(esr: u32) -> Syndrome {
    let class = spec_exception_class(esr);
    if class == 0b000000 {
        Syndrome::Unknown
    } else if class == 0b000001 {
        Syndrome::WfiWfe
    } else if class == 0b000011 || class == 0b000101 {
        Syndrome::McrMrc
    } else if class == 0b000100 {
        Syndrome::McrrMrrc
    } else if class == 0b000110 {
        Syndrome::LdcStc
    } else if class == 0b000111 {
        Syndrome::SimdFp
    } else if class == 0b001000 {
        Syndrome::Vmrs
    } else if class == 0b001100 {
        Syndrome::Mrrc
    } else if class == 0b001110 {
        Syndrome::IllegalExecutionState
    } else if class == 0b010101 {
        Syndrome::Svc(spec_imm16(esr))
    } else if class == 0b010110 {
        Syndrome::Hvc(spec_imm16(esr))
    } else if class == 0b010111 {
        Syndrome::Smc(spec_imm16(esr))
    } else if class == 0b011000 {
        Syndrome::MsrMrsSystem
    } else if class == 0b100000 || class == 0b100001 {
        Syndrome::InstructionAbort {
            kind: spec_instruction_abort_fault(esr),
            level: spec_level(esr) as u8,
        }
    } else if class == 0b100010 {
        Syndrome::PCAlignmentFault
    } else if class == 0b100100 || class == 0b100101 {
        Syndrome::DataAbort { kind: spec_data_abort_fault(esr), level: spec_level(esr) as u8 }
    } else if class == 0b100110 {
        Syndrome::SpAlignmentFault
    } else if class == 0b101100 {
        Syndrome::TrappedFpu
    } else if class == 0b101111 {
        Syndrome::SError
    } else if class == 0b110000 || class == 0b110001 {
        Syndrome::Breakpoint
    } else if class == 0b110010 || class == 0b110011 {
        Syndrome::Step
    } else if class == 0b110100 || class == 0b110101 {
        Syndrome::Watchpoint
    } else if class == 0b111100 {
        Syndrome::Brk(spec_imm16(esr))
    } else {
        Syndrome::Other(esr)
    }
}

/// Extracts the exception class, bits [31:26], of a syndrome value.
pub fn exception_class(esr: u32) -> (r: u8)
    ensures
        r == spec_exception_class(esr),
{
    proof {
        assert(esr >> 26 < 64) by (bit_vector);
    }
    (esr >> 26) as u8
}

/// Extracts the translation level, bits [1:0], of a syndrome value.
pub fn level(esr: u32) -> (r: u8)
    ensures
        r == spec_level(esr),
{
    proof {
        assert(esr & 0x3 < 4) by (bit_vector);
    }
    (esr & 0x3) as u8
}

/// Extracts the immediate operand held in the low 16 bits of a syndrome
/// value.
pub fn imm16(esr: u32) -> (r: u16)
    ensures
        r == spec_imm16(esr),
{
    proof {
        assert(esr & 0xffff < 0x10000) by (bit_vector);
    }
    (esr & 0xffff) as u16
}

impl Fault {
    /// Extracts the fault status code, bits [5:2], of a syndrome value.
    pub fn fault_code(esr: u32) -> (r: u8)
        ensures
            r == spec_fault_code(esr),
    {
        proof {
            assert((esr >> 2) & 0xf < 16) by (bit_vector);
        }
        ((esr >> 2) & 0xf) as u8
    }

    /// Decodes the fault of an instruction abort from its status code.
    pub fn instruction_abort_fault(esr: u32) -> (r: Fault)
        ensures
            r == spec_instruction_abort_fault(esr),
    {
        match Fault::fault_code(esr) {
            0b0000 => Fault::AddressSize,
            0b0001 => Fault::Translation,
            0b0010 => Fault::AccessFlag,
            0b0011 => Fault::Permission,
            0b1100 => Fault::TlbConflict,
            code => Fault::Other(code),
        }
    }

    /// Decodes the fault of a data abort from its status code.
    pub fn data_abort_fault(esr: u32) -> (r: Fault)
        ensures
            r == spec_data_abort_fault(esr),
    {
        match Fault::fault_code(esr) {
            0b0000 => Fault::AddressSize,
            0b0001 => Fault::Translation,
            0b0010 => Fault::AccessFlag,
            0b0011 => Fault::Permission,
            0b1000 => Fault::Alignment,
            0b1100 => Fault::TlbConflict,
            code => Fault::Other(code),
        }
    }
}

/// Converts a raw syndrome register value into a `Syndrome`. Total: every
/// 32-bit value is classified, unrecognized classes land in
/// `Syndrome::Other`.
pub fn decode_syndrome(esr: u32) -> (r: Syndrome)
    ensures
        r == spec_decode_syndrome(esr),
{
    match exception_class(esr) {
        0b000000 => Syndrome::Unknown,
        0b000001 => Syndrome::WfiWfe,
        0b000011 | 0b000101 => Syndrome::McrMrc,
        0b000100 => Syndrome::McrrMrrc,
        0b000110 => Syndrome::LdcStc,
        0b000111 => Syndrome::SimdFp,
        0b001000 => Syndrome::Vmrs,
        0b001100 => Syndrome::Mrrc,
        0b001110 => Syndrome::IllegalExecutionState,
        0b010101 => Syndrome::Svc(imm16(esr)),
        0b010110 => Syndrome::Hvc(imm16(esr)),
        0b010111 => Syndrome::Smc(imm16(esr)),
        0b011000 => Syndrome::MsrMrsSystem,
        0b100000 | 0b100001 => Syndrome::InstructionAbort {
            kind: Fault::instruction_abort_fault(esr),
            level: level(esr),
        },
        0b100010 => Syndrome::PCAlignmentFault,
        0b100100 | 0b100101 => Syndrome::DataAbort {
            kind: Fault::data_abort_fault(esr),
            level: level(esr),
        },
        0b100110 => Syndrome::SpAlignmentFault,
        0b101100 => Syndrome::TrappedFpu,
        0b101111 => Syndrome::SError,
        0b110000 | 0b110001 => Syndrome::Breakpoint,
        0b110010 | 0b110011 => Syndrome::Step,
        0b110100 | 0b110101 => Syndrome::Watchpoint,
        0b111100 => Syndrome::Brk(imm16(esr)),
        _ => Syndrome::Other(esr),
    }
}

} // verus!
