//! Exhaustive checks of the syndrome decoder: every exception class maps to
//! its documented variant, and the fault sub-decoder maps exactly the
//! documented status codes.

use kernel::syndrome::decode_syndrome;
use kernel::syndrome::Fault;
use kernel::syndrome::Syndrome;

/// The documented mapping from an exception class and the syndrome's low
/// bits to the decoded variant, written out independently of the decoder.
fn expected_syndrome(class: u32, esr: u32) -> Syndrome {
    let imm = (esr & 0xffff) as u16;
    let lvl = (esr & 0x3) as u8;
    match class {
        0b000000 => Syndrome::Unknown,
        0b000001 => Syndrome::WfiWfe,
        0b000011 | 0b000101 => Syndrome::McrMrc,
        0b000100 => Syndrome::McrrMrrc,
        0b000110 => Syndrome::LdcStc,
        0b000111 => Syndrome::SimdFp,
        0b001000 => Syndrome::Vmrs,
        0b001100 => Syndrome::Mrrc,
        0b001110 => Syndrome::IllegalExecutionState,
        0b010101 => Syndrome::Svc(imm),
        0b010110 => Syndrome::Hvc(imm),
        0b010111 => Syndrome::Smc(imm),
        0b011000 => Syndrome::MsrMrsSystem,
        0b100000 | 0b100001 => Syndrome::InstructionAbort {
            kind: expected_instruction_fault((esr >> 2) & 0xf),
            level: lvl,
        },
        0b100010 => Syndrome::PCAlignmentFault,
        0b100100 | 0b100101 => Syndrome::DataAbort {
            kind: expected_data_fault((esr >> 2) & 0xf),
            level: lvl,
        },
        0b100110 => Syndrome::SpAlignmentFault,
        0b101100 => Syndrome::TrappedFpu,
        0b101111 => Syndrome::SError,
        0b110000 | 0b110001 => Syndrome::Breakpoint,
        0b110010 | 0b110011 => Syndrome::Step,
        0b110100 | 0b110101 => Syndrome::Watchpoint,
        0b111100 => Syndrome::Brk(imm),
        _ => Syndrome::Other(esr),
    }
}

fn expected_instruction_fault(code: u32) -> Fault {
    match code {
        0b0000 => Fault::AddressSize,
        0b0001 => Fault::Translation,
        0b0010 => Fault::AccessFlag,
        0b0011 => Fault::Permission,
        0b1100 => Fault::TlbConflict,
        c => Fault::Other(c as u8),
    }
}

fn expected_data_fault(code: u32) -> Fault {
    match code {
        0b1000 => Fault::Alignment,
        c => expected_instruction_fault(c),
    }
}

#[test]
fn decode_covers_every_class() {
    for class in 0u32..64 {
        for low in [0u32, 0x1, 0x2A, 0x1234, 0xFFFF, 0x3FF_FFFF] {
            let esr = (class << 26) | low;
            assert_eq!(decode_syndrome(esr), expected_syndrome(class, esr), "class {}", class);
        }
    }
}

#[test]
fn fault_codes_map_exactly() {
    for code in 0u32..16 {
        let insn_esr = (0b100000 << 26) | (code << 2);
        let data_esr = (0b100100 << 26) | (code << 2);
        let insn_expected = expected_instruction_fault(code);
        let data_expected = expected_data_fault(code);
        assert_eq!(Fault::instruction_abort_fault(insn_esr), insn_expected, "code {}", code);
        assert_eq!(Fault::data_abort_fault(data_esr), data_expected, "code {}", code);
        match decode_syndrome(insn_esr) {
            Syndrome::InstructionAbort { kind, level } => {
                assert_eq!(kind, insn_expected);
                assert_eq!(level, 0);
            },
            other => panic!("expected an instruction abort, got {:?}", other),
        }
        match decode_syndrome(data_esr) {
            Syndrome::DataAbort { kind, level } => {
                assert_eq!(kind, data_expected);
                assert_eq!(level, 0);
            },
            other => panic!("expected a data abort, got {:?}", other),
        }
    }
}

#[test]
fn alignment_fault_is_data_abort_only() {
    let code = 0b1000u32 << 2;
    assert_eq!(Fault::instruction_abort_fault(code), Fault::Other(0b1000));
    assert_eq!(Fault::data_abort_fault(code), Fault::Alignment);
}

#[test]
fn svc_and_brk_carry_their_immediate() {
    assert_eq!(decode_syndrome(0x5400_1234), Syndrome::Svc(0x1234));
    assert_eq!(decode_syndrome(0xF000_0007), Syndrome::Brk(7));
    assert_eq!(decode_syndrome(0x5400_0001), Syndrome::Svc(1));
}

#[test]
fn abort_level_is_low_two_bits() {
    for lvl in 0u32..4 {
        let esr = (0b100100 << 26) | (0b0001 << 2) | lvl;
        assert_eq!(
            decode_syndrome(esr),
            Syndrome::DataAbort { kind: Fault::Translation, level: lvl as u8 }
        );
    }
}
