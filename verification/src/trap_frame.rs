//! The register snapshot saved on every trap and restored on every return
//! to a process. The layout mirrors what the architecture trampoline pushes:
//! exception return address, saved processor status, stack pointer, thread
//! identifier, the SIMD registers, and the general-purpose registers.

use vstd::prelude::*;

verus! {

/// A complete snapshot of the registers a process needs to resume.
///
/// Exactly one authoritative `TrapFrame` exists per process; it is stale
/// while that process occupies the core and becomes authoritative again on
/// its next trap.
#[derive(Debug, Copy, Clone, PartialEq, Eq)]
pub struct TrapFrame {
    pub elr: u64,
    pub spsr: u64,
    pub sp: u64,
    pub tpidr: u64,
    pub q0: u128,
    pub q1: u128,
    pub q2: u128,
    pub q3: u128,
    pub q4: u128,
    pub q5: u128,
    pub q6: u128,
    pub q7: u128,
    pub q8: u128,
    pub q9: u128,
    pub q10: u128,
    pub q11: u128,
    pub q12: u128,
    pub q13: u128,
    pub q14: u128,
    pub q15: u128,
    pub q16: u128,
    pub q17: u128,
    pub q18: u128,
    pub q19: u128,
    pub q20: u128,
    pub q21: u128,
    pub q22: u128,
    pub q23: u128,
    pub q24: u128,
    pub q25: u128,
    pub q26: u128,
    pub q27: u128,
    pub q28: u128,
    pub q29: u128,
    pub q30: u128,
    pub q31: u128,
    pub x1: u64,
    pub x2: u64,
    pub x3: u64,
    pub x4: u64,
    pub x5: u64,
    pub x6: u64,
    pub x7: u64,
    pub x8: u64,
    pub x9: u64,
    pub x10: u64,
    pub x11: u64,
    pub x12: u64,
    pub x13: u64,
    pub x14: u64,
    pub x15: u64,
    pub x16: u64,
    pub x17: u64,
    pub x18: u64,
    pub x19: u64,
    pub x20: u64,
    pub x21: u64,
    pub x22: u64,
    pub x23: u64,
    pub x24: u64,
    pub x25: u64,
    pub x26: u64,
    pub x27: u64,
    pub x28: u64,
    pub x29: u64,
    pub reserved: u64,
    pub x30: u64,
    pub x0: u64,
}

impl TrapFrame {
    /// The frame with every register zero.
    pub open spec fn spec_zeroed() -> TrapFrame {
        TrapFrame {
            elr: 0,
            spsr: 0,
            sp: 0,
            tpidr: 0,
            q0: 0,
            q1: 0,
            q2: 0,
            q3: 0,
            q4: 0,
            q5: 0,
            q6: 0,
            q7: 0,
            q8: 0,
            q9: 0,
            q10: 0,
            q11: 0,
            q12: 0,
            q13: 0,
            q14: 0,
            q15: 0,
            q16: 0,
            q17: 0,
            q18: 0,
            q19: 0,
            q20: 0,
            q21: 0,
            q22: 0,
            q23: 0,
            q24: 0,
            q25: 0,
            q26: 0,
            q27: 0,
            q28: 0,
            q29: 0,
            q30: 0,
            q31: 0,
            x1: 0,
            x2: 0,
            x3: 0,
            x4: 0,
            x5: 0,
            x6: 0,
            x7: 0,
            x8: 0,
            x9: 0,
            x10: 0,
            x11: 0,
            x12: 0,
            x13: 0,
            x14: 0,
            x15: 0,
            x16: 0,
            x17: 0,
            x18: 0,
            x19: 0,
            x20: 0,
            x21: 0,
            x22: 0,
            x23: 0,
            x24: 0,
            x25: 0,
            x26: 0,
            x27: 0,
            x28: 0,
            x29: 0,
            reserved: 0,
            x30: 0,
            x0: 0,
        }
    }

    /// Builds the all-zero frame a fresh process starts from.
    pub fn zeroed() -> (r: TrapFrame)
        ensures
            r == TrapFrame::spec_zeroed(),
    {
        TrapFrame {
            elr: 0,
            spsr: 0,
            sp: 0,
            tpidr: 0,
            q0: 0,
            q1: 0,
            q2: 0,
            q3: 0,
            q4: 0,
            q5: 0,
            q6: 0,
            q7: 0,
            q8: 0,
            q9: 0,
            q10: 0,
            q11: 0,
            q12: 0,
            q13: 0,
            q14: 0,
            q15: 0,
            q16: 0,
            q17: 0,
            q18: 0,
            q19: 0,
            q20: 0,
            q21: 0,
            q22: 0,
            q23: 0,
            q24: 0,
            q25: 0,
            q26: 0,
            q27: 0,
            q28: 0,
            q29: 0,
            q30: 0,
            q31: 0,
            x1: 0,
            x2: 0,
            x3: 0,
            x4: 0,
            x5: 0,
            x6: 0,
            x7: 0,
            x8: 0,
            x9: 0,
            x10: 0,
            x11: 0,
            x12: 0,
            x13: 0,
            x14: 0,
            x15: 0,
            x16: 0,
            x17: 0,
            x18: 0,
            x19: 0,
            x20: 0,
            x21: 0,
            x22: 0,
            x23: 0,
            x24: 0,
            x25: 0,
            x26: 0,
            x27: 0,
            x28: 0,
            x29: 0,
            reserved: 0,
            x30: 0,
            x0: 0,
        }
    }
}

impl Default for TrapFrame {
    /// The default frame is the all-zero frame.
    fn default() -> (r: TrapFrame)
        ensures
            r == TrapFrame::spec_zeroed(),
    {
        TrapFrame::zeroed()
    }
}

} // verus!
