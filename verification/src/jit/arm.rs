use crate::common::bits::BitOps;
use vstd::prelude::*;

verus! {

/// An ARM instruction, by its class; each holds the instruction word.
#[derive(Debug, Copy, Clone, PartialEq, Eq, Structural)]
pub enum ArmInstruction {
    DataProcessing(u32),
    PsrTransfer(u32),
    Multiply(u32),
    MultiplyLong(u32),
    SingleDataSwap(u32),
    BranchAndExchange(u32),
    HalfwordAndSignedDataTransfer(u32),
    SingleDataTransfer(u32),
    Undefined(u32),
    BlockDataTransfer(u32),
    BranchAndBranchWithLink(u32),
    SoftwareInterrupt(u32),
    CoprocessorDataOperation(u32),
    CoprocessorDataTransfer(u32),
    CoprocessorRegisterTransfer(u32),
}

/// A data processing word whose opcode is a test (TST, TEQ, CMP, CMN) without
/// the S bit is a PSR transfer.
pub open spec fn spec_data_processing_or_psr(value: u32) -> ArmInstruction {
    let pattern = value & 0x0FFFFFFF;
    let opcode = pattern.spec_bits(21, 24);
    if !pattern.spec_bit(20) && 0b1000 <= opcode <= 0b1011 {
        ArmInstruction::PsrTransfer(value)
    } else {
        ArmInstruction::DataProcessing(value)
    }
}

/// The class of the ARM instruction `value`, from bits 4..=27 (the condition
/// field plays no part).
pub open spec fn spec_decode_arm(value: u32) -> ArmInstruction {
    let pattern = value & 0x0FFFFFFF;
    let class = pattern.spec_bits(26, 27);
    if class == 0b00 {
        if pattern.spec_bit(25) {
            spec_data_processing_or_psr(value)
        } else if pattern & 0x0FF000F0 == 0x01200010 {
            ArmInstruction::BranchAndExchange(value)
        } else if pattern & 0x010000F0 == 0x00000090 {
            if pattern.spec_bit(23) {
                ArmInstruction::MultiplyLong(value)
            } else {
                ArmInstruction::Multiply(value)
            }
        } else if pattern & 0x010000F0 == 0x01000090 {
            ArmInstruction::SingleDataSwap(value)
        } else if pattern & 0x000000F0 == 0x000000B0 || pattern & 0x000000D0 == 0x000000D0 {
            ArmInstruction::HalfwordAndSignedDataTransfer(value)
        } else {
            spec_data_processing_or_psr(value)
        }
    } else if class == 0b01 {
        if pattern & 0x02000010 == 0x02000010 {
            ArmInstruction::Undefined(value)
        } else {
            ArmInstruction::SingleDataTransfer(value)
        }
    } else if class == 0b10 {
        if pattern.spec_bit(25) {
            ArmInstruction::BranchAndBranchWithLink(value)
        } else {
            ArmInstruction::BlockDataTransfer(value)
        }
    } else if class == 0b11 {
        if pattern.spec_bit(25) {
            if pattern.spec_bit(24) {
                ArmInstruction::SoftwareInterrupt(value)
            } else if pattern.spec_bit(4) {
                ArmInstruction::CoprocessorRegisterTransfer(value)
            } else {
                ArmInstruction::CoprocessorDataOperation(value)
            }
        } else {
            ArmInstruction::CoprocessorDataTransfer(value)
        }
    } else {
        ArmInstruction::Undefined(value)
    }
}

/// Decodes an ARM instruction word.
pub fn decode_arm(value: u32) -> (r: ArmInstruction)
    ensures
        r == spec_decode_arm(value),
{
    let pattern = value & 0x0FFFFFFF;
    let set_flags = pattern.bit(20);
    let opcode = pattern.bits(21..=24);
    let test_opcode = 0b1000 <= opcode && opcode <= 0b1011;
    match pattern.bits(26..=27) {
        0b00 => {
            if pattern.bit(25) {
                if !set_flags && test_opcode {
                    ArmInstruction::PsrTransfer(value)
                } else {
                    ArmInstruction::DataProcessing(value)
                }
            } else if pattern & 0x0FF000F0 == 0x01200010 {
                ArmInstruction::BranchAndExchange(value)
            } else if pattern & 0x010000F0 == 0x00000090 {
                if pattern.bit(23) {
                    ArmInstruction::MultiplyLong(value)
                } else {
                    ArmInstruction::Multiply(value)
                }
            } else if pattern & 0x010000F0 == 0x01000090 {
                ArmInstruction::SingleDataSwap(value)
            } else if pattern & 0x000000F0 == 0x000000B0 || pattern & 0x000000D0 == 0x000000D0 {
                ArmInstruction::HalfwordAndSignedDataTransfer(value)
            } else {
                if !set_flags && test_opcode {
                    ArmInstruction::PsrTransfer(value)
                } else {
                    ArmInstruction::DataProcessing(value)
                }
            }
        },
        0b01 => if pattern & 0x02000010 == 0x02000010 {
            ArmInstruction::Undefined(value)
        } else {
            ArmInstruction::SingleDataTransfer(value)
        },
        0b10 => if pattern.bit(25) {
            ArmInstruction::BranchAndBranchWithLink(value)
        } else {
            ArmInstruction::BlockDataTransfer(value)
        },
        0b11 => if pattern.bit(25) {
            if pattern.bit(24) {
                ArmInstruction::SoftwareInterrupt(value)
            } else if pattern.bit(4) {
                ArmInstruction::CoprocessorRegisterTransfer(value)
            } else {
                ArmInstruction::CoprocessorDataOperation(value)
            }
        } else {
            ArmInstruction::CoprocessorDataTransfer(value)
        },
        _ => ArmInstruction::Undefined(value),
    }
}

/// The instruction with its word replaced by `value`, its class kept.
pub open spec fn spec_with_word(instruction: ArmInstruction, value: u32) -> ArmInstruction {
    match instruction {
        ArmInstruction::DataProcessing(_) => ArmInstruction::DataProcessing(value),
        ArmInstruction::PsrTransfer(_) => ArmInstruction::PsrTransfer(value),
        ArmInstruction::Multiply(_) => ArmInstruction::Multiply(value),
        ArmInstruction::MultiplyLong(_) => ArmInstruction::MultiplyLong(value),
        ArmInstruction::SingleDataSwap(_) => ArmInstruction::SingleDataSwap(value),
        ArmInstruction::BranchAndExchange(_) => ArmInstruction::BranchAndExchange(value),
        ArmInstruction::HalfwordAndSignedDataTransfer(_) => ArmInstruction::HalfwordAndSignedDataTransfer(value),
        ArmInstruction::SingleDataTransfer(_) => ArmInstruction::SingleDataTransfer(value),
        ArmInstruction::Undefined(_) => ArmInstruction::Undefined(value),
        ArmInstruction::BlockDataTransfer(_) => ArmInstruction::BlockDataTransfer(value),
        ArmInstruction::BranchAndBranchWithLink(_) => ArmInstruction::BranchAndBranchWithLink(value),
        ArmInstruction::SoftwareInterrupt(_) => ArmInstruction::SoftwareInterrupt(value),
        ArmInstruction::CoprocessorDataOperation(_) => ArmInstruction::CoprocessorDataOperation(value),
        ArmInstruction::CoprocessorDataTransfer(_) => ArmInstruction::CoprocessorDataTransfer(value),
        ArmInstruction::CoprocessorRegisterTransfer(_) => ArmInstruction::CoprocessorRegisterTransfer(value),
    }
}

/// The condition field does not change an instruction's class: words that
/// agree in bits 0..=27 decode alike.
pub proof fn lemma_decode_ignores_condition(value: u32, other: u32)
    requires
        value & 0x0FFFFFFF == other & 0x0FFFFFFF,
    ensures
        spec_decode_arm(other) == spec_with_word(spec_decode_arm(value), other),
{
}

} // verus!
