use vstd::prelude::*;

verus! {

/// A Thumb instruction, by its format; each holds the instruction half-word.
#[derive(Debug, Copy, Clone, PartialEq, Eq, Structural)]
pub enum ThumbInstruction {
    MoveShiftedRegister(u16),
    AddSubtract(u16),
    MoveCompareAddSubtractImmediate(u16),
    AluOperations(u16),
    HiRegisterOperationsBranchExchange(u16),
    PcRelativeLoad(u16),
    LoadStoreRegisterOffset(u16),
    LoadStoreSignExtendedByteHalfword(u16),
    LoadStoreImmediateOffset(u16),
    LoadStoreHalfword(u16),
    SpRelativeLoadStore(u16),
    LoadAddress(u16),
    AddOffsetToSp(u16),
    PushPopRegisters(u16),
    MultipleLoadStore(u16),
    ConditionalBranch(u16),
    SoftwareInterrupt(u16),
    UnconditionalBranch(u16),
    LongBranchWithLink(u16),
    Undefined(u16),
}

/// The format of the Thumb instruction `value`: the first of the formats,
/// in order, whose fixed bits it has.
pub open spec fn spec_decode_thumb(value: u16) -> ThumbInstruction {
    if value & 0xF800 < 0x1800 {
        ThumbInstruction::MoveShiftedRegister(value)
    } else if value & 0xF800 == 0x1800 {
        ThumbInstruction::AddSubtract(value)
    } else if value & 0xE000 == 0x2000 {
        ThumbInstruction::MoveCompareAddSubtractImmediate(value)
    } else if value & 0xFC00 == 0x4000 {
        ThumbInstruction::AluOperations(value)
    } else if value & 0xFC00 == 0x4400 {
        ThumbInstruction::HiRegisterOperationsBranchExchange(value)
    } else if value & 0xF800 == 0x4800 {
        ThumbInstruction::PcRelativeLoad(value)
    } else if value & 0xF200 == 0x5000 {
        ThumbInstruction::LoadStoreRegisterOffset(value)
    } else if value & 0xF200 == 0x5200 {
        ThumbInstruction::LoadStoreSignExtendedByteHalfword(value)
    } else if value & 0xE000 == 0x6000 {
        ThumbInstruction::LoadStoreImmediateOffset(value)
    } else if value & 0xF000 == 0x8000 {
        ThumbInstruction::LoadStoreHalfword(value)
    } else if value & 0xF000 == 0x9000 {
        ThumbInstruction::SpRelativeLoadStore(value)
    } else if value & 0xF000 == 0xA000 {
        ThumbInstruction::LoadAddress(value)
    } else if value & 0xFF00 == 0xB000 {
        ThumbInstruction::AddOffsetToSp(value)
    } else if value & 0xF600 == 0xB400 {
        ThumbInstruction::PushPopRegisters(value)
    } else if value & 0xF000 == 0xC000 {
        ThumbInstruction::MultipleLoadStore(value)
    } else if value & 0xFF00 < 0xDF00 {
        ThumbInstruction::ConditionalBranch(value)
    } else if value & 0xFF00 == 0xDF00 {
        ThumbInstruction::SoftwareInterrupt(value)
    } else if value & 0xF800 == 0xE000 {
        ThumbInstruction::UnconditionalBranch(value)
    } else if value & 0xF000 == 0xF000 {
        ThumbInstruction::LongBranchWithLink(value)
    } else {
        ThumbInstruction::Undefined(value)
    }
}

/// Decodes a Thumb instruction half-word.
pub fn decode_thumb(value: u16) -> (r: ThumbInstruction)
    ensures
        r == spec_decode_thumb(value),
{
    if value & 0xF800 < 0x1800 {
        ThumbInstruction::MoveShiftedRegister(value)
    } else if value & 0xF800 == 0x1800 {
        ThumbInstruction::AddSubtract(value)
    } else if value & 0xE000 == 0x2000 {
        ThumbInstruction::MoveCompareAddSubtractImmediate(value)
    } else if value & 0xFC00 == 0x4000 {
        ThumbInstruction::AluOperations(value)
    } else if value & 0xFC00 == 0x4400 {
        ThumbInstruction::HiRegisterOperationsBranchExchange(value)
    } else if value & 0xF800 == 0x4800 {
        ThumbInstruction::PcRelativeLoad(value)
    } else if value & 0xF200 == 0x5000 {
        ThumbInstruction::LoadStoreRegisterOffset(value)
    } else if value & 0xF200 == 0x5200 {
        ThumbInstruction::LoadStoreSignExtendedByteHalfword(value)
    } else if value & 0xE000 == 0x6000 {
        ThumbInstruction::LoadStoreImmediateOffset(value)
    } else if value & 0xF000 == 0x8000 {
        ThumbInstruction::LoadStoreHalfword(value)
    } else if value & 0xF000 == 0x9000 {
        ThumbInstruction::SpRelativeLoadStore(value)
    } else if value & 0xF000 == 0xA000 {
        ThumbInstruction::LoadAddress(value)
    } else if value & 0xFF00 == 0xB000 {
        ThumbInstruction::AddOffsetToSp(value)
    } else if value & 0xF600 == 0xB400 {
        ThumbInstruction::PushPopRegisters(value)
    } else if value & 0xF000 == 0xC000 {
        ThumbInstruction::MultipleLoadStore(value)
    } else if value & 0xFF00 < 0xDF00 {
        ThumbInstruction::ConditionalBranch(value)
    } else if value & 0xFF00 == 0xDF00 {
        ThumbInstruction::SoftwareInterrupt(value)
    } else if value & 0xF800 == 0xE000 {
        ThumbInstruction::UnconditionalBranch(value)
    } else if value & 0xF000 == 0xF000 {
        ThumbInstruction::LongBranchWithLink(value)
    } else {
        ThumbInstruction::Undefined(value)
    }
}

} // verus!
