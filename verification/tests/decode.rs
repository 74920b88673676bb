use ironboyadvance::jit::arm::{decode_arm, ArmInstruction};
use ironboyadvance::jit::thumb::{decode_thumb, ThumbInstruction};

#[test]
fn arm_classes() {
    assert_eq!(decode_arm(0xE3A00001), ArmInstruction::DataProcessing(0xE3A00001));
    assert_eq!(decode_arm(0xE12FFF1E), ArmInstruction::BranchAndExchange(0xE12FFF1E));
    assert_eq!(decode_arm(0xE0000291), ArmInstruction::Multiply(0xE0000291));
    assert_eq!(decode_arm(0xE0810392), ArmInstruction::MultiplyLong(0xE0810392));
    assert_eq!(decode_arm(0xE1010092), ArmInstruction::SingleDataSwap(0xE1010092));
    assert_eq!(decode_arm(0xE1D000B0), ArmInstruction::HalfwordAndSignedDataTransfer(0xE1D000B0));
    assert_eq!(decode_arm(0xE10F0000), ArmInstruction::PsrTransfer(0xE10F0000));
    assert_eq!(decode_arm(0xE3100001), ArmInstruction::DataProcessing(0xE3100001));
    assert_eq!(decode_arm(0xE5900000), ArmInstruction::SingleDataTransfer(0xE5900000));
    assert_eq!(decode_arm(0xE7F000F0), ArmInstruction::Undefined(0xE7F000F0));
    assert_eq!(decode_arm(0xEA000000), ArmInstruction::BranchAndBranchWithLink(0xEA000000));
    assert_eq!(decode_arm(0xE8BD0001), ArmInstruction::BlockDataTransfer(0xE8BD0001));
    assert_eq!(decode_arm(0xEF000000), ArmInstruction::SoftwareInterrupt(0xEF000000));
    assert_eq!(decode_arm(0xEE000010), ArmInstruction::CoprocessorRegisterTransfer(0xEE000010));
    assert_eq!(decode_arm(0xEE000000), ArmInstruction::CoprocessorDataOperation(0xEE000000));
    assert_eq!(decode_arm(0xEC000000), ArmInstruction::CoprocessorDataTransfer(0xEC000000));
}

#[test]
fn arm_condition_does_not_change_the_class() {
    assert_eq!(decode_arm(0x03A00001), ArmInstruction::DataProcessing(0x03A00001));
    assert_eq!(decode_arm(0x112FFF1E), ArmInstruction::BranchAndExchange(0x112FFF1E));
}

#[test]
fn thumb_formats() {
    assert_eq!(decode_thumb(0x0000), ThumbInstruction::MoveShiftedRegister(0x0000));
    assert_eq!(decode_thumb(0x1800), ThumbInstruction::AddSubtract(0x1800));
    assert_eq!(decode_thumb(0x2000), ThumbInstruction::MoveCompareAddSubtractImmediate(0x2000));
    assert_eq!(decode_thumb(0x4000), ThumbInstruction::AluOperations(0x4000));
    assert_eq!(decode_thumb(0x4770), ThumbInstruction::HiRegisterOperationsBranchExchange(0x4770));
    assert_eq!(decode_thumb(0x4800), ThumbInstruction::PcRelativeLoad(0x4800));
    assert_eq!(decode_thumb(0x5000), ThumbInstruction::LoadStoreRegisterOffset(0x5000));
    assert_eq!(decode_thumb(0x5200), ThumbInstruction::LoadStoreSignExtendedByteHalfword(0x5200));
    assert_eq!(decode_thumb(0x6000), ThumbInstruction::LoadStoreImmediateOffset(0x6000));
    assert_eq!(decode_thumb(0x8000), ThumbInstruction::LoadStoreHalfword(0x8000));
    assert_eq!(decode_thumb(0x9000), ThumbInstruction::SpRelativeLoadStore(0x9000));
    assert_eq!(decode_thumb(0xA000), ThumbInstruction::LoadAddress(0xA000));
    assert_eq!(decode_thumb(0xB000), ThumbInstruction::AddOffsetToSp(0xB000));
    assert_eq!(decode_thumb(0xB500), ThumbInstruction::PushPopRegisters(0xB500));
    assert_eq!(decode_thumb(0xC000), ThumbInstruction::MultipleLoadStore(0xC000));
    assert_eq!(decode_thumb(0xD000), ThumbInstruction::ConditionalBranch(0xD000));
    assert_eq!(decode_thumb(0xDF00), ThumbInstruction::SoftwareInterrupt(0xDF00));
    assert_eq!(decode_thumb(0xE000), ThumbInstruction::UnconditionalBranch(0xE000));
    assert_eq!(decode_thumb(0xF000), ThumbInstruction::LongBranchWithLink(0xF000));
    assert_eq!(decode_thumb(0xE800), ThumbInstruction::Undefined(0xE800));
}
