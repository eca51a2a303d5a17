//! The start-up program: the register writes that bring the controller from
//! reset to a lit display. Their order matters to the hardware.

use vstd::prelude::*;
use crate::config::Orientation;
use crate::instruction::Instruction;
use crate::wire::{
    Action, Op, command_ops, ops_of, push_bare, push_command, push_one, push_step,
    reset_ops, reset_script,
};

verus! {

/// Parameters of `Cmd74` in the start-up program.
pub const CMD74_PARAMS: [u8; 7] = [
    0x02, 0x0E, 0x00, 0x00, 0x28, 0x00, 0x00,
];

/// Parameters of `BlankingPorchControl` in the start-up program.
pub const BLANKING_PORCH_CONTROL_PARAMS: [u8; 2] = [
    0x0E, 0x0E,
];

/// Parameters of `Cmd60` in the start-up program.
pub const CMD60_PARAMS: [u8; 4] = [
    0x38, 0x09, 0x6D, 0x67,
];

/// Parameters of `Cmd63` in the start-up program.
pub const CMD63_PARAMS: [u8; 5] = [
    0x38, 0xAD, 0x6D, 0x67, 0x05,
];

/// Parameters of `Cmd64` in the start-up program.
pub const CMD64_PARAMS: [u8; 6] = [
    0x38, 0x0B, 0x70, 0xAB, 0x6D, 0x67,
];

/// Parameters of `Cmd66` in the start-up program.
pub const CMD66_PARAMS: [u8; 6] = [
    0x38, 0x0F, 0x70, 0xAF, 0x6D, 0x67,
];

/// Parameters of `Cmd6A` in the start-up program.
pub const CMD6A_PARAMS: [u8; 2] = [
    0x00, 0x00,
];

/// Parameters of `Cmd68` in the start-up program.
pub const CMD68_PARAMS: [u8; 7] = [
    0x3B, 0x08, 0x04, 0x00, 0x04, 0x64, 0x67,
];

/// Parameters of `Cmd6C` in the start-up program.
pub const CMD6C_PARAMS: [u8; 7] = [
    0x22, 0x02, 0x22, 0x02, 0x22, 0x22, 0x50,
];

/// Parameters of `Cmd6E` in the start-up program.
pub const CMD6E_PARAMS: [u8; 32] = [
    0x00, 0x00, 0x00, 0x00, 0x07, 0x01, 0x13, 0x11,
    0x0B, 0x09, 0x16, 0x15, 0x1D, 0x1E, 0x00, 0x00,
    0x00, 0x00, 0x1E, 0x1D, 0x15, 0x16, 0x0A, 0x0C,
    0x12, 0x14, 0x02, 0x08, 0x00, 0x00, 0x00, 0x00,
];

/// Parameters of `Cmd93` in the start-up program.
pub const CMD93_PARAMS: [u8; 3] = [
    0x33, 0x7F, 0x00,
];

/// Parameters of `Cmd70` in the start-up program.
pub const CMD70_PARAMS: [u8; 6] = [
    0x0E, 0x0F, 0x03, 0x0E, 0x0F, 0x03,
];

/// Parameters of `Cmd71` in the start-up program.
pub const CMD71_PARAMS: [u8; 3] = [
    0x0E, 0x16, 0x03,
];

/// Parameters of `Cmd91` in the start-up program.
pub const CMD91_PARAMS: [u8; 2] = [
    0x0E, 0x09,
];

/// Parameters of `SetGamma1` in the start-up program.
pub const SET_GAMMA1_PARAMS: [u8; 6] = [
    0x51, 0x13, 0x0C, 0x06, 0x00, 0x2F,
];

/// Parameters of `SetGamma3` in the start-up program.
pub const SET_GAMMA3_PARAMS: [u8; 6] = [
    0x51, 0x13, 0x0C, 0x06, 0x00, 0x33,
];

/// Parameters of `SetGamma2` in the start-up program.
pub const SET_GAMMA2_PARAMS: [u8; 6] = [
    0x3C, 0x94, 0x4F, 0x33, 0x34, 0xCF,
];

/// Parameters of `SetGamma4` in the start-up program.
pub const SET_GAMMA4_PARAMS: [u8; 6] = [
    0x4D, 0x94, 0x4F, 0x33, 0x34, 0xCF,
];

/// Parameters of `DisplayFunctionControl` in the start-up program.
pub const DISPLAY_FUNCTION_CONTROL_PARAMS: [u8; 4] = [0x0A, 0x80, 0x27, 0x00];

/// The part of the start-up program that is the same for every panel: the
/// unlocking of the extended registers and the panel's electrical tuning.
#[verifier::opaque]
pub open spec fn register_program() -> Seq<Op> {
    Seq::<Op>::empty()
        + command_ops(Instruction::InterRegisterEnable1.code(), Seq::empty())
        + command_ops(Instruction::InterRegisterEnable2.code(), Seq::empty())
        + command_ops(Instruction::Cmd80.code(), seq![0xFF])
        + command_ops(Instruction::Cmd81.code(), seq![0xFF])
        + command_ops(Instruction::Cmd82.code(), seq![0xFF])
        + command_ops(Instruction::Cmd83.code(), seq![0xFF])
        + command_ops(Instruction::Cmd84.code(), seq![0xFF])
        + command_ops(Instruction::Cmd85.code(), seq![0xFF])
        + command_ops(Instruction::Cmd86.code(), seq![0xFF])
        + command_ops(Instruction::Cmd87.code(), seq![0xFF])
        + command_ops(Instruction::Cmd88.code(), seq![0xFF])
        + command_ops(Instruction::Cmd89.code(), seq![0xFF])
        + command_ops(Instruction::Cmd8A.code(), seq![0xFF])
        + command_ops(Instruction::Cmd8B.code(), seq![0xFF])
        + command_ops(Instruction::Cmd8C.code(), seq![0xFF])
        + command_ops(Instruction::Cmd8D.code(), seq![0xFF])
        + command_ops(Instruction::Cmd8E.code(), seq![0xFF])
        + command_ops(Instruction::Cmd8F.code(), seq![0xFF])
        + command_ops(Instruction::PixelFormatSet.code(), seq![0x05])
        + command_ops(Instruction::Cmd7E.code(), seq![0x7A])
        + command_ops(Instruction::Cmd74.code(), CMD74_PARAMS@)
        + command_ops(Instruction::Cmd98.code(), seq![0x3E])
        + command_ops(Instruction::Cmd99.code(), seq![0x3E])
        + command_ops(Instruction::BlankingPorchControl.code(), BLANKING_PORCH_CONTROL_PARAMS@)
        + command_ops(Instruction::Cmd60.code(), CMD60_PARAMS@)
        + command_ops(Instruction::Cmd63.code(), CMD63_PARAMS@)
        + command_ops(Instruction::Cmd64.code(), CMD64_PARAMS@)
        + command_ops(Instruction::Cmd66.code(), CMD66_PARAMS@)
        + command_ops(Instruction::Cmd6A.code(), CMD6A_PARAMS@)
        + command_ops(Instruction::Cmd68.code(), CMD68_PARAMS@)
        + command_ops(Instruction::Cmd6C.code(), CMD6C_PARAMS@)
        + command_ops(Instruction::Cmd6E.code(), CMD6E_PARAMS@)
        + command_ops(Instruction::CmdA9.code(), seq![0x1B])
        + command_ops(Instruction::CmdA8.code(), seq![0x6B])
        + command_ops(Instruction::CmdA8.code(), seq![0x6D])
        + command_ops(Instruction::CmdA7.code(), seq![0x40])
        + command_ops(Instruction::CmdAD.code(), seq![0x47])
        + command_ops(Instruction::CmdAF.code(), seq![0x73])
        + command_ops(Instruction::CmdAF.code(), seq![0x73])
        + command_ops(Instruction::CmdAC.code(), seq![0x44])
        + command_ops(Instruction::CmdA3.code(), seq![0x6C])
        + command_ops(Instruction::CmdCB.code(), seq![0x00])
        + command_ops(Instruction::CmdCD.code(), seq![0x22])
        + command_ops(Instruction::CmdC2.code(), seq![0x10])
        + command_ops(Instruction::CmdC5.code(), seq![0x00])
        + command_ops(Instruction::CmdC6.code(), seq![0x0E])
        + command_ops(Instruction::CmdC7.code(), seq![0x1F])
        + command_ops(Instruction::CmdC8.code(), seq![0x0E])
        + command_ops(Instruction::DualSingleGateSelect.code(), seq![0x00])
        + command_ops(Instruction::CmdF9.code(), seq![0x20])
        + command_ops(Instruction::Cmd9B.code(), seq![0x3B])
        + command_ops(Instruction::Cmd93.code(), CMD93_PARAMS@)
        + command_ops(Instruction::Cmd70.code(), CMD70_PARAMS@)
        + command_ops(Instruction::Cmd71.code(), CMD71_PARAMS@)
        + command_ops(Instruction::Cmd91.code(), CMD91_PARAMS@)
        + command_ops(Instruction::PowerControl2.code(), seq![0x2C])
        + command_ops(Instruction::PowerControl3.code(), seq![0x1A])
        + command_ops(Instruction::SetGamma1.code(), SET_GAMMA1_PARAMS@)
        + command_ops(Instruction::SetGamma3.code(), SET_GAMMA3_PARAMS@)
        + command_ops(Instruction::SetGamma2.code(), SET_GAMMA2_PARAMS@)
        + command_ops(Instruction::SetGamma4.code(), SET_GAMMA4_PARAMS@)
}

/// The whole start-up program for a panel in the given orientation: the
/// hardware reset, the register program, the orientation, the display
/// function, then sleep-out, a wait of 200 ms and display-on.
pub open spec fn init_script(orientation: Orientation) -> Seq<Op> {
    reset_ops() + register_program()
        + command_ops(Instruction::MemoryAccessControl.code(), seq![orientation.code()])
        + command_ops(Instruction::DisplayFunctionControl.code(), DISPLAY_FUNCTION_CONTROL_PARAMS@)
        + command_ops(Instruction::SleepOut.code(), Seq::empty())
        + seq![Op::Delay(200)]
        + command_ops(Instruction::DisplayOn.code(), Seq::empty())
}

/// Builds the part of the start-up program that is the same for every panel.
pub fn build_program() -> (script: Vec<Action>)
    ensures
        ops_of(script@) == register_program(),
{
    reveal(register_program);
    let mut script: Vec<Action> = Vec::new();
    assert(ops_of(script@) =~= Seq::<Op>::empty());
    push_bare(&mut script, Instruction::InterRegisterEnable1);
    push_bare(&mut script, Instruction::InterRegisterEnable2);
    push_one(&mut script, Instruction::Cmd80, 0xFF);
    push_one(&mut script, Instruction::Cmd81, 0xFF);
    push_one(&mut script, Instruction::Cmd82, 0xFF);
    push_one(&mut script, Instruction::Cmd83, 0xFF);
    push_one(&mut script, Instruction::Cmd84, 0xFF);
    push_one(&mut script, Instruction::Cmd85, 0xFF);
    push_one(&mut script, Instruction::Cmd86, 0xFF);
    push_one(&mut script, Instruction::Cmd87, 0xFF);
    push_one(&mut script, Instruction::Cmd88, 0xFF);
    push_one(&mut script, Instruction::Cmd89, 0xFF);
    push_one(&mut script, Instruction::Cmd8A, 0xFF);
    push_one(&mut script, Instruction::Cmd8B, 0xFF);
    push_one(&mut script, Instruction::Cmd8C, 0xFF);
    push_one(&mut script, Instruction::Cmd8D, 0xFF);
    push_one(&mut script, Instruction::Cmd8E, 0xFF);
    push_one(&mut script, Instruction::Cmd8F, 0xFF);
    push_one(&mut script, Instruction::PixelFormatSet, 0x05);
    push_one(&mut script, Instruction::Cmd7E, 0x7A);
    push_command(&mut script, Instruction::Cmd74.opcode(), &CMD74_PARAMS);
    push_one(&mut script, Instruction::Cmd98, 0x3E);
    push_one(&mut script, Instruction::Cmd99, 0x3E);
    push_command(&mut script, Instruction::BlankingPorchControl.opcode(), &BLANKING_PORCH_CONTROL_PARAMS);
    push_command(&mut script, Instruction::Cmd60.opcode(), &CMD60_PARAMS);
    push_command(&mut script, Instruction::Cmd63.opcode(), &CMD63_PARAMS);
    push_command(&mut script, Instruction::Cmd64.opcode(), &CMD64_PARAMS);
    push_command(&mut script, Instruction::Cmd66.opcode(), &CMD66_PARAMS);
    push_command(&mut script, Instruction::Cmd6A.opcode(), &CMD6A_PARAMS);
    push_command(&mut script, Instruction::Cmd68.opcode(), &CMD68_PARAMS);
    push_command(&mut script, Instruction::Cmd6C.opcode(), &CMD6C_PARAMS);
    push_command(&mut script, Instruction::Cmd6E.opcode(), &CMD6E_PARAMS);
    push_one(&mut script, Instruction::CmdA9, 0x1B);
    push_one(&mut script, Instruction::CmdA8, 0x6B);
    push_one(&mut script, Instruction::CmdA8, 0x6D);
    push_one(&mut script, Instruction::CmdA7, 0x40);
    push_one(&mut script, Instruction::CmdAD, 0x47);
    push_one(&mut script, Instruction::CmdAF, 0x73);
    push_one(&mut script, Instruction::CmdAF, 0x73);
    push_one(&mut script, Instruction::CmdAC, 0x44);
    push_one(&mut script, Instruction::CmdA3, 0x6C);
    push_one(&mut script, Instruction::CmdCB, 0x00);
    push_one(&mut script, Instruction::CmdCD, 0x22);
    push_one(&mut script, Instruction::CmdC2, 0x10);
    push_one(&mut script, Instruction::CmdC5, 0x00);
    push_one(&mut script, Instruction::CmdC6, 0x0E);
    push_one(&mut script, Instruction::CmdC7, 0x1F);
    push_one(&mut script, Instruction::CmdC8, 0x0E);
    push_one(&mut script, Instruction::DualSingleGateSelect, 0x00);
    push_one(&mut script, Instruction::CmdF9, 0x20);
    push_one(&mut script, Instruction::Cmd9B, 0x3B);
    push_command(&mut script, Instruction::Cmd93.opcode(), &CMD93_PARAMS);
    push_command(&mut script, Instruction::Cmd70.opcode(), &CMD70_PARAMS);
    push_command(&mut script, Instruction::Cmd71.opcode(), &CMD71_PARAMS);
    push_command(&mut script, Instruction::Cmd91.opcode(), &CMD91_PARAMS);
    push_one(&mut script, Instruction::PowerControl2, 0x2C);
    push_one(&mut script, Instruction::PowerControl3, 0x1A);
    push_command(&mut script, Instruction::SetGamma1.opcode(), &SET_GAMMA1_PARAMS);
    push_command(&mut script, Instruction::SetGamma3.opcode(), &SET_GAMMA3_PARAMS);
    push_command(&mut script, Instruction::SetGamma2.opcode(), &SET_GAMMA2_PARAMS);
    push_command(&mut script, Instruction::SetGamma4.opcode(), &SET_GAMMA4_PARAMS);
    script
}

/// Builds the whole start-up program.
pub fn build_init(orientation: Orientation) -> (script: Vec<Action>)
    ensures
        script@.len() > 0,
        ops_of(script@) == init_script(orientation),
{
    let mut script = reset_script();
    let mut program = build_program();
    let ghost tuning = program@;
    script.append(&mut program);
    assert(ops_of(script@) =~= reset_ops() + ops_of(tuning));
    push_one(&mut script, Instruction::MemoryAccessControl, orientation.register_value());
    push_command(
        &mut script,
        Instruction::DisplayFunctionControl.opcode(),
        &DISPLAY_FUNCTION_CONTROL_PARAMS,
    );
    push_bare(&mut script, Instruction::SleepOut);
    push_step(&mut script, Action::Delay(200));
    push_bare(&mut script, Instruction::DisplayOn);
    assert(ops_of(script@).len() == script@.len());
    script
}

} // verus!
