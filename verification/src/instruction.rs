//! The controller's command vocabulary.

use vstd::prelude::*;

verus! {

/// A command of the controller. Each has a one-byte code on the wire.
#[derive(Debug, Clone, Copy, PartialEq, Eq)]
pub enum Instruction {
    Nop,
    SwReset,
    ReadDisplayId,
    ReadDisplayStatus,
    ReadDisplayPowerMode,
    ReadDisplayMadctl,
    ReadDisplayPixelFormat,
    ReadDisplayImageMode,
    ReadDisplaySignalMode,
    ReadDisplaySelfDiagnosticResult,
    SleepIn,
    SleepOut,
    PartialModeOn,
    NormalDisplayOn,
    DisplayInversionOff,
    DisplayInversionOn,
    DisplayOff,
    DisplayOn,
    ColumnAddressSet,
    RowAddressSet,
    MemoryWrite,
    MemoryRead,
    PartialArea,
    VerticalScrollingDefinition,
    TearingEffectLineOff,
    TearingEffectLineOn,
    MemoryAccessControl,
    VerticalScrollingStartAddress,
    IdleModeOff,
    IdleModeOn,
    PixelFormatSet,
    WriteMemoryContinue,
    ReadMemoryContinue,
    SetTearScanline,
    GetScanline,
    WriteDisplayBrightness,
    ReadDisplayBrightness,
    WriteCtrlDisplay,
    ReadCtrlDisplay,
    WriteCabc,
    ReadCabc,
    WriteCabcMinBrightness,
    ReadCabcMinBrightness,
    RgbInterfaceSignalControl,
    Spi2DataControl,
    TearingEffectControl,
    BlankingPorchControl,
    DisplayFunctionControl,
    DualSingleGateSelect,
    PowerControl1,
    PowerControl2,
    PowerControl3,
    PowerControl4,
    ReadId1,
    ReadId2,
    ReadId3,
    Inversion,
    InterRegisterEnable2,
    SetGamma1,
    SetGamma2,
    SetGamma3,
    SetGamma4,
    InterfaceControl,
    InterRegisterEnable1,
    Cmd80,
    Cmd81,
    Cmd82,
    Cmd83,
    Cmd84,
    Cmd85,
    Cmd86,
    Cmd87,
    Cmd88,
    Cmd89,
    Cmd8A,
    Cmd8B,
    Cmd8C,
    Cmd8D,
    Cmd8E,
    Cmd8F,
    Cmd7E,
    Cmd74,
    Cmd98,
    Cmd99,
    Cmd60,
    Cmd63,
    Cmd64,
    Cmd66,
    Cmd6A,
    Cmd68,
    Cmd6C,
    Cmd6E,
    CmdA9,
    CmdA8,
    CmdA7,
    CmdAD,
    CmdAF,
    CmdAC,
    CmdA3,
    CmdCB,
    CmdCD,
    CmdC2,
    CmdC5,
    CmdC6,
    CmdC7,
    CmdC8,
    CmdF9,
    Cmd9B,
    Cmd93,
    Cmd70,
    Cmd71,
    Cmd91,
}

impl Instruction {
    /// The byte that stands for this command on the wire.
    pub open spec fn code(self) -> u8 {
        match self {
            Instruction::Nop => 0x00,
            Instruction::SwReset => 0x01,
            Instruction::ReadDisplayId => 0x04,
            Instruction::ReadDisplayStatus => 0x09,
            Instruction::ReadDisplayPowerMode => 0x0A,
            Instruction::ReadDisplayMadctl => 0x0B,
            Instruction::ReadDisplayPixelFormat => 0x0C,
            Instruction::ReadDisplayImageMode => 0x0D,
            Instruction::ReadDisplaySignalMode => 0x0E,
            Instruction::ReadDisplaySelfDiagnosticResult => 0x0F,
            Instruction::SleepIn => 0x10,
            Instruction::SleepOut => 0x11,
            Instruction::PartialModeOn => 0x12,
            Instruction::NormalDisplayOn => 0x13,
            Instruction::DisplayInversionOff => 0x20,
            Instruction::DisplayInversionOn => 0x21,
            Instruction::DisplayOff => 0x28,
            Instruction::DisplayOn => 0x29,
            Instruction::ColumnAddressSet => 0x2A,
            Instruction::RowAddressSet => 0x2B,
            Instruction::MemoryWrite => 0x2C,
            Instruction::MemoryRead => 0x2E,
            Instruction::PartialArea => 0x30,
            Instruction::VerticalScrollingDefinition => 0x33,
            Instruction::TearingEffectLineOff => 0x34,
            Instruction::TearingEffectLineOn => 0x35,
            Instruction::MemoryAccessControl => 0x36,
            Instruction::VerticalScrollingStartAddress => 0x37,
            Instruction::IdleModeOff => 0x38,
            Instruction::IdleModeOn => 0x39,
            Instruction::PixelFormatSet => 0x3A,
            Instruction::WriteMemoryContinue => 0x3C,
            Instruction::ReadMemoryContinue => 0x3E,
            Instruction::SetTearScanline => 0x44,
            Instruction::GetScanline => 0x45,
            Instruction::WriteDisplayBrightness => 0x51,
            Instruction::ReadDisplayBrightness => 0x52,
            Instruction::WriteCtrlDisplay => 0x53,
            Instruction::ReadCtrlDisplay => 0x54,
            Instruction::WriteCabc => 0x55,
            Instruction::ReadCabc => 0x56,
            Instruction::WriteCabcMinBrightness => 0x5E,
            Instruction::ReadCabcMinBrightness => 0x5F,
            Instruction::RgbInterfaceSignalControl => 0xB0,
            Instruction::Spi2DataControl => 0xB1,
            Instruction::TearingEffectControl => 0xB4,
            Instruction::BlankingPorchControl => 0xB5,
            Instruction::DisplayFunctionControl => 0xB6,
            Instruction::DualSingleGateSelect => 0xBF,
            Instruction::PowerControl1 => 0xC1,
            Instruction::PowerControl2 => 0xC3,
            Instruction::PowerControl3 => 0xC4,
            Instruction::PowerControl4 => 0xC9,
            Instruction::ReadId1 => 0xDA,
            Instruction::ReadId2 => 0xDB,
            Instruction::ReadId3 => 0xDC,
            Instruction::Inversion => 0xEC,
            Instruction::InterRegisterEnable2 => 0xEF,
            Instruction::SetGamma1 => 0xF0,
            Instruction::SetGamma2 => 0xF1,
            Instruction::SetGamma3 => 0xF2,
            Instruction::SetGamma4 => 0xF3,
            Instruction::InterfaceControl => 0xF6,
            Instruction::InterRegisterEnable1 => 0xFE,
            Instruction::Cmd80 => 0x80,
            Instruction::Cmd81 => 0x81,
            Instruction::Cmd82 => 0x82,
            Instruction::Cmd83 => 0x83,
            Instruction::Cmd84 => 0x84,
            Instruction::Cmd85 => 0x85,
            Instruction::Cmd86 => 0x86,
            Instruction::Cmd87 => 0x87,
            Instruction::Cmd88 => 0x88,
            Instruction::Cmd89 => 0x89,
            Instruction::Cmd8A => 0x8A,
            Instruction::Cmd8B => 0x8B,
            Instruction::Cmd8C => 0x8C,
            Instruction::Cmd8D => 0x8D,
            Instruction::Cmd8E => 0x8E,
            Instruction::Cmd8F => 0x8F,
            Instruction::Cmd7E => 0x7E,
            Instruction::Cmd74 => 0x74,
            Instruction::Cmd98 => 0x98,
            Instruction::Cmd99 => 0x99,
            Instruction::Cmd60 => 0x60,
            Instruction::Cmd63 => 0x63,
            Instruction::Cmd64 => 0x64,
            Instruction::Cmd66 => 0x66,
            Instruction::Cmd6A => 0x6A,
            Instruction::Cmd68 => 0x68,
            Instruction::Cmd6C => 0x6C,
            Instruction::Cmd6E => 0x6E,
            Instruction::CmdA9 => 0xA9,
            Instruction::CmdA8 => 0xA8,
            Instruction::CmdA7 => 0xA7,
            Instruction::CmdAD => 0xAD,
            Instruction::CmdAF => 0xAF,
            Instruction::CmdAC => 0xAC,
            Instruction::CmdA3 => 0xA3,
            Instruction::CmdCB => 0xCB,
            Instruction::CmdCD => 0xCD,
            Instruction::CmdC2 => 0xC2,
            Instruction::CmdC5 => 0xC5,
            Instruction::CmdC6 => 0xC6,
            Instruction::CmdC7 => 0xC7,
            Instruction::CmdC8 => 0xC8,
            Instruction::CmdF9 => 0xF9,
            Instruction::Cmd9B => 0x9B,
            Instruction::Cmd93 => 0x93,
            Instruction::Cmd70 => 0x70,
            Instruction::Cmd71 => 0x71,
            Instruction::Cmd91 => 0x91,
        }
    }

    /// The byte that stands for this command on the wire.
    pub fn opcode(self) -> (byte: u8)
        ensures
            byte == self.code(),
    {
        match self {
            Instruction::Nop => 0x00,
            Instruction::SwReset => 0x01,
            Instruction::ReadDisplayId => 0x04,
            Instruction::ReadDisplayStatus => 0x09,
            Instruction::ReadDisplayPowerMode => 0x0A,
            Instruction::ReadDisplayMadctl => 0x0B,
            Instruction::ReadDisplayPixelFormat => 0x0C,
            Instruction::ReadDisplayImageMode => 0x0D,
            Instruction::ReadDisplaySignalMode => 0x0E,
            Instruction::ReadDisplaySelfDiagnosticResult => 0x0F,
            Instruction::SleepIn => 0x10,
            Instruction::SleepOut => 0x11,
            Instruction::PartialModeOn => 0x12,
            Instruction::NormalDisplayOn => 0x13,
            Instruction::DisplayInversionOff => 0x20,
            Instruction::DisplayInversionOn => 0x21,
            Instruction::DisplayOff => 0x28,
            Instruction::DisplayOn => 0x29,
            Instruction::ColumnAddressSet => 0x2A,
            Instruction::RowAddressSet => 0x2B,
            Instruction::MemoryWrite => 0x2C,
            Instruction::MemoryRead => 0x2E,
            Instruction::PartialArea => 0x30,
            Instruction::VerticalScrollingDefinition => 0x33,
            Instruction::TearingEffectLineOff => 0x34,
            Instruction::TearingEffectLineOn => 0x35,
            Instruction::MemoryAccessControl => 0x36,
            Instruction::VerticalScrollingStartAddress => 0x37,
            Instruction::IdleModeOff => 0x38,
            Instruction::IdleModeOn => 0x39,
            Instruction::PixelFormatSet => 0x3A,
            Instruction::WriteMemoryContinue => 0x3C,
            Instruction::ReadMemoryContinue => 0x3E,
            Instruction::SetTearScanline => 0x44,
            Instruction::GetScanline => 0x45,
            Instruction::WriteDisplayBrightness => 0x51,
            Instruction::ReadDisplayBrightness => 0x52,
            Instruction::WriteCtrlDisplay => 0x53,
            Instruction::ReadCtrlDisplay => 0x54,
            Instruction::WriteCabc => 0x55,
            Instruction::ReadCabc => 0x56,
            Instruction::WriteCabcMinBrightness => 0x5E,
            Instruction::ReadCabcMinBrightness => 0x5F,
            Instruction::RgbInterfaceSignalControl => 0xB0,
            Instruction::Spi2DataControl => 0xB1,
            Instruction::TearingEffectControl => 0xB4,
            Instruction::BlankingPorchControl => 0xB5,
            Instruction::DisplayFunctionControl => 0xB6,
            Instruction::DualSingleGateSelect => 0xBF,
            Instruction::PowerControl1 => 0xC1,
            Instruction::PowerControl2 => 0xC3,
            Instruction::PowerControl3 => 0xC4,
            Instruction::PowerControl4 => 0xC9,
            Instruction::ReadId1 => 0xDA,
            Instruction::ReadId2 => 0xDB,
            Instruction::ReadId3 => 0xDC,
            Instruction::Inversion => 0xEC,
            Instruction::InterRegisterEnable2 => 0xEF,
            Instruction::SetGamma1 => 0xF0,
            Instruction::SetGamma2 => 0xF1,
            Instruction::SetGamma3 => 0xF2,
            Instruction::SetGamma4 => 0xF3,
            Instruction::InterfaceControl => 0xF6,
            Instruction::InterRegisterEnable1 => 0xFE,
            Instruction::Cmd80 => 0x80,
            Instruction::Cmd81 => 0x81,
            Instruction::Cmd82 => 0x82,
            Instruction::Cmd83 => 0x83,
            Instruction::Cmd84 => 0x84,
            Instruction::Cmd85 => 0x85,
            Instruction::Cmd86 => 0x86,
            Instruction::Cmd87 => 0x87,
            Instruction::Cmd88 => 0x88,
            Instruction::Cmd89 => 0x89,
            Instruction::Cmd8A => 0x8A,
            Instruction::Cmd8B => 0x8B,
            Instruction::Cmd8C => 0x8C,
            Instruction::Cmd8D => 0x8D,
            Instruction::Cmd8E => 0x8E,
            Instruction::Cmd8F => 0x8F,
            Instruction::Cmd7E => 0x7E,
            Instruction::Cmd74 => 0x74,
            Instruction::Cmd98 => 0x98,
            Instruction::Cmd99 => 0x99,
            Instruction::Cmd60 => 0x60,
            Instruction::Cmd63 => 0x63,
            Instruction::Cmd64 => 0x64,
            Instruction::Cmd66 => 0x66,
            Instruction::Cmd6A => 0x6A,
            Instruction::Cmd68 => 0x68,
            Instruction::Cmd6C => 0x6C,
            Instruction::Cmd6E => 0x6E,
            Instruction::CmdA9 => 0xA9,
            Instruction::CmdA8 => 0xA8,
            Instruction::CmdA7 => 0xA7,
            Instruction::CmdAD => 0xAD,
            Instruction::CmdAF => 0xAF,
            Instruction::CmdAC => 0xAC,
            Instruction::CmdA3 => 0xA3,
            Instruction::CmdCB => 0xCB,
            Instruction::CmdCD => 0xCD,
            Instruction::CmdC2 => 0xC2,
            Instruction::CmdC5 => 0xC5,
            Instruction::CmdC6 => 0xC6,
            Instruction::CmdC7 => 0xC7,
            Instruction::CmdC8 => 0xC8,
            Instruction::CmdF9 => 0xF9,
            Instruction::Cmd9B => 0x9B,
            Instruction::Cmd93 => 0x93,
            Instruction::Cmd70 => 0x70,
            Instruction::Cmd71 => 0x71,
            Instruction::Cmd91 => 0x91,
        }
    }
}

} // verus!
