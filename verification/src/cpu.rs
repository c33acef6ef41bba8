//! The three-stage pipelined CPU: microcode decoding, the ALU with its flag
//! model, the register file with PC/RA renaming, and the per-tick data flow.

use crate::device::{Audio, Controler, Lcd, Memory, MemoryModel, Uart, UartModel, Vga, VgaModel};
use crate::device::UART_FIFO_DEPTH;
use vstd::arithmetic::div_mod::lemma_fundamental_div_mod_converse;
use vstd::prelude::*;

verus! {

/// Number of entries of each microcode ROM.
pub const PIPE_ROM_SIZE: usize = 0x8000;

/// Whether an operation that does not shift keeps the logical carry. The
/// stock wiring clears it.
pub const LOGICAL_CARRY_PRESERVE_JUMPER: bool = false;

/// The opcode that does nothing.
pub const NOP: u8 = 0;


/// One of the four general purpose registers, as the ALU buses select it.
#[derive(Debug, Clone, Copy, PartialEq, Eq, Structural)]
pub enum AluBusRegister {
    A,
    B,
    C,
    D,
}

impl AluBusRegister {
    /// The variant that the bit pattern `bits` stands for, if any.
    pub open spec fn spec_from_bits(bits: u8) -> Option<AluBusRegister> {
        if bits == 0 {
            Some(AluBusRegister::A)
        } else if bits == 1 {
            Some(AluBusRegister::B)
        } else if bits == 2 {
            Some(AluBusRegister::C)
        } else if bits == 3 {
            Some(AluBusRegister::D)
        } else {
            None
        }
    }

    /// The bit pattern of the variant.
    pub open spec fn spec_bits(self) -> u8 {
        match self {
            AluBusRegister::A => 0,
            AluBusRegister::B => 1,
            AluBusRegister::C => 2,
            AluBusRegister::D => 3,
        }
    }

    #[verifier::when_used_as_spec(spec_from_bits)]
    pub fn from_bits(bits: u8) -> (r: Option<AluBusRegister>)
        ensures
            r == Self::spec_from_bits(bits),
    {
        if bits == 0 {
            Some(AluBusRegister::A)
        } else if bits == 1 {
            Some(AluBusRegister::B)
        } else if bits == 2 {
            Some(AluBusRegister::C)
        } else if bits == 3 {
            Some(AluBusRegister::D)
        } else {
            None
        }
    }

    #[verifier::when_used_as_spec(spec_bits)]
    pub fn bits(self) -> (r: u8)
        ensures
            r == self.spec_bits(),
    {
        match self {
            AluBusRegister::A => 0,
            AluBusRegister::B => 1,
            AluBusRegister::C => 2,
            AluBusRegister::D => 3,
        }
    }
}

/// The operation that stage 1 prepares for the ALU.
#[derive(Debug, Clone, Copy, PartialEq, Eq, Structural)]
pub enum AluOp {
    Nop,
    Shl,
    Shr,
    Add,
    AddC,
    Inc,
    IncC,
    Sub,
    SubB,
    Dec,
    And,
    Or,
    Xor,
    Not,
    Clc,
}

impl AluOp {
    /// The variant that the bit pattern `bits` stands for, if any.
    pub open spec fn spec_from_bits(bits: u8) -> Option<AluOp> {
        if bits == 0 {
            Some(AluOp::Nop)
        } else if bits == 1 {
            Some(AluOp::Shl)
        } else if bits == 2 {
            Some(AluOp::Shr)
        } else if bits == 3 {
            Some(AluOp::Add)
        } else if bits == 4 {
            Some(AluOp::AddC)
        } else if bits == 5 {
            Some(AluOp::Inc)
        } else if bits == 6 {
            Some(AluOp::IncC)
        } else if bits == 7 {
            Some(AluOp::Sub)
        } else if bits == 8 {
            Some(AluOp::SubB)
        } else if bits == 9 {
            Some(AluOp::Dec)
        } else if bits == 10 {
            Some(AluOp::And)
        } else if bits == 11 {
            Some(AluOp::Or)
        } else if bits == 12 {
            Some(AluOp::Xor)
        } else if bits == 13 {
            Some(AluOp::Not)
        } else if bits == 14 {
            Some(AluOp::Clc)
        } else {
            None
        }
    }

    /// The bit pattern of the variant.
    pub open spec fn spec_bits(self) -> u8 {
        match self {
            AluOp::Nop => 0,
            AluOp::Shl => 1,
            AluOp::Shr => 2,
            AluOp::Add => 3,
            AluOp::AddC => 4,
            AluOp::Inc => 5,
            AluOp::IncC => 6,
            AluOp::Sub => 7,
            AluOp::SubB => 8,
            AluOp::Dec => 9,
            AluOp::And => 10,
            AluOp::Or => 11,
            AluOp::Xor => 12,
            AluOp::Not => 13,
            AluOp::Clc => 14,
        }
    }

    #[verifier::when_used_as_spec(spec_from_bits)]
    pub fn from_bits(bits: u8) -> (r: Option<AluOp>)
        ensures
            r == Self::spec_from_bits(bits),
    {
        if bits == 0 {
            Some(AluOp::Nop)
        } else if bits == 1 {
            Some(AluOp::Shl)
        } else if bits == 2 {
            Some(AluOp::Shr)
        } else if bits == 3 {
            Some(AluOp::Add)
        } else if bits == 4 {
            Some(AluOp::AddC)
        } else if bits == 5 {
            Some(AluOp::Inc)
        } else if bits == 6 {
            Some(AluOp::IncC)
        } else if bits == 7 {
            Some(AluOp::Sub)
        } else if bits == 8 {
            Some(AluOp::SubB)
        } else if bits == 9 {
            Some(AluOp::Dec)
        } else if bits == 10 {
            Some(AluOp::And)
        } else if bits == 11 {
            Some(AluOp::Or)
        } else if bits == 12 {
            Some(AluOp::Xor)
        } else if bits == 13 {
            Some(AluOp::Not)
        } else if bits == 14 {
            Some(AluOp::Clc)
        } else {
            None
        }
    }

    #[verifier::when_used_as_spec(spec_bits)]
    pub fn bits(self) -> (r: u8)
        ensures
            r == self.spec_bits(),
    {
        match self {
            AluOp::Nop => 0,
            AluOp::Shl => 1,
            AluOp::Shr => 2,
            AluOp::Add => 3,
            AluOp::AddC => 4,
            AluOp::Inc => 5,
            AluOp::IncC => 6,
            AluOp::Sub => 7,
            AluOp::SubB => 8,
            AluOp::Dec => 9,
            AluOp::And => 10,
            AluOp::Or => 11,
            AluOp::Xor => 12,
            AluOp::Not => 13,
            AluOp::Clc => 14,
        }
    }
}

/// A 16-bit register on the transfer bus.
#[derive(Debug, Clone, Copy, PartialEq, Eq, Structural)]
pub enum TransferBusRegister {
    Nothing,
    PcRa0,
    PcRa1,
    Sp,
    Si,
    Di,
    Tx,
}

impl TransferBusRegister {
    /// The variant that the bit pattern `bits` stands for, if any.
    pub open spec fn spec_from_bits(bits: u8) -> Option<TransferBusRegister> {
        if bits == 0 {
            Some(TransferBusRegister::Nothing)
        } else if bits == 1 {
            Some(TransferBusRegister::PcRa0)
        } else if bits == 2 {
            Some(TransferBusRegister::PcRa1)
        } else if bits == 3 {
            Some(TransferBusRegister::Sp)
        } else if bits == 4 {
            Some(TransferBusRegister::Si)
        } else if bits == 5 {
            Some(TransferBusRegister::Di)
        } else if bits == 6 {
            Some(TransferBusRegister::Tx)
        } else {
            None
        }
    }

    /// The bit pattern of the variant.
    pub open spec fn spec_bits(self) -> u8 {
        match self {
            TransferBusRegister::Nothing => 0,
            TransferBusRegister::PcRa0 => 1,
            TransferBusRegister::PcRa1 => 2,
            TransferBusRegister::Sp => 3,
            TransferBusRegister::Si => 4,
            TransferBusRegister::Di => 5,
            TransferBusRegister::Tx => 6,
        }
    }

    #[verifier::when_used_as_spec(spec_from_bits)]
    pub fn from_bits(bits: u8) -> (r: Option<TransferBusRegister>)
        ensures
            r == Self::spec_from_bits(bits),
    {
        if bits == 0 {
            Some(TransferBusRegister::Nothing)
        } else if bits == 1 {
            Some(TransferBusRegister::PcRa0)
        } else if bits == 2 {
            Some(TransferBusRegister::PcRa1)
        } else if bits == 3 {
            Some(TransferBusRegister::Sp)
        } else if bits == 4 {
            Some(TransferBusRegister::Si)
        } else if bits == 5 {
            Some(TransferBusRegister::Di)
        } else if bits == 6 {
            Some(TransferBusRegister::Tx)
        } else {
            None
        }
    }

    #[verifier::when_used_as_spec(spec_bits)]
    pub fn bits(self) -> (r: u8)
        ensures
            r == self.spec_bits(),
    {
        match self {
            TransferBusRegister::Nothing => 0,
            TransferBusRegister::PcRa0 => 1,
            TransferBusRegister::PcRa1 => 2,
            TransferBusRegister::Sp => 3,
            TransferBusRegister::Si => 4,
            TransferBusRegister::Di => 5,
            TransferBusRegister::Tx => 6,
        }
    }
}

/// The device that drives the main bus in stage 2.
#[derive(Debug, Clone, Copy, PartialEq, Eq, Structural)]
pub enum MainBusAssertDevice {
    Nothing,
    A,
    B,
    C,
    D,
    Constant,
    Tl,
    Th,
    AluResult,
    IoCntrl,
    IoVga,
    IoUartData,
    IoUartCtrl,
    IoLcdCommand,
    MemBridge,
}

impl MainBusAssertDevice {
    /// The variant that the bit pattern `bits` stands for, if any.
    pub open spec fn spec_from_bits(bits: u8) -> Option<MainBusAssertDevice> {
        if bits == 0 {
            Some(MainBusAssertDevice::Nothing)
        } else if bits == 1 {
            Some(MainBusAssertDevice::A)
        } else if bits == 2 {
            Some(MainBusAssertDevice::B)
        } else if bits == 3 {
            Some(MainBusAssertDevice::C)
        } else if bits == 4 {
            Some(MainBusAssertDevice::D)
        } else if bits == 5 {
            Some(MainBusAssertDevice::Constant)
        } else if bits == 6 {
            Some(MainBusAssertDevice::Tl)
        } else if bits == 7 {
            Some(MainBusAssertDevice::Th)
        } else if bits == 8 {
            Some(MainBusAssertDevice::AluResult)
        } else if bits == 9 {
            Some(MainBusAssertDevice::IoCntrl)
        } else if bits == 10 {
            Some(MainBusAssertDevice::IoVga)
        } else if bits == 11 {
            Some(MainBusAssertDevice::IoUartData)
        } else if bits == 12 {
            Some(MainBusAssertDevice::IoUartCtrl)
        } else if bits == 14 {
            Some(MainBusAssertDevice::IoLcdCommand)
        } else if bits == 15 {
            Some(MainBusAssertDevice::MemBridge)
        } else {
            None
        }
    }

    /// The bit pattern of the variant.
    pub open spec fn spec_bits(self) -> u8 {
        match self {
            MainBusAssertDevice::Nothing => 0,
            MainBusAssertDevice::A => 1,
            MainBusAssertDevice::B => 2,
            MainBusAssertDevice::C => 3,
            MainBusAssertDevice::D => 4,
            MainBusAssertDevice::Constant => 5,
            MainBusAssertDevice::Tl => 6,
            MainBusAssertDevice::Th => 7,
            MainBusAssertDevice::AluResult => 8,
            MainBusAssertDevice::IoCntrl => 9,
            MainBusAssertDevice::IoVga => 10,
            MainBusAssertDevice::IoUartData => 11,
            MainBusAssertDevice::IoUartCtrl => 12,
            MainBusAssertDevice::IoLcdCommand => 14,
            MainBusAssertDevice::MemBridge => 15,
        }
    }

    #[verifier::when_used_as_spec(spec_from_bits)]
    pub fn from_bits(bits: u8) -> (r: Option<MainBusAssertDevice>)
        ensures
            r == Self::spec_from_bits(bits),
    {
        if bits == 0 {
            Some(MainBusAssertDevice::Nothing)
        } else if bits == 1 {
            Some(MainBusAssertDevice::A)
        } else if bits == 2 {
            Some(MainBusAssertDevice::B)
        } else if bits == 3 {
            Some(MainBusAssertDevice::C)
        } else if bits == 4 {
            Some(MainBusAssertDevice::D)
        } else if bits == 5 {
            Some(MainBusAssertDevice::Constant)
        } else if bits == 6 {
            Some(MainBusAssertDevice::Tl)
        } else if bits == 7 {
            Some(MainBusAssertDevice::Th)
        } else if bits == 8 {
            Some(MainBusAssertDevice::AluResult)
        } else if bits == 9 {
            Some(MainBusAssertDevice::IoCntrl)
        } else if bits == 10 {
            Some(MainBusAssertDevice::IoVga)
        } else if bits == 11 {
            Some(MainBusAssertDevice::IoUartData)
        } else if bits == 12 {
            Some(MainBusAssertDevice::IoUartCtrl)
        } else if bits == 14 {
            Some(MainBusAssertDevice::IoLcdCommand)
        } else if bits == 15 {
            Some(MainBusAssertDevice::MemBridge)
        } else {
            None
        }
    }

    #[verifier::when_used_as_spec(spec_bits)]
    pub fn bits(self) -> (r: u8)
        ensures
            r == self.spec_bits(),
    {
        match self {
            MainBusAssertDevice::Nothing => 0,
            MainBusAssertDevice::A => 1,
            MainBusAssertDevice::B => 2,
            MainBusAssertDevice::C => 3,
            MainBusAssertDevice::D => 4,
            MainBusAssertDevice::Constant => 5,
            MainBusAssertDevice::Tl => 6,
            MainBusAssertDevice::Th => 7,
            MainBusAssertDevice::AluResult => 8,
            MainBusAssertDevice::IoCntrl => 9,
            MainBusAssertDevice::IoVga => 10,
            MainBusAssertDevice::IoUartData => 11,
            MainBusAssertDevice::IoUartCtrl => 12,
            MainBusAssertDevice::IoLcdCommand => 14,
            MainBusAssertDevice::MemBridge => 15,
        }
    }
}

/// The device that takes the main bus value in stage 2.
#[derive(Debug, Clone, Copy, PartialEq, Eq, Structural)]
pub enum MainBusLoadDevice {
    Nothing,
    A,
    B,
    C,
    D,
    Constant,
    Tl,
    Th,
    IoAudioData,
    IoVga,
    IoUartData,
    IoUartCtrl,
    IoLcdData,
    IoLcdCommand,
    MemBridge,
}

impl MainBusLoadDevice {
    /// The variant that the bit pattern `bits` stands for, if any.
    pub open spec fn spec_from_bits(bits: u8) -> Option<MainBusLoadDevice> {
        if bits == 0 {
            Some(MainBusLoadDevice::Nothing)
        } else if bits == 1 {
            Some(MainBusLoadDevice::A)
        } else if bits == 2 {
            Some(MainBusLoadDevice::B)
        } else if bits == 3 {
            Some(MainBusLoadDevice::C)
        } else if bits == 4 {
            Some(MainBusLoadDevice::D)
        } else if bits == 5 {
            Some(MainBusLoadDevice::Constant)
        } else if bits == 6 {
            Some(MainBusLoadDevice::Tl)
        } else if bits == 7 {
            Some(MainBusLoadDevice::Th)
        } else if bits == 9 {
            Some(MainBusLoadDevice::IoAudioData)
        } else if bits == 10 {
            Some(MainBusLoadDevice::IoVga)
        } else if bits == 11 {
            Some(MainBusLoadDevice::IoUartData)
        } else if bits == 12 {
            Some(MainBusLoadDevice::IoUartCtrl)
        } else if bits == 13 {
            Some(MainBusLoadDevice::IoLcdData)
        } else if bits == 14 {
            Some(MainBusLoadDevice::IoLcdCommand)
        } else if bits == 15 {
            Some(MainBusLoadDevice::MemBridge)
        } else {
            None
        }
    }

    /// The bit pattern of the variant.
    pub open spec fn spec_bits(self) -> u8 {
        match self {
            MainBusLoadDevice::Nothing => 0,
            MainBusLoadDevice::A => 1,
            MainBusLoadDevice::B => 2,
            MainBusLoadDevice::C => 3,
            MainBusLoadDevice::D => 4,
            MainBusLoadDevice::Constant => 5,
            MainBusLoadDevice::Tl => 6,
            MainBusLoadDevice::Th => 7,
            MainBusLoadDevice::IoAudioData => 9,
            MainBusLoadDevice::IoVga => 10,
            MainBusLoadDevice::IoUartData => 11,
            MainBusLoadDevice::IoUartCtrl => 12,
            MainBusLoadDevice::IoLcdData => 13,
            MainBusLoadDevice::IoLcdCommand => 14,
            MainBusLoadDevice::MemBridge => 15,
        }
    }

    #[verifier::when_used_as_spec(spec_from_bits)]
    pub fn from_bits(bits: u8) -> (r: Option<MainBusLoadDevice>)
        ensures
            r == Self::spec_from_bits(bits),
    {
        if bits == 0 {
            Some(MainBusLoadDevice::Nothing)
        } else if bits == 1 {
            Some(MainBusLoadDevice::A)
        } else if bits == 2 {
            Some(MainBusLoadDevice::B)
        } else if bits == 3 {
            Some(MainBusLoadDevice::C)
        } else if bits == 4 {
            Some(MainBusLoadDevice::D)
        } else if bits == 5 {
            Some(MainBusLoadDevice::Constant)
        } else if bits == 6 {
            Some(MainBusLoadDevice::Tl)
        } else if bits == 7 {
            Some(MainBusLoadDevice::Th)
        } else if bits == 9 {
            Some(MainBusLoadDevice::IoAudioData)
        } else if bits == 10 {
            Some(MainBusLoadDevice::IoVga)
        } else if bits == 11 {
            Some(MainBusLoadDevice::IoUartData)
        } else if bits == 12 {
            Some(MainBusLoadDevice::IoUartCtrl)
        } else if bits == 13 {
            Some(MainBusLoadDevice::IoLcdData)
        } else if bits == 14 {
            Some(MainBusLoadDevice::IoLcdCommand)
        } else if bits == 15 {
            Some(MainBusLoadDevice::MemBridge)
        } else {
            None
        }
    }

    #[verifier::when_used_as_spec(spec_bits)]
    pub fn bits(self) -> (r: u8)
        ensures
            r == self.spec_bits(),
    {
        match self {
            MainBusLoadDevice::Nothing => 0,
            MainBusLoadDevice::A => 1,
            MainBusLoadDevice::B => 2,
            MainBusLoadDevice::C => 3,
            MainBusLoadDevice::D => 4,
            MainBusLoadDevice::Constant => 5,
            MainBusLoadDevice::Tl => 6,
            MainBusLoadDevice::Th => 7,
            MainBusLoadDevice::IoAudioData => 9,
            MainBusLoadDevice::IoVga => 10,
            MainBusLoadDevice::IoUartData => 11,
            MainBusLoadDevice::IoUartCtrl => 12,
            MainBusLoadDevice::IoLcdData => 13,
            MainBusLoadDevice::IoLcdCommand => 14,
            MainBusLoadDevice::MemBridge => 15,
        }
    }
}

/// The register that stage 2 increments.
#[derive(Debug, Clone, Copy, PartialEq, Eq, Structural)]
pub enum IncrementRegister {
    Nothing,
    Sp,
    Si,
    Di,
}

impl IncrementRegister {
    /// The variant that the bit pattern `bits` stands for, if any.
    pub open spec fn spec_from_bits(bits: u8) -> Option<IncrementRegister> {
        if bits == 0 {
            Some(IncrementRegister::Nothing)
        } else if bits == 1 {
            Some(IncrementRegister::Sp)
        } else if bits == 2 {
            Some(IncrementRegister::Si)
        } else if bits == 3 {
            Some(IncrementRegister::Di)
        } else {
            None
        }
    }

    /// The bit pattern of the variant.
    pub open spec fn spec_bits(self) -> u8 {
        match self {
            IncrementRegister::Nothing => 0,
            IncrementRegister::Sp => 1,
            IncrementRegister::Si => 2,
            IncrementRegister::Di => 3,
        }
    }

    #[verifier::when_used_as_spec(spec_from_bits)]
    pub fn from_bits(bits: u8) -> (r: Option<IncrementRegister>)
        ensures
            r == Self::spec_from_bits(bits),
    {
        if bits == 0 {
            Some(IncrementRegister::Nothing)
        } else if bits == 1 {
            Some(IncrementRegister::Sp)
        } else if bits == 2 {
            Some(IncrementRegister::Si)
        } else if bits == 3 {
            Some(IncrementRegister::Di)
        } else {
            None
        }
    }

    #[verifier::when_used_as_spec(spec_bits)]
    pub fn bits(self) -> (r: u8)
        ensures
            r == self.spec_bits(),
    {
        match self {
            IncrementRegister::Nothing => 0,
            IncrementRegister::Sp => 1,
            IncrementRegister::Si => 2,
            IncrementRegister::Di => 3,
        }
    }
}

/// The register that drives the address bus in stage 2.
#[derive(Debug, Clone, Copy, PartialEq, Eq, Structural)]
pub enum AddressBusRegister {
    Nothing,
    PcRa0,
    PcRa1,
    Sp,
    Si,
    Di,
    Tx,
}

impl AddressBusRegister {
    /// The variant that the bit pattern `bits` stands for, if any.
    pub open spec fn spec_from_bits(bits: u8) -> Option<AddressBusRegister> {
        if bits == 0 {
            Some(AddressBusRegister::Nothing)
        } else if bits == 1 {
            Some(AddressBusRegister::PcRa0)
        } else if bits == 2 {
            Some(AddressBusRegister::PcRa1)
        } else if bits == 3 {
            Some(AddressBusRegister::Sp)
        } else if bits == 4 {
            Some(AddressBusRegister::Si)
        } else if bits == 5 {
            Some(AddressBusRegister::Di)
        } else if bits == 6 {
            Some(AddressBusRegister::Tx)
        } else {
            None
        }
    }

    /// The bit pattern of the variant.
    pub open spec fn spec_bits(self) -> u8 {
        match self {
            AddressBusRegister::Nothing => 0,
            AddressBusRegister::PcRa0 => 1,
            AddressBusRegister::PcRa1 => 2,
            AddressBusRegister::Sp => 3,
            AddressBusRegister::Si => 4,
            AddressBusRegister::Di => 5,
            AddressBusRegister::Tx => 6,
        }
    }

    #[verifier::when_used_as_spec(spec_from_bits)]
    pub fn from_bits(bits: u8) -> (r: Option<AddressBusRegister>)
        ensures
            r == Self::spec_from_bits(bits),
    {
        if bits == 0 {
            Some(AddressBusRegister::Nothing)
        } else if bits == 1 {
            Some(AddressBusRegister::PcRa0)
        } else if bits == 2 {
            Some(AddressBusRegister::PcRa1)
        } else if bits == 3 {
            Some(AddressBusRegister::Sp)
        } else if bits == 4 {
            Some(AddressBusRegister::Si)
        } else if bits == 5 {
            Some(AddressBusRegister::Di)
        } else if bits == 6 {
            Some(AddressBusRegister::Tx)
        } else {
            None
        }
    }

    #[verifier::when_used_as_spec(spec_bits)]
    pub fn bits(self) -> (r: u8)
        ensures
            r == self.spec_bits(),
    {
        match self {
            AddressBusRegister::Nothing => 0,
            AddressBusRegister::PcRa0 => 1,
            AddressBusRegister::PcRa1 => 2,
            AddressBusRegister::Sp => 3,
            AddressBusRegister::Si => 4,
            AddressBusRegister::Di => 5,
            AddressBusRegister::Tx => 6,
        }
    }
}

/// Every variant is found again from its bit pattern.
pub proof fn lemma_alu_bus_register_round_trip(x: AluBusRegister)
    ensures
        AluBusRegister::spec_from_bits(x.spec_bits()) == Some(x),
        x.spec_bits() < 16,
{
}

/// Every variant is found again from its bit pattern.
pub proof fn lemma_alu_op_round_trip(x: AluOp)
    ensures
        AluOp::spec_from_bits(x.spec_bits()) == Some(x),
        x.spec_bits() < 16,
{
}

/// Every variant is found again from its bit pattern.
pub proof fn lemma_transfer_bus_register_round_trip(x: TransferBusRegister)
    ensures
        TransferBusRegister::spec_from_bits(x.spec_bits()) == Some(x),
        x.spec_bits() < 16,
{
}

/// Every variant is found again from its bit pattern.
pub proof fn lemma_main_bus_assert_device_round_trip(x: MainBusAssertDevice)
    ensures
        MainBusAssertDevice::spec_from_bits(x.spec_bits()) == Some(x),
        x.spec_bits() < 16,
{
}

/// Every variant is found again from its bit pattern.
pub proof fn lemma_main_bus_load_device_round_trip(x: MainBusLoadDevice)
    ensures
        MainBusLoadDevice::spec_from_bits(x.spec_bits()) == Some(x),
        x.spec_bits() < 16,
{
}

/// Every variant is found again from its bit pattern.
pub proof fn lemma_increment_register_round_trip(x: IncrementRegister)
    ensures
        IncrementRegister::spec_from_bits(x.spec_bits()) == Some(x),
        x.spec_bits() < 16,
{
}

/// Every variant is found again from its bit pattern.
pub proof fn lemma_address_bus_register_round_trip(x: AddressBusRegister)
    ensures
        AddressBusRegister::spec_from_bits(x.spec_bits()) == Some(x),
        x.spec_bits() < 16,
{
}


/// A microcode field held a bit pattern that stands for nothing.
#[derive(Debug, Clone, Copy, PartialEq, Eq, Structural)]
pub struct InvalidBitPattern {
    /// The offending field value.
    pub invalid_bytes: u8,
}

/// Why a tick could not be carried out. The machine is left as it was.
#[derive(Debug, Clone, Copy, PartialEq, Eq, Structural)]
pub enum CpuError {
    /// The microcode for an instruction in the pipeline does not decode.
    InvalidBitPattern(InvalidBitPattern),
    /// Stage 2 would read from memory and write to memory in one cycle.
    MemoryBusConflict,
    /// The program writes to the UART while its transmit queue is full.
    UartTransmitOverflow,
}

/// The ALU and renaming flags.
#[derive(Debug, Clone, Copy, PartialEq, Eq, Structural)]
pub struct Flags {
    pub overflow: bool,
    pub sign: bool,
    pub zero: bool,
    /// The arithmetic carry.
    pub carry: bool,
    /// The carry of the shifter.
    pub logical_carry: bool,
    /// Whether the second PC/RA register currently is the program counter.
    pub pc_ra_flip: bool,
}

pub open spec fn bit(b: bool) -> int {
    if b {
        1
    } else {
        0
    }
}

impl Flags {
    pub open spec fn spec_empty() -> Flags {
        Flags {
            overflow: false,
            sign: false,
            zero: false,
            carry: false,
            logical_carry: false,
            pc_ra_flip: false,
        }
    }

    /// All flags clear.
    pub fn empty() -> (f: Self)
        ensures
            f == Self::spec_empty(),
    {
        Flags {
            overflow: false,
            sign: false,
            zero: false,
            carry: false,
            logical_carry: false,
            pc_ra_flip: false,
        }
    }

    /// The flags as the microcode ROMs see them: overflow in bit 0, then
    /// sign, zero, carry, logical carry and PC/RA flip.
    pub open spec fn spec_bits(self) -> u8 {
        (bit(self.overflow) + 2 * bit(self.sign) + 4 * bit(self.zero) + 8 * bit(self.carry) + 16
            * bit(self.logical_carry) + 32 * bit(self.pc_ra_flip)) as u8
    }

    #[verifier::when_used_as_spec(spec_bits)]
    pub fn bits(self) -> (r: u8)
        ensures
            r == self.spec_bits(),
            r < 64,
    {
        let mut r: u8 = 0;
        if self.overflow {
            r = r + 1;
        }
        if self.sign {
            r = r + 2;
        }
        if self.zero {
            r = r + 4;
        }
        if self.carry {
            r = r + 8;
        }
        if self.logical_carry {
            r = r + 16;
        }
        if self.pc_ra_flip {
            r = r + 32;
        }
        r
    }

    pub open spec fn spec_from_bits(bits: u8) -> Flags {
        Flags {
            overflow: bits % 2 == 1,
            sign: (bits / 2) % 2 == 1,
            zero: (bits / 4) % 2 == 1,
            carry: (bits / 8) % 2 == 1,
            logical_carry: (bits / 16) % 2 == 1,
            pc_ra_flip: (bits / 32) % 2 == 1,
        }
    }

    /// The flags that the low six bits of `bits` stand for.
    #[verifier::when_used_as_spec(spec_from_bits)]
    pub fn from_bits(bits: u8) -> (f: Self)
        ensures
            f == Self::spec_from_bits(bits),
    {
        Flags {
            overflow: bits % 2 == 1,
            sign: (bits / 2) % 2 == 1,
            zero: (bits / 4) % 2 == 1,
            carry: (bits / 8) % 2 == 1,
            logical_carry: (bits / 16) % 2 == 1,
            pc_ra_flip: (bits / 32) % 2 == 1,
        }
    }
}

/// Packing the flags into bits and unpacking them gives the flags back.
pub proof fn lemma_flags_round_trip(f: Flags)
    ensures
        Flags::spec_from_bits(f.spec_bits()) == f,
        f.spec_bits() < 64,
{
}

/// One of the sixteen branch conditions.
#[derive(Debug, Clone, Copy, PartialEq, Eq, Structural)]
pub enum Condition {
    Overflow,
    NotOverflow,
    Sign,
    NotSign,
    Zero,
    NotZero,
    Carry,
    NotCarry,
    NotAbove,
    Above,
    Less,
    GreaterOrEqual,
    LessOrEqual,
    Greater,
    LogicalCarry,
    NotLogicalCarry,
}

impl Condition {
    /// Whether a branch on this condition is taken under `flags`.
    pub open spec fn spec_holds(self, flags: Flags) -> bool {
        match self {
            Condition::Overflow => flags.overflow,
            Condition::NotOverflow => !flags.overflow,
            Condition::Sign => flags.sign,
            Condition::NotSign => !flags.sign,
            Condition::Zero => flags.zero,
            Condition::NotZero => !flags.zero,
            Condition::Carry => flags.carry,
            Condition::NotCarry => !flags.carry,
            Condition::NotAbove => flags.carry || flags.zero,
            Condition::Above => !flags.carry && !flags.zero,
            Condition::Less => flags.sign != flags.overflow,
            Condition::GreaterOrEqual => flags.sign == flags.overflow,
            Condition::LessOrEqual => flags.zero || flags.sign != flags.overflow,
            Condition::Greater => !flags.zero && flags.sign == flags.overflow,
            Condition::LogicalCarry => flags.logical_carry,
            Condition::NotLogicalCarry => !flags.logical_carry,
        }
    }

    #[verifier::when_used_as_spec(spec_holds)]
    pub fn holds(self, flags: Flags) -> (taken: bool)
        ensures
            taken == self.spec_holds(flags),
    {
        match self {
            Condition::Overflow => flags.overflow,
            Condition::NotOverflow => !flags.overflow,
            Condition::Sign => flags.sign,
            Condition::NotSign => !flags.sign,
            Condition::Zero => flags.zero,
            Condition::NotZero => !flags.zero,
            Condition::Carry => flags.carry,
            Condition::NotCarry => !flags.carry,
            Condition::NotAbove => flags.carry || flags.zero,
            Condition::Above => !flags.carry && !flags.zero,
            Condition::Less => flags.sign != flags.overflow,
            Condition::GreaterOrEqual => flags.sign == flags.overflow,
            Condition::LessOrEqual => flags.zero || flags.sign != flags.overflow,
            Condition::Greater => !flags.zero && flags.sign == flags.overflow,
            Condition::LogicalCarry => flags.logical_carry,
            Condition::NotLogicalCarry => !flags.logical_carry,
        }
    }

    /// The opposite condition.
    pub open spec fn spec_negated(self) -> Condition {
        match self {
            Condition::Overflow => Condition::NotOverflow,
            Condition::NotOverflow => Condition::Overflow,
            Condition::Sign => Condition::NotSign,
            Condition::NotSign => Condition::Sign,
            Condition::Zero => Condition::NotZero,
            Condition::NotZero => Condition::Zero,
            Condition::Carry => Condition::NotCarry,
            Condition::NotCarry => Condition::Carry,
            Condition::NotAbove => Condition::Above,
            Condition::Above => Condition::NotAbove,
            Condition::Less => Condition::GreaterOrEqual,
            Condition::GreaterOrEqual => Condition::Less,
            Condition::LessOrEqual => Condition::Greater,
            Condition::Greater => Condition::LessOrEqual,
            Condition::LogicalCarry => Condition::NotLogicalCarry,
            Condition::NotLogicalCarry => Condition::LogicalCarry,
        }
    }

    #[verifier::when_used_as_spec(spec_negated)]
    pub fn negated(self) -> (c: Condition)
        ensures
            c == self.spec_negated(),
    {
        match self {
            Condition::Overflow => Condition::NotOverflow,
            Condition::NotOverflow => Condition::Overflow,
            Condition::Sign => Condition::NotSign,
            Condition::NotSign => Condition::Sign,
            Condition::Zero => Condition::NotZero,
            Condition::NotZero => Condition::Zero,
            Condition::Carry => Condition::NotCarry,
            Condition::NotCarry => Condition::Carry,
            Condition::NotAbove => Condition::Above,
            Condition::Above => Condition::NotAbove,
            Condition::Less => Condition::GreaterOrEqual,
            Condition::GreaterOrEqual => Condition::Less,
            Condition::LessOrEqual => Condition::Greater,
            Condition::Greater => Condition::LessOrEqual,
            Condition::LogicalCarry => Condition::NotLogicalCarry,
            Condition::NotLogicalCarry => Condition::LogicalCarry,
        }
    }

    /// The opcode of the jump on this condition.
    pub open spec fn spec_opcode(self) -> u8 {
        match self {
            Condition::Overflow => 0x61,
            Condition::NotOverflow => 0x62,
            Condition::Sign => 0x63,
            Condition::NotSign => 0x64,
            Condition::Zero => 0x65,
            Condition::NotZero => 0x66,
            Condition::Carry => 0x67,
            Condition::NotCarry => 0x68,
            Condition::NotAbove => 0x69,
            Condition::Above => 0x6A,
            Condition::Less => 0x6B,
            Condition::GreaterOrEqual => 0x6C,
            Condition::LessOrEqual => 0x6D,
            Condition::Greater => 0x6E,
            Condition::LogicalCarry => 0x6F,
            Condition::NotLogicalCarry => 0x70,
        }
    }

    #[verifier::when_used_as_spec(spec_opcode)]
    pub fn opcode(self) -> (r: u8)
        ensures
            r == self.spec_opcode(),
    {
        match self {
            Condition::Overflow => 0x61,
            Condition::NotOverflow => 0x62,
            Condition::Sign => 0x63,
            Condition::NotSign => 0x64,
            Condition::Zero => 0x65,
            Condition::NotZero => 0x66,
            Condition::Carry => 0x67,
            Condition::NotCarry => 0x68,
            Condition::NotAbove => 0x69,
            Condition::Above => 0x6A,
            Condition::Less => 0x6B,
            Condition::GreaterOrEqual => 0x6C,
            Condition::LessOrEqual => 0x6D,
            Condition::Greater => 0x6E,
            Condition::LogicalCarry => 0x6F,
            Condition::NotLogicalCarry => 0x70,
        }
    }

    /// The condition on which the instruction `opcode` jumps, if it is a
    /// conditional jump.
    pub open spec fn spec_from_opcode(opcode: u8) -> Option<Condition> {
        if opcode == 0x61 {
            Some(Condition::Overflow)
        } else if opcode == 0x62 {
            Some(Condition::NotOverflow)
        } else if opcode == 0x63 {
            Some(Condition::Sign)
        } else if opcode == 0x64 {
            Some(Condition::NotSign)
        } else if opcode == 0x65 {
            Some(Condition::Zero)
        } else if opcode == 0x66 {
            Some(Condition::NotZero)
        } else if opcode == 0x67 {
            Some(Condition::Carry)
        } else if opcode == 0x68 {
            Some(Condition::NotCarry)
        } else if opcode == 0x69 {
            Some(Condition::NotAbove)
        } else if opcode == 0x6A {
            Some(Condition::Above)
        } else if opcode == 0x6B {
            Some(Condition::Less)
        } else if opcode == 0x6C {
            Some(Condition::GreaterOrEqual)
        } else if opcode == 0x6D {
            Some(Condition::LessOrEqual)
        } else if opcode == 0x6E {
            Some(Condition::Greater)
        } else if opcode == 0x6F {
            Some(Condition::LogicalCarry)
        } else if opcode == 0x70 {
            Some(Condition::NotLogicalCarry)
        } else {
            None
        }
    }

    #[verifier::when_used_as_spec(spec_from_opcode)]
    pub fn from_opcode(opcode: u8) -> (r: Option<Condition>)
        ensures
            r == Self::spec_from_opcode(opcode),
    {
        if opcode == 0x61 {
            Some(Condition::Overflow)
        } else if opcode == 0x62 {
            Some(Condition::NotOverflow)
        } else if opcode == 0x63 {
            Some(Condition::Sign)
        } else if opcode == 0x64 {
            Some(Condition::NotSign)
        } else if opcode == 0x65 {
            Some(Condition::Zero)
        } else if opcode == 0x66 {
            Some(Condition::NotZero)
        } else if opcode == 0x67 {
            Some(Condition::Carry)
        } else if opcode == 0x68 {
            Some(Condition::NotCarry)
        } else if opcode == 0x69 {
            Some(Condition::NotAbove)
        } else if opcode == 0x6A {
            Some(Condition::Above)
        } else if opcode == 0x6B {
            Some(Condition::Less)
        } else if opcode == 0x6C {
            Some(Condition::GreaterOrEqual)
        } else if opcode == 0x6D {
            Some(Condition::LessOrEqual)
        } else if opcode == 0x6E {
            Some(Condition::Greater)
        } else if opcode == 0x6F {
            Some(Condition::LogicalCarry)
        } else if opcode == 0x70 {
            Some(Condition::NotLogicalCarry)
        } else {
            None
        }
    }
}

/// Under any flags exactly one of a condition and its opposite holds.
pub proof fn lemma_condition_negation(c: Condition, flags: Flags)
    ensures
        c.spec_negated().spec_holds(flags) == !c.spec_holds(flags),
        c.spec_negated().spec_negated() == c,
        Condition::spec_from_opcode(c.spec_opcode()) == Some(c),
{
}

/// What the four microcode bytes of one tick say, field by field.
#[derive(Debug, Clone, Copy, PartialEq, Eq, Structural)]
pub struct Control {
    /// ALU left-hand register (stage 1).
    pub lhs_bus_assert: AluBusRegister,
    /// ALU right-hand register (stage 1).
    pub rhs_bus_assert: AluBusRegister,
    /// ALU operation to prepare (stage 1).
    pub alu_op: AluOp,
    /// Target of the transfer bus, or the register to decrement when
    /// `load_constant` is set (stage 1).
    pub transfer_bus_load: TransferBusRegister,
    /// Turns the transfer target into a decrement target; with no target
    /// the fetched byte goes into the constant latch (stage 1).
    pub load_constant: bool,
    /// Source of the transfer bus; `None` while `load_constant` is set (stage 1).
    pub transfer_bus_assert: TransferBusRegister,
    /// Stage 1 keeps the fetch from happening.
    pub no_fetch: bool,
    pub main_bus_assert: MainBusAssertDevice,
    pub main_bus_load: MainBusLoadDevice,
    pub increment_register: IncrementRegister,
    pub address_bus_assert: AddressBusRegister,
    /// Stage 2 uses the memory bus: no fetch and no PC increment.
    pub bus_request: bool,
    /// Which of the two PC/RA registers is the program counter from now on.
    pub flip_pc_ra: bool,
    /// The instruction in stage 2 is a breakpoint.
    pub break_clock: bool,
}

impl Control {
    /// The bytes of the four ROMs decoded. Fields are checked in the order
    /// in which the tick uses them: address bus, main bus source, main bus
    /// target, ALU operation, then the transfer bus. The transfer source is
    /// not looked at while `load_constant` is set.
    pub open spec fn spec_decode(pipe_1a: u8, pipe_1b: u8, pipe_2a: u8, pipe_2b: u8) -> Result<
        Control,
        InvalidBitPattern,
    > {
        let address_bits = ((pipe_2b / 4) % 8) as u8;
        let assert_bits = (pipe_2a % 16) as u8;
        let load_bits = (pipe_2a / 16) as u8;
        let op_bits = (pipe_1a / 16) as u8;
        let transfer_load_bits = (pipe_1b % 8) as u8;
        let transfer_assert_bits = ((pipe_1b / 16) % 8) as u8;
        let load_constant = (pipe_1b / 8) % 2 == 1;
        if AddressBusRegister::spec_from_bits(address_bits).is_none() {
            Err(InvalidBitPattern { invalid_bytes: address_bits })
        } else if MainBusAssertDevice::spec_from_bits(assert_bits).is_none() {
            Err(InvalidBitPattern { invalid_bytes: assert_bits })
        } else if MainBusLoadDevice::spec_from_bits(load_bits).is_none() {
            Err(InvalidBitPattern { invalid_bytes: load_bits })
        } else if AluOp::spec_from_bits(op_bits).is_none() {
            Err(InvalidBitPattern { invalid_bytes: op_bits })
        } else if !load_constant && TransferBusRegister::spec_from_bits(
            transfer_assert_bits,
        ).is_none() {
            Err(InvalidBitPattern { invalid_bytes: transfer_assert_bits })
        } else if TransferBusRegister::spec_from_bits(transfer_load_bits).is_none() {
            Err(InvalidBitPattern { invalid_bytes: transfer_load_bits })
        } else {
            Ok(
                Control {
                    lhs_bus_assert: AluBusRegister::spec_from_bits((pipe_1a % 4) as u8).unwrap(),
                    rhs_bus_assert: AluBusRegister::spec_from_bits(
                        ((pipe_1a / 4) % 4) as u8,
                    ).unwrap(),
                    alu_op: AluOp::spec_from_bits(op_bits).unwrap(),
                    transfer_bus_load: TransferBusRegister::spec_from_bits(
                        transfer_load_bits,
                    ).unwrap(),
                    load_constant,
                    transfer_bus_assert: if load_constant {
                        TransferBusRegister::Nothing
                    } else {
                        TransferBusRegister::spec_from_bits(transfer_assert_bits).unwrap()
                    },
                    no_fetch: pipe_1b >= 128,
                    main_bus_assert: MainBusAssertDevice::spec_from_bits(assert_bits).unwrap(),
                    main_bus_load: MainBusLoadDevice::spec_from_bits(load_bits).unwrap(),
                    increment_register: IncrementRegister::spec_from_bits(
                        (pipe_2b % 4) as u8,
                    ).unwrap(),
                    address_bus_assert: AddressBusRegister::spec_from_bits(address_bits).unwrap(),
                    bus_request: (pipe_2b / 32) % 2 == 1,
                    flip_pc_ra: (pipe_2b / 64) % 2 == 1,
                    break_clock: pipe_2b >= 128,
                },
            )
        }
    }

    #[verifier::when_used_as_spec(spec_decode)]
    pub fn decode(pipe_1a: u8, pipe_1b: u8, pipe_2a: u8, pipe_2b: u8) -> (r: Result<
        Control,
        InvalidBitPattern,
    >)
        ensures
            r == Self::spec_decode(pipe_1a, pipe_1b, pipe_2a, pipe_2b),
    {
        let address_bits: u8 = (pipe_2b / 4) % 8;
        let assert_bits: u8 = pipe_2a % 16;
        let load_bits: u8 = pipe_2a / 16;
        let op_bits: u8 = pipe_1a / 16;
        let transfer_load_bits: u8 = pipe_1b % 8;
        let transfer_assert_bits: u8 = (pipe_1b / 16) % 8;
        let load_constant = (pipe_1b / 8) % 2 == 1;
        let address_bus_assert = match AddressBusRegister::from_bits(address_bits) {
            Some(v) => v,
            None => {
                return Err(InvalidBitPattern { invalid_bytes: address_bits });
            },
        };
        let main_bus_assert = match MainBusAssertDevice::from_bits(assert_bits) {
            Some(v) => v,
            None => {
                return Err(InvalidBitPattern { invalid_bytes: assert_bits });
            },
        };
        let main_bus_load = match MainBusLoadDevice::from_bits(load_bits) {
            Some(v) => v,
            None => {
                return Err(InvalidBitPattern { invalid_bytes: load_bits });
            },
        };
        let alu_op = match AluOp::from_bits(op_bits) {
            Some(v) => v,
            None => {
                return Err(InvalidBitPattern { invalid_bytes: op_bits });
            },
        };
        let transfer_bus_assert = if load_constant {
            TransferBusRegister::Nothing
        } else {
            match TransferBusRegister::from_bits(transfer_assert_bits) {
                Some(v) => v,
                None => {
                    return Err(InvalidBitPattern { invalid_bytes: transfer_assert_bits });
                },
            }
        };
        let transfer_bus_load = match TransferBusRegister::from_bits(transfer_load_bits) {
            Some(v) => v,
            None => {
                return Err(InvalidBitPattern { invalid_bytes: transfer_load_bits });
            },
        };
        let lhs_bus_assert = match AluBusRegister::from_bits(pipe_1a % 4) {
            Some(v) => v,
            None => AluBusRegister::A,
        };
        let rhs_bus_assert = match AluBusRegister::from_bits((pipe_1a / 4) % 4) {
            Some(v) => v,
            None => AluBusRegister::A,
        };
        let increment_register = match IncrementRegister::from_bits(pipe_2b % 4) {
            Some(v) => v,
            None => IncrementRegister::Nothing,
        };
        Ok(
            Control {
                lhs_bus_assert,
                rhs_bus_assert,
                alu_op,
                transfer_bus_load,
                load_constant,
                transfer_bus_assert,
                no_fetch: pipe_1b >= 128,
                main_bus_assert,
                main_bus_load,
                increment_register,
                address_bus_assert,
                bus_request: (pipe_2b / 32) % 2 == 1,
                flip_pc_ra: (pipe_2b / 64) % 2 == 1,
                break_clock: pipe_2b >= 128,
            },
        )
    }

    /// The byte of the first stage-1 ROM: left register in bits 0 and 1,
    /// right register in bits 2 and 3, operation in bits 4 to 7.
    pub open spec fn spec_pipe_1a(self) -> u8 {
        (self.lhs_bus_assert.spec_bits() + 4 * self.rhs_bus_assert.spec_bits() + 16
            * self.alu_op.spec_bits()) as u8
    }

    /// The byte of the second stage-1 ROM: transfer target in bits 0 to 2,
    /// `load_constant` in bit 3, transfer source in bits 4 to 6, `no_fetch`
    /// in bit 7.
    pub open spec fn spec_pipe_1b(self) -> u8 {
        (self.transfer_bus_load.spec_bits() + 8 * bit(self.load_constant) + 16
            * self.transfer_bus_assert.spec_bits() + 128 * bit(self.no_fetch)) as u8
    }

    /// The byte of the first stage-2 ROM: main bus source in the low
    /// nibble, main bus target in the high nibble.
    pub open spec fn spec_pipe_2a(self) -> u8 {
        (self.main_bus_assert.spec_bits() + 16 * self.main_bus_load.spec_bits()) as u8
    }

    /// The byte of the second stage-2 ROM: increment register in bits 0 and
    /// 1, address register in bits 2 to 4, then `bus_request`,
    /// `flip_pc_ra` and `break_clock`.
    pub open spec fn spec_pipe_2b(self) -> u8 {
        (self.increment_register.spec_bits() + 4 * self.address_bus_assert.spec_bits() + 32 * bit(
            self.bus_request,
        ) + 64 * bit(self.flip_pc_ra) + 128 * bit(self.break_clock)) as u8
    }

    #[verifier::when_used_as_spec(spec_pipe_1a)]
    pub fn pipe_1a(self) -> (r: u8)
        ensures
            r == self.spec_pipe_1a(),
    {
        self.lhs_bus_assert.bits() + 4 * self.rhs_bus_assert.bits() + 16 * self.alu_op.bits()
    }

    #[verifier::when_used_as_spec(spec_pipe_1b)]
    pub fn pipe_1b(self) -> (r: u8)
        ensures
            r == self.spec_pipe_1b(),
    {
        let load_constant: u8 = if self.load_constant {
            8
        } else {
            0
        };
        let no_fetch: u8 = if self.no_fetch {
            128
        } else {
            0
        };
        self.transfer_bus_load.bits() + load_constant + 16 * self.transfer_bus_assert.bits()
            + no_fetch
    }

    #[verifier::when_used_as_spec(spec_pipe_2a)]
    pub fn pipe_2a(self) -> (r: u8)
        ensures
            r == self.spec_pipe_2a(),
    {
        self.main_bus_assert.bits() + 16 * self.main_bus_load.bits()
    }

    #[verifier::when_used_as_spec(spec_pipe_2b)]
    pub fn pipe_2b(self) -> (r: u8)
        ensures
            r == self.spec_pipe_2b(),
    {
        let bus_request: u8 = if self.bus_request {
            32
        } else {
            0
        };
        let flip_pc_ra: u8 = if self.flip_pc_ra {
            64
        } else {
            0
        };
        let break_clock: u8 = if self.break_clock {
            128
        } else {
            0
        };
        self.increment_register.bits() + 4 * self.address_bus_assert.bits() + bus_request
            + flip_pc_ra + break_clock
    }

    pub open spec fn spec_nop(flip: bool) -> Control {
        Control {
            lhs_bus_assert: AluBusRegister::A,
            rhs_bus_assert: AluBusRegister::A,
            alu_op: AluOp::Nop,
            transfer_bus_load: TransferBusRegister::Nothing,
            load_constant: false,
            transfer_bus_assert: TransferBusRegister::Nothing,
            no_fetch: false,
            main_bus_assert: MainBusAssertDevice::Nothing,
            main_bus_load: MainBusLoadDevice::Nothing,
            increment_register: IncrementRegister::Nothing,
            address_bus_assert: if flip {
                AddressBusRegister::PcRa1
            } else {
                AddressBusRegister::PcRa0
            },
            bus_request: false,
            flip_pc_ra: flip,
            break_clock: false,
        }
    }

    /// The control word of an instruction that only lets the fetch go on:
    /// the program counter drives the address bus and keeps its role.
    pub fn nop(flip: bool) -> (c: Control)
        ensures
            c == Self::spec_nop(flip),
    {
        Control {
            lhs_bus_assert: AluBusRegister::A,
            rhs_bus_assert: AluBusRegister::A,
            alu_op: AluOp::Nop,
            transfer_bus_load: TransferBusRegister::Nothing,
            load_constant: false,
            transfer_bus_assert: TransferBusRegister::Nothing,
            no_fetch: false,
            main_bus_assert: MainBusAssertDevice::Nothing,
            main_bus_load: MainBusLoadDevice::Nothing,
            increment_register: IncrementRegister::Nothing,
            address_bus_assert: if flip {
                AddressBusRegister::PcRa1
            } else {
                AddressBusRegister::PcRa0
            },
            bus_request: false,
            flip_pc_ra: flip,
            break_clock: false,
        }
    }
}

proof fn lemma_pack_three(a: int, b: int, c: int)
    requires
        0 <= a < 4,
        0 <= b < 4,
        0 <= c,
    ensures
        (a + 4 * b + 16 * c) % 4 == a,
        ((a + 4 * b + 16 * c) / 4) % 4 == b,
        (a + 4 * b + 16 * c) / 16 == c,
{
    lemma_fundamental_div_mod_converse(a + 4 * b + 16 * c, 4, b + 4 * c, a);
    lemma_fundamental_div_mod_converse(b + 4 * c, 4, c, b);
    lemma_fundamental_div_mod_converse(a + 4 * b + 16 * c, 16, c, a + 4 * b);
}

proof fn lemma_pack_two(a: int, b: int)
    requires
        0 <= a < 16,
        0 <= b,
    ensures
        (a + 16 * b) % 16 == a,
        (a + 16 * b) / 16 == b,
{
    lemma_fundamental_div_mod_converse(a + 16 * b, 16, b, a);
}

proof fn lemma_pack_four(a: int, b: int, c: int, d: int)
    requires
        0 <= a < 8,
        0 <= b < 2,
        0 <= c < 8,
        0 <= d < 2,
    ensures
        (a + 8 * b + 16 * c + 128 * d) % 8 == a,
        ((a + 8 * b + 16 * c + 128 * d) / 8) % 2 == b,
        ((a + 8 * b + 16 * c + 128 * d) / 16) % 8 == c,
        (a + 8 * b + 16 * c + 128 * d >= 128) == (d == 1),
        a + 8 * b + 16 * c + 128 * d < 256,
{
    let x = a + 8 * b + 16 * c + 128 * d;
    lemma_fundamental_div_mod_converse(x, 8, b + 2 * c + 16 * d, a);
    lemma_fundamental_div_mod_converse(b + 2 * c + 16 * d, 2, c + 8 * d, b);
    lemma_fundamental_div_mod_converse(x, 16, c + 8 * d, a + 8 * b);
    lemma_fundamental_div_mod_converse(c + 8 * d, 8, d, c);
}

proof fn lemma_pack_five(a: int, b: int, c: int, d: int, e: int)
    requires
        0 <= a < 4,
        0 <= b < 8,
        0 <= c < 2,
        0 <= d < 2,
        0 <= e < 2,
    ensures
        (a + 4 * b + 32 * c + 64 * d + 128 * e) % 4 == a,
        ((a + 4 * b + 32 * c + 64 * d + 128 * e) / 4) % 8 == b,
        ((a + 4 * b + 32 * c + 64 * d + 128 * e) / 32) % 2 == c,
        ((a + 4 * b + 32 * c + 64 * d + 128 * e) / 64) % 2 == d,
        (a + 4 * b + 32 * c + 64 * d + 128 * e >= 128) == (e == 1),
        a + 4 * b + 32 * c + 64 * d + 128 * e < 256,
{
    let x = a + 4 * b + 32 * c + 64 * d + 128 * e;
    lemma_fundamental_div_mod_converse(x, 4, b + 8 * c + 16 * d + 32 * e, a);
    lemma_fundamental_div_mod_converse(b + 8 * c + 16 * d + 32 * e, 8, c + 2 * d + 4 * e, b);
    lemma_fundamental_div_mod_converse(x, 32, c + 2 * d + 4 * e, a + 4 * b);
    lemma_fundamental_div_mod_converse(c + 2 * d + 4 * e, 2, d + 2 * e, c);
    lemma_fundamental_div_mod_converse(x, 64, d + 2 * e, a + 4 * b + 32 * c);
    lemma_fundamental_div_mod_converse(d + 2 * e, 2, e, d);
}

proof fn lemma_round_trip_1a(c: Control)
    ensures
        AluBusRegister::spec_from_bits((c.spec_pipe_1a() % 4) as u8) == Some(c.lhs_bus_assert),
        AluBusRegister::spec_from_bits(((c.spec_pipe_1a() / 4) % 4) as u8) == Some(
            c.rhs_bus_assert,
        ),
        AluOp::spec_from_bits((c.spec_pipe_1a() / 16) as u8) == Some(c.alu_op),
{
    lemma_alu_bus_register_round_trip(c.lhs_bus_assert);
    lemma_alu_bus_register_round_trip(c.rhs_bus_assert);
    lemma_alu_op_round_trip(c.alu_op);
    let lhs = c.lhs_bus_assert.spec_bits();
    let rhs = c.rhs_bus_assert.spec_bits();
    let op = c.alu_op.spec_bits();
    assert(lhs < 4 && rhs < 4);
    lemma_pack_three(lhs as int, rhs as int, op as int);
}

proof fn lemma_round_trip_1b(c: Control)
    ensures
        TransferBusRegister::spec_from_bits((c.spec_pipe_1b() % 8) as u8) == Some(
            c.transfer_bus_load,
        ),
        TransferBusRegister::spec_from_bits(((c.spec_pipe_1b() / 16) % 8) as u8) == Some(
            c.transfer_bus_assert,
        ),
        ((c.spec_pipe_1b() / 8) % 2 == 1) == c.load_constant,
        (c.spec_pipe_1b() >= 128) == c.no_fetch,
{
    lemma_transfer_bus_register_round_trip(c.transfer_bus_load);
    lemma_transfer_bus_register_round_trip(c.transfer_bus_assert);
    let tl = c.transfer_bus_load.spec_bits();
    let ta = c.transfer_bus_assert.spec_bits();
    assert(tl < 8 && ta < 8);
    lemma_pack_four(tl as int, bit(c.load_constant), ta as int, bit(c.no_fetch));
}

proof fn lemma_round_trip_2a(c: Control)
    ensures
        MainBusAssertDevice::spec_from_bits((c.spec_pipe_2a() % 16) as u8) == Some(
            c.main_bus_assert,
        ),
        MainBusLoadDevice::spec_from_bits((c.spec_pipe_2a() / 16) as u8) == Some(c.main_bus_load),
{
    lemma_main_bus_assert_device_round_trip(c.main_bus_assert);
    lemma_main_bus_load_device_round_trip(c.main_bus_load);
    lemma_pack_two(c.main_bus_assert.spec_bits() as int, c.main_bus_load.spec_bits() as int);
}

proof fn lemma_round_trip_2b(c: Control)
    ensures
        IncrementRegister::spec_from_bits((c.spec_pipe_2b() % 4) as u8) == Some(
            c.increment_register,
        ),
        AddressBusRegister::spec_from_bits(((c.spec_pipe_2b() / 4) % 8) as u8) == Some(
            c.address_bus_assert,
        ),
        ((c.spec_pipe_2b() / 32) % 2 == 1) == c.bus_request,
        ((c.spec_pipe_2b() / 64) % 2 == 1) == c.flip_pc_ra,
        (c.spec_pipe_2b() >= 128) == c.break_clock,
{
    lemma_increment_register_round_trip(c.increment_register);
    lemma_address_bus_register_round_trip(c.address_bus_assert);
    let inc = c.increment_register.spec_bits();
    let ad = c.address_bus_assert.spec_bits();
    assert(inc < 4 && ad < 8);
    lemma_pack_five(
        inc as int,
        ad as int,
        bit(c.bus_request),
        bit(c.flip_pc_ra),
        bit(c.break_clock),
    );
}

/// A control word that names no transfer source while it loads the
/// constant survives being written to the ROMs and read back.
pub proof fn lemma_control_round_trip(c: Control)
    requires
        c.load_constant ==> c.transfer_bus_assert == TransferBusRegister::Nothing,
    ensures
        Control::spec_decode(c.spec_pipe_1a(), c.spec_pipe_1b(), c.spec_pipe_2a(), c.spec_pipe_2b())
            == Ok::<Control, InvalidBitPattern>(c),
{
    lemma_round_trip_1a(c);
    lemma_round_trip_1b(c);
    lemma_round_trip_2a(c);
    lemma_round_trip_2b(c);
}

/// The contents of the four microcode ROMs.
pub struct MicrocodeModel {
    pub pipe_1a: Seq<u8>,
    pub pipe_1b: Seq<u8>,
    pub pipe_2a: Seq<u8>,
    pub pipe_2b: Seq<u8>,
}

/// Where the ROMs hold the entry for `opcode` under the flags `flag_bits`:
/// the opcode in the low byte, above it the six flag bits and a set bit.
pub open spec fn spec_rom_address(flag_bits: u8, opcode: u8) -> int {
    (flag_bits % 64 + 64) * 256 + opcode
}

pub fn rom_address(flag_bits: u8, opcode: u8) -> (at: usize)
    ensures
        at == spec_rom_address(flag_bits, opcode),
        0x4000 <= at < PIPE_ROM_SIZE,
{
    ((flag_bits % 64) as usize + 64) * 256 + (opcode as usize)
}

impl MicrocodeModel {
    pub open spec fn wf(self) -> bool {
        &&& self.pipe_1a.len() == PIPE_ROM_SIZE
        &&& self.pipe_1b.len() == PIPE_ROM_SIZE
        &&& self.pipe_2a.len() == PIPE_ROM_SIZE
        &&& self.pipe_2b.len() == PIPE_ROM_SIZE
    }

    /// The control word of a tick that has `stage1` in stage 1 and `stage2`
    /// in stage 2 while the flags are `flag_bits`.
    pub open spec fn control(self, flag_bits: u8, stage1: u8, stage2: u8) -> Result<
        Control,
        InvalidBitPattern,
    > {
        let at1 = spec_rom_address(flag_bits, stage1);
        let at2 = spec_rom_address(flag_bits, stage2);
        Control::spec_decode(
            self.pipe_1a[at1],
            self.pipe_1b[at1],
            self.pipe_2a[at2],
            self.pipe_2b[at2],
        )
    }

    /// The ROMs after the entry for `opcode` under `flag_bits` is replaced.
    pub open spec fn with_entry(self, flag_bits: u8, opcode: u8, control: Control) -> MicrocodeModel {
        let at = spec_rom_address(flag_bits, opcode);
        MicrocodeModel {
            pipe_1a: self.pipe_1a.update(at, control.spec_pipe_1a()),
            pipe_1b: self.pipe_1b.update(at, control.spec_pipe_1b()),
            pipe_2a: self.pipe_2a.update(at, control.spec_pipe_2a()),
            pipe_2b: self.pipe_2b.update(at, control.spec_pipe_2b()),
        }
    }
}

/// The four microcode ROMs, 32 KiB each.
pub struct Microcode {
    pipe_1a: Vec<u8>,
    pipe_1b: Vec<u8>,
    pipe_2a: Vec<u8>,
    pipe_2b: Vec<u8>,
}

impl View for Microcode {
    type V = MicrocodeModel;

    closed spec fn view(&self) -> MicrocodeModel {
        MicrocodeModel {
            pipe_1a: self.pipe_1a@,
            pipe_1b: self.pipe_1b@,
            pipe_2a: self.pipe_2a@,
            pipe_2b: self.pipe_2b@,
        }
    }
}

impl Microcode {
    /// Every ROM has its full size.
    pub open spec fn wf(&self) -> bool {
        self@.wf()
    }

    /// Takes the four ROM images; `None` unless each is 32 KiB long.
    pub fn new(pipe_1a: Vec<u8>, pipe_1b: Vec<u8>, pipe_2a: Vec<u8>, pipe_2b: Vec<u8>) -> (r:
        Option<Self>)
        ensures
            r.is_some() <==> pipe_1a@.len() == PIPE_ROM_SIZE && pipe_1b@.len() == PIPE_ROM_SIZE
                && pipe_2a@.len() == PIPE_ROM_SIZE && pipe_2b@.len() == PIPE_ROM_SIZE,
            r.is_some() ==> r.unwrap().wf() && r.unwrap()@ == (MicrocodeModel {
                pipe_1a: pipe_1a@,
                pipe_1b: pipe_1b@,
                pipe_2a: pipe_2a@,
                pipe_2b: pipe_2b@,
            }),
    {
        if pipe_1a.len() == PIPE_ROM_SIZE && pipe_1b.len() == PIPE_ROM_SIZE && pipe_2a.len()
            == PIPE_ROM_SIZE && pipe_2b.len() == PIPE_ROM_SIZE {
            Some(Microcode { pipe_1a, pipe_1b, pipe_2a, pipe_2b })
        } else {
            None
        }
    }

    /// Replaces the entry for `opcode` under the flags `flag_bits`.
    pub fn set_entry(&mut self, flag_bits: u8, opcode: u8, control: Control)
        requires
            old(self).wf(),
        ensures
            final(self).wf(),
            final(self)@ == old(self)@.with_entry(flag_bits, opcode, control),
    {
        let at = rom_address(flag_bits, opcode);
        self.pipe_1a.set(at, control.pipe_1a());
        self.pipe_1b.set(at, control.pipe_1b());
        self.pipe_2a.set(at, control.pipe_2a());
        self.pipe_2b.set(at, control.pipe_2b());
    }

    /// Decodes the control word of a tick.
    pub fn control(&self, flag_bits: u8, stage1: u8, stage2: u8) -> (r: Result<
        Control,
        InvalidBitPattern,
    >)
        requires
            self.wf(),
        ensures
            r == self@.control(flag_bits, stage1, stage2),
    {
        let at1 = rom_address(flag_bits, stage1);
        let at2 = rom_address(flag_bits, stage2);
        Control::decode(self.pipe_1a[at1], self.pipe_1b[at1], self.pipe_2a[at2], self.pipe_2b[at2])
    }
}

/// An entry that was written is what the tick decodes, for stage 1 and
/// stage 2 alike.
pub proof fn lemma_entry_is_decoded(m: MicrocodeModel, flag_bits: u8, opcode: u8, c: Control)
    requires
        m.wf(),
        flag_bits < 64,
        c.load_constant ==> c.transfer_bus_assert == TransferBusRegister::Nothing,
    ensures
        m.with_entry(flag_bits, opcode, c).control(flag_bits, opcode, opcode) == Ok::<
            Control,
            InvalidBitPattern,
        >(c),
{
    lemma_control_round_trip(c);
}

/// How stage 1 prepares the left ALU input.
#[derive(Debug, Clone, Copy, PartialEq, Eq, Structural)]
pub enum AluLhsOp {
    Pass,
    ShiftLeft,
    ShiftRight,
    Zero,
}

/// How stage 1 prepares the right ALU input.
#[derive(Debug, Clone, Copy, PartialEq, Eq, Structural)]
pub enum AluRhsOp {
    PassRhs,
    NotRhs,
    Zero,
    One,
    And,
    Or,
    Xor,
}

impl AluLhsOp {
    pub open spec fn spec_from_op(op: AluOp) -> AluLhsOp {
        match op {
            AluOp::Shl => AluLhsOp::ShiftLeft,
            AluOp::Shr => AluLhsOp::ShiftRight,
            AluOp::Nop
            | AluOp::Add
            | AluOp::AddC
            | AluOp::Inc
            | AluOp::IncC
            | AluOp::Sub
            | AluOp::SubB
            | AluOp::Dec => AluLhsOp::Pass,
            AluOp::And | AluOp::Or | AluOp::Xor | AluOp::Not | AluOp::Clc => AluLhsOp::Zero,
        }
    }

    /// The left-hand preparation that `op` asks for.
    #[verifier::when_used_as_spec(spec_from_op)]
    pub fn from_op(op: AluOp) -> (r: AluLhsOp)
        ensures
            r == Self::spec_from_op(op),
    {
        match op {
            AluOp::Shl => AluLhsOp::ShiftLeft,
            AluOp::Shr => AluLhsOp::ShiftRight,
            AluOp::Nop
            | AluOp::Add
            | AluOp::AddC
            | AluOp::Inc
            | AluOp::IncC
            | AluOp::Sub
            | AluOp::SubB
            | AluOp::Dec => AluLhsOp::Pass,
            AluOp::And | AluOp::Or | AluOp::Xor | AluOp::Not | AluOp::Clc => AluLhsOp::Zero,
        }
    }
}

impl AluRhsOp {
    pub open spec fn spec_from_op(op: AluOp) -> AluRhsOp {
        match op {
            AluOp::And => AluRhsOp::And,
            AluOp::Or => AluRhsOp::Or,
            AluOp::Xor => AluRhsOp::Xor,
            AluOp::Dec => AluRhsOp::One,
            AluOp::Add | AluOp::AddC => AluRhsOp::PassRhs,
            AluOp::Sub | AluOp::SubB | AluOp::Not => AluRhsOp::NotRhs,
            AluOp::Nop | AluOp::Shl | AluOp::Shr | AluOp::Inc | AluOp::IncC | AluOp::Clc => {
                AluRhsOp::Zero
            },
        }
    }

    /// The right-hand preparation that `op` asks for.
    #[verifier::when_used_as_spec(spec_from_op)]
    pub fn from_op(op: AluOp) -> (r: AluRhsOp)
        ensures
            r == Self::spec_from_op(op),
    {
        match op {
            AluOp::And => AluRhsOp::And,
            AluOp::Or => AluRhsOp::Or,
            AluOp::Xor => AluRhsOp::Xor,
            AluOp::Dec => AluRhsOp::One,
            AluOp::Add | AluOp::AddC => AluRhsOp::PassRhs,
            AluOp::Sub | AluOp::SubB | AluOp::Not => AluRhsOp::NotRhs,
            AluOp::Nop | AluOp::Shl | AluOp::Shr | AluOp::Inc | AluOp::IncC | AluOp::Clc => {
                AluRhsOp::Zero
            },
        }
    }
}

/// The left ALU input and the new logical carry. A shift moves the old
/// logical carry in and the bit that falls out becomes the new one. Any
/// other operation keeps the logical carry only if the jumper says so.
pub open spec fn spec_execute_alu_lhs_op(lhs: u8, cl_in: bool, op: AluLhsOp) -> (u8, bool) {
    match op {
        AluLhsOp::Pass => (lhs, LOGICAL_CARRY_PRESERVE_JUMPER && cl_in),
        AluLhsOp::ShiftLeft => (((lhs * 2) % 256 + bit(cl_in)) as u8, lhs >= 128),
        AluLhsOp::ShiftRight => ((lhs / 2 + 128 * bit(cl_in)) as u8, lhs % 2 == 1),
        AluLhsOp::Zero => (0, LOGICAL_CARRY_PRESERVE_JUMPER && cl_in),
    }
}

#[verifier::when_used_as_spec(spec_execute_alu_lhs_op)]
pub fn execute_alu_lhs_op(lhs: u8, cl_in: bool, op: AluLhsOp) -> (r: (u8, bool))
    ensures
        r == spec_execute_alu_lhs_op(lhs, cl_in, op),
{
    match op {
        AluLhsOp::Pass => (lhs, LOGICAL_CARRY_PRESERVE_JUMPER && cl_in),
        AluLhsOp::ShiftLeft => {
            let shifted: u8 = ((lhs as u16 * 2) % 256) as u8;
            (
                if cl_in {
                    shifted + 1
                } else {
                    shifted
                },
                lhs >= 128,
            )
        },
        AluLhsOp::ShiftRight => (
            if cl_in {
                lhs / 2 + 128
            } else {
                lhs / 2
            },
            lhs % 2 == 1,
        ),
        AluLhsOp::Zero => (0, LOGICAL_CARRY_PRESERVE_JUMPER && cl_in),
    }
}

/// The right ALU input.
pub open spec fn spec_execute_alu_rhs_op(lhs: u8, rhs: u8, op: AluRhsOp) -> u8 {
    match op {
        AluRhsOp::PassRhs => rhs,
        AluRhsOp::NotRhs => (255 - rhs) as u8,
        AluRhsOp::Zero => 0,
        AluRhsOp::One => 0xFF,
        AluRhsOp::And => lhs & rhs,
        AluRhsOp::Or => lhs | rhs,
        AluRhsOp::Xor => lhs ^ rhs,
    }
}

#[verifier::when_used_as_spec(spec_execute_alu_rhs_op)]
pub fn execute_alu_rhs_op(lhs: u8, rhs: u8, op: AluRhsOp) -> (r: u8)
    ensures
        r == spec_execute_alu_rhs_op(lhs, rhs, op),
{
    match op {
        AluRhsOp::PassRhs => rhs,
        AluRhsOp::NotRhs => 255 - rhs,
        AluRhsOp::Zero => 0,
        AluRhsOp::One => 0xFF,
        AluRhsOp::And => lhs & rhs,
        AluRhsOp::Or => lhs | rhs,
        AluRhsOp::Xor => lhs ^ rhs,
    }
}

/// The carry that `op` feeds into the adder; `None` takes the carry flag.
pub open spec fn spec_get_ca_override(op: AluOp) -> Option<bool> {
    match op {
        AluOp::Nop
        | AluOp::Shl
        | AluOp::Shr
        | AluOp::Add
        | AluOp::Dec
        | AluOp::And
        | AluOp::Or
        | AluOp::Xor
        | AluOp::Not
        | AluOp::Clc => Some(false),
        AluOp::Inc | AluOp::Sub => Some(true),
        AluOp::AddC | AluOp::IncC | AluOp::SubB => None,
    }
}

#[verifier::when_used_as_spec(spec_get_ca_override)]
pub fn get_ca_override(op: AluOp) -> (r: Option<bool>)
    ensures
        r == spec_get_ca_override(op),
{
    match op {
        AluOp::Nop
        | AluOp::Shl
        | AluOp::Shr
        | AluOp::Add
        | AluOp::Dec
        | AluOp::And
        | AluOp::Or
        | AluOp::Xor
        | AluOp::Not
        | AluOp::Clc => Some(false),
        AluOp::Inc | AluOp::Sub => Some(true),
        AluOp::AddC | AluOp::IncC | AluOp::SubB => None,
    }
}

/// What the adder puts out.
#[derive(Debug, Clone, Copy, PartialEq, Eq, Structural)]
pub struct AluOutput {
    pub result: u8,
    pub carry: bool,
    pub zero: bool,
    pub sign: bool,
    pub overflow: bool,
}

/// The adder: `lhs + rhs + carry_in` in eight bits. Carry is the unsigned
/// overflow, zero and sign describe the result, and overflow says that two
/// inputs of one sign gave a result of the other.
pub open spec fn spec_alu_add(lhs: u8, rhs: u8, carry_in: bool) -> AluOutput {
    let sum = lhs + rhs + bit(carry_in);
    let result = (sum % 256) as u8;
    AluOutput {
        result,
        carry: sum >= 256,
        zero: result == 0,
        sign: result >= 128,
        overflow: ((lhs >= 128) == (rhs >= 128)) && ((lhs >= 128) != (result >= 128)),
    }
}

#[verifier::when_used_as_spec(spec_alu_add)]
pub fn alu_add(lhs: u8, rhs: u8, carry_in: bool) -> (out: AluOutput)
    ensures
        out == spec_alu_add(lhs, rhs, carry_in),
{
    let carry: u16 = if carry_in {
        1
    } else {
        0
    };
    let sum: u16 = lhs as u16 + rhs as u16 + carry;
    let result: u8 = (sum % 256) as u8;
    let lhs_sign = lhs >= 128;
    let rhs_sign = rhs >= 128;
    let sign = result >= 128;
    AluOutput {
        result,
        carry: sum >= 256,
        zero: result == 0,
        sign,
        overflow: (lhs_sign == rhs_sign) && (lhs_sign != sign),
    }
}

/// Whether stage 2 writes carry, zero, sign and overflow from the adder
/// after `op`. Shifts write the logical carry only, and that in stage 1.
pub open spec fn spec_writes_arithmetic_flags(op: AluOp) -> bool {
    match op {
        AluOp::Nop | AluOp::Shl | AluOp::Shr | AluOp::Clc => false,
        _ => true,
    }
}

#[verifier::when_used_as_spec(spec_writes_arithmetic_flags)]
pub fn writes_arithmetic_flags(op: AluOp) -> (r: bool)
    ensures
        r == spec_writes_arithmetic_flags(op),
{
    match op {
        AluOp::Nop | AluOp::Shl | AluOp::Shr | AluOp::Clc => false,
        _ => true,
    }
}

/// The registers, latches and pipeline of the CPU.
#[derive(Debug, Clone, Copy, PartialEq, Eq, Structural)]
pub struct Cpu {
    /// The program counter while `pc_ra_flip` is clear, else the return address.
    pub pc_ra_0: u16,
    /// The return address while `pc_ra_flip` is clear, else the program counter.
    pub pc_ra_1: u16,
    pub sp: u16,
    pub si: u16,
    pub di: u16,
    pub tx: u16,
    pub a: u8,
    pub b: u8,
    pub c: u8,
    pub d: u8,
    /// Latch for immediate operand bytes.
    pub constant: u8,
    /// Left ALU input as stage 1 prepared it.
    pub alu_lhs: u8,
    /// Right ALU input as stage 1 prepared it.
    pub alu_rhs: u8,
    /// Carry input as stage 1 chose it.
    pub ca_override: Option<bool>,
    /// The operation that stage 1 prepared and stage 2 has not yet
    /// accounted for in the flags.
    pub alu_pending: AluOp,
    pub flags: Flags,
    pub stage0_instruction: u8,
    pub stage1_instruction: u8,
    pub stage2_instruction: u8,
}

impl Cpu {
    pub open spec fn spec_new() -> Cpu {
        Cpu {
            pc_ra_0: 0,
            pc_ra_1: 0,
            sp: 0,
            si: 0,
            di: 0,
            tx: 0,
            a: 0,
            b: 0,
            c: 0,
            d: 0,
            constant: 0,
            alu_lhs: 0,
            alu_rhs: 0,
            ca_override: None,
            alu_pending: AluOp::Nop,
            flags: Flags::spec_empty(),
            stage0_instruction: NOP,
            stage1_instruction: NOP,
            stage2_instruction: NOP,
        }
    }

    /// A CPU with every register zero and an empty pipeline.
    pub fn new() -> (cpu: Self)
        ensures
            cpu == Self::spec_new(),
    {
        Cpu {
            pc_ra_0: 0,
            pc_ra_1: 0,
            sp: 0,
            si: 0,
            di: 0,
            tx: 0,
            a: 0,
            b: 0,
            c: 0,
            d: 0,
            constant: 0,
            alu_lhs: 0,
            alu_rhs: 0,
            ca_override: None,
            alu_pending: AluOp::Nop,
            flags: Flags::empty(),
            stage0_instruction: NOP,
            stage1_instruction: NOP,
            stage2_instruction: NOP,
        }
    }

    pub open spec fn spec_reset(self, pc: u16) -> Cpu {
        Cpu {
            pc_ra_0: pc,
            pc_ra_1: 0,
            sp: 0,
            si: 0,
            di: 0,
            constant: 0,
            alu_lhs: 0,
            alu_rhs: 0,
            ca_override: None,
            alu_pending: AluOp::Nop,
            flags: Flags::spec_empty(),
            stage0_instruction: NOP,
            stage1_instruction: NOP,
            stage2_instruction: NOP,
            ..self
        }
    }

    /// Starts over at `pc`: the index registers, the flags and the latches
    /// are cleared and the pipeline holds nothing. The general purpose
    /// registers and the transfer register keep their values.
    pub fn reset(&mut self, pc: u16)
        ensures
            *final(self) == old(self).spec_reset(pc),
            final(self).spec_pc() == pc,
    {
        self.pc_ra_0 = pc;
        self.pc_ra_1 = 0;
        self.sp = 0;
        self.si = 0;
        self.di = 0;
        self.constant = 0;
        self.alu_lhs = 0;
        self.alu_rhs = 0;
        self.ca_override = None;
        self.alu_pending = AluOp::Nop;
        self.flags = Flags::empty();
        self.stage0_instruction = NOP;
        self.stage1_instruction = NOP;
        self.stage2_instruction = NOP;
    }

    pub open spec fn spec_pc(self) -> u16 {
        if self.flags.pc_ra_flip {
            self.pc_ra_1
        } else {
            self.pc_ra_0
        }
    }

    pub open spec fn spec_ra(self) -> u16 {
        if self.flags.pc_ra_flip {
            self.pc_ra_0
        } else {
            self.pc_ra_1
        }
    }

    /// The program counter.
    pub fn pc(&self) -> (r: u16)
        ensures
            r == self.spec_pc(),
    {
        if self.flags.pc_ra_flip {
            self.pc_ra_1
        } else {
            self.pc_ra_0
        }
    }

    /// The return address.
    pub fn ra(&self) -> (r: u16)
        ensures
            r == self.spec_ra(),
    {
        if self.flags.pc_ra_flip {
            self.pc_ra_0
        } else {
            self.pc_ra_1
        }
    }

    pub open spec fn spec_tl(self) -> u8 {
        (self.tx % 256) as u8
    }

    pub open spec fn spec_th(self) -> u8 {
        (self.tx / 256) as u8
    }

    /// The low byte of the transfer register.
    pub fn tl(&self) -> (r: u8)
        ensures
            r == self.spec_tl(),
    {
        (self.tx % 256) as u8
    }

    /// The high byte of the transfer register.
    pub fn th(&self) -> (r: u8)
        ensures
            r == self.spec_th(),
    {
        (self.tx / 256) as u8
    }

    pub open spec fn with_pc_incremented(self) -> Cpu {
        if self.flags.pc_ra_flip {
            Cpu { pc_ra_1: ((self.pc_ra_1 + 1) % 0x10000) as u16, ..self }
        } else {
            Cpu { pc_ra_0: ((self.pc_ra_0 + 1) % 0x10000) as u16, ..self }
        }
    }

    pub open spec fn alu_bus_value(self, reg: AluBusRegister) -> u8 {
        match reg {
            AluBusRegister::A => self.a,
            AluBusRegister::B => self.b,
            AluBusRegister::C => self.c,
            AluBusRegister::D => self.d,
        }
    }

    pub open spec fn transfer_bus_value(self, reg: TransferBusRegister) -> u16 {
        match reg {
            TransferBusRegister::Nothing => 0,
            TransferBusRegister::PcRa0 => self.pc_ra_0,
            TransferBusRegister::PcRa1 => self.pc_ra_1,
            TransferBusRegister::Sp => self.sp,
            TransferBusRegister::Si => self.si,
            TransferBusRegister::Di => self.di,
            TransferBusRegister::Tx => self.tx,
        }
    }

    pub open spec fn with_transfer_register(self, reg: TransferBusRegister, value: u16) -> Cpu {
        match reg {
            TransferBusRegister::Nothing => self,
            TransferBusRegister::PcRa0 => Cpu { pc_ra_0: value, ..self },
            TransferBusRegister::PcRa1 => Cpu { pc_ra_1: value, ..self },
            TransferBusRegister::Sp => Cpu { sp: value, ..self },
            TransferBusRegister::Si => Cpu { si: value, ..self },
            TransferBusRegister::Di => Cpu { di: value, ..self },
            TransferBusRegister::Tx => Cpu { tx: value, ..self },
        }
    }

    /// The address that stage 2 puts on the bus.
    pub open spec fn bus_address(self, reg: AddressBusRegister) -> u16 {
        match reg {
            AddressBusRegister::Nothing => 0,
            AddressBusRegister::PcRa0 => self.pc_ra_0,
            AddressBusRegister::PcRa1 => self.pc_ra_1,
            AddressBusRegister::Sp => self.sp,
            AddressBusRegister::Si => self.si,
            AddressBusRegister::Di => self.di,
            AddressBusRegister::Tx => self.tx,
        }
    }

    /// What the adder puts out for the latched inputs.
    pub open spec fn alu_output(self) -> AluOutput {
        spec_alu_add(
            self.alu_lhs,
            self.alu_rhs,
            match self.ca_override {
                Some(carry) => carry,
                None => self.flags.carry,
            },
        )
    }

    /// The flags after stage 2 has accounted for the pending operation:
    /// an arithmetic or logic operation writes carry, zero, sign and
    /// overflow from the adder, `Clc` clears the four, anything else
    /// leaves them.
    pub open spec fn flags_after_alu(self) -> Flags {
        let out = self.alu_output();
        if spec_writes_arithmetic_flags(self.alu_pending) {
            Flags {
                carry: out.carry,
                zero: out.zero,
                sign: out.sign,
                overflow: out.overflow,
                ..self.flags
            }
        } else if self.alu_pending == AluOp::Clc {
            Flags { carry: false, zero: false, sign: false, overflow: false, ..self.flags }
        } else {
            self.flags
        }
    }

    /// What an internal device puts on the main bus; zero for the ports.
    pub open spec fn internal_bus_value(self, device: MainBusAssertDevice, mem_data: u8) -> u8 {
        match device {
            MainBusAssertDevice::A => self.a,
            MainBusAssertDevice::B => self.b,
            MainBusAssertDevice::C => self.c,
            MainBusAssertDevice::D => self.d,
            MainBusAssertDevice::Constant => self.constant,
            MainBusAssertDevice::Tl => self.spec_tl(),
            MainBusAssertDevice::Th => self.spec_th(),
            MainBusAssertDevice::AluResult => self.alu_output().result,
            MainBusAssertDevice::MemBridge => mem_data,
            _ => 0,
        }
    }

    pub open spec fn with_main_bus_loaded(self, device: MainBusLoadDevice, value: u8) -> Cpu {
        match device {
            MainBusLoadDevice::A => Cpu { a: value, ..self },
            MainBusLoadDevice::B => Cpu { b: value, ..self },
            MainBusLoadDevice::C => Cpu { c: value, ..self },
            MainBusLoadDevice::D => Cpu { d: value, ..self },
            MainBusLoadDevice::Constant => Cpu { constant: value, ..self },
            MainBusLoadDevice::Tl => Cpu { tx: ((self.tx / 256) * 256 + value) as u16, ..self },
            MainBusLoadDevice::Th => Cpu { tx: (value * 256 + self.tx % 256) as u16, ..self },
            _ => self,
        }
    }

    pub open spec fn with_incremented(self, reg: IncrementRegister) -> Cpu {
        match reg {
            IncrementRegister::Nothing => self,
            IncrementRegister::Sp => Cpu { sp: ((self.sp + 1) % 0x10000) as u16, ..self },
            IncrementRegister::Si => Cpu { si: ((self.si + 1) % 0x10000) as u16, ..self },
            IncrementRegister::Di => Cpu { di: ((self.di + 1) % 0x10000) as u16, ..self },
        }
    }

    /// The instructions move one stage on.
    pub open spec fn shifted(self) -> Cpu {
        Cpu {
            stage2_instruction: self.stage1_instruction,
            stage1_instruction: self.stage0_instruction,
            ..self
        }
    }

    /// Stage 2: the PC/RA roles are set, the pending ALU operation reaches
    /// the flags, the program counter steps on unless the memory bus is in
    /// use, the main bus value is stored, a register is incremented.
    pub open spec fn after_stage2(self, control: Control, main_bus: u8) -> Cpu {
        let renamed = Cpu {
            flags: Flags { pc_ra_flip: control.flip_pc_ra, ..self.flags_after_alu() },
            alu_pending: AluOp::Nop,
            ..self
        };
        let counted = if control.bus_request {
            renamed
        } else {
            renamed.with_pc_incremented()
        };
        counted.with_main_bus_loaded(control.main_bus_load, main_bus).with_incremented(
            control.increment_register,
        )
    }

    /// Stage 1: the ALU inputs are latched, then a register is decremented,
    /// the constant latch is filled or a register is copied over the
    /// transfer bus.
    pub open spec fn after_stage1(self, control: Control, mem_data: u8) -> Cpu {
        let lhs_bus = self.alu_bus_value(control.lhs_bus_assert);
        let rhs_bus = self.alu_bus_value(control.rhs_bus_assert);
        let (lhs_out, cl_out) = spec_execute_alu_lhs_op(
            lhs_bus,
            self.flags.logical_carry,
            AluLhsOp::spec_from_op(control.alu_op),
        );
        let rhs_out = spec_execute_alu_rhs_op(
            lhs_bus,
            rhs_bus,
            AluRhsOp::spec_from_op(control.alu_op),
        );
        let latched = if control.alu_op != AluOp::Nop {
            Cpu {
                alu_lhs: lhs_out,
                alu_rhs: rhs_out,
                flags: Flags { logical_carry: cl_out, ..self.flags },
                ca_override: spec_get_ca_override(control.alu_op),
                alu_pending: control.alu_op,
                ..self
            }
        } else {
            self
        };
        if control.load_constant {
            if control.transfer_bus_load == TransferBusRegister::Nothing {
                Cpu { constant: mem_data, ..latched }
            } else {
                latched.with_transfer_register(
                    control.transfer_bus_load,
                    ((latched.transfer_bus_value(control.transfer_bus_load) + 0xFFFF)
                        % 0x10000) as u16,
                )
            }
        } else {
            latched.with_transfer_register(
                control.transfer_bus_load,
                latched.transfer_bus_value(control.transfer_bus_assert),
            )
        }
    }

    /// Stage 0: the fetched byte enters the pipeline if neither stage
    /// objects. If one objects a NOP enters. If both object the
    /// instruction in stage 1 is fed in again.
    pub open spec fn after_stage0(self, control: Control, mem_data: u8) -> Cpu {
        let fetch_stage1 = !control.no_fetch;
        let fetch_stage2 = !control.bus_request;
        Cpu {
            stage0_instruction: if fetch_stage1 && fetch_stage2 {
                mem_data
            } else if fetch_stage1 || fetch_stage2 {
                NOP
            } else {
                self.stage1_instruction
            },
            ..self
        }
    }

    /// The CPU after one tick under `control`, with `mem_data` read at the
    /// bus address and `main_bus` on the main bus.
    pub open spec fn step(self, control: Control, mem_data: u8, main_bus: u8) -> Cpu {
        self.shifted().after_stage2(control, main_bus).after_stage1(control, mem_data).after_stage0(
            control,
            mem_data,
        )
    }

    /// The control word of the coming tick: the ROMs are addressed by the
    /// flags as they stand and by the instructions as they will stand once
    /// shifted.
    pub open spec fn control(self, rom: MicrocodeModel) -> Result<Control, InvalidBitPattern> {
        rom.control(self.flags.spec_bits(), self.stage0_instruction, self.stage1_instruction)
    }

    /// Why the coming tick fails, if it does.
    pub open spec fn clock_error(self, rom: MicrocodeModel, uart: UartModel) -> Option<CpuError> {
        match self.control(rom) {
            Err(pattern) => Some(CpuError::InvalidBitPattern(pattern)),
            Ok(control) => if control.main_bus_assert == MainBusAssertDevice::MemBridge
                && control.main_bus_load == MainBusLoadDevice::MemBridge {
                Some(CpuError::MemoryBusConflict)
            } else if control.main_bus_load == MainBusLoadDevice::IoUartData
                && uart.transmit.len() >= UART_FIFO_DEPTH {
                Some(CpuError::UartTransmitOverflow)
            } else {
                None
            },
        }
    }

    /// What is on the main bus in the coming tick.
    pub open spec fn main_bus(
        self,
        control: Control,
        mem_data: u8,
        uart: UartModel,
        vga: VgaModel,
        controler: Controler,
    ) -> u8 {
        match control.main_bus_assert {
            MainBusAssertDevice::IoCntrl => controler.data(),
            MainBusAssertDevice::IoVga => vga.status(),
            MainBusAssertDevice::IoUartData => uart.data(),
            MainBusAssertDevice::IoUartCtrl => uart.ctrl(),
            MainBusAssertDevice::IoLcdCommand => 0,
            device => self.internal_bus_value(device, mem_data),
        }
    }

    /// Advances the machine by one tick and says whether the instruction
    /// in stage 2 is a breakpoint. If the tick cannot be carried out the
    /// error says why and nothing has changed.
    pub fn clock(
        &mut self,
        rom: &Microcode,
        memory: &mut Memory,
        lcd: &mut Lcd,
        uart: &mut Uart,
        audio: &mut Audio,
        vga: &mut Vga,
        controler: &mut Controler,
    ) -> (r: Result<bool, CpuError>)
        requires
            rom.wf(),
            old(memory).wf(),
            old(uart).wf(),
            old(vga).wf(),
        ensures
            final(memory).wf(),
            final(uart).wf(),
            final(vga).wf(),
            final(uart)@.wf(),
            match old(self).clock_error(rom@, old(uart)@) {
                Some(error) => {
                    &&& r == Err::<bool, CpuError>(error)
                    &&& *final(self) == *old(self)
                    &&& final(memory)@ == old(memory)@
                    &&& *final(lcd) == *old(lcd)
                    &&& final(uart)@ == old(uart)@
                    &&& *final(audio) == *old(audio)
                    &&& final(vga)@ == old(vga)@
                    &&& *final(controler) == *old(controler)
                },
                None => {
                    let control = old(self).control(rom@).unwrap();
                    let address = old(self).bus_address(control.address_bus_assert);
                    let mem_data = old(memory)@.read(old(vga)@.scroll, address);
                    let main_bus = old(self).main_bus(
                        control,
                        mem_data,
                        old(uart)@,
                        old(vga)@,
                        *old(controler),
                    );
                    &&& r == Ok::<bool, CpuError>(control.break_clock)
                    &&& *final(self) == old(self).step(control, mem_data, main_bus)
                    &&& final(memory)@ == if control.main_bus_load == MainBusLoadDevice::MemBridge {
                        old(memory)@.write(address, main_bus)
                    } else {
                        old(memory)@
                    }
                    &&& final(vga)@ == if control.main_bus_load == MainBusLoadDevice::MemBridge {
                        VgaModel {
                            scroll: MemoryModel::write_scroll(old(vga)@.scroll, address, main_bus),
                            ..old(vga)@
                        }
                    } else {
                        old(vga)@
                    }
                    &&& final(uart)@ == if control.main_bus_assert
                        == MainBusAssertDevice::IoUartData {
                        if control.main_bus_load == MainBusLoadDevice::IoUartData {
                            old(uart)@.after_read_data().after_write_data(main_bus)
                        } else {
                            old(uart)@.after_read_data()
                        }
                    } else if control.main_bus_load == MainBusLoadDevice::IoUartData {
                        old(uart)@.after_write_data(main_bus)
                    } else {
                        old(uart)@
                    }
                    &&& *final(audio) == if control.main_bus_load == MainBusLoadDevice::IoAudioData {
                        old(audio).spec_write_data(main_bus)
                    } else {
                        *old(audio)
                    }
                    &&& *final(controler) == if control.main_bus_assert
                        == MainBusAssertDevice::IoCntrl {
                        old(controler).after_read()
                    } else {
                        *old(controler)
                    }
                    &&& *final(lcd) == *old(lcd)
                },
            },
    {
        let transmit_len = uart.transmit_len();
        let control = match rom.control(
            self.flags.bits(),
            self.stage0_instruction,
            self.stage1_instruction,
        ) {
            Ok(control) => control,
            Err(pattern) => {
                return Err(CpuError::InvalidBitPattern(pattern));
            },
        };
        if control.main_bus_assert == MainBusAssertDevice::MemBridge && control.main_bus_load
            == MainBusLoadDevice::MemBridge {
            return Err(CpuError::MemoryBusConflict);
        }
        if control.main_bus_load == MainBusLoadDevice::IoUartData && transmit_len
            >= UART_FIFO_DEPTH {
            return Err(CpuError::UartTransmitOverflow);
        }
        let address = self.get_bus_address(control.address_bus_assert);
        let mem_data = memory.read(vga, address);
        let main_bus = self.read_main_bus(control, mem_data, lcd, uart, vga, controler);

        self.stage2_instruction = self.stage1_instruction;
        self.stage1_instruction = self.stage0_instruction;
        self.stage2(control, main_bus);
        Self::load_devices(control, address, main_bus, memory, lcd, uart, audio, vga);
        self.stage1(control, mem_data);
        self.stage0(control, mem_data);
        Ok(control.break_clock)
    }

    fn get_bus_address(&self, reg: AddressBusRegister) -> (r: u16)
        ensures
            r == self.bus_address(reg),
    {
        match reg {
            AddressBusRegister::Nothing => 0,
            AddressBusRegister::PcRa0 => self.pc_ra_0,
            AddressBusRegister::PcRa1 => self.pc_ra_1,
            AddressBusRegister::Sp => self.sp,
            AddressBusRegister::Si => self.si,
            AddressBusRegister::Di => self.di,
            AddressBusRegister::Tx => self.tx,
        }
    }

    /// Puts the value of the asserting device on the main bus. Reading a
    /// port takes the value from it.
    fn read_main_bus(
        &self,
        control: Control,
        mem_data: u8,
        lcd: &mut Lcd,
        uart: &mut Uart,
        vga: &Vga,
        controler: &mut Controler,
    ) -> (main_bus: u8)
        requires
            old(uart).wf(),
        ensures
            final(uart).wf(),
            main_bus == self.main_bus(control, mem_data, old(uart)@, vga@, *old(controler)),
            final(uart)@ == if control.main_bus_assert == MainBusAssertDevice::IoUartData {
                old(uart)@.after_read_data()
            } else {
                old(uart)@
            },
            *final(controler) == if control.main_bus_assert == MainBusAssertDevice::IoCntrl {
                old(controler).after_read()
            } else {
                *old(controler)
            },
            *final(lcd) == *old(lcd),
    {
        match control.main_bus_assert {
            MainBusAssertDevice::Nothing => 0,
            MainBusAssertDevice::A => self.a,
            MainBusAssertDevice::B => self.b,
            MainBusAssertDevice::C => self.c,
            MainBusAssertDevice::D => self.d,
            MainBusAssertDevice::Constant => self.constant,
            MainBusAssertDevice::Tl => self.tl(),
            MainBusAssertDevice::Th => self.th(),
            MainBusAssertDevice::AluResult => {
                let carry_in = match self.ca_override {
                    Some(carry) => carry,
                    None => self.flags.carry,
                };
                alu_add(self.alu_lhs, self.alu_rhs, carry_in).result
            },
            MainBusAssertDevice::IoCntrl => controler.read_data(),
            MainBusAssertDevice::IoVga => vga.read_data(),
            MainBusAssertDevice::IoUartData => uart.read_data(),
            MainBusAssertDevice::IoUartCtrl => uart.read_ctrl(),
            MainBusAssertDevice::IoLcdCommand => lcd.read_cmd(),
            MainBusAssertDevice::MemBridge => mem_data,
        }
    }

    /// Hands the main bus value to the port or the memory that loads it.
    fn load_devices(
        control: Control,
        address: u16,
        main_bus: u8,
        memory: &mut Memory,
        lcd: &mut Lcd,
        uart: &mut Uart,
        audio: &mut Audio,
        vga: &mut Vga,
    )
        requires
            old(memory).wf(),
            old(uart).wf(),
            old(vga).wf(),
            control.main_bus_load == MainBusLoadDevice::IoUartData ==> old(uart)@.transmit.len()
                < UART_FIFO_DEPTH,
        ensures
            final(memory).wf(),
            final(uart).wf(),
            final(vga).wf(),
            final(memory)@ == if control.main_bus_load == MainBusLoadDevice::MemBridge {
                old(memory)@.write(address, main_bus)
            } else {
                old(memory)@
            },
            final(vga)@ == if control.main_bus_load == MainBusLoadDevice::MemBridge {
                VgaModel {
                    scroll: MemoryModel::write_scroll(old(vga)@.scroll, address, main_bus),
                    ..old(vga)@
                }
            } else {
                old(vga)@
            },
            final(uart)@ == if control.main_bus_load == MainBusLoadDevice::IoUartData {
                old(uart)@.after_write_data(main_bus)
            } else {
                old(uart)@
            },
            *final(audio) == if control.main_bus_load == MainBusLoadDevice::IoAudioData {
                old(audio).spec_write_data(main_bus)
            } else {
                *old(audio)
            },
            *final(lcd) == *old(lcd),
    {
        match control.main_bus_load {
            MainBusLoadDevice::IoAudioData => {
                audio.write_data(main_bus);
            },
            MainBusLoadDevice::IoUartData => {
                uart.write_data(main_bus);
            },
            MainBusLoadDevice::IoLcdData => {
                lcd.write_data(main_bus);
            },
            MainBusLoadDevice::IoLcdCommand => {
                lcd.write_cmd(main_bus);
            },
            MainBusLoadDevice::MemBridge => {
                memory.write(vga, address, main_bus);
            },
            _ => {},
        }
    }

    #[verifier::rlimit(40)]
    fn stage2(&mut self, control: Control, main_bus: u8)
        ensures
            *final(self) == old(self).after_stage2(control, main_bus),
    {
        let _ = self.execute_alu();
        self.flags.pc_ra_flip = control.flip_pc_ra;
        let ghost renamed = *self;
        assert(renamed == (Cpu {
            flags: Flags { pc_ra_flip: control.flip_pc_ra, ..old(self).flags_after_alu() },
            alu_pending: AluOp::Nop,
            ..*old(self)
        }));
        // The program counter steps on unless stage 2 needs the memory bus.
        // A jump in stage 1 of the same tick overrides the stepped value.
        if !control.bus_request {
            self.inc_pc();
        }
        let ghost counted = *self;
        assert(counted == if control.bus_request {
            renamed
        } else {
            renamed.with_pc_incremented()
        });
        match control.main_bus_load {
            MainBusLoadDevice::A => {
                self.a = main_bus;
            },
            MainBusLoadDevice::B => {
                self.b = main_bus;
            },
            MainBusLoadDevice::C => {
                self.c = main_bus;
            },
            MainBusLoadDevice::D => {
                self.d = main_bus;
            },
            MainBusLoadDevice::Constant => {
                self.constant = main_bus;
            },
            MainBusLoadDevice::Tl => {
                self.tx = (self.tx / 256) * 256 + (main_bus as u16);
            },
            MainBusLoadDevice::Th => {
                self.tx = (main_bus as u16) * 256 + self.tx % 256;
            },
            _ => {},
        }
        assert(*self == counted.with_main_bus_loaded(control.main_bus_load, main_bus));
        match control.increment_register {
            IncrementRegister::Nothing => {},
            IncrementRegister::Sp => {
                self.sp = self.sp.wrapping_add(1);
            },
            IncrementRegister::Si => {
                self.si = self.si.wrapping_add(1);
            },
            IncrementRegister::Di => {
                self.di = self.di.wrapping_add(1);
            },
        }
    }

    fn stage1(&mut self, control: Control, mem_data: u8)
        ensures
            *final(self) == old(self).after_stage1(control, mem_data),
    {
        let lhs_bus = self.get_alu_bus_value(control.lhs_bus_assert);
        let rhs_bus = self.get_alu_bus_value(control.rhs_bus_assert);
        let alu_op = control.alu_op;
        let (lhs_out, cl_out) = execute_alu_lhs_op(
            lhs_bus,
            self.flags.logical_carry,
            AluLhsOp::from_op(alu_op),
        );
        let rhs_out = execute_alu_rhs_op(lhs_bus, rhs_bus, AluRhsOp::from_op(alu_op));
        if alu_op != AluOp::Nop {
            self.alu_lhs = lhs_out;
            self.alu_rhs = rhs_out;
            self.flags.logical_carry = cl_out;
            self.ca_override = get_ca_override(alu_op);
            self.alu_pending = alu_op;
        }
        if control.load_constant {
            match control.transfer_bus_load {
                TransferBusRegister::Nothing => {
                    self.constant = mem_data;
                },
                TransferBusRegister::PcRa0 => {
                    self.pc_ra_0 = self.pc_ra_0.wrapping_sub(1);
                },
                TransferBusRegister::PcRa1 => {
                    self.pc_ra_1 = self.pc_ra_1.wrapping_sub(1);
                },
                TransferBusRegister::Sp => {
                    self.sp = self.sp.wrapping_sub(1);
                },
                TransferBusRegister::Si => {
                    self.si = self.si.wrapping_sub(1);
                },
                TransferBusRegister::Di => {
                    self.di = self.di.wrapping_sub(1);
                },
                TransferBusRegister::Tx => {
                    self.tx = self.tx.wrapping_sub(1);
                },
            }
        } else {
            let transfer_bus = self.get_transfer_bus_value(control.transfer_bus_assert);
            match control.transfer_bus_load {
                TransferBusRegister::Nothing => {},
                TransferBusRegister::PcRa0 => {
                    self.pc_ra_0 = transfer_bus;
                },
                TransferBusRegister::PcRa1 => {
                    self.pc_ra_1 = transfer_bus;
                },
                TransferBusRegister::Sp => {
                    self.sp = transfer_bus;
                },
                TransferBusRegister::Si => {
                    self.si = transfer_bus;
                },
                TransferBusRegister::Di => {
                    self.di = transfer_bus;
                },
                TransferBusRegister::Tx => {
                    self.tx = transfer_bus;
                },
            }
        }
    }

    fn stage0(&mut self, control: Control, mem_data: u8)
        ensures
            *final(self) == old(self).after_stage0(control, mem_data),
    {
        let fetch_stage1 = !control.no_fetch;
        let fetch_stage2 = !control.bus_request;
        if fetch_stage1 && fetch_stage2 {
            self.stage0_instruction = mem_data;
        } else if fetch_stage1 || fetch_stage2 {
            self.stage0_instruction = NOP;
        } else {
            // Both stages keep the fetch from happening: the instruction in
            // stage 1 could not run and is fed in again.
            self.stage0_instruction = self.stage1_instruction;
        }
    }

    /// Lets the pending ALU operation reach the flags and returns the
    /// adder's result.
    fn execute_alu(&mut self) -> (result: u8)
        ensures
            result == old(self).alu_output().result,
            *final(self) == (Cpu {
                flags: old(self).flags_after_alu(),
                alu_pending: AluOp::Nop,
                ..*old(self)
            }),
    {
        let carry_in = match self.ca_override {
            Some(carry) => carry,
            None => self.flags.carry,
        };
        let out = alu_add(self.alu_lhs, self.alu_rhs, carry_in);
        if writes_arithmetic_flags(self.alu_pending) {
            self.flags.carry = out.carry;
            self.flags.sign = out.sign;
            self.flags.zero = out.zero;
            self.flags.overflow = out.overflow;
        } else if self.alu_pending == AluOp::Clc {
            self.flags.carry = false;
            self.flags.sign = false;
            self.flags.zero = false;
            self.flags.overflow = false;
        }
        self.alu_pending = AluOp::Nop;
        out.result
    }

    fn inc_pc(&mut self)
        ensures
            *final(self) == old(self).with_pc_incremented(),
    {
        if self.flags.pc_ra_flip {
            self.pc_ra_1 = self.pc_ra_1.wrapping_add(1);
        } else {
            self.pc_ra_0 = self.pc_ra_0.wrapping_add(1);
        }
    }

    fn get_alu_bus_value(&self, reg: AluBusRegister) -> (r: u8)
        ensures
            r == self.alu_bus_value(reg),
    {
        match reg {
            AluBusRegister::A => self.a,
            AluBusRegister::B => self.b,
            AluBusRegister::C => self.c,
            AluBusRegister::D => self.d,
        }
    }

    fn get_transfer_bus_value(&self, reg: TransferBusRegister) -> (r: u16)
        ensures
            r == self.transfer_bus_value(reg),
    {
        match reg {
            TransferBusRegister::Nothing => 0,
            TransferBusRegister::PcRa0 => self.pc_ra_0,
            TransferBusRegister::PcRa1 => self.pc_ra_1,
            TransferBusRegister::Sp => self.sp,
            TransferBusRegister::Si => self.si,
            TransferBusRegister::Di => self.di,
            TransferBusRegister::Tx => self.tx,
        }
    }
}

/// What the adder puts out for the inputs that stage 1 latches for `op`.
pub open spec fn spec_alu_operation(op: AluOp, lhs: u8, rhs: u8, carry: bool, logical_carry: bool)
    -> AluOutput {
    spec_alu_add(
        spec_execute_alu_lhs_op(lhs, logical_carry, AluLhsOp::spec_from_op(op)).0,
        spec_execute_alu_rhs_op(lhs, rhs, AluRhsOp::spec_from_op(op)),
        match spec_get_ca_override(op) {
            Some(c) => c,
            None => carry,
        },
    )
}

/// Addition and increment: the sum, with the carry out of bit 7.
pub proof fn lemma_alu_additions(lhs: u8, rhs: u8, carry: bool, logical_carry: bool)
    ensures
        spec_alu_operation(AluOp::Add, lhs, rhs, carry, logical_carry).result == (lhs + rhs) % 256,
        spec_alu_operation(AluOp::Add, lhs, rhs, carry, logical_carry).carry == (lhs + rhs >= 256),
        spec_alu_operation(AluOp::AddC, lhs, rhs, carry, logical_carry).result == (lhs + rhs + bit(
            carry,
        )) % 256,
        spec_alu_operation(AluOp::Inc, lhs, rhs, carry, logical_carry).result == (lhs + 1) % 256,
        spec_alu_operation(AluOp::Inc, lhs, rhs, carry, logical_carry).carry == (lhs == 255),
        spec_alu_operation(AluOp::IncC, lhs, rhs, carry, logical_carry).result == (lhs + bit(carry))
            % 256,
{
}

/// Subtraction and decrement: the difference, with the carry set when
/// nothing was borrowed.
pub proof fn lemma_alu_subtractions(lhs: u8, rhs: u8, carry: bool, logical_carry: bool)
    ensures
        spec_alu_operation(AluOp::Sub, lhs, rhs, carry, logical_carry).result == (lhs - rhs) % 256,
        spec_alu_operation(AluOp::Sub, lhs, rhs, carry, logical_carry).carry == (lhs >= rhs),
        spec_alu_operation(AluOp::SubB, lhs, rhs, carry, logical_carry).result == (lhs - rhs - bit(
            !carry,
        )) % 256,
        spec_alu_operation(AluOp::Dec, lhs, rhs, carry, logical_carry).result == (lhs - 1) % 256,
        spec_alu_operation(AluOp::Dec, lhs, rhs, carry, logical_carry).carry == (lhs != 0),
{
}

/// The logic operations: the adder passes their result on and carries nothing.
pub proof fn lemma_alu_logic(lhs: u8, rhs: u8, carry: bool, logical_carry: bool)
    ensures
        spec_alu_operation(AluOp::And, lhs, rhs, carry, logical_carry).result == lhs & rhs,
        spec_alu_operation(AluOp::Or, lhs, rhs, carry, logical_carry).result == lhs | rhs,
        spec_alu_operation(AluOp::Xor, lhs, rhs, carry, logical_carry).result == lhs ^ rhs,
        spec_alu_operation(AluOp::Not, lhs, rhs, carry, logical_carry).result == 255 - rhs,
        spec_alu_operation(AluOp::Clc, lhs, rhs, carry, logical_carry).result == 0,
        !spec_alu_operation(AluOp::And, lhs, rhs, carry, logical_carry).carry,
        !spec_alu_operation(AluOp::Or, lhs, rhs, carry, logical_carry).carry,
        !spec_alu_operation(AluOp::Xor, lhs, rhs, carry, logical_carry).carry,
        !spec_alu_operation(AluOp::Not, lhs, rhs, carry, logical_carry).carry,
        !spec_alu_operation(AluOp::Clc, lhs, rhs, carry, logical_carry).carry,
{
}

/// The shifts: the logical carry moves in at one end and the bit that
/// falls out at the other becomes the logical carry.
pub proof fn lemma_alu_shifts(lhs: u8, rhs: u8, carry: bool, logical_carry: bool)
    ensures
        spec_alu_operation(AluOp::Shl, lhs, rhs, carry, logical_carry).result == (lhs * 2) % 256
            + bit(logical_carry),
        spec_alu_operation(AluOp::Shr, lhs, rhs, carry, logical_carry).result == lhs / 2 + 128
            * bit(logical_carry),
        spec_execute_alu_lhs_op(lhs, logical_carry, AluLhsOp::ShiftLeft).1 == (lhs >= 128),
        spec_execute_alu_lhs_op(lhs, logical_carry, AluLhsOp::ShiftRight).1 == (lhs % 2 == 1),
{
}

/// Whatever the operation, the flags that the adder puts out describe its
/// result: zero for a result of 0, sign for bit 7, carry for a sum past
/// 255, and overflow when two inputs of one sign give a result of the other.
pub proof fn lemma_alu_flags(lhs: u8, rhs: u8, carry_in: bool)
    ensures
        ({
            let out = spec_alu_add(lhs, rhs, carry_in);
            &&& out.result == (lhs + rhs + bit(carry_in)) % 256
            &&& out.carry == (lhs + rhs + bit(carry_in) > 255)
            &&& out.zero == (out.result == 0)
            &&& out.sign == (out.result >= 128)
            &&& out.overflow == (((lhs >= 128) == (rhs >= 128)) && ((lhs >= 128) != (out.result
                >= 128)))
        }),
{
}

/// What the parts of stage 2 and stage 1 leave alone.
pub proof fn lemma_step_frame(cpu: Cpu, control: Control, mem_data: u8, main_bus: u8)
    ensures
        ({
            let s2 = cpu.shifted().after_stage2(control, main_bus);
            let s1 = s2.after_stage1(control, mem_data);
            &&& s2.stage0_instruction == cpu.stage0_instruction
            &&& s2.stage1_instruction == cpu.stage0_instruction
            &&& s2.stage2_instruction == cpu.stage1_instruction
            &&& s2.flags.pc_ra_flip == control.flip_pc_ra
            &&& control.bus_request ==> s2.pc_ra_0 == cpu.pc_ra_0 && s2.pc_ra_1 == cpu.pc_ra_1
            &&& !control.bus_request && control.flip_pc_ra ==> s2.pc_ra_0 == cpu.pc_ra_0
                && s2.pc_ra_1 == (cpu.pc_ra_1 + 1) % 0x10000
            &&& !control.bus_request && !control.flip_pc_ra ==> s2.pc_ra_1 == cpu.pc_ra_1
                && s2.pc_ra_0 == (cpu.pc_ra_0 + 1) % 0x10000
            &&& s1.stage0_instruction == s2.stage0_instruction
            &&& s1.stage1_instruction == s2.stage1_instruction
            &&& s1.stage2_instruction == s2.stage2_instruction
            &&& s1.flags.pc_ra_flip == s2.flags.pc_ra_flip
            &&& control.transfer_bus_load != TransferBusRegister::PcRa0 ==> s1.pc_ra_0
                == s2.pc_ra_0
            &&& control.transfer_bus_load != TransferBusRegister::PcRa1 ==> s1.pc_ra_1
                == s2.pc_ra_1
        }),
{
    let sh = cpu.shifted();
    let renamed = Cpu {
        flags: Flags { pc_ra_flip: control.flip_pc_ra, ..sh.flags_after_alu() },
        alu_pending: AluOp::Nop,
        ..sh
    };
    let counted = if control.bus_request {
        renamed
    } else {
        renamed.with_pc_incremented()
    };
    let loaded = counted.with_main_bus_loaded(control.main_bus_load, main_bus);
    assert(loaded.pc_ra_0 == counted.pc_ra_0 && loaded.pc_ra_1 == counted.pc_ra_1 && loaded.flags
        == counted.flags && loaded.stage0_instruction == counted.stage0_instruction
        && loaded.stage1_instruction == counted.stage1_instruction && loaded.stage2_instruction
        == counted.stage2_instruction);
    let s2 = loaded.with_incremented(control.increment_register);
    assert(s2.pc_ra_0 == counted.pc_ra_0 && s2.pc_ra_1 == counted.pc_ra_1 && s2.flags
        == counted.flags && s2.stage0_instruction == counted.stage0_instruction
        && s2.stage1_instruction == counted.stage1_instruction && s2.stage2_instruction
        == counted.stage2_instruction);
    assert(s2 == cpu.shifted().after_stage2(control, main_bus));
}

/// The ROMs are addressed with the flags as they stand before the tick:
/// what stage 2 writes to the flags in a tick cannot change that tick's
/// control word, only the next one's.
pub proof fn lemma_flags_visible_next_tick(cpu: Cpu, other: Cpu, rom: MicrocodeModel)
    requires
        cpu.flags == other.flags,
        cpu.stage0_instruction == other.stage0_instruction,
        cpu.stage1_instruction == other.stage1_instruction,
    ensures
        cpu.control(rom) == other.control(rom),
{
}

/// While stage 2 requests the memory bus the program counter does not step
/// on: it changes only if stage 1 writes to it.
pub proof fn lemma_bus_request_holds_pc(cpu: Cpu, control: Control, mem_data: u8, main_bus: u8)
    requires
        control.bus_request,
        control.transfer_bus_load != TransferBusRegister::PcRa0,
        control.transfer_bus_load != TransferBusRegister::PcRa1,
    ensures
        cpu.step(control, mem_data, main_bus).pc_ra_0 == cpu.pc_ra_0,
        cpu.step(control, mem_data, main_bus).pc_ra_1 == cpu.pc_ra_1,
{
    lemma_step_frame(cpu, control, mem_data, main_bus);
}

/// Without a bus request, and without a write to it in stage 1, the
/// program counter steps on by one.
pub proof fn lemma_pc_increments(cpu: Cpu, control: Control, mem_data: u8, main_bus: u8)
    requires
        !control.bus_request,
        control.transfer_bus_load != TransferBusRegister::PcRa0,
        control.transfer_bus_load != TransferBusRegister::PcRa1,
    ensures
        cpu.step(control, mem_data, main_bus).spec_pc() == (if control.flip_pc_ra {
            cpu.pc_ra_1
        } else {
            cpu.pc_ra_0
        } + 1) % 0x10000,
{
    lemma_step_frame(cpu, control, mem_data, main_bus);
}

/// If stage 1 and stage 2 both keep the fetch from happening, the
/// instruction that was in stage 0 is in stage 0 and in stage 1 after the
/// tick: it runs again and is not lost. If only one does, a NOP enters.
pub proof fn lemma_pipeline_contention(cpu: Cpu, control: Control, mem_data: u8, main_bus: u8)
    ensures
        control.no_fetch && control.bus_request ==> {
            &&& cpu.step(control, mem_data, main_bus).stage0_instruction == cpu.stage0_instruction
            &&& cpu.step(control, mem_data, main_bus).stage1_instruction == cpu.stage0_instruction
        },
        control.no_fetch != control.bus_request ==> cpu.step(
            control,
            mem_data,
            main_bus,
        ).stage0_instruction == NOP,
        !control.no_fetch && !control.bus_request ==> cpu.step(
            control,
            mem_data,
            main_bus,
        ).stage0_instruction == mem_data,
        cpu.step(control, mem_data, main_bus).stage2_instruction == cpu.stage1_instruction,
{
    lemma_step_frame(cpu, control, mem_data, main_bus);
}

/// The PC/RA flip flag after a tick is what the microcode of stage 2 says,
/// whatever else the tick does.
pub proof fn lemma_flip_follows_microcode(cpu: Cpu, control: Control, mem_data: u8, main_bus: u8)
    ensures
        cpu.step(control, mem_data, main_bus).flags.pc_ra_flip == control.flip_pc_ra,
{
    lemma_step_frame(cpu, control, mem_data, main_bus);
}

} // verus!
