//! Control words of uDMA channels.
use crate::driverlib::{
    UDMA_ARB_1, UDMA_ARB_1024, UDMA_ARB_128, UDMA_ARB_16, UDMA_ARB_2, UDMA_ARB_256, UDMA_ARB_32,
    UDMA_ARB_4, UDMA_ARB_512, UDMA_ARB_64, UDMA_ARB_8, UDMA_DST_INC_16, UDMA_DST_INC_32,
    UDMA_DST_INC_8, UDMA_DST_INC_NONE, UDMA_SIZE_16, UDMA_SIZE_32, UDMA_SIZE_8, UDMA_SRC_INC_16,
    UDMA_SRC_INC_32, UDMA_SRC_INC_8, UDMA_SRC_INC_NONE,
};
use vstd::prelude::*;

verus! {

/// How large the elements of a transfer are.
#[derive(Clone, Copy, Debug, PartialEq, Eq, Structural)]
pub enum DataSize {
    Size8,
    Size16,
    Size32,
}

/// By how much the source address grows per element.
#[derive(Clone, Copy, Debug, PartialEq, Eq, Structural)]
pub enum SrcAddrIncrement {
    Inc8,
    Inc16,
    Inc32,
    IncNone,
}

/// By how much the destination address grows per element.
#[derive(Clone, Copy, Debug, PartialEq, Eq, Structural)]
pub enum DstAddrIncrement {
    Inc8,
    Inc16,
    Inc32,
    IncNone,
}

/// How many elements are sent before a new channel selection occurs.
#[derive(Clone, Copy, Debug, PartialEq, Eq, Structural)]
pub enum ArbitrationSize {
    Arb1,
    Arb2,
    Arb4,
    Arb8,
    Arb16,
    Arb32,
    Arb64,
    Arb128,
    Arb256,
    Arb512,
    Arb1024,
}

impl DataSize {
    /// The bits of the control word.
    pub open spec fn word(self) -> u32 {
        match self {
            DataSize::Size8 => UDMA_SIZE_8,
            DataSize::Size16 => UDMA_SIZE_16,
            DataSize::Size32 => UDMA_SIZE_32,
        }
    }

    /// The bits of the control word.
    pub fn bits(self) -> (r: u32)
        ensures
            r == self.word(),
    {
        match self {
            DataSize::Size8 => UDMA_SIZE_8,
            DataSize::Size16 => UDMA_SIZE_16,
            DataSize::Size32 => UDMA_SIZE_32,
        }
    }
}

impl SrcAddrIncrement {
    /// The bits of the control word.
    pub open spec fn word(self) -> u32 {
        match self {
            SrcAddrIncrement::Inc8 => UDMA_SRC_INC_8,
            SrcAddrIncrement::Inc16 => UDMA_SRC_INC_16,
            SrcAddrIncrement::Inc32 => UDMA_SRC_INC_32,
            SrcAddrIncrement::IncNone => UDMA_SRC_INC_NONE,
        }
    }

    /// The bits of the control word.
    pub fn bits(self) -> (r: u32)
        ensures
            r == self.word(),
    {
        match self {
            SrcAddrIncrement::Inc8 => UDMA_SRC_INC_8,
            SrcAddrIncrement::Inc16 => UDMA_SRC_INC_16,
            SrcAddrIncrement::Inc32 => UDMA_SRC_INC_32,
            SrcAddrIncrement::IncNone => UDMA_SRC_INC_NONE,
        }
    }
}

impl DstAddrIncrement {
    /// The bits of the control word.
    pub open spec fn word(self) -> u32 {
        match self {
            DstAddrIncrement::Inc8 => UDMA_DST_INC_8,
            DstAddrIncrement::Inc16 => UDMA_DST_INC_16,
            DstAddrIncrement::Inc32 => UDMA_DST_INC_32,
            DstAddrIncrement::IncNone => UDMA_DST_INC_NONE,
        }
    }

    /// The bits of the control word.
    pub fn bits(self) -> (r: u32)
        ensures
            r == self.word(),
    {
        match self {
            DstAddrIncrement::Inc8 => UDMA_DST_INC_8,
            DstAddrIncrement::Inc16 => UDMA_DST_INC_16,
            DstAddrIncrement::Inc32 => UDMA_DST_INC_32,
            DstAddrIncrement::IncNone => UDMA_DST_INC_NONE,
        }
    }
}

impl ArbitrationSize {
    /// The bits of the control word.
    pub open spec fn word(self) -> u32 {
        match self {
            ArbitrationSize::Arb1 => UDMA_ARB_1,
            ArbitrationSize::Arb2 => UDMA_ARB_2,
            ArbitrationSize::Arb4 => UDMA_ARB_4,
            ArbitrationSize::Arb8 => UDMA_ARB_8,
            ArbitrationSize::Arb16 => UDMA_ARB_16,
            ArbitrationSize::Arb32 => UDMA_ARB_32,
            ArbitrationSize::Arb64 => UDMA_ARB_64,
            ArbitrationSize::Arb128 => UDMA_ARB_128,
            ArbitrationSize::Arb256 => UDMA_ARB_256,
            ArbitrationSize::Arb512 => UDMA_ARB_512,
            ArbitrationSize::Arb1024 => UDMA_ARB_1024,
        }
    }

    /// The bits of the control word.
    pub fn bits(self) -> (r: u32)
        ensures
            r == self.word(),
    {
        match self {
            ArbitrationSize::Arb1 => UDMA_ARB_1,
            ArbitrationSize::Arb2 => UDMA_ARB_2,
            ArbitrationSize::Arb4 => UDMA_ARB_4,
            ArbitrationSize::Arb8 => UDMA_ARB_8,
            ArbitrationSize::Arb16 => UDMA_ARB_16,
            ArbitrationSize::Arb32 => UDMA_ARB_32,
            ArbitrationSize::Arb64 => UDMA_ARB_64,
            ArbitrationSize::Arb128 => UDMA_ARB_128,
            ArbitrationSize::Arb256 => UDMA_ARB_256,
            ArbitrationSize::Arb512 => UDMA_ARB_512,
            ArbitrationSize::Arb1024 => UDMA_ARB_1024,
        }
    }
}

/// How a channel transfers data.
#[derive(Clone, Copy, Debug, PartialEq, Eq, Structural)]
pub struct ControlWord {
    pub data_size: DataSize,
    pub src_addr_inc: SrcAddrIncrement,
    pub dst_addr_inc: DstAddrIncrement,
    pub arbitration_size: ArbitrationSize,
}

impl ControlWord {
    /// The control word as the controller takes it.
    pub open spec fn word(self) -> u32 {
        self.data_size.word() | self.src_addr_inc.word() | self.dst_addr_inc.word()
            | self.arbitration_size.word()
    }

    /// The control word as the controller takes it.
    pub fn as_u32(&self) -> (r: u32)
        ensures
            r == self.word(),
    {
        self.data_size.bits() | self.src_addr_inc.bits() | self.dst_addr_inc.bits()
            | self.arbitration_size.bits()
    }
}

/// Each setting has its own bits in the control word, so the word tells all four settings.
pub proof fn settings_do_not_overlap(w: ControlWord)
    ensures
        w.word() & 0x3300_0000 == w.data_size.word(),
        w.word() & 0x0C00_0000 == w.src_addr_inc.word(),
        w.word() & 0xC000_0000 == w.dst_addr_inc.word(),
        w.word() & 0x0003_C000 == w.arbitration_size.word(),
{
    let a = w.data_size.word();
    let b = w.src_addr_inc.word();
    let c = w.dst_addr_inc.word();
    let d = w.arbitration_size.word();
    let e = a | b | c | d;
    assert(e & 0x3300_0000 == a && e & 0x0C00_0000 == b && e & 0xC000_0000 == c && e & 0x0003_C000
        == d) by (bit_vector)
        requires
            e == a | b | c | d,
            a == 0 || a == 0x1100_0000 || a == 0x2200_0000,
            b == 0 || b == 0x0400_0000 || b == 0x0800_0000 || b == 0x0C00_0000,
            c == 0 || c == 0x4000_0000 || c == 0x8000_0000 || c == 0xC000_0000,
            d == 0 || d == 0x4000 || d == 0x8000 || d == 0xC000 || d == 0x1_0000 || d == 0x1_4000
                || d == 0x1_8000 || d == 0x1_C000 || d == 0x2_0000 || d == 0x2_4000 || d
                == 0x2_8000,
    ;
}

/// Different settings have different control words.
pub proof fn control_words_are_distinct(w1: ControlWord, w2: ControlWord)
    requires
        w1.word() == w2.word(),
    ensures
        w1 == w2,
{
    settings_do_not_overlap(w1);
    settings_do_not_overlap(w2);
}

} // verus!
