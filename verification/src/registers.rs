use vstd::prelude::*;

verus! {

/// The bit of the address byte that marks a transfer as a read.
///
/// Register addresses occupy the low seven bits, so the bit is clear in every
/// address and setting it never collides with another register.
pub const READ_BIT: u8 = 0x80;

/// The direction of a register transfer.
#[derive(Copy, Clone, Debug, PartialEq, Eq, Structural)]
pub enum ReadWrite {
    Read,
    Write,
}

/// The registers of the chip, one identifier per physical register.
#[derive(Debug, PartialEq, Eq, Structural, Copy, Clone)]
pub enum Registers {
    Reset,
    GlobalInterruptStatus,
    PortAControl,
    PortAControl2,
    PortBControl,
    PortBControl2,
    TransmitterControl,
    TransmitterControl2,
    TransmitterControl3,
    SrcAndDitStatus,
    SrcAndDitInterruptMask,
    SrcAndDitInterruptMode,
    ReceiverControl,
    ReceiverControl2,
    ReceiverPllConfiguration,
    ReceiverPllConfiguration2,
    ReceiverPllConfiguration3,
    NonPcmAudioDetection,
    ReceiverStatus,
    ReceiverStatus2,
    ReceiverStatus3,
    ReceiverInterruptMask,
    ReceiverInterruptMask2,
    ReceiverInterruptMode,
    ReceiverInterruptMode2,
    ReceiverInterruptMode3,
    Gpo1,
    Gpo2,
    Gpo3,
    Gpo4,
    AudioCdQChannelSubCode1,
    AudioCdQChannelSubCode2,
    AudioCdQChannelSubCode3,
    AudioCdQChannelSubCode4,
    AudioCdQChannelSubCode5,
    AudioCdQChannelSubCode6,
    AudioCdQChannelSubCode7,
    AudioCdQChannelSubCode8,
    AudioCdQChannelSubCode9,
    AudioCdQChannelSubCode10,
    PcBurstPreambleHighByte,
    PcBurstPreambleLowByte,
    PdBurstPreambleHighByte,
    PdBurstPreambleLowByte,
    SrcControl,
    SrcControl2,
    SrcControl3,
    SrcControl4,
    SrcControl5,
    SrcInputOutputRatio1,
    SrcInputOutputRatio2,
    PageSelection,
}

/// The byte that opens a transfer on the register at `address`: the address
/// itself for a write, the address with [`READ_BIT`] set for a read.
pub open spec fn address_byte(address: u8, rw: ReadWrite) -> u8 {
    match rw {
        ReadWrite::Read => address | READ_BIT,
        ReadWrite::Write => address,
    }
}

/// A register catalog: identifiers that know the byte that addresses them on
/// the wire, for either direction.
pub trait AsAddressByte {
    /// The byte sent first in a transfer on this register.
    spec fn wire_address(&self, rw: ReadWrite) -> u8;

    fn as_address_byte(&self, rw: ReadWrite) -> (byte: u8)
        ensures
            byte == self.wire_address(rw),
    ;
}

/// A register value that knows which register of a catalog `R` it is the
/// contents of.
pub trait RegisterAddress<R> {
    /// The register this type is the contents of.
    spec fn location() -> R;

    fn register_address() -> (register: R)
        ensures
            register == Self::location(),
    ;
}

impl Registers {
    /// The register's numeric address on the chip.
    pub open spec fn spec_address(self) -> u8 {
        match self {
            Registers::Reset => 0x01,
            Registers::GlobalInterruptStatus => 0x02,
            Registers::PortAControl => 0x03,
            Registers::PortAControl2 => 0x04,
            Registers::PortBControl => 0x05,
            Registers::PortBControl2 => 0x06,
            Registers::TransmitterControl => 0x07,
            Registers::TransmitterControl2 => 0x08,
            Registers::TransmitterControl3 => 0x09,
            Registers::SrcAndDitStatus => 0x0A,
            Registers::SrcAndDitInterruptMask => 0x0B,
            Registers::SrcAndDitInterruptMode => 0x0C,
            Registers::ReceiverControl => 0x0D,
            Registers::ReceiverControl2 => 0x0E,
            Registers::ReceiverPllConfiguration => 0x0F,
            Registers::ReceiverPllConfiguration2 => 0x10,
            Registers::ReceiverPllConfiguration3 => 0x11,
            Registers::NonPcmAudioDetection => 0x12,
            Registers::ReceiverStatus => 0x13,
            Registers::ReceiverStatus2 => 0x14,
            Registers::ReceiverStatus3 => 0x15,
            Registers::ReceiverInterruptMask => 0x16,
            Registers::ReceiverInterruptMask2 => 0x17,
            Registers::ReceiverInterruptMode => 0x18,
            Registers::ReceiverInterruptMode2 => 0x19,
            Registers::ReceiverInterruptMode3 => 0x1A,
            Registers::Gpo1 => 0x1B,
            Registers::Gpo2 => 0x1C,
            Registers::Gpo3 => 0x1D,
            Registers::Gpo4 => 0x1E,
            Registers::AudioCdQChannelSubCode1 => 0x1F,
            Registers::AudioCdQChannelSubCode2 => 0x20,
            Registers::AudioCdQChannelSubCode3 => 0x21,
            Registers::AudioCdQChannelSubCode4 => 0x22,
            Registers::AudioCdQChannelSubCode5 => 0x23,
            Registers::AudioCdQChannelSubCode6 => 0x24,
            Registers::AudioCdQChannelSubCode7 => 0x25,
            Registers::AudioCdQChannelSubCode8 => 0x26,
            Registers::AudioCdQChannelSubCode9 => 0x27,
            Registers::AudioCdQChannelSubCode10 => 0x28,
            Registers::PcBurstPreambleHighByte => 0x29,
            Registers::PcBurstPreambleLowByte => 0x2A,
            Registers::PdBurstPreambleHighByte => 0x2B,
            Registers::PdBurstPreambleLowByte => 0x2C,
            Registers::SrcControl => 0x2D,
            Registers::SrcControl2 => 0x2E,
            Registers::SrcControl3 => 0x2F,
            Registers::SrcControl4 => 0x30,
            Registers::SrcControl5 => 0x31,
            Registers::SrcInputOutputRatio1 => 0x32,
            Registers::SrcInputOutputRatio2 => 0x33,
            Registers::PageSelection => 0x7F,
        }
    }

    /// The register's numeric address on the chip.
    pub fn address(&self) -> (address: u8)
        ensures
            address == self.spec_address(),
            address & READ_BIT == 0,
    {
        let address: u8 = match self {
            Registers::Reset => 0x01,
            Registers::GlobalInterruptStatus => 0x02,
            Registers::PortAControl => 0x03,
            Registers::PortAControl2 => 0x04,
            Registers::PortBControl => 0x05,
            Registers::PortBControl2 => 0x06,
            Registers::TransmitterControl => 0x07,
            Registers::TransmitterControl2 => 0x08,
            Registers::TransmitterControl3 => 0x09,
            Registers::SrcAndDitStatus => 0x0A,
            Registers::SrcAndDitInterruptMask => 0x0B,
            Registers::SrcAndDitInterruptMode => 0x0C,
            Registers::ReceiverControl => 0x0D,
            Registers::ReceiverControl2 => 0x0E,
            Registers::ReceiverPllConfiguration => 0x0F,
            Registers::ReceiverPllConfiguration2 => 0x10,
            Registers::ReceiverPllConfiguration3 => 0x11,
            Registers::NonPcmAudioDetection => 0x12,
            Registers::ReceiverStatus => 0x13,
            Registers::ReceiverStatus2 => 0x14,
            Registers::ReceiverStatus3 => 0x15,
            Registers::ReceiverInterruptMask => 0x16,
            Registers::ReceiverInterruptMask2 => 0x17,
            Registers::ReceiverInterruptMode => 0x18,
            Registers::ReceiverInterruptMode2 => 0x19,
            Registers::ReceiverInterruptMode3 => 0x1A,
            Registers::Gpo1 => 0x1B,
            Registers::Gpo2 => 0x1C,
            Registers::Gpo3 => 0x1D,
            Registers::Gpo4 => 0x1E,
            Registers::AudioCdQChannelSubCode1 => 0x1F,
            Registers::AudioCdQChannelSubCode2 => 0x20,
            Registers::AudioCdQChannelSubCode3 => 0x21,
            Registers::AudioCdQChannelSubCode4 => 0x22,
            Registers::AudioCdQChannelSubCode5 => 0x23,
            Registers::AudioCdQChannelSubCode6 => 0x24,
            Registers::AudioCdQChannelSubCode7 => 0x25,
            Registers::AudioCdQChannelSubCode8 => 0x26,
            Registers::AudioCdQChannelSubCode9 => 0x27,
            Registers::AudioCdQChannelSubCode10 => 0x28,
            Registers::PcBurstPreambleHighByte => 0x29,
            Registers::PcBurstPreambleLowByte => 0x2A,
            Registers::PdBurstPreambleHighByte => 0x2B,
            Registers::PdBurstPreambleLowByte => 0x2C,
            Registers::SrcControl => 0x2D,
            Registers::SrcControl2 => 0x2E,
            Registers::SrcControl3 => 0x2F,
            Registers::SrcControl4 => 0x30,
            Registers::SrcControl5 => 0x31,
            Registers::SrcInputOutputRatio1 => 0x32,
            Registers::SrcInputOutputRatio2 => 0x33,
            Registers::PageSelection => 0x7F,
        };
        proof {
            self.lemma_address_range();
            lemma_read_bit_clear(address);
        }
        address
    }

    /// The byte that opens a transfer on this register in the given direction.
    pub fn as_address_byte(&self, rw: ReadWrite) -> (byte: u8)
        ensures
            byte == address_byte(self.spec_address(), rw),
            rw == ReadWrite::Write ==> byte == self.spec_address(),
            rw == ReadWrite::Read ==> byte == self.spec_address() | READ_BIT,
            rw == ReadWrite::Read ==> byte == self.spec_address() + 0x80,
    {
        let address = self.address();
        match rw {
            ReadWrite::Read => {
                proof {
                    self.lemma_address_range();
                    lemma_read_bit_adds(address);
                }
                address | READ_BIT
            },
            ReadWrite::Write => address,
        }
    }

    /// Every address lies in `0x01..=0x33` or is the page selection register's `0x7F`.
    pub proof fn lemma_address_range(self)
        ensures
            1 <= self.spec_address() <= 0x33 || self.spec_address() == 0x7F,
            self.spec_address() < 0x80,
    {
    }

    /// Distinct registers have distinct addresses.
    pub proof fn lemma_address_injective(self, other: Registers)
        requires
            self.spec_address() == other.spec_address(),
        ensures
            self == other,
    {
    }

    /// The read byte and the write byte of any two registers differ, and
    /// either byte identifies its register.
    pub proof fn lemma_address_byte_injective(self, rw: ReadWrite, other: Registers, other_rw: ReadWrite)
        requires
            address_byte(self.spec_address(), rw) == address_byte(other.spec_address(), other_rw),
        ensures
            self == other,
            rw == other_rw,
    {
        self.lemma_address_range();
        other.lemma_address_range();
        lemma_read_bit_adds(self.spec_address());
        lemma_read_bit_adds(other.spec_address());
        self.lemma_address_injective(other);
    }
}

impl AsAddressByte for Registers {
    open spec fn wire_address(&self, rw: ReadWrite) -> u8 {
        address_byte(self.spec_address(), rw)
    }

    fn as_address_byte(&self, rw: ReadWrite) -> (byte: u8) {
        Registers::as_address_byte(self, rw)
    }
}

/// An address below `0x80` has the read bit clear.
pub proof fn lemma_read_bit_clear(address: u8)
    requires
        address < 0x80,
    ensures
        address & READ_BIT == 0,
{
    assert(address < 0x80 ==> address & 0x80 == 0) by (bit_vector);
}

/// Setting the read bit of an address below `0x80` adds `0x80` to it, and
/// masking the bit off again gives the address back.
pub proof fn lemma_read_bit_adds(address: u8)
    requires
        address < 0x80,
    ensures
        address | READ_BIT == address + 0x80,
        (address | READ_BIT) & 0x7F == address,
        (address | READ_BIT) & READ_BIT == READ_BIT,
{
    assert(address < 0x80 ==> (address | 0x80) == address + 0x80 && (address | 0x80) & 0x7F
        == address && (address | 0x80) & 0x80 == 0x80) by (bit_vector);
}

} // verus!
