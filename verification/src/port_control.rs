//! The control registers of the two audio ports.
//!
//! Both ports have the same pair of registers. In the first, bits 0 to 2
//! select the audio format, bit 3 makes the port the clock master, bits 4 and
//! 5 select the source of the data that the port sends, bit 6 mutes the
//! output, and bit 7 is reserved. In the second, bits 0 and 1 select the
//! divider of the master clock, bits 2 and 3 its source, and bits 4 to 7 are
//! reserved.
use crate::codec::{
    bit, field, flag, get_bit, get_field, place, put_field, put_flag, reserved_clear, DecodeError,
    PackedRegister,
};
use crate::registers::{RegisterAddress, Registers};
use vstd::prelude::*;

verus! {

/// The serial audio data format of a port.
#[derive(Clone, Copy, PartialEq, Eq, Debug, Structural)]
pub enum AudioFormat {
    /// 24-bit data, left justified.
    LeftJustified24,
    /// 24-bit data in Philips I2S framing.
    I2s24,
    /// 16-bit data, right justified.
    RightJustified16,
    /// 18-bit data, right justified.
    RightJustified18,
    /// 20-bit data, right justified.
    RightJustified20,
    /// 24-bit data, right justified.
    RightJustified24,
}

impl AudioFormat {
    /// The bit pattern of the variant.
    pub open spec fn raw(self) -> u8 {
        match self {
            AudioFormat::LeftJustified24 => 0b000,
            AudioFormat::I2s24 => 0b001,
            AudioFormat::RightJustified16 => 0b100,
            AudioFormat::RightJustified18 => 0b101,
            AudioFormat::RightJustified20 => 0b110,
            AudioFormat::RightJustified24 => 0b111,
        }
    }

    /// The variant with the given bit pattern, if there is one.
    pub open spec fn of_raw(raw: u8) -> Option<AudioFormat> {
        if raw == 0b000 {
            Some(AudioFormat::LeftJustified24)
        } else if raw == 0b001 {
            Some(AudioFormat::I2s24)
        } else if raw == 0b100 {
            Some(AudioFormat::RightJustified16)
        } else if raw == 0b101 {
            Some(AudioFormat::RightJustified18)
        } else if raw == 0b110 {
            Some(AudioFormat::RightJustified20)
        } else if raw == 0b111 {
            Some(AudioFormat::RightJustified24)
        } else {
            None
        }
    }

    pub fn to_primitive(&self) -> (raw: u8)
        ensures
            raw == self.raw(),
            Self::of_raw(raw) == Some(*self),
    {
        match self {
            AudioFormat::LeftJustified24 => 0b000,
            AudioFormat::I2s24 => 0b001,
            AudioFormat::RightJustified16 => 0b100,
            AudioFormat::RightJustified18 => 0b101,
            AudioFormat::RightJustified20 => 0b110,
            AudioFormat::RightJustified24 => 0b111,
        }
    }

    pub fn from_primitive(raw: u8) -> (variant: Option<AudioFormat>)
        ensures
            variant == Self::of_raw(raw),
            variant matches Some(v) ==> v.raw() == raw,
    {
        if raw == 0b000 {
            Some(AudioFormat::LeftJustified24)
        } else if raw == 0b001 {
            Some(AudioFormat::I2s24)
        } else if raw == 0b100 {
            Some(AudioFormat::RightJustified16)
        } else if raw == 0b101 {
            Some(AudioFormat::RightJustified18)
        } else if raw == 0b110 {
            Some(AudioFormat::RightJustified20)
        } else if raw == 0b111 {
            Some(AudioFormat::RightJustified24)
        } else {
            None
        }
    }
}

impl Default for AudioFormat {
    fn default() -> (variant: Self)
        ensures
            variant == AudioFormat::LeftJustified24,
    {
        AudioFormat::LeftJustified24
    }
}

/// Where a port takes the data that it sends from.
#[derive(Clone, Copy, PartialEq, Eq, Debug, Structural)]
pub enum OutputDataSource {
    /// The port's own input.
    Loopback,
    /// The input of the other port.
    OtherPort,
    /// The digital interface receiver.
    Dir,
    /// The sample rate converter.
    Src,
}

impl OutputDataSource {
    /// The bit pattern of the variant.
    pub open spec fn raw(self) -> u8 {
        match self {
            OutputDataSource::Loopback => 0b00,
            OutputDataSource::OtherPort => 0b01,
            OutputDataSource::Dir => 0b10,
            OutputDataSource::Src => 0b11,
        }
    }

    /// The variant with the given bit pattern, if there is one.
    pub open spec fn of_raw(raw: u8) -> Option<OutputDataSource> {
        if raw == 0b00 {
            Some(OutputDataSource::Loopback)
        } else if raw == 0b01 {
            Some(OutputDataSource::OtherPort)
        } else if raw == 0b10 {
            Some(OutputDataSource::Dir)
        } else if raw == 0b11 {
            Some(OutputDataSource::Src)
        } else {
            None
        }
    }

    pub fn to_primitive(&self) -> (raw: u8)
        ensures
            raw == self.raw(),
            Self::of_raw(raw) == Some(*self),
    {
        match self {
            OutputDataSource::Loopback => 0b00,
            OutputDataSource::OtherPort => 0b01,
            OutputDataSource::Dir => 0b10,
            OutputDataSource::Src => 0b11,
        }
    }

    pub fn from_primitive(raw: u8) -> (variant: Option<OutputDataSource>)
        ensures
            variant == Self::of_raw(raw),
            variant matches Some(v) ==> v.raw() == raw,
    {
        if raw == 0b00 {
            Some(OutputDataSource::Loopback)
        } else if raw == 0b01 {
            Some(OutputDataSource::OtherPort)
        } else if raw == 0b10 {
            Some(OutputDataSource::Dir)
        } else if raw == 0b11 {
            Some(OutputDataSource::Src)
        } else {
            None
        }
    }
}

impl Default for OutputDataSource {
    fn default() -> (variant: Self)
        ensures
            variant == OutputDataSource::Loopback,
    {
        OutputDataSource::Loopback
    }
}

/// The divider from the master clock to the word clock, when the port is the clock master.
#[derive(Clone, Copy, PartialEq, Eq, Debug, Structural)]
pub enum PortMasterClockDivider {
    /// Divide by 128.
    _128,
    /// Divide by 256.
    _256,
    /// Divide by 384.
    _384,
    /// Divide by 512.
    _512,
}

impl PortMasterClockDivider {
    /// The bit pattern of the variant.
    pub open spec fn raw(self) -> u8 {
        match self {
            PortMasterClockDivider::_128 => 0b00,
            PortMasterClockDivider::_256 => 0b01,
            PortMasterClockDivider::_384 => 0b10,
            PortMasterClockDivider::_512 => 0b11,
        }
    }

    /// The variant with the given bit pattern, if there is one.
    pub open spec fn of_raw(raw: u8) -> Option<PortMasterClockDivider> {
        if raw == 0b00 {
            Some(PortMasterClockDivider::_128)
        } else if raw == 0b01 {
            Some(PortMasterClockDivider::_256)
        } else if raw == 0b10 {
            Some(PortMasterClockDivider::_384)
        } else if raw == 0b11 {
            Some(PortMasterClockDivider::_512)
        } else {
            None
        }
    }

    pub fn to_primitive(&self) -> (raw: u8)
        ensures
            raw == self.raw(),
            Self::of_raw(raw) == Some(*self),
    {
        match self {
            PortMasterClockDivider::_128 => 0b00,
            PortMasterClockDivider::_256 => 0b01,
            PortMasterClockDivider::_384 => 0b10,
            PortMasterClockDivider::_512 => 0b11,
        }
    }

    pub fn from_primitive(raw: u8) -> (variant: Option<PortMasterClockDivider>)
        ensures
            variant == Self::of_raw(raw),
            variant matches Some(v) ==> v.raw() == raw,
    {
        if raw == 0b00 {
            Some(PortMasterClockDivider::_128)
        } else if raw == 0b01 {
            Some(PortMasterClockDivider::_256)
        } else if raw == 0b10 {
            Some(PortMasterClockDivider::_384)
        } else if raw == 0b11 {
            Some(PortMasterClockDivider::_512)
        } else {
            None
        }
    }
}

impl Default for PortMasterClockDivider {
    fn default() -> (variant: Self)
        ensures
            variant == PortMasterClockDivider::_128,
    {
        PortMasterClockDivider::_128
    }
}

/// The master clock of a port.
#[derive(Clone, Copy, PartialEq, Eq, Debug, Structural)]
pub enum PortClockSource {
    /// The master clock input.
    Mclk,
    /// The receiver's reference clock input.
    Rxcki,
    /// The receiver's recovered clock.
    Rxcko,
}

impl PortClockSource {
    /// The bit pattern of the variant.
    pub open spec fn raw(self) -> u8 {
        match self {
            PortClockSource::Mclk => 0b00,
            PortClockSource::Rxcki => 0b01,
            PortClockSource::Rxcko => 0b10,
        }
    }

    /// The variant with the given bit pattern, if there is one.
    pub open spec fn of_raw(raw: u8) -> Option<PortClockSource> {
        if raw == 0b00 {
            Some(PortClockSource::Mclk)
        } else if raw == 0b01 {
            Some(PortClockSource::Rxcki)
        } else if raw == 0b10 {
            Some(PortClockSource::Rxcko)
        } else {
            None
        }
    }

    pub fn to_primitive(&self) -> (raw: u8)
        ensures
            raw == self.raw(),
            Self::of_raw(raw) == Some(*self),
    {
        match self {
            PortClockSource::Mclk => 0b00,
            PortClockSource::Rxcki => 0b01,
            PortClockSource::Rxcko => 0b10,
        }
    }

    pub fn from_primitive(raw: u8) -> (variant: Option<PortClockSource>)
        ensures
            variant == Self::of_raw(raw),
            variant matches Some(v) ==> v.raw() == raw,
    {
        if raw == 0b00 {
            Some(PortClockSource::Mclk)
        } else if raw == 0b01 {
            Some(PortClockSource::Rxcki)
        } else if raw == 0b10 {
            Some(PortClockSource::Rxcko)
        } else {
            None
        }
    }
}

impl Default for PortClockSource {
    fn default() -> (variant: Self)
        ensures
            variant == PortClockSource::Mclk,
    {
        PortClockSource::Mclk
    }
}

/// The bits of a first control register that must be zero.
pub const CONTROL1_RESERVED: u8 = 0x80;

/// The bits of a second control register that must be zero.
pub const CONTROL2_RESERVED: u8 = 0xF0;

/// The image byte of a first control register with the given fields.
pub open spec fn control1_byte(
    afmt: AudioFormat,
    am_slave: bool,
    aout: OutputDataSource,
    amute: bool,
) -> u8 {
    place(afmt.raw(), 0) | flag(am_slave, 3) | place(aout.raw(), 4) | flag(amute, 6)
}

/// The image byte of a second control register with the given fields.
pub open spec fn control2_byte(adiv: PortMasterClockDivider, aclk: PortClockSource) -> u8 {
    place(adiv.raw(), 0) | place(aclk.raw(), 2)
}

proof fn lemma_control1_fields(byte: u8)
    requires
        byte & 0x80 == 0,
    ensures
        field(byte, 4, 0b11) < 4,
        (place(field(byte, 0, 0b111), 0) | flag(bit(byte, 3), 3) | place(field(byte, 4, 0b11), 4)
            | flag(bit(byte, 6), 6)) == byte,
{
    assert(field(byte, 4, 0b11) < 4 && (byte & 0x80 == 0 ==> (place(field(byte, 0, 0b111), 0)
        | flag(bit(byte, 3), 3) | place(field(byte, 4, 0b11), 4) | flag(bit(byte, 6), 6)) == byte))
        by (bit_vector);
}

proof fn lemma_control1_byte(afmt: AudioFormat, am_slave: bool, aout: OutputDataSource, amute: bool)
    ensures
        field(control1_byte(afmt, am_slave, aout, amute), 0, 0b111) == afmt.raw(),
        bit(control1_byte(afmt, am_slave, aout, amute), 3) == am_slave,
        field(control1_byte(afmt, am_slave, aout, amute), 4, 0b11) == aout.raw(),
        bit(control1_byte(afmt, am_slave, aout, amute), 6) == amute,
        control1_byte(afmt, am_slave, aout, amute) & 0x80 == 0,
{
    let (r0, r4) = (afmt.raw(), aout.raw());
    let byte = control1_byte(afmt, am_slave, aout, amute);
    assert(byte == (place(r0, 0) | flag(am_slave, 3) | place(r4, 4) | flag(amute, 6)) && r0 < 8
        && r4 < 4 ==> field(byte, 0, 0b111) == r0 && bit(byte, 3) == am_slave && field(
        byte,
        4,
        0b11,
    ) == r4 && bit(byte, 6) == amute && byte & 0x80 == 0) by (bit_vector);
}

proof fn lemma_control2_fields(byte: u8)
    requires
        byte & 0xF0 == 0,
    ensures
        field(byte, 0, 0b11) < 4,
        (place(field(byte, 0, 0b11), 0) | place(field(byte, 2, 0b11), 2)) == byte,
{
    assert(field(byte, 0, 0b11) < 4 && (byte & 0xF0 == 0 ==> (place(field(byte, 0, 0b11), 0)
        | place(field(byte, 2, 0b11), 2)) == byte)) by (bit_vector);
}

proof fn lemma_control2_byte(adiv: PortMasterClockDivider, aclk: PortClockSource)
    ensures
        field(control2_byte(adiv, aclk), 0, 0b11) == adiv.raw(),
        field(control2_byte(adiv, aclk), 2, 0b11) == aclk.raw(),
        control2_byte(adiv, aclk) & 0xF0 == 0,
{
    let (r0, r2) = (adiv.raw(), aclk.raw());
    let byte = control2_byte(adiv, aclk);
    assert(byte == (place(r0, 0) | place(r2, 2)) && r0 < 4 && r2 < 4 ==> field(byte, 0, 0b11) == r0
        && field(byte, 2, 0b11) == r2 && byte & 0xF0 == 0) by (bit_vector);
}

/// The first control register of audio port A.
#[derive(Clone, Copy, Debug, PartialEq, Eq)]
pub struct PortAControl1Register {
    /// The audio data format.
    pub afmt: AudioFormat,
    /// The port drives the bit and word clocks when set, and takes them when clear.
    pub am_slave: bool,
    /// The source of the data that the port sends.
    pub aout: OutputDataSource,
    /// The output is muted.
    pub amute: bool,
}

impl PortAControl1Register {
    pub const REGISTER_ADDRESS: Registers = Registers::PortAControl;

    /// The value that an image byte without reserved bits stands for, or the
    /// first field, from bit 0 upwards, whose bits name no variant.
    pub open spec fn of_byte(byte: u8) -> Result<PortAControl1Register, DecodeError> {
        match AudioFormat::of_raw(field(byte, 0, 0b111)) {
            None => Err(DecodeError::InvalidEnumValue { field: "afmt", raw: field(byte, 0, 0b111) }),
            Some(afmt) => match OutputDataSource::of_raw(field(byte, 4, 0b11)) {
                None => Err(
                    DecodeError::InvalidEnumValue { field: "aout", raw: field(byte, 4, 0b11) },
                ),
                Some(aout) => Ok(
                    PortAControl1Register { afmt, am_slave: bit(byte, 3), aout, amute: bit(byte, 6) },
                ),
            },
        }
    }
}

impl Default for PortAControl1Register {
    fn default() -> (value: Self)
        ensures
            value == (PortAControl1Register {
                afmt: AudioFormat::LeftJustified24,
                am_slave: false,
                aout: OutputDataSource::Loopback,
                amute: false,
            }),
    {
        PortAControl1Register {
            afmt: AudioFormat::LeftJustified24,
            am_slave: false,
            aout: OutputDataSource::Loopback,
            amute: false,
        }
    }
}

impl RegisterAddress<Registers> for PortAControl1Register {
    open spec fn location() -> Registers {
        Registers::PortAControl
    }

    fn register_address() -> (register: Registers) {
        Registers::PortAControl
    }
}

impl PackedRegister for PortAControl1Register {
    open spec fn width() -> nat {
        1
    }

    open spec fn reserved() -> Seq<u8> {
        seq![0x80u8]
    }

    open spec fn in_range(self) -> bool {
        true
    }

    open spec fn encoding(self) -> Seq<u8> {
        seq![control1_byte(self.afmt, self.am_slave, self.aout, self.amute)]
    }

    open spec fn decoding(image: Seq<u8>) -> Result<Self, DecodeError> {
        if image.len() != 1 || image[0] & 0x80 != 0 {
            Err(DecodeError::MalformedRegisterImage)
        } else {
            Self::of_byte(image[0])
        }
    }

    fn size() -> (n: usize) {
        1
    }

    fn pack(&self) -> (image: Vec<u8>) {
        let byte: u8 = put_field(self.afmt.to_primitive(), 0) | put_flag(self.am_slave, 3)
            | put_field(self.aout.to_primitive(), 4) | put_flag(self.amute, 6);
        let image = vec![byte];
        assert(image@ =~= self.encoding());
        image
    }

    fn unpack(image: &[u8]) -> (value: Result<Self, DecodeError>) {
        if image.len() != 1 || image[0] & 0x80 != 0 {
            return Err(DecodeError::MalformedRegisterImage);
        }
        let byte = image[0];
        let raw_format = get_field(byte, 0, 0b111);
        let afmt = match AudioFormat::from_primitive(raw_format) {
            Some(afmt) => afmt,
            None => {
                return Err(DecodeError::InvalidEnumValue { field: "afmt", raw: raw_format });
            },
        };
        let raw_source = get_field(byte, 4, 0b11);
        let aout = match OutputDataSource::from_primitive(raw_source) {
            Some(aout) => aout,
            None => {
                return Err(DecodeError::InvalidEnumValue { field: "aout", raw: raw_source });
            },
        };
        Ok(PortAControl1Register { afmt, am_slave: get_bit(byte, 3), aout, amute: get_bit(byte, 6) })
    }

    proof fn lemma_reserved_width() {
    }

    proof fn lemma_encoding_shape(self) {
        lemma_control1_byte(self.afmt, self.am_slave, self.aout, self.amute);
    }

    proof fn lemma_malformed(image: Seq<u8>) {
        if image.len() == 1 {
            assert(reserved_clear(image, Self::reserved()) <==> image[0] & 0x80 == 0);
        }
    }

    proof fn lemma_decoded_in_range(image: Seq<u8>) {
    }

    proof fn lemma_encode_decoded(image: Seq<u8>) {
        lemma_control1_fields(image[0]);
        assert(Self::of_byte(image[0])->Ok_0.encoding() =~= image);
    }

    proof fn lemma_decode_encoded(self) {
        lemma_control1_byte(self.afmt, self.am_slave, self.aout, self.amute);
    }
}

/// The second control register of audio port A.
#[derive(Clone, Copy, Debug, PartialEq, Eq)]
pub struct PortAControl2Register {
    /// The divider from the master clock to the word clock.
    pub adiv: PortMasterClockDivider,
    /// The source of the master clock.
    pub aclk: PortClockSource,
}

impl PortAControl2Register {
    pub const REGISTER_ADDRESS: Registers = Registers::PortAControl2;

    /// The value that an image byte without reserved bits stands for, unless
    /// the bits of the clock source name no variant.
    pub open spec fn of_byte(byte: u8) -> Result<PortAControl2Register, DecodeError> {
        match PortMasterClockDivider::of_raw(field(byte, 0, 0b11)) {
            None => Err(DecodeError::InvalidEnumValue { field: "adiv", raw: field(byte, 0, 0b11) }),
            Some(adiv) => match PortClockSource::of_raw(field(byte, 2, 0b11)) {
                None => Err(
                    DecodeError::InvalidEnumValue { field: "aclk", raw: field(byte, 2, 0b11) },
                ),
                Some(aclk) => Ok(PortAControl2Register { adiv, aclk }),
            },
        }
    }
}

impl Default for PortAControl2Register {
    fn default() -> (value: Self)
        ensures
            value == (PortAControl2Register {
                adiv: PortMasterClockDivider::_128,
                aclk: PortClockSource::Mclk,
            }),
    {
        PortAControl2Register { adiv: PortMasterClockDivider::_128, aclk: PortClockSource::Mclk }
    }
}

impl RegisterAddress<Registers> for PortAControl2Register {
    open spec fn location() -> Registers {
        Registers::PortAControl2
    }

    fn register_address() -> (register: Registers) {
        Registers::PortAControl2
    }
}

impl PackedRegister for PortAControl2Register {
    open spec fn width() -> nat {
        1
    }

    open spec fn reserved() -> Seq<u8> {
        seq![0xF0u8]
    }

    open spec fn in_range(self) -> bool {
        true
    }

    open spec fn encoding(self) -> Seq<u8> {
        seq![control2_byte(self.adiv, self.aclk)]
    }

    open spec fn decoding(image: Seq<u8>) -> Result<Self, DecodeError> {
        if image.len() != 1 || image[0] & 0xF0 != 0 {
            Err(DecodeError::MalformedRegisterImage)
        } else {
            Self::of_byte(image[0])
        }
    }

    fn size() -> (n: usize) {
        1
    }

    fn pack(&self) -> (image: Vec<u8>) {
        let byte: u8 = put_field(self.adiv.to_primitive(), 0) | put_field(
            self.aclk.to_primitive(),
            2,
        );
        let image = vec![byte];
        assert(image@ =~= self.encoding());
        image
    }

    fn unpack(image: &[u8]) -> (value: Result<Self, DecodeError>) {
        if image.len() != 1 || image[0] & 0xF0 != 0 {
            return Err(DecodeError::MalformedRegisterImage);
        }
        let byte = image[0];
        let raw_divider = get_field(byte, 0, 0b11);
        let adiv = match PortMasterClockDivider::from_primitive(raw_divider) {
            Some(adiv) => adiv,
            None => {
                return Err(DecodeError::InvalidEnumValue { field: "adiv", raw: raw_divider });
            },
        };
        let raw_clock = get_field(byte, 2, 0b11);
        let aclk = match PortClockSource::from_primitive(raw_clock) {
            Some(aclk) => aclk,
            None => {
                return Err(DecodeError::InvalidEnumValue { field: "aclk", raw: raw_clock });
            },
        };
        Ok(PortAControl2Register { adiv, aclk })
    }

    proof fn lemma_reserved_width() {
    }

    proof fn lemma_encoding_shape(self) {
        lemma_control2_byte(self.adiv, self.aclk);
    }

    proof fn lemma_malformed(image: Seq<u8>) {
        if image.len() == 1 {
            assert(reserved_clear(image, Self::reserved()) <==> image[0] & 0xF0 == 0);
        }
    }

    proof fn lemma_decoded_in_range(image: Seq<u8>) {
    }

    proof fn lemma_encode_decoded(image: Seq<u8>) {
        lemma_control2_fields(image[0]);
        assert(Self::of_byte(image[0])->Ok_0.encoding() =~= image);
    }

    proof fn lemma_decode_encoded(self) {
        lemma_control2_byte(self.adiv, self.aclk);
    }
}

/// The first control register of audio port B.
#[derive(Clone, Copy, Debug, PartialEq, Eq)]
pub struct PortBControl1Register {
    /// The audio data format.
    pub afmt: AudioFormat,
    /// The port drives the bit and word clocks when set, and takes them when clear.
    pub am_slave: bool,
    /// The source of the data that the port sends.
    pub aout: OutputDataSource,
    /// The output is muted.
    pub amute: bool,
}

impl PortBControl1Register {
    pub const REGISTER_ADDRESS: Registers = Registers::PortBControl;

    /// The value that an image byte without reserved bits stands for, or the
    /// first field, from bit 0 upwards, whose bits name no variant.
    pub open spec fn of_byte(byte: u8) -> Result<PortBControl1Register, DecodeError> {
        match AudioFormat::of_raw(field(byte, 0, 0b111)) {
            None => Err(DecodeError::InvalidEnumValue { field: "afmt", raw: field(byte, 0, 0b111) }),
            Some(afmt) => match OutputDataSource::of_raw(field(byte, 4, 0b11)) {
                None => Err(
                    DecodeError::InvalidEnumValue { field: "aout", raw: field(byte, 4, 0b11) },
                ),
                Some(aout) => Ok(
                    PortBControl1Register { afmt, am_slave: bit(byte, 3), aout, amute: bit(byte, 6) },
                ),
            },
        }
    }
}

impl Default for PortBControl1Register {
    fn default() -> (value: Self)
        ensures
            value == (PortBControl1Register {
                afmt: AudioFormat::LeftJustified24,
                am_slave: false,
                aout: OutputDataSource::Loopback,
                amute: false,
            }),
    {
        PortBControl1Register {
            afmt: AudioFormat::LeftJustified24,
            am_slave: false,
            aout: OutputDataSource::Loopback,
            amute: false,
        }
    }
}

impl RegisterAddress<Registers> for PortBControl1Register {
    open spec fn location() -> Registers {
        Registers::PortBControl
    }

    fn register_address() -> (register: Registers) {
        Registers::PortBControl
    }
}

impl PackedRegister for PortBControl1Register {
    open spec fn width() -> nat {
        1
    }

    open spec fn reserved() -> Seq<u8> {
        seq![0x80u8]
    }

    open spec fn in_range(self) -> bool {
        true
    }

    open spec fn encoding(self) -> Seq<u8> {
        seq![control1_byte(self.afmt, self.am_slave, self.aout, self.amute)]
    }

    open spec fn decoding(image: Seq<u8>) -> Result<Self, DecodeError> {
        if image.len() != 1 || image[0] & 0x80 != 0 {
            Err(DecodeError::MalformedRegisterImage)
        } else {
            Self::of_byte(image[0])
        }
    }

    fn size() -> (n: usize) {
        1
    }

    fn pack(&self) -> (image: Vec<u8>) {
        let byte: u8 = put_field(self.afmt.to_primitive(), 0) | put_flag(self.am_slave, 3)
            | put_field(self.aout.to_primitive(), 4) | put_flag(self.amute, 6);
        let image = vec![byte];
        assert(image@ =~= self.encoding());
        image
    }

    fn unpack(image: &[u8]) -> (value: Result<Self, DecodeError>) {
        if image.len() != 1 || image[0] & 0x80 != 0 {
            return Err(DecodeError::MalformedRegisterImage);
        }
        let byte = image[0];
        let raw_format = get_field(byte, 0, 0b111);
        let afmt = match AudioFormat::from_primitive(raw_format) {
            Some(afmt) => afmt,
            None => {
                return Err(DecodeError::InvalidEnumValue { field: "afmt", raw: raw_format });
            },
        };
        let raw_source = get_field(byte, 4, 0b11);
        let aout = match OutputDataSource::from_primitive(raw_source) {
            Some(aout) => aout,
            None => {
                return Err(DecodeError::InvalidEnumValue { field: "aout", raw: raw_source });
            },
        };
        Ok(PortBControl1Register { afmt, am_slave: get_bit(byte, 3), aout, amute: get_bit(byte, 6) })
    }

    proof fn lemma_reserved_width() {
    }

    proof fn lemma_encoding_shape(self) {
        lemma_control1_byte(self.afmt, self.am_slave, self.aout, self.amute);
    }

    proof fn lemma_malformed(image: Seq<u8>) {
        if image.len() == 1 {
            assert(reserved_clear(image, Self::reserved()) <==> image[0] & 0x80 == 0);
        }
    }

    proof fn lemma_decoded_in_range(image: Seq<u8>) {
    }

    proof fn lemma_encode_decoded(image: Seq<u8>) {
        lemma_control1_fields(image[0]);
        assert(Self::of_byte(image[0])->Ok_0.encoding() =~= image);
    }

    proof fn lemma_decode_encoded(self) {
        lemma_control1_byte(self.afmt, self.am_slave, self.aout, self.amute);
    }
}

/// The second control register of audio port B.
#[derive(Clone, Copy, Debug, PartialEq, Eq)]
pub struct PortBControl2Register {
    /// The divider from the master clock to the word clock.
    pub adiv: PortMasterClockDivider,
    /// The source of the master clock.
    pub aclk: PortClockSource,
}

impl PortBControl2Register {
    pub const REGISTER_ADDRESS: Registers = Registers::PortBControl2;

    /// The value that an image byte without reserved bits stands for, unless
    /// the bits of the clock source name no variant.
    pub open spec fn of_byte(byte: u8) -> Result<PortBControl2Register, DecodeError> {
        match PortMasterClockDivider::of_raw(field(byte, 0, 0b11)) {
            None => Err(DecodeError::InvalidEnumValue { field: "adiv", raw: field(byte, 0, 0b11) }),
            Some(adiv) => match PortClockSource::of_raw(field(byte, 2, 0b11)) {
                None => Err(
                    DecodeError::InvalidEnumValue { field: "aclk", raw: field(byte, 2, 0b11) },
                ),
                Some(aclk) => Ok(PortBControl2Register { adiv, aclk }),
            },
        }
    }
}

impl Default for PortBControl2Register {
    fn default() -> (value: Self)
        ensures
            value == (PortBControl2Register {
                adiv: PortMasterClockDivider::_128,
                aclk: PortClockSource::Mclk,
            }),
    {
        PortBControl2Register { adiv: PortMasterClockDivider::_128, aclk: PortClockSource::Mclk }
    }
}

impl RegisterAddress<Registers> for PortBControl2Register {
    open spec fn location() -> Registers {
        Registers::PortBControl2
    }

    fn register_address() -> (register: Registers) {
        Registers::PortBControl2
    }
}

impl PackedRegister for PortBControl2Register {
    open spec fn width() -> nat {
        1
    }

    open spec fn reserved() -> Seq<u8> {
        seq![0xF0u8]
    }

    open spec fn in_range(self) -> bool {
        true
    }

    open spec fn encoding(self) -> Seq<u8> {
        seq![control2_byte(self.adiv, self.aclk)]
    }

    open spec fn decoding(image: Seq<u8>) -> Result<Self, DecodeError> {
        if image.len() != 1 || image[0] & 0xF0 != 0 {
            Err(DecodeError::MalformedRegisterImage)
        } else {
            Self::of_byte(image[0])
        }
    }

    fn size() -> (n: usize) {
        1
    }

    fn pack(&self) -> (image: Vec<u8>) {
        let byte: u8 = put_field(self.adiv.to_primitive(), 0) | put_field(
            self.aclk.to_primitive(),
            2,
        );
        let image = vec![byte];
        assert(image@ =~= self.encoding());
        image
    }

    fn unpack(image: &[u8]) -> (value: Result<Self, DecodeError>) {
        if image.len() != 1 || image[0] & 0xF0 != 0 {
            return Err(DecodeError::MalformedRegisterImage);
        }
        let byte = image[0];
        let raw_divider = get_field(byte, 0, 0b11);
        let adiv = match PortMasterClockDivider::from_primitive(raw_divider) {
            Some(adiv) => adiv,
            None => {
                return Err(DecodeError::InvalidEnumValue { field: "adiv", raw: raw_divider });
            },
        };
        let raw_clock = get_field(byte, 2, 0b11);
        let aclk = match PortClockSource::from_primitive(raw_clock) {
            Some(aclk) => aclk,
            None => {
                return Err(DecodeError::InvalidEnumValue { field: "aclk", raw: raw_clock });
            },
        };
        Ok(PortBControl2Register { adiv, aclk })
    }

    proof fn lemma_reserved_width() {
    }

    proof fn lemma_encoding_shape(self) {
        lemma_control2_byte(self.adiv, self.aclk);
    }

    proof fn lemma_malformed(image: Seq<u8>) {
        if image.len() == 1 {
            assert(reserved_clear(image, Self::reserved()) <==> image[0] & 0xF0 == 0);
        }
    }

    proof fn lemma_decoded_in_range(image: Seq<u8>) {
    }

    proof fn lemma_encode_decoded(image: Seq<u8>) {
        lemma_control2_fields(image[0]);
        assert(Self::of_byte(image[0])->Ok_0.encoding() =~= image);
    }

    proof fn lemma_decode_encoded(self) {
        lemma_control2_byte(self.adiv, self.aclk);
    }
}

} // verus!
