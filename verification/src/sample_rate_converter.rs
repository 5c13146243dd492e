use crate::codec::{
    bit, field, flag, get_bit, get_field, place, put_field, put_flag, reserved_clear, DecodeError,
    PackedRegister,
};
use crate::registers::{RegisterAddress, Registers};
use vstd::prelude::*;

verus! {

/// Where the sample rate converter takes its input from.
#[derive(Clone, Copy, PartialEq, Eq, Debug, Structural)]
pub enum SrcSource {
    /// The input of audio port A.
    PortA,
    /// The input of audio port B.
    PortB,
    /// The digital interface receiver.
    DIR,
}

impl SrcSource {
    /// The bit pattern of the variant.
    pub open spec fn raw(self) -> u8 {
        match self {
            SrcSource::PortA => 0b00,
            SrcSource::PortB => 0b01,
            SrcSource::DIR => 0b10,
        }
    }

    /// The variant with the given bit pattern, if there is one.
    pub open spec fn of_raw(raw: u8) -> Option<SrcSource> {
        if raw == 0b00 {
            Some(SrcSource::PortA)
        } else if raw == 0b01 {
            Some(SrcSource::PortB)
        } else if raw == 0b10 {
            Some(SrcSource::DIR)
        } else {
            None
        }
    }

    pub fn to_primitive(&self) -> (raw: u8)
        ensures
            raw == self.raw(),
            Self::of_raw(raw) == Some(*self),
    {
        match self {
            SrcSource::PortA => 0b00,
            SrcSource::PortB => 0b01,
            SrcSource::DIR => 0b10,
        }
    }

    pub fn from_primitive(raw: u8) -> (variant: Option<SrcSource>)
        ensures
            variant == Self::of_raw(raw),
            variant matches Some(v) ==> v.raw() == raw,
    {
        if raw == 0b00 {
            Some(SrcSource::PortA)
        } else if raw == 0b01 {
            Some(SrcSource::PortB)
        } else if raw == 0b10 {
            Some(SrcSource::DIR)
        } else {
            None
        }
    }
}

impl Default for SrcSource {
    fn default() -> (variant: Self)
        ensures
            variant == SrcSource::PortA,
    {
        SrcSource::PortA
    }
}

/// The reference clock of the sample rate converter.
#[derive(Clone, Copy, PartialEq, Eq, Debug, Structural)]
pub enum SrcClockSource {
    /// The master clock input.
    Mclk,
    /// The receiver's reference clock input.
    Rxcki,
    /// The receiver's recovered clock.
    Rxcko,
}

impl SrcClockSource {
    /// The bit pattern of the variant.
    pub open spec fn raw(self) -> u8 {
        match self {
            SrcClockSource::Mclk => 0b00,
            SrcClockSource::Rxcki => 0b01,
            SrcClockSource::Rxcko => 0b10,
        }
    }

    /// The variant with the given bit pattern, if there is one.
    pub open spec fn of_raw(raw: u8) -> Option<SrcClockSource> {
        if raw == 0b00 {
            Some(SrcClockSource::Mclk)
        } else if raw == 0b01 {
            Some(SrcClockSource::Rxcki)
        } else if raw == 0b10 {
            Some(SrcClockSource::Rxcko)
        } else {
            None
        }
    }

    pub fn to_primitive(&self) -> (raw: u8)
        ensures
            raw == self.raw(),
            Self::of_raw(raw) == Some(*self),
    {
        match self {
            SrcClockSource::Mclk => 0b00,
            SrcClockSource::Rxcki => 0b01,
            SrcClockSource::Rxcko => 0b10,
        }
    }

    pub fn from_primitive(raw: u8) -> (variant: Option<SrcClockSource>)
        ensures
            variant == Self::of_raw(raw),
            variant matches Some(v) ==> v.raw() == raw,
    {
        if raw == 0b00 {
            Some(SrcClockSource::Mclk)
        } else if raw == 0b01 {
            Some(SrcClockSource::Rxcki)
        } else if raw == 0b10 {
            Some(SrcClockSource::Rxcko)
        } else {
            None
        }
    }
}

impl Default for SrcClockSource {
    fn default() -> (variant: Self)
        ensures
            variant == SrcClockSource::Mclk,
    {
        SrcClockSource::Mclk
    }
}

/// The group delay of the interpolation filter, in samples.
#[derive(Clone, Copy, PartialEq, Eq, Debug, Structural)]
pub enum InterpolationFilterGroupDelay {
    /// 64 samples.
    _64,
    /// 32 samples.
    _32,
    /// 16 samples.
    _16,
    /// 8 samples.
    _8,
}

impl InterpolationFilterGroupDelay {
    /// The bit pattern of the variant.
    pub open spec fn raw(self) -> u8 {
        match self {
            InterpolationFilterGroupDelay::_64 => 0b00,
            InterpolationFilterGroupDelay::_32 => 0b01,
            InterpolationFilterGroupDelay::_16 => 0b10,
            InterpolationFilterGroupDelay::_8 => 0b11,
        }
    }

    /// The variant with the given bit pattern, if there is one.
    pub open spec fn of_raw(raw: u8) -> Option<InterpolationFilterGroupDelay> {
        if raw == 0b00 {
            Some(InterpolationFilterGroupDelay::_64)
        } else if raw == 0b01 {
            Some(InterpolationFilterGroupDelay::_32)
        } else if raw == 0b10 {
            Some(InterpolationFilterGroupDelay::_16)
        } else if raw == 0b11 {
            Some(InterpolationFilterGroupDelay::_8)
        } else {
            None
        }
    }

    pub fn to_primitive(&self) -> (raw: u8)
        ensures
            raw == self.raw(),
            Self::of_raw(raw) == Some(*self),
    {
        match self {
            InterpolationFilterGroupDelay::_64 => 0b00,
            InterpolationFilterGroupDelay::_32 => 0b01,
            InterpolationFilterGroupDelay::_16 => 0b10,
            InterpolationFilterGroupDelay::_8 => 0b11,
        }
    }

    pub fn from_primitive(raw: u8) -> (variant: Option<InterpolationFilterGroupDelay>)
        ensures
            variant == Self::of_raw(raw),
            variant matches Some(v) ==> v.raw() == raw,
    {
        if raw == 0b00 {
            Some(InterpolationFilterGroupDelay::_64)
        } else if raw == 0b01 {
            Some(InterpolationFilterGroupDelay::_32)
        } else if raw == 0b10 {
            Some(InterpolationFilterGroupDelay::_16)
        } else if raw == 0b11 {
            Some(InterpolationFilterGroupDelay::_8)
        } else {
            None
        }
    }
}

impl Default for InterpolationFilterGroupDelay {
    fn default() -> (variant: Self)
        ensures
            variant == InterpolationFilterGroupDelay::_64,
    {
        InterpolationFilterGroupDelay::_64
    }
}

/// The digital de-emphasis filter.
#[derive(Clone, Copy, PartialEq, Eq, Debug, Structural)]
pub enum Deemphasis {
    /// No de-emphasis.
    Off,
    /// De-emphasis for 48 kHz.
    _48000hz,
    /// De-emphasis for 44.1 kHz.
    _44100Hz,
    /// De-emphasis for 32 kHz.
    _32000Hz,
}

impl Deemphasis {
    /// The bit pattern of the variant.
    pub open spec fn raw(self) -> u8 {
        match self {
            Deemphasis::Off => 0b00,
            Deemphasis::_48000hz => 0b01,
            Deemphasis::_44100Hz => 0b10,
            Deemphasis::_32000Hz => 0b11,
        }
    }

    /// The variant with the given bit pattern, if there is one.
    pub open spec fn of_raw(raw: u8) -> Option<Deemphasis> {
        if raw == 0b00 {
            Some(Deemphasis::Off)
        } else if raw == 0b01 {
            Some(Deemphasis::_48000hz)
        } else if raw == 0b10 {
            Some(Deemphasis::_44100Hz)
        } else if raw == 0b11 {
            Some(Deemphasis::_32000Hz)
        } else {
            None
        }
    }

    pub fn to_primitive(&self) -> (raw: u8)
        ensures
            raw == self.raw(),
            Self::of_raw(raw) == Some(*self),
    {
        match self {
            Deemphasis::Off => 0b00,
            Deemphasis::_48000hz => 0b01,
            Deemphasis::_44100Hz => 0b10,
            Deemphasis::_32000Hz => 0b11,
        }
    }

    pub fn from_primitive(raw: u8) -> (variant: Option<Deemphasis>)
        ensures
            variant == Self::of_raw(raw),
            variant matches Some(v) ==> v.raw() == raw,
    {
        if raw == 0b00 {
            Some(Deemphasis::Off)
        } else if raw == 0b01 {
            Some(Deemphasis::_48000hz)
        } else if raw == 0b10 {
            Some(Deemphasis::_44100Hz)
        } else if raw == 0b11 {
            Some(Deemphasis::_32000Hz)
        } else {
            None
        }
    }
}

impl Default for Deemphasis {
    fn default() -> (variant: Self)
        ensures
            variant == Deemphasis::Off,
    {
        Deemphasis::Off
    }
}

/// The word length of the converter's output.
#[derive(Clone, Copy, PartialEq, Eq, Debug, Structural)]
pub enum SrcOutputWordLength {
    /// 24 bits.
    _24bits,
    /// 20 bits.
    _20bits,
    /// 18 bits.
    _18bits,
    /// 16 bits.
    _16bits,
}

impl SrcOutputWordLength {
    /// The bit pattern of the variant.
    pub open spec fn raw(self) -> u8 {
        match self {
            SrcOutputWordLength::_24bits => 0b00,
            SrcOutputWordLength::_20bits => 0b01,
            SrcOutputWordLength::_18bits => 0b10,
            SrcOutputWordLength::_16bits => 0b11,
        }
    }

    /// The variant with the given bit pattern, if there is one.
    pub open spec fn of_raw(raw: u8) -> Option<SrcOutputWordLength> {
        if raw == 0b00 {
            Some(SrcOutputWordLength::_24bits)
        } else if raw == 0b01 {
            Some(SrcOutputWordLength::_20bits)
        } else if raw == 0b10 {
            Some(SrcOutputWordLength::_18bits)
        } else if raw == 0b11 {
            Some(SrcOutputWordLength::_16bits)
        } else {
            None
        }
    }

    pub fn to_primitive(&self) -> (raw: u8)
        ensures
            raw == self.raw(),
            Self::of_raw(raw) == Some(*self),
    {
        match self {
            SrcOutputWordLength::_24bits => 0b00,
            SrcOutputWordLength::_20bits => 0b01,
            SrcOutputWordLength::_18bits => 0b10,
            SrcOutputWordLength::_16bits => 0b11,
        }
    }

    pub fn from_primitive(raw: u8) -> (variant: Option<SrcOutputWordLength>)
        ensures
            variant == Self::of_raw(raw),
            variant matches Some(v) ==> v.raw() == raw,
    {
        if raw == 0b00 {
            Some(SrcOutputWordLength::_24bits)
        } else if raw == 0b01 {
            Some(SrcOutputWordLength::_20bits)
        } else if raw == 0b10 {
            Some(SrcOutputWordLength::_18bits)
        } else if raw == 0b11 {
            Some(SrcOutputWordLength::_16bits)
        } else {
            None
        }
    }
}

impl Default for SrcOutputWordLength {
    fn default() -> (variant: Self)
        ensures
            variant == SrcOutputWordLength::_24bits,
    {
        SrcOutputWordLength::_24bits
    }
}

/// The first control register of the sample rate converter.
///
/// Bits 0 and 1 select the input, bits 2 and 3 the reference clock, bit 4
/// mutes the output, bit 6 makes the output attenuation of the right channel
/// track the left; bits 5 and 7 are reserved.
#[derive(Clone, Copy, Debug, PartialEq, Eq)]
pub struct SrcControl1 {
    pub source: SrcSource,
    pub clock_source: SrcClockSource,
    pub mute: bool,
    pub track: bool,
}

impl SrcControl1 {
    pub const REGISTER_ADDRESS: Registers = Registers::SrcControl;

    /// The bits of the image that must be zero.
    pub const RESERVED: u8 = 0xA0;

    /// The image byte of a value.
    pub open spec fn byte(self) -> u8 {
        place(self.source.raw(), 0) | place(self.clock_source.raw(), 2) | flag(self.mute, 4) | flag(
            self.track,
            6,
        )
    }

    /// The value that an image byte without reserved bits stands for, or the
    /// first field, from bit 0 upwards, whose bits name no variant.
    pub open spec fn of_byte(byte: u8) -> Result<SrcControl1, DecodeError> {
        match SrcSource::of_raw(field(byte, 0, 0b11)) {
            None => Err(DecodeError::InvalidEnumValue { field: "source", raw: field(byte, 0, 0b11) }),
            Some(source) => match SrcClockSource::of_raw(field(byte, 2, 0b11)) {
                None => Err(
                    DecodeError::InvalidEnumValue {
                        field: "clock_source",
                        raw: field(byte, 2, 0b11),
                    },
                ),
                Some(clock_source) => Ok(
                    SrcControl1 { source, clock_source, mute: bit(byte, 4), track: bit(byte, 6) },
                ),
            },
        }
    }

    proof fn lemma_byte_of_byte(byte: u8)
        requires
            byte & 0xA0 == 0,
            Self::of_byte(byte) is Ok,
        ensures
            Self::of_byte(byte)->Ok_0.byte() == byte,
    {
        assert(byte & 0xA0 == 0 ==> (place(field(byte, 0, 0b11), 0) | place(
            field(byte, 2, 0b11),
            2,
        ) | flag(bit(byte, 4), 4) | flag(bit(byte, 6), 6)) == byte) by (bit_vector);
    }

    proof fn lemma_of_byte_byte(self)
        ensures
            Self::of_byte(self.byte()) == Ok::<SrcControl1, DecodeError>(self),
            self.byte() & 0xA0 == 0,
    {
        let (r0, r1, b4, b6) = (self.source.raw(), self.clock_source.raw(), self.mute, self.track);
        let byte = self.byte();
        assert(byte == (place(r0, 0) | place(r1, 2) | flag(b4, 4) | flag(b6, 6)) && r0 < 4 && r1 < 4
            ==> field(byte, 0, 0b11) == r0 && field(byte, 2, 0b11) == r1 && bit(byte, 4) == b4
            && bit(byte, 6) == b6 && byte & 0xA0 == 0) by (bit_vector);
    }
}

impl Default for SrcControl1 {
    fn default() -> (value: Self)
        ensures
            value == (SrcControl1 {
                source: SrcSource::PortA,
                clock_source: SrcClockSource::Mclk,
                mute: false,
                track: false,
            }),
    {
        SrcControl1 {
            source: SrcSource::PortA,
            clock_source: SrcClockSource::Mclk,
            mute: false,
            track: false,
        }
    }
}

impl RegisterAddress<Registers> for SrcControl1 {
    open spec fn location() -> Registers {
        Registers::SrcControl
    }

    fn register_address() -> (register: Registers) {
        Registers::SrcControl
    }
}

impl PackedRegister for SrcControl1 {
    open spec fn width() -> nat {
        1
    }

    open spec fn reserved() -> Seq<u8> {
        seq![0xA0u8]
    }

    open spec fn in_range(self) -> bool {
        true
    }

    open spec fn encoding(self) -> Seq<u8> {
        seq![self.byte()]
    }

    open spec fn decoding(image: Seq<u8>) -> Result<Self, DecodeError> {
        if image.len() != 1 || image[0] & 0xA0 != 0 {
            Err(DecodeError::MalformedRegisterImage)
        } else {
            Self::of_byte(image[0])
        }
    }

    fn size() -> (n: usize) {
        1
    }

    fn pack(&self) -> (image: Vec<u8>) {
        let byte: u8 = put_field(self.source.to_primitive(), 0) | put_field(
            self.clock_source.to_primitive(),
            2,
        ) | put_flag(self.mute, 4) | put_flag(self.track, 6);
        let image = vec![byte];
        assert(image@ =~= self.encoding());
        image
    }

    fn unpack(image: &[u8]) -> (value: Result<Self, DecodeError>) {
        if image.len() != 1 || image[0] & 0xA0 != 0 {
            return Err(DecodeError::MalformedRegisterImage);
        }
        let byte = image[0];
        let raw_source = get_field(byte, 0, 0b11);
        let source = match SrcSource::from_primitive(raw_source) {
            Some(source) => source,
            None => {
                return Err(DecodeError::InvalidEnumValue { field: "source", raw: raw_source });
            },
        };
        let raw_clock = get_field(byte, 2, 0b11);
        let clock_source = match SrcClockSource::from_primitive(raw_clock) {
            Some(clock_source) => clock_source,
            None => {
                return Err(DecodeError::InvalidEnumValue { field: "clock_source", raw: raw_clock });
            },
        };
        Ok(SrcControl1 { source, clock_source, mute: get_bit(byte, 4), track: get_bit(byte, 6) })
    }

    proof fn lemma_reserved_width() {
    }

    proof fn lemma_encoding_shape(self) {
        self.lemma_of_byte_byte();
    }

    proof fn lemma_malformed(image: Seq<u8>) {
        if image.len() == 1 {
            assert(reserved_clear(image, Self::reserved()) <==> image[0] & 0xA0 == 0);
        }
    }

    proof fn lemma_decoded_in_range(image: Seq<u8>) {
    }

    proof fn lemma_encode_decoded(image: Seq<u8>) {
        Self::lemma_byte_of_byte(image[0]);
        assert(Self::of_byte(image[0])->Ok_0.encoding() =~= image);
    }

    proof fn lemma_decode_encoded(self) {
        self.lemma_of_byte_byte();
    }
}

/// The second control register of the sample rate converter.
///
/// Bits 0 and 1 select the group delay of the interpolation filter, bit 2
/// replaces the decimation filter by direct down-sampling, bits 3 and 4 select
/// the de-emphasis filter, bit 5 lets the chip choose the de-emphasis filter
/// itself; bits 6 and 7 are reserved.
///
/// Direct down-sampling is only for an output rate above the input rate: at
/// an equal or lower output rate the decimation filter is needed against
/// aliasing.
#[derive(Clone, Copy, Debug, PartialEq, Eq)]
pub struct SrcControl2 {
    pub interpolation_group_delay: InterpolationFilterGroupDelay,
    pub dd_n: bool,
    pub deemphasis: Deemphasis,
    pub autodem: bool,
}

impl SrcControl2 {
    pub const REGISTER_ADDRESS: Registers = Registers::SrcControl2;

    /// The bits of the image that must be zero.
    pub const RESERVED: u8 = 0xC0;

    /// The image byte of a value.
    pub open spec fn byte(self) -> u8 {
        place(self.interpolation_group_delay.raw(), 0) | flag(self.dd_n, 2) | place(
            self.deemphasis.raw(),
            3,
        ) | flag(self.autodem, 5)
    }

    /// The value that an image byte without reserved bits stands for, or the
    /// first field, from bit 0 upwards, whose bits name no variant.
    pub open spec fn of_byte(byte: u8) -> Result<SrcControl2, DecodeError> {
        match InterpolationFilterGroupDelay::of_raw(field(byte, 0, 0b11)) {
            None => Err(
                DecodeError::InvalidEnumValue {
                    field: "interpolation_group_delay",
                    raw: field(byte, 0, 0b11),
                },
            ),
            Some(interpolation_group_delay) => match Deemphasis::of_raw(field(byte, 3, 0b11)) {
                None => Err(
                    DecodeError::InvalidEnumValue { field: "deemphasis", raw: field(byte, 3, 0b11) },
                ),
                Some(deemphasis) => Ok(
                    SrcControl2 {
                        interpolation_group_delay,
                        dd_n: bit(byte, 2),
                        deemphasis,
                        autodem: bit(byte, 5),
                    },
                ),
            },
        }
    }

    proof fn lemma_field_range(byte: u8)
        ensures
            field(byte, 0, 0b11) < 4,
            field(byte, 3, 0b11) < 4,
    {
        assert(field(byte, 0, 0b11) < 4 && field(byte, 3, 0b11) < 4) by (bit_vector);
    }

    proof fn lemma_byte_of_byte(byte: u8)
        requires
            byte & 0xC0 == 0,
        ensures
            Self::of_byte(byte) is Ok,
            Self::of_byte(byte)->Ok_0.byte() == byte,
    {
        Self::lemma_field_range(byte);
        assert(byte & 0xC0 == 0 ==> (place(field(byte, 0, 0b11), 0) | flag(bit(byte, 2), 2) | place(
            field(byte, 3, 0b11),
            3,
        ) | flag(bit(byte, 5), 5)) == byte) by (bit_vector);
    }

    proof fn lemma_of_byte_byte(self)
        ensures
            Self::of_byte(self.byte()) == Ok::<SrcControl2, DecodeError>(self),
            self.byte() & 0xC0 == 0,
    {
        let (r0, b2, r3, b5) = (
            self.interpolation_group_delay.raw(),
            self.dd_n,
            self.deemphasis.raw(),
            self.autodem,
        );
        let byte = self.byte();
        assert(byte == (place(r0, 0) | flag(b2, 2) | place(r3, 3) | flag(b5, 5)) && r0 < 4 && r3 < 4
            ==> field(byte, 0, 0b11) == r0 && bit(byte, 2) == b2 && field(byte, 3, 0b11) == r3
            && bit(byte, 5) == b5 && byte & 0xC0 == 0) by (bit_vector);
    }
}

impl Default for SrcControl2 {
    fn default() -> (value: Self)
        ensures
            value == (SrcControl2 {
                interpolation_group_delay: InterpolationFilterGroupDelay::_64,
                dd_n: false,
                deemphasis: Deemphasis::Off,
                autodem: false,
            }),
    {
        SrcControl2 {
            interpolation_group_delay: InterpolationFilterGroupDelay::_64,
            dd_n: false,
            deemphasis: Deemphasis::Off,
            autodem: false,
        }
    }
}

impl RegisterAddress<Registers> for SrcControl2 {
    open spec fn location() -> Registers {
        Registers::SrcControl2
    }

    fn register_address() -> (register: Registers) {
        Registers::SrcControl2
    }
}

impl PackedRegister for SrcControl2 {
    open spec fn width() -> nat {
        1
    }

    open spec fn reserved() -> Seq<u8> {
        seq![0xC0u8]
    }

    open spec fn in_range(self) -> bool {
        true
    }

    open spec fn encoding(self) -> Seq<u8> {
        seq![self.byte()]
    }

    open spec fn decoding(image: Seq<u8>) -> Result<Self, DecodeError> {
        if image.len() != 1 || image[0] & 0xC0 != 0 {
            Err(DecodeError::MalformedRegisterImage)
        } else {
            Self::of_byte(image[0])
        }
    }

    fn size() -> (n: usize) {
        1
    }

    fn pack(&self) -> (image: Vec<u8>) {
        let byte: u8 = put_field(self.interpolation_group_delay.to_primitive(), 0) | put_flag(
            self.dd_n,
            2,
        ) | put_field(self.deemphasis.to_primitive(), 3) | put_flag(self.autodem, 5);
        let image = vec![byte];
        assert(image@ =~= self.encoding());
        image
    }

    fn unpack(image: &[u8]) -> (value: Result<Self, DecodeError>) {
        if image.len() != 1 || image[0] & 0xC0 != 0 {
            return Err(DecodeError::MalformedRegisterImage);
        }
        let byte = image[0];
        let raw_delay = get_field(byte, 0, 0b11);
        let interpolation_group_delay = match InterpolationFilterGroupDelay::from_primitive(
            raw_delay,
        ) {
            Some(delay) => delay,
            None => {
                return Err(
                    DecodeError::InvalidEnumValue {
                        field: "interpolation_group_delay",
                        raw: raw_delay,
                    },
                );
            },
        };
        let raw_deemphasis = get_field(byte, 3, 0b11);
        let deemphasis = match Deemphasis::from_primitive(raw_deemphasis) {
            Some(deemphasis) => deemphasis,
            None => {
                return Err(
                    DecodeError::InvalidEnumValue { field: "deemphasis", raw: raw_deemphasis },
                );
            },
        };
        Ok(
            SrcControl2 {
                interpolation_group_delay,
                dd_n: get_bit(byte, 2),
                deemphasis,
                autodem: get_bit(byte, 5),
            },
        )
    }

    proof fn lemma_reserved_width() {
    }

    proof fn lemma_encoding_shape(self) {
        self.lemma_of_byte_byte();
    }

    proof fn lemma_malformed(image: Seq<u8>) {
        if image.len() == 1 {
            assert(reserved_clear(image, Self::reserved()) <==> image[0] & 0xC0 == 0);
            if image[0] & 0xC0 == 0 {
                Self::lemma_byte_of_byte(image[0]);
            }
        }
    }

    proof fn lemma_decoded_in_range(image: Seq<u8>) {
    }

    proof fn lemma_encode_decoded(image: Seq<u8>) {
        Self::lemma_byte_of_byte(image[0]);
        assert(Self::of_byte(image[0])->Ok_0.encoding() =~= image);
    }

    proof fn lemma_decode_encoded(self) {
        self.lemma_of_byte_byte();
    }
}

/// The third control register of the sample rate converter.
///
/// Bits 6 and 7 select the output word length; bits 0 to 5 are reserved.
#[derive(Clone, Copy, Debug, PartialEq, Eq)]
pub struct SrcControl3 {
    pub output_word_length: SrcOutputWordLength,
}

impl SrcControl3 {
    pub const REGISTER_ADDRESS: Registers = Registers::SrcControl3;

    /// The bits of the image that must be zero.
    pub const RESERVED: u8 = 0x3F;

    /// The image byte of a value.
    pub open spec fn byte(self) -> u8 {
        place(self.output_word_length.raw(), 6)
    }

    /// The value that an image byte without reserved bits stands for.
    pub open spec fn of_byte(byte: u8) -> Result<SrcControl3, DecodeError> {
        match SrcOutputWordLength::of_raw(field(byte, 6, 0b11)) {
            None => Err(
                DecodeError::InvalidEnumValue {
                    field: "output_word_length",
                    raw: field(byte, 6, 0b11),
                },
            ),
            Some(output_word_length) => Ok(SrcControl3 { output_word_length }),
        }
    }

    proof fn lemma_byte_of_byte(byte: u8)
        requires
            byte & 0x3F == 0,
        ensures
            Self::of_byte(byte) is Ok,
            Self::of_byte(byte)->Ok_0.byte() == byte,
    {
        assert(field(byte, 6, 0b11) < 4 && (byte & 0x3F == 0 ==> place(field(byte, 6, 0b11), 6)
            == byte)) by (bit_vector);
    }

    proof fn lemma_of_byte_byte(self)
        ensures
            Self::of_byte(self.byte()) == Ok::<SrcControl3, DecodeError>(self),
            self.byte() & 0x3F == 0,
    {
        let r6 = self.output_word_length.raw();
        let byte = self.byte();
        assert(byte == place(r6, 6) && r6 < 4 ==> field(byte, 6, 0b11) == r6 && byte & 0x3F == 0)
            by (bit_vector);
    }
}

impl Default for SrcControl3 {
    fn default() -> (value: Self)
        ensures
            value == (SrcControl3 { output_word_length: SrcOutputWordLength::_24bits }),
    {
        SrcControl3 { output_word_length: SrcOutputWordLength::_24bits }
    }
}

impl RegisterAddress<Registers> for SrcControl3 {
    open spec fn location() -> Registers {
        Registers::SrcControl3
    }

    fn register_address() -> (register: Registers) {
        Registers::SrcControl3
    }
}

impl PackedRegister for SrcControl3 {
    open spec fn width() -> nat {
        1
    }

    open spec fn reserved() -> Seq<u8> {
        seq![0x3Fu8]
    }

    open spec fn in_range(self) -> bool {
        true
    }

    open spec fn encoding(self) -> Seq<u8> {
        seq![self.byte()]
    }

    open spec fn decoding(image: Seq<u8>) -> Result<Self, DecodeError> {
        if image.len() != 1 || image[0] & 0x3F != 0 {
            Err(DecodeError::MalformedRegisterImage)
        } else {
            Self::of_byte(image[0])
        }
    }

    fn size() -> (n: usize) {
        1
    }

    fn pack(&self) -> (image: Vec<u8>) {
        let byte: u8 = put_field(self.output_word_length.to_primitive(), 6);
        let image = vec![byte];
        assert(image@ =~= self.encoding());
        image
    }

    fn unpack(image: &[u8]) -> (value: Result<Self, DecodeError>) {
        if image.len() != 1 || image[0] & 0x3F != 0 {
            return Err(DecodeError::MalformedRegisterImage);
        }
        let raw_length = get_field(image[0], 6, 0b11);
        match SrcOutputWordLength::from_primitive(raw_length) {
            Some(output_word_length) => Ok(SrcControl3 { output_word_length }),
            None => Err(
                DecodeError::InvalidEnumValue { field: "output_word_length", raw: raw_length },
            ),
        }
    }

    proof fn lemma_reserved_width() {
    }

    proof fn lemma_encoding_shape(self) {
        self.lemma_of_byte_byte();
    }

    proof fn lemma_malformed(image: Seq<u8>) {
        if image.len() == 1 {
            assert(reserved_clear(image, Self::reserved()) <==> image[0] & 0x3F == 0);
            if image[0] & 0x3F == 0 {
                Self::lemma_byte_of_byte(image[0]);
            }
        }
    }

    proof fn lemma_decoded_in_range(image: Seq<u8>) {
    }

    proof fn lemma_encode_decoded(image: Seq<u8>) {
        Self::lemma_byte_of_byte(image[0]);
        assert(Self::of_byte(image[0])->Ok_0.encoding() =~= image);
    }

    proof fn lemma_decode_encoded(self) {
        self.lemma_of_byte_byte();
    }
}

/// The measured ratio of input to output sample rate, in fixed point.
///
/// The image is two bytes, read as one big-endian number: bits 11 to 15 hold
/// the integer part, bits 0 to 10 the fraction in units of 1/2048. No bit is
/// reserved.
#[derive(Clone, Copy, Debug, PartialEq, Eq)]
pub struct SrcRatio {
    integer: u8,
    fraction: u16,
}

/// The number that a two-byte image stands for, first byte most significant.
pub open spec fn word_of(high: u8, low: u8) -> u16 {
    (high as u16) << 8 | (low as u16)
}

/// The number in which `integer` sits above the eleven bits of `fraction`.
pub open spec fn ratio_word(integer: u8, fraction: u16) -> u16 {
    (integer as u16) << 11 | fraction
}

/// The more significant byte of `word`.
pub open spec fn high_byte(word: u16) -> u8 {
    (word >> 8) as u8
}

/// The less significant byte of `word`.
pub open spec fn low_byte(word: u16) -> u8 {
    (word & 0xFF) as u8
}

impl SrcRatio {
    pub const REGISTER_ADDRESS: Registers = Registers::SrcInputOutputRatio1;

    /// The mask of the integer part's five bits.
    pub const INTEGER_MASK: u8 = 0x1F;

    /// The mask of the fraction's eleven bits.
    pub const FRACTION_MASK: u16 = 0x7FF;

    #[verifier::type_invariant]
    spec fn fits(self) -> bool {
        self.integer <= 0x1F && self.fraction <= 0x7FF
    }

    /// The integer part of the ratio.
    pub closed spec fn integer_part(self) -> u8 {
        self.integer
    }

    /// The fraction of the ratio, in units of 1/2048.
    pub closed spec fn fraction_part(self) -> u16 {
        self.fraction
    }

    /// The ratio with the given parts.
    pub closed spec fn of_parts(integer: u8, fraction: u16) -> SrcRatio {
        SrcRatio { integer, fraction }
    }

    /// A ratio is made of its two parts and of nothing else.
    pub proof fn lemma_parts(integer: u8, fraction: u16)
        ensures
            Self::of_parts(integer, fraction).integer_part() == integer,
            Self::of_parts(integer, fraction).fraction_part() == fraction,
    {
    }

    /// Two ratios with the same parts are the same ratio.
    pub proof fn lemma_same_parts(self)
        ensures
            Self::of_parts(self.integer_part(), self.fraction_part()) == self,
    {
    }

    /// The ratio with the given parts, each cut to the bits that the register
    /// has for it: five for the integer part, eleven for the fraction.
    pub fn new(integer: u8, fraction: u16) -> (ratio: SrcRatio)
        ensures
            ratio == Self::of_parts(integer & 0x1F, fraction & 0x7FF),
            ratio.in_range(),
            integer <= 0x1F ==> ratio.integer_part() == integer,
            fraction <= 0x7FF ==> ratio.fraction_part() == fraction,
    {
        assert(integer & 0x1F <= 0x1F && (integer <= 0x1F ==> integer & 0x1F == integer))
            by (bit_vector);
        assert(fraction & 0x7FF <= 0x7FF && (fraction <= 0x7FF ==> fraction & 0x7FF == fraction))
            by (bit_vector);
        SrcRatio { integer: integer & 0x1F, fraction: fraction & 0x7FF }
    }

    /// The integer part of the ratio.
    pub fn integer(&self) -> (integer: u8)
        ensures
            integer == self.integer_part(),
            integer <= 0x1F,
    {
        proof {
            use_type_invariant(self);
        }
        self.integer
    }

    /// The fraction of the ratio, in units of 1/2048.
    pub fn fraction(&self) -> (fraction: u16)
        ensures
            fraction == self.fraction_part(),
            fraction <= 0x7FF,
    {
        proof {
            use_type_invariant(self);
        }
        self.fraction
    }

    proof fn lemma_word_round_trip(high: u8, low: u8)
        ensures
            ((word_of(high, low) >> 11) as u8) <= 0x1F,
            (word_of(high, low) & 0x7FF) <= 0x7FF,
            high_byte(ratio_word((word_of(high, low) >> 11) as u8, word_of(high, low) & 0x7FF))
                == high,
            low_byte(ratio_word((word_of(high, low) >> 11) as u8, word_of(high, low) & 0x7FF))
                == low,
    {
        let word = word_of(high, low);
        assert(word >> 11 <= 0x1F && word & 0x7FF <= 0x7FF) by (bit_vector);
        assert(word == (high as u16) << 8 | (low as u16) ==> (((((word >> 11) as u8) as u16) << 11
            | (word & 0x7FF)) >> 8) as u8 == high && (((((word >> 11) as u8) as u16) << 11 | (word
            & 0x7FF)) & 0xFF) as u8 == low) by (bit_vector);
    }

    proof fn lemma_parts_round_trip(integer: u8, fraction: u16)
        requires
            integer <= 0x1F,
            fraction <= 0x7FF,
        ensures
            (word_of(
                high_byte(ratio_word(integer, fraction)),
                low_byte(ratio_word(integer, fraction)),
            ) >> 11) as u8 == integer,
            word_of(
                high_byte(ratio_word(integer, fraction)),
                low_byte(ratio_word(integer, fraction)),
            ) & 0x7FF == fraction,
    {
        let word = ratio_word(integer, fraction);
        assert(integer <= 0x1F && fraction <= 0x7FF && word == (integer as u16) << 11 | fraction
            ==> ((((word >> 8) as u8) as u16) << 8 | (((word & 0xFF) as u8) as u16)) == word && (
        word >> 11) as u8 == integer && word & 0x7FF == fraction) by (bit_vector);
    }
}

impl Default for SrcRatio {
    fn default() -> (ratio: Self)
        ensures
            ratio == SrcRatio::of_parts(0, 0),
    {
        SrcRatio { integer: 0, fraction: 0 }
    }
}

impl RegisterAddress<Registers> for SrcRatio {
    open spec fn location() -> Registers {
        Registers::SrcInputOutputRatio1
    }

    fn register_address() -> (register: Registers) {
        Registers::SrcInputOutputRatio1
    }
}

impl PackedRegister for SrcRatio {
    open spec fn width() -> nat {
        2
    }

    open spec fn reserved() -> Seq<u8> {
        seq![0x00u8, 0x00u8]
    }

    open spec fn in_range(self) -> bool {
        self.integer_part() <= 0x1F && self.fraction_part() <= 0x7FF
    }

    open spec fn encoding(self) -> Seq<u8> {
        seq![
            high_byte(ratio_word(self.integer_part(), self.fraction_part())),
            low_byte(ratio_word(self.integer_part(), self.fraction_part())),
        ]
    }

    open spec fn decoding(image: Seq<u8>) -> Result<Self, DecodeError> {
        if image.len() != 2 {
            Err(DecodeError::MalformedRegisterImage)
        } else {
            Ok(
                SrcRatio::of_parts(
                    (word_of(image[0], image[1]) >> 11) as u8,
                    word_of(image[0], image[1]) & 0x7FF,
                ),
            )
        }
    }

    fn size() -> (n: usize) {
        2
    }

    fn pack(&self) -> (image: Vec<u8>) {
        proof {
            use_type_invariant(self);
        }
        let word: u16 = (self.integer as u16) << 11 | self.fraction;
        let image = vec![(word >> 8) as u8, (word & 0xFF) as u8];
        assert(image@ =~= self.encoding());
        image
    }

    fn unpack(image: &[u8]) -> (value: Result<Self, DecodeError>) {
        if image.len() != 2 {
            return Err(DecodeError::MalformedRegisterImage);
        }
        let word: u16 = (image[0] as u16) << 8 | (image[1] as u16);
        proof {
            Self::lemma_word_round_trip(image[0], image[1]);
        }
        Ok(SrcRatio { integer: (word >> 11) as u8, fraction: word & 0x7FF })
    }

    proof fn lemma_reserved_width() {
    }

    proof fn lemma_encoding_shape(self) {
        let e = self.encoding();
        assert forall|i: int| 0 <= i < e.len() && i < Self::reserved().len() implies #[trigger] e[i]
            & Self::reserved()[i] == 0 by {
            let b = e[i];
            assert(b & 0x00 == 0) by (bit_vector);
        }
    }

    proof fn lemma_malformed(image: Seq<u8>) {
        assert forall|i: int| 0 <= i < image.len() && i < Self::reserved().len() implies
            #[trigger] image[i] & Self::reserved()[i] == 0 by {
            let b = image[i];
            assert(b & 0x00 == 0) by (bit_vector);
        }
    }

    proof fn lemma_decoded_in_range(image: Seq<u8>) {
        Self::lemma_word_round_trip(image[0], image[1]);
    }

    proof fn lemma_encode_decoded(image: Seq<u8>) {
        Self::lemma_word_round_trip(image[0], image[1]);
        assert(Self::decoding(image)->Ok_0.encoding() =~= image);
    }

    proof fn lemma_decode_encoded(self) {
        Self::lemma_parts_round_trip(self.integer_part(), self.fraction_part());
    }
}

} // verus!
