//! The contract between a register's byte image and its structured value.
//!
//! A register image is a big-endian number: the first byte on the wire holds
//! the most significant bits. Bit 0 of a register is the least significant bit
//! of that number, which is the lowest bit of the last byte. Every register
//! type in this crate states its layout in these terms.
use vstd::prelude::*;

verus! {

/// Why a byte image could not be decoded.
#[derive(Clone, Copy, Debug, PartialEq, Eq)]
pub enum DecodeError {
    /// The image has the wrong number of bytes, or a bit that the chip
    /// reserves as zero is set.
    MalformedRegisterImage,
    /// The bits of the named field match none of its variants.
    InvalidEnumValue { field: &'static str, raw: u8 },
}

/// Bit `index` of `byte`, bit 0 being the least significant.
pub open spec fn bit(byte: u8, index: u8) -> bool {
    (byte >> index) & 1 == 1
}

/// A byte with bit `index` set if `on` holds, and no other bit set.
pub open spec fn flag(on: bool, index: u8) -> u8 {
    if on {
        1u8 << index
    } else {
        0u8
    }
}

/// The bits of `byte` from bit `low` upwards that `mask` selects, moved down
/// to bit 0.
pub open spec fn field(byte: u8, low: u8, mask: u8) -> u8 {
    (byte >> low) & mask
}

/// `value` moved up so that its bit 0 lands on bit `low`.
pub open spec fn place(value: u8, low: u8) -> u8 {
    value << low
}

/// None of the bits that `mask` marks is set in `image`.
pub open spec fn reserved_clear(image: Seq<u8>, mask: Seq<u8>) -> bool {
    forall|i: int| 0 <= i < image.len() && i < mask.len() ==> #[trigger] image[i] & mask[i] == 0
}

pub(crate) fn get_bit(byte: u8, index: u8) -> (on: bool)
    requires
        index < 8,
    ensures
        on == bit(byte, index),
{
    (byte >> index) & 1 == 1
}

pub(crate) fn get_field(byte: u8, low: u8, mask: u8) -> (value: u8)
    requires
        low < 8,
    ensures
        value == field(byte, low, mask),
        value <= mask,
{
    let value: u8 = (byte >> low) & mask;
    assert(((byte >> low) & mask) <= mask) by (bit_vector);
    value
}

pub(crate) fn put_flag(on: bool, index: u8) -> (byte: u8)
    requires
        index < 8,
    ensures
        byte == flag(on, index),
{
    if on {
        1u8 << index
    } else {
        0u8
    }
}

pub(crate) fn put_field(value: u8, low: u8) -> (byte: u8)
    requires
        low < 8,
    ensures
        byte == place(value, low),
{
    value << low
}

/// A register value with a fixed-width byte image.
///
/// Decoding validates and encoding forces: an image in which a reserved bit is
/// set, or whose length is wrong, is rejected as malformed; an image whose
/// enumeration bits name no variant is rejected with the field's name; and
/// encoding always writes the reserved bits as zero.
pub trait PackedRegister: Sized {
    /// The number of bytes in the register's image.
    spec fn width() -> nat;

    /// For each byte of the image, the bits that the chip reserves as zero.
    spec fn reserved() -> Seq<u8>;

    /// Every field of the value fits the bits that the layout gives it.
    spec fn in_range(self) -> bool;

    /// The byte image of the value.
    spec fn encoding(self) -> Seq<u8>;

    /// The value that a byte image stands for, or why it stands for none.
    spec fn decoding(image: Seq<u8>) -> Result<Self, DecodeError>;

    /// The number of bytes in the register's image.
    fn size() -> (n: usize)
        ensures
            n == Self::width(),
    ;

    /// Encodes the value. A value that exists at run time is always in range.
    fn pack(&self) -> (image: Vec<u8>)
        ensures
            self.in_range(),
            image@ == self.encoding(),
    ;

    /// Decodes a byte image.
    fn unpack(image: &[u8]) -> (value: Result<Self, DecodeError>)
        ensures
            value == Self::decoding(image@),
    ;

    /// The reserved mask covers the image, byte for byte.
    proof fn lemma_reserved_width()
        ensures
            Self::reserved().len() == Self::width(),
    ;

    /// An encoding has the register's width and its reserved bits are zero.
    proof fn lemma_encoding_shape(self)
        ensures
            self.encoding().len() == Self::width(),
            reserved_clear(self.encoding(), Self::reserved()),
    ;

    /// An image is malformed exactly when its length is wrong or a reserved
    /// bit is set in it; any other failure names an enumeration field.
    proof fn lemma_malformed(image: Seq<u8>)
        ensures
            Self::decoding(image) == Err::<Self, DecodeError>(DecodeError::MalformedRegisterImage)
                <==> (image.len() != Self::width() || !reserved_clear(image, Self::reserved())),
            Self::decoding(image) is Err ==> Self::decoding(image)->Err_0
                is MalformedRegisterImage || Self::decoding(image)->Err_0 is InvalidEnumValue,
    ;

    /// A decoded value is in range.
    proof fn lemma_decoded_in_range(image: Seq<u8>)
        requires
            Self::decoding(image) is Ok,
        ensures
            Self::decoding(image)->Ok_0.in_range(),
    ;

    /// Encoding what an image decodes to gives the image back.
    proof fn lemma_encode_decoded(image: Seq<u8>)
        requires
            Self::decoding(image) is Ok,
        ensures
            Self::decoding(image)->Ok_0.encoding() == image,
    ;

    /// Decoding what a value encodes to gives the value back, field for field.
    proof fn lemma_decode_encoded(self)
        requires
            self.in_range(),
        ensures
            Self::decoding(self.encoding()) == Ok::<Self, DecodeError>(self),
    ;
}

} // verus!
