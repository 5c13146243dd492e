use crate::codec::{bit, flag, get_bit, put_flag, reserved_clear, DecodeError, PackedRegister};
use vstd::prelude::*;

verus! {

/// The global interrupt status register.
///
/// Bit 0 is the sample rate converter's interrupt, bit 1 the receiver's, bit 2
/// the transmitter's; bits 3 to 7 are reserved.
#[derive(Clone, Copy, Debug, PartialEq, Eq)]
pub struct GlobalInterruptStatus {
    pub tx: bool,
    pub rx: bool,
    pub src: bool,
}

impl GlobalInterruptStatus {
    /// The bits of the image that must be zero.
    pub const RESERVED: u8 = 0xF8;

    /// The image byte of a value.
    pub open spec fn byte(self) -> u8 {
        flag(self.src, 0) | flag(self.rx, 1) | flag(self.tx, 2)
    }

    /// The value that an image byte without reserved bits stands for.
    pub open spec fn of_byte(byte: u8) -> GlobalInterruptStatus {
        GlobalInterruptStatus { tx: bit(byte, 2), rx: bit(byte, 1), src: bit(byte, 0) }
    }

    proof fn lemma_byte_of_byte(byte: u8)
        requires
            byte & 0xF8 == 0,
        ensures
            Self::of_byte(byte).byte() == byte,
    {
        assert(byte & 0xF8 == 0 ==> (flag(bit(byte, 0), 0) | flag(bit(byte, 1), 1) | flag(
            bit(byte, 2),
            2,
        )) == byte) by (bit_vector);
    }

    proof fn lemma_of_byte_byte(self)
        ensures
            Self::of_byte(self.byte()) == self,
            self.byte() & 0xF8 == 0,
    {
        let (b0, b1, b2) = (self.src, self.rx, self.tx);
        let byte = self.byte();
        assert(byte == (flag(b0, 0) | flag(b1, 1) | flag(b2, 2)) ==> bit(byte, 0) == b0 && bit(
            byte,
            1,
        ) == b1 && bit(byte, 2) == b2 && byte & 0xF8 == 0) by (bit_vector);
    }
}

impl Default for GlobalInterruptStatus {
    fn default() -> (value: Self)
        ensures
            value == (GlobalInterruptStatus { tx: false, rx: false, src: false }),
    {
        GlobalInterruptStatus { tx: false, rx: false, src: false }
    }
}

impl PackedRegister for GlobalInterruptStatus {
    open spec fn width() -> nat {
        1
    }

    open spec fn reserved() -> Seq<u8> {
        seq![0xF8u8]
    }

    open spec fn in_range(self) -> bool {
        true
    }

    open spec fn encoding(self) -> Seq<u8> {
        seq![self.byte()]
    }

    open spec fn decoding(image: Seq<u8>) -> Result<Self, DecodeError> {
        if image.len() != 1 || image[0] & 0xF8 != 0 {
            Err(DecodeError::MalformedRegisterImage)
        } else {
            Ok(Self::of_byte(image[0]))
        }
    }

    fn size() -> (n: usize) {
        1
    }

    fn pack(&self) -> (image: Vec<u8>) {
        let byte: u8 = put_flag(self.src, 0) | put_flag(self.rx, 1) | put_flag(self.tx, 2);
        let image = vec![byte];
        assert(image@ =~= self.encoding());
        image
    }

    fn unpack(image: &[u8]) -> (value: Result<Self, DecodeError>) {
        if image.len() != 1 || image[0] & 0xF8 != 0 {
            return Err(DecodeError::MalformedRegisterImage);
        }
        let byte = image[0];
        Ok(
            GlobalInterruptStatus {
                tx: get_bit(byte, 2),
                rx: get_bit(byte, 1),
                src: get_bit(byte, 0),
            },
        )
    }

    proof fn lemma_reserved_width() {
    }

    proof fn lemma_encoding_shape(self) {
        self.lemma_of_byte_byte();
    }

    proof fn lemma_malformed(image: Seq<u8>) {
        if image.len() == 1 {
            assert(reserved_clear(image, Self::reserved()) <==> image[0] & 0xF8 == 0);
        }
    }

    proof fn lemma_decoded_in_range(image: Seq<u8>) {
    }

    proof fn lemma_encode_decoded(image: Seq<u8>) {
        Self::lemma_byte_of_byte(image[0]);
        assert(Self::of_byte(image[0]).encoding() =~= image);
    }

    proof fn lemma_decode_encoded(self) {
        self.lemma_of_byte_byte();
    }
}

} // verus!
