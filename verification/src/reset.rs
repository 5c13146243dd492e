use crate::codec::{bit, flag, get_bit, put_flag, reserved_clear, DecodeError, PackedRegister};
use crate::registers::{RegisterAddress, Registers};
use vstd::prelude::*;

verus! {

/// The power-down and reset register.
///
/// Bits 0 to 5 are the power-down controls of the function blocks (a set bit
/// powers the block up), bit 6 is reserved, bit 7 resets the chip.
#[derive(Clone, Copy, Debug, PartialEq, Eq)]
pub struct Reset {
    pub n_pdsrc: bool,
    pub n_pdrx: bool,
    pub n_pdtx: bool,
    pub n_pdpb: bool,
    pub n_pdpa: bool,
    pub n_pdall: bool,
    pub reset: bool,
}

impl Reset {
    pub const ADDRESS: Registers = Registers::Reset;

    /// The bits of the image that must be zero.
    pub const RESERVED: u8 = 0x40;

    /// The image byte of a value.
    pub open spec fn byte(self) -> u8 {
        flag(self.n_pdsrc, 0) | flag(self.n_pdrx, 1) | flag(self.n_pdtx, 2) | flag(self.n_pdpb, 3)
            | flag(self.n_pdpa, 4) | flag(self.n_pdall, 5) | flag(self.reset, 7)
    }

    /// The value that an image byte without reserved bits stands for.
    pub open spec fn of_byte(byte: u8) -> Reset {
        Reset {
            n_pdsrc: bit(byte, 0),
            n_pdrx: bit(byte, 1),
            n_pdtx: bit(byte, 2),
            n_pdpb: bit(byte, 3),
            n_pdpa: bit(byte, 4),
            n_pdall: bit(byte, 5),
            reset: bit(byte, 7),
        }
    }

    proof fn lemma_byte_of_byte(byte: u8)
        requires
            byte & 0x40 == 0,
        ensures
            Self::of_byte(byte).byte() == byte,
    {
        assert(byte & 0x40 == 0 ==> (flag(bit(byte, 0), 0) | flag(bit(byte, 1), 1) | flag(
            bit(byte, 2),
            2,
        ) | flag(bit(byte, 3), 3) | flag(bit(byte, 4), 4) | flag(bit(byte, 5), 5) | flag(
            bit(byte, 7),
            7,
        )) == byte) by (bit_vector);
    }

    proof fn lemma_of_byte_byte(self)
        ensures
            Self::of_byte(self.byte()) == self,
            self.byte() & 0x40 == 0,
    {
        let (b0, b1, b2, b3, b4, b5, b7) = (
            self.n_pdsrc,
            self.n_pdrx,
            self.n_pdtx,
            self.n_pdpb,
            self.n_pdpa,
            self.n_pdall,
            self.reset,
        );
        let byte = self.byte();
        assert(byte == (flag(b0, 0) | flag(b1, 1) | flag(b2, 2) | flag(b3, 3) | flag(b4, 4) | flag(
            b5,
            5,
        ) | flag(b7, 7)) ==> bit(byte, 0) == b0 && bit(byte, 1) == b1 && bit(byte, 2) == b2 && bit(
            byte,
            3,
        ) == b3 && bit(byte, 4) == b4 && bit(byte, 5) == b5 && bit(byte, 7) == b7 && byte & 0x40
            == 0) by (bit_vector);
    }
}

impl Default for Reset {
    fn default() -> (value: Self)
        ensures
            value == (Reset {
                n_pdsrc: false,
                n_pdrx: false,
                n_pdtx: false,
                n_pdpb: false,
                n_pdpa: false,
                n_pdall: false,
                reset: false,
            }),
    {
        Reset {
            n_pdsrc: false,
            n_pdrx: false,
            n_pdtx: false,
            n_pdpb: false,
            n_pdpa: false,
            n_pdall: false,
            reset: false,
        }
    }
}

impl RegisterAddress<Registers> for Reset {
    open spec fn location() -> Registers {
        Registers::Reset
    }

    fn register_address() -> (register: Registers) {
        Registers::Reset
    }
}

impl PackedRegister for Reset {
    open spec fn width() -> nat {
        1
    }

    open spec fn reserved() -> Seq<u8> {
        seq![0x40u8]
    }

    open spec fn in_range(self) -> bool {
        true
    }

    open spec fn encoding(self) -> Seq<u8> {
        seq![self.byte()]
    }

    open spec fn decoding(image: Seq<u8>) -> Result<Self, DecodeError> {
        if image.len() != 1 || image[0] & 0x40 != 0 {
            Err(DecodeError::MalformedRegisterImage)
        } else {
            Ok(Self::of_byte(image[0]))
        }
    }

    fn size() -> (n: usize) {
        1
    }

    fn pack(&self) -> (image: Vec<u8>) {
        let byte: u8 = put_flag(self.n_pdsrc, 0) | put_flag(self.n_pdrx, 1) | put_flag(
            self.n_pdtx,
            2,
        ) | put_flag(self.n_pdpb, 3) | put_flag(self.n_pdpa, 4) | put_flag(self.n_pdall, 5)
            | put_flag(self.reset, 7);
        let image = vec![byte];
        assert(image@ =~= self.encoding());
        image
    }

    fn unpack(image: &[u8]) -> (value: Result<Self, DecodeError>) {
        if image.len() != 1 || image[0] & 0x40 != 0 {
            return Err(DecodeError::MalformedRegisterImage);
        }
        let byte = image[0];
        Ok(
            Reset {
                n_pdsrc: get_bit(byte, 0),
                n_pdrx: get_bit(byte, 1),
                n_pdtx: get_bit(byte, 2),
                n_pdpb: get_bit(byte, 3),
                n_pdpa: get_bit(byte, 4),
                n_pdall: get_bit(byte, 5),
                reset: get_bit(byte, 7),
            },
        )
    }

    proof fn lemma_reserved_width() {
    }

    proof fn lemma_encoding_shape(self) {
        self.lemma_of_byte_byte();
    }

    proof fn lemma_malformed(image: Seq<u8>) {
        if image.len() == 1 {
            assert(reserved_clear(image, Self::reserved()) <==> image[0] & 0x40 == 0);
        }
    }

    proof fn lemma_decoded_in_range(image: Seq<u8>) {
    }

    proof fn lemma_encode_decoded(image: Seq<u8>) {
        Self::lemma_byte_of_byte(image[0]);
        assert(Self::of_byte(image[0]).encoding() =~= image);
    }

    proof fn lemma_decode_encoded(self) {
        self.lemma_of_byte_byte();
    }
}

} // verus!
