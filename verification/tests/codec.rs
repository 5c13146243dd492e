use src4392::{
    AsAddressByte, AudioFormat, DecodeError, Deemphasis, GlobalInterruptStatus,
    InterpolationFilterGroupDelay,
    OutputDataSource, PackedRegister, PortAControl1Register, PortAControl2Register,
    PortBControl1Register, PortBControl2Register, PortClockSource, PortMasterClockDivider,
    ReadWrite, RegisterAddress, Registers, Reset, SrcClockSource, SrcControl1, SrcControl2,
    SrcControl3, SrcOutputWordLength, SrcRatio, SrcSource, READ_BIT,
};
use packed_struct::types::bits::Bits;
use packed_struct::types::{Integer, SizedInteger};

const ALL_REGISTERS: [(Registers, u8); 52] = [
    (Registers::Reset, 0x01),
    (Registers::GlobalInterruptStatus, 0x02),
    (Registers::PortAControl, 0x03),
    (Registers::PortAControl2, 0x04),
    (Registers::PortBControl, 0x05),
    (Registers::PortBControl2, 0x06),
    (Registers::TransmitterControl, 0x07),
    (Registers::TransmitterControl2, 0x08),
    (Registers::TransmitterControl3, 0x09),
    (Registers::SrcAndDitStatus, 0x0A),
    (Registers::SrcAndDitInterruptMask, 0x0B),
    (Registers::SrcAndDitInterruptMode, 0x0C),
    (Registers::ReceiverControl, 0x0D),
    (Registers::ReceiverControl2, 0x0E),
    (Registers::ReceiverPllConfiguration, 0x0F),
    (Registers::ReceiverPllConfiguration2, 0x10),
    (Registers::ReceiverPllConfiguration3, 0x11),
    (Registers::NonPcmAudioDetection, 0x12),
    (Registers::ReceiverStatus, 0x13),
    (Registers::ReceiverStatus2, 0x14),
    (Registers::ReceiverStatus3, 0x15),
    (Registers::ReceiverInterruptMask, 0x16),
    (Registers::ReceiverInterruptMask2, 0x17),
    (Registers::ReceiverInterruptMode, 0x18),
    (Registers::ReceiverInterruptMode2, 0x19),
    (Registers::ReceiverInterruptMode3, 0x1A),
    (Registers::Gpo1, 0x1B),
    (Registers::Gpo2, 0x1C),
    (Registers::Gpo3, 0x1D),
    (Registers::Gpo4, 0x1E),
    (Registers::AudioCdQChannelSubCode1, 0x1F),
    (Registers::AudioCdQChannelSubCode2, 0x20),
    (Registers::AudioCdQChannelSubCode3, 0x21),
    (Registers::AudioCdQChannelSubCode4, 0x22),
    (Registers::AudioCdQChannelSubCode5, 0x23),
    (Registers::AudioCdQChannelSubCode6, 0x24),
    (Registers::AudioCdQChannelSubCode7, 0x25),
    (Registers::AudioCdQChannelSubCode8, 0x26),
    (Registers::AudioCdQChannelSubCode9, 0x27),
    (Registers::AudioCdQChannelSubCode10, 0x28),
    (Registers::PcBurstPreambleHighByte, 0x29),
    (Registers::PcBurstPreambleLowByte, 0x2A),
    (Registers::PdBurstPreambleHighByte, 0x2B),
    (Registers::PdBurstPreambleLowByte, 0x2C),
    (Registers::SrcControl, 0x2D),
    (Registers::SrcControl2, 0x2E),
    (Registers::SrcControl3, 0x2F),
    (Registers::SrcControl4, 0x30),
    (Registers::SrcControl5, 0x31),
    (Registers::SrcInputOutputRatio1, 0x32),
    (Registers::SrcInputOutputRatio2, 0x33),
    (Registers::PageSelection, 0x7F),
];

/// Checks, for every one-byte image, that decoding rejects exactly the images
/// with a reserved bit set as malformed, and that whatever decodes encodes
/// back to the same byte and decodes again to the same value.
fn check_one_byte_register<R: PackedRegister + PartialEq + std::fmt::Debug>(reserved: u8) {
    assert_eq!(R::size(), 1);
    for byte in 0..=255u8 {
        let decoded = R::unpack(&[byte]);
        if byte & reserved != 0 {
            assert_eq!(decoded, Err(DecodeError::MalformedRegisterImage), "byte {byte:#04x}");
            continue;
        }
        match decoded {
            Ok(value) => {
                let image = value.pack();
                assert_eq!(image, [byte]);
                assert_eq!(R::unpack(&image), Ok(value));
            }
            Err(error) => {
                assert!(matches!(error, DecodeError::InvalidEnumValue { .. }), "byte {byte:#04x}");
            }
        }
    }
    assert_eq!(R::unpack(&[]), Err(DecodeError::MalformedRegisterImage));
    assert_eq!(R::unpack(&[0, 0]), Err(DecodeError::MalformedRegisterImage));
}

#[test]
fn src_control3() {
    let src_control3 = SrcControl3 {
        output_word_length: SrcOutputWordLength::_20bits,
        ..Default::default()
    };
    let packed = src_control3.pack();
    assert_eq!(packed, [0b01000000]);
}

#[test]
fn src_ratio() {
    let src_control3 = SrcRatio::new(5, 567);
    let packed = src_control3.pack();
    assert_eq!(
        packed,
        [
            (((5u16 << 3) as u8) & 0b11111000u8) | (((567u16 >> 8) as u8) & 0b111u8),
            (567u16 & 0xFF) as u8
        ]
    );
}

#[test]
fn src_ratio_literal_bytes() {
    assert_eq!(SrcRatio::new(5, 567).pack(), [0x2A, 0x37]);
    assert_eq!(SrcRatio::new(0, 0).pack(), [0x00, 0x00]);
    assert_eq!(SrcRatio::new(31, 2047).pack(), [0xFF, 0xFF]);
    assert_eq!(SrcRatio::new(1, 0).pack(), [0x08, 0x00]);
    assert_eq!(SrcRatio::new(0, 1).pack(), [0x00, 0x01]);
    assert_eq!(SrcRatio::new(0, 0x400).pack(), [0x04, 0x00]);
}

#[test]
fn src_ratio_cuts_parts_to_their_bits() {
    let ratio = SrcRatio::new(0xFF, 0xFFFF);
    assert_eq!(ratio.integer(), 0x1F);
    assert_eq!(ratio.fraction(), 0x7FF);
    let ratio = SrcRatio::new(32 + 5, 2048 + 567);
    assert_eq!(ratio, SrcRatio::new(5, 567));
    assert_eq!(ratio.integer(), 5);
    assert_eq!(ratio.fraction(), 567);
}

#[test]
fn src_ratio_round_trips_every_image() {
    assert_eq!(SrcRatio::size(), 2);
    for word in 0..=0xFFFFu16 {
        let image = [(word >> 8) as u8, word as u8];
        let ratio = SrcRatio::unpack(&image).unwrap();
        assert_eq!(ratio.integer() as u16, word >> 11);
        assert_eq!(ratio.fraction(), word & 0x7FF);
        assert_eq!(ratio.pack(), image);
        assert_eq!(SrcRatio::new(ratio.integer(), ratio.fraction()), ratio);
    }
}

#[test]
fn src_ratio_rejects_wrong_length() {
    assert_eq!(SrcRatio::unpack(&[0x2A]), Err(DecodeError::MalformedRegisterImage));
    assert_eq!(SrcRatio::unpack(&[0x2A, 0x37, 0x00]), Err(DecodeError::MalformedRegisterImage));
    assert_eq!(SrcRatio::unpack(&[]), Err(DecodeError::MalformedRegisterImage));
}

#[test]
fn every_one_byte_register_round_trips() {
    check_one_byte_register::<Reset>(0x40);
    check_one_byte_register::<GlobalInterruptStatus>(0xF8);
    check_one_byte_register::<PortAControl1Register>(0x80);
    check_one_byte_register::<PortAControl2Register>(0xF0);
    check_one_byte_register::<PortBControl1Register>(0x80);
    check_one_byte_register::<PortBControl2Register>(0xF0);
    check_one_byte_register::<SrcControl1>(0xA0);
    check_one_byte_register::<SrcControl2>(0xC0);
    check_one_byte_register::<SrcControl3>(0x3F);
}

#[test]
fn reserved_masks_are_the_documented_ones() {
    assert_eq!(Reset::RESERVED, 0x40);
    assert_eq!(GlobalInterruptStatus::RESERVED, 0xF8);
    assert_eq!(SrcControl1::RESERVED, 0xA0);
    assert_eq!(SrcControl2::RESERVED, 0xC0);
    assert_eq!(SrcControl3::RESERVED, 0x3F);
    assert_eq!(src4392::port_control::CONTROL1_RESERVED, 0x80);
    assert_eq!(src4392::port_control::CONTROL2_RESERVED, 0xF0);
}

#[test]
fn reserved_bit_is_rejected() {
    assert_eq!(Reset::unpack(&[0x40]), Err(DecodeError::MalformedRegisterImage));
    assert_eq!(Reset::unpack(&[0xFF]), Err(DecodeError::MalformedRegisterImage));
    assert_eq!(GlobalInterruptStatus::unpack(&[0x08]), Err(DecodeError::MalformedRegisterImage));
    assert_eq!(SrcControl1::unpack(&[0x20]), Err(DecodeError::MalformedRegisterImage));
    assert_eq!(SrcControl1::unpack(&[0x80]), Err(DecodeError::MalformedRegisterImage));
    assert_eq!(SrcControl2::unpack(&[0x40]), Err(DecodeError::MalformedRegisterImage));
    assert_eq!(SrcControl3::unpack(&[0x01]), Err(DecodeError::MalformedRegisterImage));
    assert_eq!(PortAControl1Register::unpack(&[0x80]), Err(DecodeError::MalformedRegisterImage));
    assert_eq!(PortBControl2Register::unpack(&[0x10]), Err(DecodeError::MalformedRegisterImage));
}

#[test]
fn reserved_bit_wins_over_invalid_enum() {
    // Bits 0 and 1 name no input, and reserved bit 5 is set as well.
    assert_eq!(SrcControl1::unpack(&[0x23]), Err(DecodeError::MalformedRegisterImage));
}

#[test]
fn unknown_enum_bits_are_rejected_by_name() {
    assert_eq!(
        SrcControl1::unpack(&[0b0000_0011]),
        Err(DecodeError::InvalidEnumValue { field: "source", raw: 3 })
    );
    assert_eq!(
        SrcControl1::unpack(&[0b0000_1100]),
        Err(DecodeError::InvalidEnumValue { field: "clock_source", raw: 3 })
    );
    // Both fields are invalid: the lower one is reported.
    assert_eq!(
        SrcControl1::unpack(&[0b0000_1111]),
        Err(DecodeError::InvalidEnumValue { field: "source", raw: 3 })
    );
    assert_eq!(
        PortAControl1Register::unpack(&[0b0000_0010]),
        Err(DecodeError::InvalidEnumValue { field: "afmt", raw: 2 })
    );
    assert_eq!(
        PortBControl1Register::unpack(&[0b0000_0011]),
        Err(DecodeError::InvalidEnumValue { field: "afmt", raw: 3 })
    );
    assert_eq!(
        PortAControl2Register::unpack(&[0b0000_1100]),
        Err(DecodeError::InvalidEnumValue { field: "aclk", raw: 3 })
    );
    assert_eq!(
        PortBControl2Register::unpack(&[0b0000_1101]),
        Err(DecodeError::InvalidEnumValue { field: "aclk", raw: 3 })
    );
}

#[test]
fn reset_layout() {
    let value = Reset { reset: true, ..Default::default() };
    assert_eq!(value.pack(), [0b1000_0000]);
    let value = Reset { n_pdsrc: true, ..Default::default() };
    assert_eq!(value.pack(), [0b0000_0001]);
    let value = Reset { n_pdrx: true, ..Default::default() };
    assert_eq!(value.pack(), [0b0000_0010]);
    let value = Reset { n_pdtx: true, ..Default::default() };
    assert_eq!(value.pack(), [0b0000_0100]);
    let value = Reset { n_pdpb: true, ..Default::default() };
    assert_eq!(value.pack(), [0b0000_1000]);
    let value = Reset { n_pdpa: true, ..Default::default() };
    assert_eq!(value.pack(), [0b0001_0000]);
    let value = Reset { n_pdall: true, ..Default::default() };
    assert_eq!(value.pack(), [0b0010_0000]);
    assert_eq!(Reset::default().pack(), [0x00]);
    assert_eq!(
        Reset::unpack(&[0b1011_1111]),
        Ok(Reset {
            n_pdsrc: true,
            n_pdrx: true,
            n_pdtx: true,
            n_pdpb: true,
            n_pdpa: true,
            n_pdall: true,
            reset: true,
        })
    );
}

#[test]
fn global_interrupt_status_layout() {
    assert_eq!(GlobalInterruptStatus { tx: true, rx: false, src: false }.pack(), [0b100]);
    assert_eq!(GlobalInterruptStatus { tx: false, rx: true, src: false }.pack(), [0b010]);
    assert_eq!(GlobalInterruptStatus { tx: false, rx: false, src: true }.pack(), [0b001]);
    assert_eq!(
        GlobalInterruptStatus::unpack(&[0b101]),
        Ok(GlobalInterruptStatus { tx: true, rx: false, src: true })
    );
    assert_eq!(GlobalInterruptStatus::default().pack(), [0x00]);
}

#[test]
fn src_control1_layout() {
    let value = SrcControl1 {
        source: SrcSource::DIR,
        clock_source: SrcClockSource::Rxcki,
        mute: true,
        track: true,
    };
    assert_eq!(value.pack(), [0b0101_0110]);
    assert_eq!(SrcControl1::unpack(&[0b0101_0110]), Ok(value));
    assert_eq!(SrcControl1::default().pack(), [0x00]);
    assert_eq!(
        SrcControl1 { source: SrcSource::PortB, ..Default::default() }.pack(),
        [0b0000_0001]
    );
    assert_eq!(
        SrcControl1 { clock_source: SrcClockSource::Rxcko, ..Default::default() }.pack(),
        [0b0000_1000]
    );
}

#[test]
fn src_control2_layout() {
    let value = SrcControl2 {
        interpolation_group_delay: InterpolationFilterGroupDelay::_8,
        dd_n: true,
        deemphasis: Deemphasis::_44100Hz,
        autodem: true,
    };
    assert_eq!(value.pack(), [0b0011_0111]);
    assert_eq!(SrcControl2::unpack(&[0b0011_0111]), Ok(value));
    assert_eq!(SrcControl2::default().pack(), [0x00]);
    assert_eq!(
        SrcControl2 { deemphasis: Deemphasis::_32000Hz, ..Default::default() }.pack(),
        [0b0001_1000]
    );
    assert_eq!(
        SrcControl2 {
            interpolation_group_delay: InterpolationFilterGroupDelay::_32,
            ..Default::default()
        }
        .pack(),
        [0b0000_0001]
    );
}

#[test]
fn src_control3_every_word_length() {
    let lengths = [
        (SrcOutputWordLength::_24bits, 0b0000_0000u8),
        (SrcOutputWordLength::_20bits, 0b0100_0000),
        (SrcOutputWordLength::_18bits, 0b1000_0000),
        (SrcOutputWordLength::_16bits, 0b1100_0000),
    ];
    for (length, byte) in lengths {
        assert_eq!(SrcControl3 { output_word_length: length }.pack(), [byte]);
        assert_eq!(SrcControl3::unpack(&[byte]), Ok(SrcControl3 { output_word_length: length }));
    }
}

#[test]
fn port_control_layout() {
    let value = PortAControl1Register {
        afmt: AudioFormat::RightJustified20,
        am_slave: true,
        aout: OutputDataSource::Src,
        amute: true,
    };
    assert_eq!(value.pack(), [0b0111_1110]);
    assert_eq!(PortAControl1Register::unpack(&[0b0111_1110]), Ok(value));
    let value = PortBControl1Register {
        afmt: AudioFormat::I2s24,
        am_slave: false,
        aout: OutputDataSource::Dir,
        amute: false,
    };
    assert_eq!(value.pack(), [0b0010_0001]);
    let value = PortAControl2Register {
        adiv: PortMasterClockDivider::_512,
        aclk: PortClockSource::Rxcko,
    };
    assert_eq!(value.pack(), [0b0000_1011]);
    assert_eq!(PortAControl2Register::unpack(&[0b0000_1011]), Ok(value));
    let value = PortBControl2Register {
        adiv: PortMasterClockDivider::_256,
        aclk: PortClockSource::Rxcki,
    };
    assert_eq!(value.pack(), [0b0000_0101]);
    assert_eq!(PortAControl1Register::default().pack(), [0x00]);
    assert_eq!(PortBControl2Register::default().pack(), [0x00]);
}

#[test]
fn enum_bit_patterns() {
    assert_eq!(SrcSource::PortA.to_primitive(), 0);
    assert_eq!(SrcSource::PortB.to_primitive(), 1);
    assert_eq!(SrcSource::DIR.to_primitive(), 2);
    assert_eq!(SrcSource::from_primitive(2), Some(SrcSource::DIR));
    assert_eq!(SrcSource::from_primitive(3), None);
    assert_eq!(SrcClockSource::from_primitive(3), None);
    assert_eq!(SrcClockSource::Rxcko.to_primitive(), 2);
    assert_eq!(InterpolationFilterGroupDelay::_16.to_primitive(), 2);
    assert_eq!(InterpolationFilterGroupDelay::from_primitive(4), None);
    assert_eq!(Deemphasis::_48000hz.to_primitive(), 1);
    assert_eq!(Deemphasis::from_primitive(0), Some(Deemphasis::Off));
    assert_eq!(SrcOutputWordLength::_16bits.to_primitive(), 3);
    assert_eq!(AudioFormat::LeftJustified24.to_primitive(), 0);
    assert_eq!(AudioFormat::RightJustified16.to_primitive(), 4);
    assert_eq!(AudioFormat::RightJustified24.to_primitive(), 7);
    assert_eq!(AudioFormat::from_primitive(2), None);
    assert_eq!(AudioFormat::from_primitive(3), None);
    assert_eq!(AudioFormat::from_primitive(8), None);
    assert_eq!(OutputDataSource::OtherPort.to_primitive(), 1);
    assert_eq!(PortMasterClockDivider::_384.to_primitive(), 2);
    assert_eq!(PortClockSource::from_primitive(3), None);
}

#[test]
fn enum_defaults() {
    assert_eq!(SrcSource::default(), SrcSource::PortA);
    assert_eq!(SrcClockSource::default(), SrcClockSource::Mclk);
    assert_eq!(InterpolationFilterGroupDelay::default(), InterpolationFilterGroupDelay::_64);
    assert_eq!(Deemphasis::default(), Deemphasis::Off);
    assert_eq!(SrcOutputWordLength::default(), SrcOutputWordLength::_24bits);
    assert_eq!(SrcRatio::default(), SrcRatio::new(0, 0));
}

#[test]
fn address_bytes() {
    assert_eq!(READ_BIT, 0x80);
    assert_eq!(Registers::Reset.as_address_byte(ReadWrite::Write), 0x01);
    assert_eq!(Registers::Reset.as_address_byte(ReadWrite::Read), 0x81);
    assert_eq!(Registers::PageSelection.as_address_byte(ReadWrite::Write), 0x7F);
    assert_eq!(Registers::PageSelection.as_address_byte(ReadWrite::Read), 0xFF);
    for (register, address) in ALL_REGISTERS {
        assert_eq!(register.address(), address);
        assert_eq!(register.as_address_byte(ReadWrite::Write), address);
        assert_eq!(register.as_address_byte(ReadWrite::Read), address | 0x80);
        assert_eq!(AsAddressByte::as_address_byte(&register, ReadWrite::Read), address | 0x80);
        assert_eq!(AsAddressByte::as_address_byte(&register, ReadWrite::Write), address);
    }
}

#[test]
fn addresses_are_distinct() {
    for (i, (_, a)) in ALL_REGISTERS.iter().enumerate() {
        for (_, b) in ALL_REGISTERS.iter().skip(i + 1) {
            assert_ne!(a, b);
        }
    }
}

#[test]
fn register_values_know_their_register() {
    assert_eq!(<Reset as RegisterAddress<Registers>>::register_address(), Registers::Reset);
    assert_eq!(Reset::ADDRESS, Registers::Reset);
    assert_eq!(SrcControl1::register_address(), Registers::SrcControl);
    assert_eq!(SrcControl1::REGISTER_ADDRESS, Registers::SrcControl);
    assert_eq!(SrcControl2::register_address(), Registers::SrcControl2);
    assert_eq!(SrcControl3::register_address(), Registers::SrcControl3);
    assert_eq!(SrcRatio::register_address(), Registers::SrcInputOutputRatio1);
    assert_eq!(PortAControl1Register::register_address(), Registers::PortAControl);
    assert_eq!(PortAControl2Register::register_address(), Registers::PortAControl2);
    assert_eq!(PortBControl1Register::register_address(), Registers::PortBControl);
    assert_eq!(PortBControl2Register::register_address(), Registers::PortBControl2);
}

#[test]
fn src_ratio_cuts_parts_as_bit_limited_integers_do() {
    for value in 0..=255u8 {
        let limited = Integer::<u8, Bits<5>>::from_primitive(value);
        assert_eq!(SrcRatio::new(value, 0).integer(), limited.to_primitive());
    }
    for value in (0..=0xFFFFu16).step_by(7) {
        let limited = Integer::<u16, Bits<11>>::from_primitive(value);
        assert_eq!(SrcRatio::new(0, value).fraction(), limited.to_primitive());
    }
}
