use src4392::modify::{ReadModifyWrite, RewriteStep};
use src4392::{
    Action, AudioFormat, Deemphasis, Error, InterpolationFilterGroupDelay, Modify, ModifyStep,
    OperationStep, OutputDataSource, PackedRegister, Port, PortAControl1Register,
    PortClockSource, PortMasterClockDivider, ReadWrite, RegisterAddress, Registers, Reset,
    SrcClockSource, SrcControl1, SrcControl3, SrcOutputWordLength, SrcRatio, SrcSource, Src4392,
    Step, Transaction, Update,
};

#[derive(Debug, PartialEq, Clone)]
enum Seen {
    Assert,
    Exchange(Vec<u8>),
    Deassert,
    Delay(u8),
}

/// A chip on a bus: it keeps its registers, follows the framing of a
/// transfer, notes every bus operation, and fails the operations it is told
/// to fail.
struct Chip {
    memory: [u8; 128],
    selected: bool,
    command: Option<u8>,
    seen: Vec<Seen>,
    faults: Vec<(usize, u32)>,
    short_reads: bool,
}

impl Chip {
    fn new() -> Chip {
        Chip {
            memory: [0; 128],
            selected: false,
            command: None,
            seen: Vec::new(),
            faults: Vec::new(),
            short_reads: false,
        }
    }

    fn failing(index: usize, code: u32) -> Chip {
        let mut chip = Chip::new();
        chip.faults.push((index, code));
        chip
    }

    fn perform(&mut self, action: Action) -> Result<Vec<u8>, u32> {
        let index = self.seen.len();
        self.seen.push(match &action {
            Action::AssertChipSelect => Seen::Assert,
            Action::Exchange(bytes) => Seen::Exchange(bytes.clone()),
            Action::DeassertChipSelect => Seen::Deassert,
            Action::Delay(ms) => Seen::Delay(*ms),
        });
        let fault = self.faults.iter().find(|(at, _)| *at == index).map(|(_, code)| *code);
        match action {
            Action::AssertChipSelect => {
                if let Some(code) = fault {
                    return Err(code);
                }
                assert!(!self.selected, "chip select asserted twice");
                self.selected = true;
                self.command = None;
                Ok(Vec::new())
            }
            Action::Exchange(bytes) => {
                assert!(self.selected, "exchange without chip select");
                if let Some(code) = fault {
                    return Err(code);
                }
                match self.command {
                    None => {
                        assert_eq!(bytes.len(), 2, "the command frame is two bytes");
                        self.command = Some(bytes[0]);
                        Ok(vec![0xEE; 2])
                    }
                    Some(command) => {
                        let address = (command & 0x7F) as usize;
                        if command & 0x80 != 0 {
                            let length = if self.short_reads { 0 } else { bytes.len() };
                            Ok(self.memory[address..address + length].to_vec())
                        } else {
                            self.memory[address..address + bytes.len()].copy_from_slice(&bytes);
                            Ok(vec![0xEE; bytes.len()])
                        }
                    }
                }
            }
            Action::DeassertChipSelect => {
                self.selected = false;
                match fault {
                    Some(code) => Err(code),
                    None => Ok(Vec::new()),
                }
            }
            Action::Delay(_) => {
                assert!(!self.selected, "recovery delay with chip select asserted");
                match fault {
                    Some(code) => Err(code),
                    None => Ok(Vec::new()),
                }
            }
        }
    }

    fn transfer(&mut self, started: (Transaction<u32>, Action)) -> Result<Vec<u8>, u32> {
        let (mut transaction, mut action) = started;
        loop {
            let outcome = self.perform(action);
            match transaction.advance(outcome) {
                Step::Perform(next, asked) => {
                    transaction = next;
                    action = asked;
                }
                Step::Finished(result) => return result,
            }
        }
    }

    fn modify<R, F>(&mut self, mut change: F) -> Result<(), Error<u32>>
    where
        R: PackedRegister + RegisterAddress<Registers>,
        F: FnMut(&mut R),
    {
        let (mut machine, mut action) = Modify::<R, u32>::start();
        loop {
            let outcome = self.perform(action);
            match machine.advance(outcome) {
                ModifyStep::Perform(next, asked) => {
                    machine = next;
                    action = asked;
                }
                ModifyStep::Mutate(mutation, mut value) => {
                    change(&mut value);
                    let (next, asked) = mutation.resume(value);
                    machine = next;
                    action = asked;
                }
                ModifyStep::Finished(result) => return result,
            }
        }
    }

    fn operate(&mut self, started: (Src4392<u32>, Action)) -> Result<(), Error<u32>> {
        let (mut operation, mut action) = started;
        loop {
            let outcome = self.perform(action);
            match operation.advance(outcome) {
                OperationStep::Perform(next, asked) => {
                    operation = next;
                    action = asked;
                }
                OperationStep::Finished(result) => return result,
            }
        }
    }
}

fn frame(command: u8, payload: &[u8]) -> Vec<Seen> {
    vec![
        Seen::Assert,
        Seen::Exchange(vec![command, 0x00]),
        Seen::Exchange(payload.to_vec()),
        Seen::Deassert,
        Seen::Delay(1),
    ]
}

fn frames(parts: &[Vec<Seen>]) -> Vec<Seen> {
    parts.concat()
}

#[test]
fn transfer_frames_a_read() {
    let mut chip = Chip::new();
    chip.memory[0x2F] = 0xC0;
    let started = Transaction::start(&Registers::SrcControl3, ReadWrite::Read, vec![0x00]);
    assert_eq!(started.1, Action::AssertChipSelect);
    assert_eq!(chip.transfer(started), Ok(vec![0xC0]));
    assert_eq!(chip.seen, frame(0xAF, &[0x00]));
    assert!(!chip.selected);
}

#[test]
fn transfer_frames_a_write() {
    let mut chip = Chip::new();
    let started = Transaction::start(&Registers::SrcControl3, ReadWrite::Write, vec![0x40]);
    assert_eq!(chip.transfer(started), Ok(vec![0xEE]));
    assert_eq!(chip.seen, frame(0x2F, &[0x40]));
    assert_eq!(chip.memory[0x2F], 0x40);
}

#[test]
fn transfer_of_two_bytes() {
    let mut chip = Chip::new();
    chip.memory[0x32] = 0x2A;
    chip.memory[0x33] = 0x37;
    let started = Transaction::start(&Registers::SrcInputOutputRatio1, ReadWrite::Read, vec![0; 2]);
    let image = chip.transfer(started).unwrap();
    assert_eq!(image, [0x2A, 0x37]);
    assert_eq!(chip.seen, frame(0xB2, &[0x00, 0x00]));
    let ratio = SrcRatio::unpack(&image).unwrap();
    assert_eq!((ratio.integer(), ratio.fraction()), (5, 567));
}

#[test]
fn transfer_begun_with_a_raw_command() {
    let mut chip = Chip::new();
    chip.memory[0x10] = 0x5A;
    let result = chip.transfer(Transaction::begin(0x90, vec![0x00]));
    assert_eq!(result, Ok(vec![0x5A]));
    assert_eq!(chip.seen, frame(0x90, &[0x00]));
}

#[test]
fn transfer_releases_after_failed_select() {
    let mut chip = Chip::failing(0, 7);
    let started = Transaction::start(&Registers::Reset, ReadWrite::Write, vec![0x80]);
    assert_eq!(chip.transfer(started), Err(7));
    assert_eq!(chip.seen, vec![Seen::Assert, Seen::Deassert, Seen::Delay(1)]);
    assert_eq!(chip.memory[0x01], 0x00);
}

#[test]
fn transfer_releases_after_failed_command() {
    let mut chip = Chip::failing(1, 8);
    let started = Transaction::start(&Registers::Reset, ReadWrite::Write, vec![0x80]);
    assert_eq!(chip.transfer(started), Err(8));
    assert_eq!(
        chip.seen,
        vec![Seen::Assert, Seen::Exchange(vec![0x01, 0x00]), Seen::Deassert, Seen::Delay(1)]
    );
    assert!(!chip.selected);
    assert_eq!(chip.memory[0x01], 0x00);
}

#[test]
fn transfer_releases_after_failed_payload() {
    let mut chip = Chip::failing(2, 9);
    let started = Transaction::start(&Registers::Reset, ReadWrite::Write, vec![0x80]);
    assert_eq!(chip.transfer(started), Err(9));
    assert_eq!(chip.seen, frame(0x01, &[0x80]));
    assert!(!chip.selected);
}

#[test]
fn transfer_reports_failed_release() {
    let mut chip = Chip::failing(3, 10);
    let started = Transaction::start(&Registers::Reset, ReadWrite::Write, vec![0x80]);
    assert_eq!(chip.transfer(started), Err(10));
    assert_eq!(chip.seen, frame(0x01, &[0x80]));
}

#[test]
fn transfer_reports_failed_recovery() {
    let mut chip = Chip::failing(4, 11);
    let started = Transaction::start(&Registers::Reset, ReadWrite::Write, vec![0x80]);
    assert_eq!(chip.transfer(started), Err(11));
    assert_eq!(chip.seen, frame(0x01, &[0x80]));
}

#[test]
fn transfer_reports_the_first_failure() {
    let mut chip = Chip::failing(1, 21);
    chip.faults.push((2, 22));
    chip.faults.push((3, 23));
    let started = Transaction::start(&Registers::Reset, ReadWrite::Read, vec![0x00]);
    assert_eq!(chip.transfer(started), Err(21));
    assert_eq!(
        chip.seen,
        vec![Seen::Assert, Seen::Exchange(vec![0x81, 0x00]), Seen::Deassert, Seen::Delay(1)]
    );
}

#[test]
fn modify_sets_output_word_length() {
    let mut chip = Chip::new();
    let result = chip.modify(|register: &mut SrcControl3| {
        register.output_word_length = SrcOutputWordLength::_20bits;
    });
    assert_eq!(result, Ok(()));
    assert_eq!(chip.memory[0x2F], 0b0100_0000);
}

#[test]
fn modify_puts_two_frames_on_the_bus() {
    let mut chip = Chip::new();
    chip.memory[0x2D] = 0b0001_0001;
    let mut calls = 0;
    let result = chip.modify(|register: &mut SrcControl1| {
        calls += 1;
        assert_eq!(register.source, SrcSource::PortB);
        assert!(register.mute);
        register.track = true;
    });
    assert_eq!(result, Ok(()));
    assert_eq!(calls, 1);
    assert_eq!(chip.seen, frames(&[frame(0xAD, &[0x00]), frame(0x2D, &[0b0101_0001])]));
    assert_eq!(chip.seen.iter().filter(|seen| **seen == Seen::Assert).count(), 2);
    assert_eq!(chip.seen.iter().filter(|seen| **seen == Seen::Deassert).count(), 2);
    assert_eq!(chip.seen.iter().filter(|seen| matches!(seen, Seen::Exchange(_))).count(), 4);
    assert_eq!(chip.memory[0x2D], 0b0101_0001);
}

#[test]
fn modify_that_changes_nothing_writes_back_what_it_read() {
    let mut chip = Chip::new();
    chip.memory[0x01] = 0b1011_0101;
    assert_eq!(chip.modify(|_: &mut Reset| {}), Ok(()));
    assert_eq!(chip.seen, frames(&[frame(0x81, &[0x00]), frame(0x01, &[0b1011_0101])]));
    assert_eq!(chip.memory[0x01], 0b1011_0101);
}

#[test]
fn modify_of_a_two_byte_register() {
    let mut chip = Chip::new();
    chip.memory[0x32] = 0x2A;
    chip.memory[0x33] = 0x37;
    let result = chip.modify(|ratio: &mut SrcRatio| {
        *ratio = SrcRatio::new(ratio.integer() + 1, ratio.fraction());
    });
    assert_eq!(result, Ok(()));
    assert_eq!(chip.seen, frames(&[frame(0xB2, &[0x00, 0x00]), frame(0x32, &[0x32, 0x37])]));
    assert_eq!(&chip.memory[0x32..0x34], [0x32, 0x37]);
}

#[test]
fn modify_stops_after_failed_read_command() {
    let mut chip = Chip::failing(1, 31);
    chip.memory[0x2F] = 0x80;
    let mut calls = 0;
    let result = chip.modify(|register: &mut SrcControl3| {
        calls += 1;
        register.output_word_length = SrcOutputWordLength::_20bits;
    });
    assert_eq!(result, Err(Error::Transport(31)));
    assert_eq!(calls, 0);
    assert_eq!(
        chip.seen,
        vec![Seen::Assert, Seen::Exchange(vec![0xAF, 0x00]), Seen::Deassert, Seen::Delay(1)]
    );
    assert!(!chip.selected);
    assert_eq!(chip.memory[0x2F], 0x80);
}

#[test]
fn modify_stops_after_failed_read_payload() {
    let mut chip = Chip::failing(2, 32);
    chip.memory[0x2F] = 0x80;
    let result = chip.modify(|register: &mut SrcControl3| {
        register.output_word_length = SrcOutputWordLength::_20bits;
    });
    assert_eq!(result, Err(Error::Transport(32)));
    assert_eq!(chip.seen, frame(0xAF, &[0x00]));
    assert!(!chip.selected);
    assert_eq!(chip.memory[0x2F], 0x80);
}

#[test]
fn modify_reports_failed_write() {
    let mut chip = Chip::failing(7, 33);
    chip.memory[0x2F] = 0x80;
    let result = chip.modify(|register: &mut SrcControl3| {
        register.output_word_length = SrcOutputWordLength::_20bits;
    });
    assert_eq!(result, Err(Error::Transport(33)));
    assert_eq!(chip.seen, frames(&[frame(0xAF, &[0x00]), frame(0x2F, &[0x40])]));
    assert!(!chip.selected);
    assert_eq!(chip.memory[0x2F], 0x80);
}

#[test]
fn modify_refuses_reserved_bits() {
    let mut chip = Chip::new();
    chip.memory[0x2F] = 0b0100_0001;
    let mut calls = 0;
    let result = chip.modify(|_: &mut SrcControl3| calls += 1);
    assert_eq!(result, Err(Error::MalformedRegisterImage));
    assert_eq!(calls, 0);
    assert_eq!(chip.seen, frame(0xAF, &[0x00]));
    assert_eq!(chip.memory[0x2F], 0b0100_0001);
}

#[test]
fn modify_refuses_unknown_enum_bits() {
    let mut chip = Chip::new();
    chip.memory[0x2D] = 0b0000_0011;
    let result = chip.modify(|register: &mut SrcControl1| register.mute = true);
    assert_eq!(result, Err(Error::MalformedRegisterImage));
    assert_eq!(chip.seen, frame(0xAD, &[0x00]));
    assert_eq!(chip.memory[0x2D], 0b0000_0011);
}

#[test]
fn modify_refuses_a_reply_of_the_wrong_length() {
    let mut chip = Chip::new();
    chip.short_reads = true;
    let result = chip.modify(|register: &mut SrcControl1| register.mute = true);
    assert_eq!(result, Err(Error::MalformedRegisterImage));
    assert_eq!(chip.seen, frame(0xAD, &[0x00]));
}

#[test]
fn read_modify_write_on_images() {
    let mut chip = Chip::new();
    chip.memory[0x0D] = 0x12;
    let (mut machine, mut action) = ReadModifyWrite::<u32>::start(&Registers::ReceiverControl, 1);
    let result = loop {
        let outcome = chip.perform(action);
        match machine.advance(outcome) {
            RewriteStep::Perform(next, asked) => {
                machine = next;
                action = asked;
            }
            RewriteStep::Rewrite(rewrite, image) => {
                assert_eq!(image, [0x12]);
                let (next, asked) = rewrite.resume(vec![image[0] | 0x01]);
                machine = next;
                action = asked;
            }
            RewriteStep::Finished(result) => break result,
        }
    };
    assert_eq!(result, Ok(()));
    assert_eq!(chip.seen, frames(&[frame(0x8D, &[0x00]), frame(0x0D, &[0x13])]));
    assert_eq!(chip.memory[0x0D], 0x13);
}

#[test]
fn reset_sets_only_the_reset_bit() {
    let mut chip = Chip::new();
    chip.memory[0x01] = 0b0011_0101;
    assert_eq!(chip.operate(Src4392::reset()), Ok(()));
    assert_eq!(chip.seen, frames(&[frame(0x81, &[0x00]), frame(0x01, &[0b1011_0101])]));
    assert_eq!(chip.memory[0x01], 0b1011_0101);
}

#[test]
fn configure_port_a() {
    let mut chip = Chip::new();
    chip.memory[0x03] = 0b0100_0000;
    chip.memory[0x04] = 0b0000_0001;
    let started = Src4392::configure_port(
        Port::A,
        AudioFormat::I2s24,
        OutputDataSource::Src,
        PortMasterClockDivider::_256,
        PortClockSource::Rxcki,
        true,
    );
    assert_eq!(chip.operate(started), Ok(()));
    assert_eq!(
        chip.seen,
        frames(&[
            frame(0x83, &[0x00]),
            frame(0x03, &[0b0011_1001]),
            frame(0x84, &[0x00]),
            frame(0x04, &[0b0000_0101]),
        ])
    );
    assert_eq!(chip.memory[0x03], 0b0011_1001);
    assert_eq!(chip.memory[0x04], 0b0000_0101);
    assert_eq!(chip.memory[0x05], 0x00);
    assert_eq!(chip.memory[0x06], 0x00);
}

#[test]
fn configure_port_b() {
    let mut chip = Chip::new();
    let started = Src4392::configure_port(
        Port::B,
        AudioFormat::RightJustified24,
        OutputDataSource::Dir,
        PortMasterClockDivider::_512,
        PortClockSource::Rxcko,
        false,
    );
    assert_eq!(chip.operate(started), Ok(()));
    assert_eq!(
        chip.seen,
        frames(&[
            frame(0x85, &[0x00]),
            frame(0x05, &[0b0010_0111]),
            frame(0x86, &[0x00]),
            frame(0x06, &[0b0000_1011]),
        ])
    );
    assert_eq!(chip.memory[0x03], 0x00);
    assert_eq!(chip.memory[0x04], 0x00);
    assert_eq!(chip.memory[0x05], 0b0010_0111);
    assert_eq!(chip.memory[0x06], 0b0000_1011);
}

#[test]
fn configure_port_stops_when_the_first_register_fails() {
    let mut chip = Chip::failing(6, 41);
    let started = Src4392::configure_port(
        Port::A,
        AudioFormat::I2s24,
        OutputDataSource::Src,
        PortMasterClockDivider::_256,
        PortClockSource::Rxcki,
        true,
    );
    assert_eq!(chip.operate(started), Err(Error::Transport(41)));
    assert_eq!(
        chip.seen,
        frames(&[
            frame(0x83, &[0x00]),
            vec![Seen::Assert, Seen::Exchange(vec![0x03, 0x00]), Seen::Deassert, Seen::Delay(1)],
        ])
    );
    assert_eq!(chip.memory[0x03], 0x00);
    assert_eq!(chip.memory[0x04], 0x00);
}

#[test]
fn configure_port_stops_on_a_malformed_second_register() {
    let mut chip = Chip::new();
    chip.memory[0x04] = 0b0001_0000;
    let started = Src4392::configure_port(
        Port::A,
        AudioFormat::I2s24,
        OutputDataSource::Src,
        PortMasterClockDivider::_256,
        PortClockSource::Rxcki,
        true,
    );
    assert_eq!(chip.operate(started), Err(Error::MalformedRegisterImage));
    assert_eq!(
        chip.seen,
        frames(&[frame(0x83, &[0x00]), frame(0x03, &[0b0011_1001]), frame(0x84, &[0x00])])
    );
    assert_eq!(chip.memory[0x03], 0b0011_1001);
    assert_eq!(chip.memory[0x04], 0b0001_0000);
}

#[test]
fn set_src_configures_both_registers() {
    let mut chip = Chip::new();
    chip.memory[0x2D] = 0b0001_0000;
    chip.memory[0x2E] = 0b0010_0000;
    let started = Src4392::set_src(
        SrcSource::DIR,
        SrcClockSource::Rxcko,
        InterpolationFilterGroupDelay::_32,
        Deemphasis::_48000hz,
        true,
    );
    assert_eq!(chip.operate(started), Ok(()));
    assert_eq!(
        chip.seen,
        frames(&[
            frame(0xAD, &[0x00]),
            frame(0x2D, &[0b0100_1010]),
            frame(0xAE, &[0x00]),
            frame(0x2E, &[0b0010_1101]),
        ])
    );
    assert_eq!(chip.memory[0x2D], 0b0100_1010);
    assert_eq!(chip.memory[0x2E], 0b0010_1101);
}

#[test]
fn set_port_audio_format_keeps_the_other_fields() {
    let mut chip = Chip::new();
    chip.memory[0x03] = 0b0111_1000;
    chip.memory[0x05] = 0b0101_0001;
    let started = Src4392::set_port_audio_format(Port::A, AudioFormat::RightJustified16);
    assert_eq!(chip.operate(started), Ok(()));
    assert_eq!(chip.memory[0x03], 0b0111_1100);
    assert_eq!(chip.memory[0x05], 0b0101_0001);
    assert_eq!(chip.seen, frames(&[frame(0x83, &[0x00]), frame(0x03, &[0b0111_1100])]));

    let mut chip = Chip::new();
    chip.memory[0x05] = 0b0101_0001;
    let started = Src4392::set_port_audio_format(Port::B, AudioFormat::LeftJustified24);
    assert_eq!(chip.operate(started), Ok(()));
    assert_eq!(chip.memory[0x05], 0b0101_0000);
    assert_eq!(chip.seen, frames(&[frame(0x85, &[0x00]), frame(0x05, &[0b0101_0000])]));
}

#[test]
fn updates_know_their_registers() {
    assert_eq!(Update::Reset.register(), Registers::Reset);
    let update = Update::PortAudioFormat { port: Port::B, audio_format: AudioFormat::I2s24 };
    assert_eq!(update.register(), Registers::PortBControl);
    assert_eq!(update.apply(&[0b0100_0000]), Some(vec![0b0100_0001]));
    assert_eq!(update.apply(&[0b1000_0000]), None);
    assert_eq!(update.apply(&[0b0000_0010]), None);
    assert_eq!(update.apply(&[]), None);
    let update = Update::SrcControl1 {
        source: SrcSource::PortB,
        reference_clock: SrcClockSource::Rxcki,
    };
    assert_eq!(update.register(), Registers::SrcControl);
    assert_eq!(update.apply(&[0b0001_0000]), Some(vec![0b0100_0101]));
    assert_eq!(Update::Reset.apply(&[0x00]), Some(vec![0x80]));
    assert_eq!(Update::Reset.apply(&[0x40]), None);
}

#[test]
fn port_control_default_is_unconfigured() {
    let value = PortAControl1Register::default();
    assert_eq!(value.afmt, AudioFormat::LeftJustified24);
    assert_eq!(value.aout, OutputDataSource::Loopback);
    assert!(!value.am_slave);
    assert!(!value.amute);
}
