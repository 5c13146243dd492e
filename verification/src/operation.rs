//! The operations of the driver, each a short sequence of register updates.
//!
//! An update reads a register, changes the fields it is about and writes the
//! register back, so that fields it is not about keep what the chip held. An
//! operation that has a second update starts it only when the first ended
//! well.
use crate::codec::PackedRegister;
use crate::modify::{
    lemma_modify_framing, lemma_modify_run_length, rewrite_with, zeros, Error, ReadModifyWrite,
    ReadModifyWriteView, RewriteStep, RewriteStepView,
};
use crate::port_control::{
    AudioFormat, OutputDataSource, PortAControl1Register, PortAControl2Register,
    PortBControl1Register, PortBControl2Register, PortClockSource, PortMasterClockDivider,
};
use crate::registers::{address_byte, ReadWrite, Registers};
use crate::reset::Reset;
use crate::sample_rate_converter::{
    Deemphasis, InterpolationFilterGroupDelay, SrcClockSource, SrcControl1, SrcControl2, SrcSource,
};
use crate::transaction::{all_ok, frame, outcome_view, Action, Request, Transcript};
use vstd::prelude::*;

verus! {

/// One of the two audio ports.
#[derive(Copy, Clone, Debug, PartialEq, Eq, Structural)]
pub enum Port {
    A,
    B,
}

/// A change to the fields of one register.
#[derive(Copy, Clone, Debug, PartialEq, Eq)]
pub enum Update {
    /// Sets the reset bit.
    Reset,
    /// Sets format, clock mastership and data source of a port, and unmutes it.
    PortControl1 {
        port: Port,
        is_master: bool,
        audio_format: AudioFormat,
        output_data_source: OutputDataSource,
    },
    /// Sets divider and source of a port's master clock.
    PortControl2 { port: Port, clock_divider: PortMasterClockDivider, clock_source: PortClockSource },
    /// Sets the audio format of a port.
    PortAudioFormat { port: Port, audio_format: AudioFormat },
    /// Sets input and reference clock of the sample rate converter, unmutes
    /// it and turns attenuation tracking on.
    SrcControl1 { source: SrcSource, reference_clock: SrcClockSource },
    /// Sets de-emphasis, group delay and decimation mode of the sample rate
    /// converter.
    SrcControl2 {
        deemphasis: Deemphasis,
        interpolation_group_delay: InterpolationFilterGroupDelay,
        is_direct_down_sampling: bool,
    },
}

impl Update {
    /// The register that the update changes.
    pub open spec fn location(self) -> Registers {
        match self {
            Update::Reset => Registers::Reset,
            Update::PortControl1 { port: Port::A, .. } => Registers::PortAControl,
            Update::PortControl1 { port: Port::B, .. } => Registers::PortBControl,
            Update::PortControl2 { port: Port::A, .. } => Registers::PortAControl2,
            Update::PortControl2 { port: Port::B, .. } => Registers::PortBControl2,
            Update::PortAudioFormat { port: Port::A, .. } => Registers::PortAControl,
            Update::PortAudioFormat { port: Port::B, .. } => Registers::PortBControl,
            Update::SrcControl1 { .. } => Registers::SrcControl,
            Update::SrcControl2 { .. } => Registers::SrcControl2,
        }
    }

    /// What the update makes of the image of its register: the image of the
    /// value with the update's fields set and every other field as it was
    /// read. An image that does not decode is refused.
    pub open spec fn rewrite(self) -> spec_fn(Seq<u8>) -> Option<Seq<u8>> {
        match self {
            Update::Reset => rewrite_with(|value: Reset| Reset { reset: true, ..value }),
            Update::PortControl1 {
                port: Port::A,
                is_master,
                audio_format,
                output_data_source,
            } => rewrite_with(
                |value: PortAControl1Register|
                    PortAControl1Register {
                        am_slave: is_master,
                        afmt: audio_format,
                        aout: output_data_source,
                        amute: false,
                    },
            ),
            Update::PortControl1 {
                port: Port::B,
                is_master,
                audio_format,
                output_data_source,
            } => rewrite_with(
                |value: PortBControl1Register|
                    PortBControl1Register {
                        am_slave: is_master,
                        afmt: audio_format,
                        aout: output_data_source,
                        amute: false,
                    },
            ),
            Update::PortControl2 { port: Port::A, clock_divider, clock_source } => rewrite_with(
                |value: PortAControl2Register|
                    PortAControl2Register { adiv: clock_divider, aclk: clock_source },
            ),
            Update::PortControl2 { port: Port::B, clock_divider, clock_source } => rewrite_with(
                |value: PortBControl2Register|
                    PortBControl2Register { adiv: clock_divider, aclk: clock_source },
            ),
            Update::PortAudioFormat { port: Port::A, audio_format } => rewrite_with(
                |value: PortAControl1Register| PortAControl1Register { afmt: audio_format, ..value },
            ),
            Update::PortAudioFormat { port: Port::B, audio_format } => rewrite_with(
                |value: PortBControl1Register| PortBControl1Register { afmt: audio_format, ..value },
            ),
            Update::SrcControl1 { source, reference_clock } => rewrite_with(
                |value: SrcControl1|
                    SrcControl1 { source, clock_source: reference_clock, mute: false, track: true },
            ),
            Update::SrcControl2 {
                deemphasis,
                interpolation_group_delay,
                is_direct_down_sampling,
            } => rewrite_with(
                |value: SrcControl2|
                    SrcControl2 {
                        deemphasis,
                        interpolation_group_delay,
                        dd_n: is_direct_down_sampling,
                        ..value
                    },
            ),
        }
    }

    /// The register that the update changes.
    pub fn register(&self) -> (register: Registers)
        ensures
            register == self.location(),
    {
        match self {
            Update::Reset => Registers::Reset,
            Update::PortControl1 { port: Port::A, .. } => Registers::PortAControl,
            Update::PortControl1 { port: Port::B, .. } => Registers::PortBControl,
            Update::PortControl2 { port: Port::A, .. } => Registers::PortAControl2,
            Update::PortControl2 { port: Port::B, .. } => Registers::PortBControl2,
            Update::PortAudioFormat { port: Port::A, .. } => Registers::PortAControl,
            Update::PortAudioFormat { port: Port::B, .. } => Registers::PortBControl,
            Update::SrcControl1 { .. } => Registers::SrcControl,
            Update::SrcControl2 { .. } => Registers::SrcControl2,
        }
    }

    /// Applies the update to the image of its register.
    pub fn apply(&self, image: &[u8]) -> (changed: Option<Vec<u8>>)
        ensures
            image_view(changed) == (self.rewrite())(image@),
    {
        match *self {
            Update::Reset => apply_reset(*self, image),
            Update::PortControl1 { port: Port::A, .. } => apply_port_a_control1(*self, image),
            Update::PortControl1 { port: Port::B, .. } => apply_port_b_control1(*self, image),
            Update::PortControl2 { port: Port::A, .. } => apply_port_a_control2(*self, image),
            Update::PortControl2 { port: Port::B, .. } => apply_port_b_control2(*self, image),
            Update::PortAudioFormat { port: Port::A, .. } => apply_port_a_format(*self, image),
            Update::PortAudioFormat { port: Port::B, .. } => apply_port_b_format(*self, image),
            Update::SrcControl1 { .. } => apply_src_control1(*self, image),
            Update::SrcControl2 { .. } => apply_src_control2(*self, image),
        }
    }
}

/// The bytes of an image that may be missing, as a sequence.
pub open spec fn image_view(image: Option<Vec<u8>>) -> Option<Seq<u8>> {
    match image {
        Some(bytes) => Some(bytes@),
        None => None,
    }
}

fn apply_reset(update: Update, image: &[u8]) -> (changed: Option<Vec<u8>>)
    requires
        update matches Update::Reset,
    ensures
        image_view(changed) == (update.rewrite())(image@),
{
    match (update, Reset::unpack(image)) {
        (Update::Reset, Ok(mut value)) => {
            value.reset = true;
            Some(value.pack())
        },
        _ => None,
    }
}

fn apply_port_a_control1(update: Update, image: &[u8]) -> (changed: Option<Vec<u8>>)
    requires
        update matches Update::PortControl1 { port: Port::A, is_master, audio_format, output_data_source },
    ensures
        image_view(changed) == (update.rewrite())(image@),
{
    match (update, PortAControl1Register::unpack(image)) {
        (Update::PortControl1 { port: Port::A, is_master, audio_format, output_data_source }, Ok(mut value)) => {
            value.am_slave = is_master;
            value.afmt = audio_format;
            value.aout = output_data_source;
            value.amute = false;
            Some(value.pack())
        },
        _ => None,
    }
}

fn apply_port_b_control1(update: Update, image: &[u8]) -> (changed: Option<Vec<u8>>)
    requires
        update matches Update::PortControl1 { port: Port::B, is_master, audio_format, output_data_source },
    ensures
        image_view(changed) == (update.rewrite())(image@),
{
    match (update, PortBControl1Register::unpack(image)) {
        (Update::PortControl1 { port: Port::B, is_master, audio_format, output_data_source }, Ok(mut value)) => {
            value.am_slave = is_master;
            value.afmt = audio_format;
            value.aout = output_data_source;
            value.amute = false;
            Some(value.pack())
        },
        _ => None,
    }
}

fn apply_port_a_control2(update: Update, image: &[u8]) -> (changed: Option<Vec<u8>>)
    requires
        update matches Update::PortControl2 { port: Port::A, clock_divider, clock_source },
    ensures
        image_view(changed) == (update.rewrite())(image@),
{
    match (update, PortAControl2Register::unpack(image)) {
        (Update::PortControl2 { port: Port::A, clock_divider, clock_source }, Ok(mut value)) => {
            value.adiv = clock_divider;
            value.aclk = clock_source;
            Some(value.pack())
        },
        _ => None,
    }
}

fn apply_port_b_control2(update: Update, image: &[u8]) -> (changed: Option<Vec<u8>>)
    requires
        update matches Update::PortControl2 { port: Port::B, clock_divider, clock_source },
    ensures
        image_view(changed) == (update.rewrite())(image@),
{
    match (update, PortBControl2Register::unpack(image)) {
        (Update::PortControl2 { port: Port::B, clock_divider, clock_source }, Ok(mut value)) => {
            value.adiv = clock_divider;
            value.aclk = clock_source;
            Some(value.pack())
        },
        _ => None,
    }
}

fn apply_port_a_format(update: Update, image: &[u8]) -> (changed: Option<Vec<u8>>)
    requires
        update matches Update::PortAudioFormat { port: Port::A, audio_format },
    ensures
        image_view(changed) == (update.rewrite())(image@),
{
    match (update, PortAControl1Register::unpack(image)) {
        (Update::PortAudioFormat { port: Port::A, audio_format }, Ok(mut value)) => {
            value.afmt = audio_format;
            Some(value.pack())
        },
        _ => None,
    }
}

fn apply_port_b_format(update: Update, image: &[u8]) -> (changed: Option<Vec<u8>>)
    requires
        update matches Update::PortAudioFormat { port: Port::B, audio_format },
    ensures
        image_view(changed) == (update.rewrite())(image@),
{
    match (update, PortBControl1Register::unpack(image)) {
        (Update::PortAudioFormat { port: Port::B, audio_format }, Ok(mut value)) => {
            value.afmt = audio_format;
            Some(value.pack())
        },
        _ => None,
    }
}

fn apply_src_control1(update: Update, image: &[u8]) -> (changed: Option<Vec<u8>>)
    requires
        update matches Update::SrcControl1 { source, reference_clock },
    ensures
        image_view(changed) == (update.rewrite())(image@),
{
    match (update, SrcControl1::unpack(image)) {
        (Update::SrcControl1 { source, reference_clock }, Ok(mut value)) => {
            value.source = source;
            value.clock_source = reference_clock;
            value.mute = false;
            value.track = true;
            Some(value.pack())
        },
        _ => None,
    }
}

fn apply_src_control2(update: Update, image: &[u8]) -> (changed: Option<Vec<u8>>)
    requires
        update matches Update::SrcControl2 { deemphasis, interpolation_group_delay, is_direct_down_sampling },
    ensures
        image_view(changed) == (update.rewrite())(image@),
{
    match (update, SrcControl2::unpack(image)) {
        (Update::SrcControl2 { deemphasis, interpolation_group_delay, is_direct_down_sampling }, Ok(mut value)) => {
            value.deemphasis = deemphasis;
            value.interpolation_group_delay = interpolation_group_delay;
            value.dd_n = is_direct_down_sampling;
            Some(value.pack())
        },
        _ => None,
    }
}

/// An operation of the driver, in progress: the update that is under way and
/// the one that follows it, if any.
pub struct Src4392<E> {
    update: Update,
    follow_up: Option<Update>,
    machine: ReadModifyWrite<E>,
}

/// The state of an operation: the update under way, the state of its
/// read-modify-write, and the update that follows.
pub struct OperationView<E> {
    pub update: Update,
    pub follow_up: Option<Update>,
    pub machine: ReadModifyWriteView<E>,
}

/// What an operation does when told how its bus operation went.
pub enum OperationStepView<E> {
    Perform(OperationView<E>, Request),
    Finished(Result<(), Error<E>>),
}

/// What [`Src4392::advance`] hands back: the operation and the bus operation
/// it asks for next, or what came of the operation.
pub enum OperationStep<E> {
    Perform(Src4392<E>, Action),
    Finished(Result<(), Error<E>>),
}

impl<E> View for Src4392<E> {
    type V = OperationView<E>;

    closed spec fn view(&self) -> OperationView<E> {
        OperationView { update: self.update, follow_up: self.follow_up, machine: self.machine@ }
    }
}

impl<E> View for OperationStep<E> {
    type V = OperationStepView<E>;

    open spec fn view(&self) -> OperationStepView<E> {
        match self {
            OperationStep::Perform(operation, action) => OperationStepView::Perform(
                operation@,
                action@,
            ),
            OperationStep::Finished(result) => OperationStepView::Finished(*result),
        }
    }
}

/// The read-modify-write of an update that has asked for nothing but the chip
/// select of its read yet. Every register that an update changes is one byte
/// wide.
pub open spec fn reading<E>(update: Update) -> ReadModifyWriteView<E> {
    ReadModifyWriteView::begin(
        address_byte(update.location().spec_address(), ReadWrite::Read),
        address_byte(update.location().spec_address(), ReadWrite::Write),
        1,
    )
}

impl<E> OperationView<E> {
    /// An operation that has asked for nothing but the chip select of its
    /// first read yet.
    pub open spec fn begin(update: Update, follow_up: Option<Update>) -> OperationView<E> {
        OperationView { update, follow_up, machine: reading(update) }
    }

    /// The bus operation that the operation is waiting on.
    pub open spec fn request(self) -> Request {
        self.machine.request()
    }

    /// The operation's move when its bus operation went as `outcome` says:
    /// that of the read-modify-write under way, with the image that is read
    /// changed as the update says. When an update has ended well the next one
    /// starts; when it has failed, or there is none left, the operation ends.
    pub open spec fn next(self, outcome: Result<Seq<u8>, E>) -> OperationStepView<E> {
        match self.machine.next(outcome) {
            RewriteStepView::Perform(machine, request) => OperationStepView::Perform(
                OperationView { machine, ..self },
                request,
            ),
            RewriteStepView::Rewrite(write_command, image) => match (self.update.rewrite())(image) {
                Some(changed) => OperationStepView::Perform(
                    OperationView {
                        machine: ReadModifyWriteView::write_back(write_command, changed),
                        ..self
                    },
                    Request::AssertChipSelect,
                ),
                None => OperationStepView::Finished(Err(Error::MalformedRegisterImage)),
            },
            RewriteStepView::Finished(Err(error)) => OperationStepView::Finished(Err(error)),
            RewriteStepView::Finished(Ok(_)) => match self.follow_up {
                Some(update) => OperationStepView::Perform(
                    Self::begin(update, None),
                    Request::AssertChipSelect,
                ),
                None => OperationStepView::Finished(Ok(())),
            },
        }
    }
}

impl<E> Src4392<E> {
    fn begin(update: Update, follow_up: Option<Update>) -> (started: (Src4392<E>, Action))
        ensures
            started.0@ == OperationView::<E>::begin(update, follow_up),
            started.1@ == Request::AssertChipSelect,
    {
        let register = update.register();
        let (machine, action) = ReadModifyWrite::start(&register, 1);
        (Src4392 { update, follow_up, machine }, action)
    }

    /// Starts a reset of the chip: the reset bit of the reset register is
    /// set, the power-down bits stay as they are.
    pub fn reset() -> (started: (Src4392<E>, Action))
        ensures
            started.0@ == OperationView::<E>::begin(Update::Reset, None),
            started.1@ == Request::AssertChipSelect,
    {
        Self::begin(Update::Reset, None)
    }

    /// Starts the configuration of an audio port: first its format, clock
    /// mastership and data source, with the output unmuted, then the divider
    /// and source of its master clock.
    pub fn configure_port(
        port: Port,
        audio_format: AudioFormat,
        output_data_source: OutputDataSource,
        clock_divider: PortMasterClockDivider,
        clock_source: PortClockSource,
        is_master: bool,
    ) -> (started: (Src4392<E>, Action))
        ensures
            started.0@ == OperationView::<E>::begin(
                Update::PortControl1 { port, is_master, audio_format, output_data_source },
                Some(Update::PortControl2 { port, clock_divider, clock_source }),
            ),
            started.1@ == Request::AssertChipSelect,
    {
        Self::begin(
            Update::PortControl1 { port, is_master, audio_format, output_data_source },
            Some(Update::PortControl2 { port, clock_divider, clock_source }),
        )
    }

    /// Starts the configuration of the sample rate converter: first its input
    /// and reference clock, with the output unmuted and attenuation tracking
    /// on, then de-emphasis, group delay and decimation mode.
    pub fn set_src(
        src_source: SrcSource,
        clock_source: SrcClockSource,
        interpolation_group_delay: InterpolationFilterGroupDelay,
        deemphasis: Deemphasis,
        is_direct_down_sampling: bool,
    ) -> (started: (Src4392<E>, Action))
        ensures
            started.0@ == OperationView::<E>::begin(
                Update::SrcControl1 { source: src_source, reference_clock: clock_source },
                Some(
                    Update::SrcControl2 {
                        deemphasis,
                        interpolation_group_delay,
                        is_direct_down_sampling,
                    },
                ),
            ),
            started.1@ == Request::AssertChipSelect,
    {
        Self::begin(
            Update::SrcControl1 { source: src_source, reference_clock: clock_source },
            Some(
                Update::SrcControl2 { deemphasis, interpolation_group_delay, is_direct_down_sampling },
            ),
        )
    }

    /// Starts a change of the audio format of a port. Nothing else in the
    /// port's control register changes.
    pub fn set_port_audio_format(port: Port, audio_format: AudioFormat) -> (started: (
        Src4392<E>,
        Action,
    ))
        ensures
            started.0@ == OperationView::<E>::begin(
                Update::PortAudioFormat { port, audio_format },
                None,
            ),
            started.1@ == Request::AssertChipSelect,
    {
        Self::begin(Update::PortAudioFormat { port, audio_format }, None)
    }

    /// Takes in the outcome of the bus operation asked for last and asks for
    /// the next one, or ends the operation.
    pub fn advance(self, outcome: Result<Vec<u8>, E>) -> (step: OperationStep<E>)
        ensures
            step@ == self@.next(outcome_view(outcome)),
    {
        let Src4392 { update, follow_up, machine } = self;
        match machine.advance(outcome) {
            RewriteStep::Perform(machine, action) => OperationStep::Perform(
                Src4392 { update, follow_up, machine },
                action,
            ),
            RewriteStep::Rewrite(rewrite, image) => match update.apply(image.as_slice()) {
                Some(changed) => {
                    let (machine, action) = rewrite.resume(changed);
                    OperationStep::Perform(Src4392 { update, follow_up, machine }, action)
                },
                None => OperationStep::Finished(Err(Error::MalformedRegisterImage)),
            },
            RewriteStep::Finished(Err(error)) => OperationStep::Finished(Err(error)),
            RewriteStep::Finished(Ok(_)) => match follow_up {
                Some(update) => {
                    let (operation, action) = Self::begin(update, None);
                    OperationStep::Perform(operation, action)
                },
                None => OperationStep::Finished(Ok(())),
            },
        }
    }
}

/// The transcript of an operation whose first update has the transcript
/// `first`: that of the first update alone unless it ended well and another
/// update follows; otherwise that of the first followed by that of the second,
/// which takes its outcomes from where the first left off.
pub open spec fn chain<E>(
    first: Transcript<Result<(), Error<E>>>,
    follow_up: Option<Update>,
    outcomes: Seq<Result<Seq<u8>, E>>,
) -> Transcript<Result<(), Error<E>>> {
    match (first.result, follow_up) {
        (Some(Ok(_)), Some(update)) => {
            let second = reading::<E>(update).run(
                update.rewrite(),
                outcomes.skip(first.requests.len() as int),
            );
            Transcript { requests: first.requests + second.requests, result: second.result }
        },
        _ => first,
    }
}

impl<E> OperationView<E> {
    /// The transcript of the operation when the bus operations it asks for go
    /// as `outcomes` say, one outcome per bus operation.
    pub open spec fn run(self, outcomes: Seq<Result<Seq<u8>, E>>) -> Transcript<
        Result<(), Error<E>>,
    >
        decreases outcomes.len(),
    {
        if outcomes.len() == 0 {
            Transcript { requests: seq![self.request()], result: None }
        } else {
            match self.next(outcomes[0]) {
                OperationStepView::Perform(after, _) => {
                    let rest = after.run(outcomes.drop_first());
                    Transcript { requests: seq![self.request()] + rest.requests, result: rest.result }
                },
                OperationStepView::Finished(result) => Transcript {
                    requests: seq![self.request()],
                    result: Some(result),
                },
            }
        }
    }

    /// An operation is the read-modify-write of its update under way,
    /// followed, if that ends well, by the read-modify-write of the update
    /// that follows.
    pub proof fn lemma_run_is_chain(self, outcomes: Seq<Result<Seq<u8>, E>>)
        ensures
            self.run(outcomes) == chain(
                self.machine.run(self.update.rewrite(), outcomes),
                self.follow_up,
                outcomes,
            ),
        decreases outcomes.len(),
    {
        let rewrite = self.update.rewrite();
        let first = self.machine.run(rewrite, outcomes);
        if outcomes.len() > 0 {
            let rest = outcomes.drop_first();
            match self.machine.next(outcomes[0]) {
                RewriteStepView::Perform(machine, _) => {
                    let after = OperationView { machine, ..self };
                    after.lemma_run_is_chain(rest);
                    self.lemma_chain_step(machine, outcomes);
                },
                RewriteStepView::Rewrite(write_command, image) => {
                    if let Some(changed) = rewrite(image) {
                        let machine = ReadModifyWriteView::write_back(write_command, changed);
                        let after = OperationView { machine, ..self };
                        after.lemma_run_is_chain(rest);
                        self.lemma_chain_step(machine, outcomes);
                    }
                },
                RewriteStepView::Finished(Err(_)) => {},
                RewriteStepView::Finished(Ok(_)) => {
                    if let Some(update) = self.follow_up {
                        Self::begin(update, None).lemma_run_is_chain(rest);
                        assert(outcomes.skip(1) =~= rest);
                    }
                },
            }
        }
    }

    /// One bus operation in front of a chain is one bus operation in front of
    /// its first update.
    proof fn lemma_chain_step(
        self,
        machine: ReadModifyWriteView<E>,
        outcomes: Seq<Result<Seq<u8>, E>>,
    )
        requires
            outcomes.len() > 0,
        ensures
            ({
                let inner = machine.run(self.update.rewrite(), outcomes.drop_first());
                let tail = chain(inner, self.follow_up, outcomes.drop_first());
                chain(
                    Transcript {
                        requests: seq![self.request()] + inner.requests,
                        result: inner.result,
                    },
                    self.follow_up,
                    outcomes,
                ) == (Transcript {
                    requests: seq![self.request()] + tail.requests,
                    result: tail.result,
                })
            }),
    {
        let rest = outcomes.drop_first();
        let inner = machine.run(self.update.rewrite(), rest);
        lemma_modify_run_length(machine, self.update.rewrite(), rest);
        if let (Some(Ok(_)), Some(update)) = (inner.result, self.follow_up) {
            let front = seq![self.request()] + inner.requests;
            assert(outcomes.skip(front.len() as int) =~= rest.skip(inner.requests.len() as int));
            let second = reading::<E>(update).run(
                update.rewrite(),
                rest.skip(inner.requests.len() as int),
            );
            assert(front + second.requests =~= seq![self.request()] + (inner.requests
                + second.requests));
        }
    }
}

/// An operation of one update is the read-modify-write of that update.
pub proof fn lemma_single_update<E>(update: Update, outcomes: Seq<Result<Seq<u8>, E>>)
    ensures
        OperationView::<E>::begin(update, None).run(outcomes) == reading::<E>(update).run(
            update.rewrite(),
            outcomes,
        ),
{
    OperationView::<E>::begin(update, None).lemma_run_is_chain(outcomes);
}

/// An operation of two updates is the read-modify-write of the first, and,
/// only if that ends well, after it the read-modify-write of the second. When
/// the first fails, by the transport or by what it reads, the register of the
/// second is neither read nor written.
pub proof fn lemma_two_updates<E>(
    first: Update,
    second: Update,
    outcomes: Seq<Result<Seq<u8>, E>>,
)
    ensures
        OperationView::<E>::begin(first, Some(second)).run(outcomes) == chain(
            reading::<E>(first).run(first.rewrite(), outcomes),
            Some(second),
            outcomes,
        ),
        reading::<E>(first).run(first.rewrite(), outcomes).result matches Some(Err(_))
            ==> OperationView::<E>::begin(first, Some(second)).run(outcomes) == reading::<E>(
            first,
        ).run(first.rewrite(), outcomes),
{
    OperationView::<E>::begin(first, Some(second)).lemma_run_is_chain(outcomes);
}

/// When nothing fails and both images decode, an operation of two updates
/// puts four frames on the bus: read and write of the first register, then
/// read and write of the second.
pub proof fn lemma_two_updates_framing<E>(
    first: Update,
    second: Update,
    outcomes: Seq<Result<Seq<u8>, E>>,
)
    requires
        outcomes.len() >= 20,
        all_ok(outcomes, 20),
        (first.rewrite())(outcomes[2]->Ok_0) is Some,
        (second.rewrite())(outcomes[12]->Ok_0) is Some,
    ensures
        OperationView::<E>::begin(first, Some(second)).run(outcomes) == (Transcript {
            requests: frame(address_byte(first.location().spec_address(), ReadWrite::Read), zeros(1))
                + frame(
                address_byte(first.location().spec_address(), ReadWrite::Write),
                (first.rewrite())(outcomes[2]->Ok_0)->Some_0,
            ) + frame(address_byte(second.location().spec_address(), ReadWrite::Read), zeros(1))
                + frame(
                address_byte(second.location().spec_address(), ReadWrite::Write),
                (second.rewrite())(outcomes[12]->Ok_0)->Some_0,
            ),
            result: Some(Ok::<(), Error<E>>(())),
        }),
{
    lemma_two_updates(first, second, outcomes);
    assert(all_ok(outcomes, 10));
    lemma_modify_framing(
        address_byte(first.location().spec_address(), ReadWrite::Read),
        address_byte(first.location().spec_address(), ReadWrite::Write),
        1,
        first.rewrite(),
        outcomes,
    );
    let later = outcomes.skip(10);
    assert(all_ok(later, 10)) by {
        assert forall|i: int| 0 <= i < 10 && i < later.len() implies (#[trigger] later[i]) is Ok by {
            assert(later[i] == outcomes[i + 10]);
        }
    }
    assert(later[2] == outcomes[12]);
    lemma_modify_framing(
        address_byte(second.location().spec_address(), ReadWrite::Read),
        address_byte(second.location().spec_address(), ReadWrite::Write),
        1,
        second.rewrite(),
        later,
    );
    let one = reading::<E>(first).run(first.rewrite(), outcomes);
    let two = reading::<E>(second).run(second.rewrite(), later);
    assert(one.requests.len() == 10);
    assert(one.requests + two.requests =~= frame(
        address_byte(first.location().spec_address(), ReadWrite::Read),
        zeros(1),
    ) + frame(
        address_byte(first.location().spec_address(), ReadWrite::Write),
        (first.rewrite())(outcomes[2]->Ok_0)->Some_0,
    ) + frame(address_byte(second.location().spec_address(), ReadWrite::Read), zeros(1)) + frame(
        address_byte(second.location().spec_address(), ReadWrite::Write),
        (second.rewrite())(outcomes[12]->Ok_0)->Some_0,
    ));
}

} // verus!
