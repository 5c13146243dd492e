//! Read-modify-write of one register: read its image, let the caller change
//! the decoded value, write the image of the changed value back.
//!
//! Like a [`Transaction`], the machines here ask for bus operations and are
//! told how each went. Between the two transfers they stop once and hand out
//! what was read; the caller hands back what is to be written. On a failed
//! read, or an image that does not decode, nothing is written.
use crate::codec::PackedRegister;
use crate::registers::{AsAddressByte, ReadWrite, RegisterAddress};
use crate::transaction::{
    all_ok, frame, lemma_transfer_failure, lemma_transfer_framing, outcome_view, release, Action,
    Request, Step, StepView, Transaction, TransactionView, Transcript,
};
use core::marker::PhantomData;
use vstd::prelude::*;

verus! {

/// Why an operation on the chip failed.
#[derive(Debug, PartialEq, Eq)]
pub enum Error<E> {
    /// The transport failed; this is its error, as it came.
    Transport(E),
    /// What was read is no image of the register: a reserved bit is set in
    /// it, the bits of an enumeration name no variant, or its length is wrong.
    MalformedRegisterImage,
}

/// Which of its two transfers a read-modify-write is in.
#[derive(Debug, Clone, Copy, PartialEq, Eq, Structural)]
pub enum Half {
    Reading,
    Writing,
}

/// `width` zero bytes: what is clocked out while a register is read.
pub open spec fn zeros(width: nat) -> Seq<u8> {
    Seq::new(width, |i: int| 0u8)
}

/// A read-modify-write on byte images, in progress.
pub struct ReadModifyWrite<E> {
    half: Half,
    write_command: u8,
    transfer: Transaction<E>,
}

/// The state of a read-modify-write: the transfer it is in, the state of
/// that transfer, and the address byte that opens the write.
pub struct ReadModifyWriteView<E> {
    pub half: Half,
    pub write_command: u8,
    pub transfer: TransactionView<E>,
}

/// The right to write an image to the register whose image was just read.
pub struct Rewrite<E> {
    write_command: u8,
    transport: PhantomData<E>,
}

/// What a read-modify-write does when told how its operation went.
pub enum RewriteStepView<E> {
    /// It asks for the next operation.
    Perform(ReadModifyWriteView<E>, Request),
    /// The read is done: this image came, and the write will open with this
    /// address byte.
    Rewrite(u8, Seq<u8>),
    /// It has ended.
    Finished(Result<(), Error<E>>),
}

/// What [`ReadModifyWrite::advance`] hands back.
pub enum RewriteStep<E> {
    /// The machine, and the operation it asks for next.
    Perform(ReadModifyWrite<E>, Action),
    /// The image that was read. [`Rewrite::resume`] takes the image to write.
    Rewrite(Rewrite<E>, Vec<u8>),
    /// What came of the read-modify-write.
    Finished(Result<(), Error<E>>),
}

impl<E> View for ReadModifyWrite<E> {
    type V = ReadModifyWriteView<E>;

    closed spec fn view(&self) -> ReadModifyWriteView<E> {
        ReadModifyWriteView {
            half: self.half,
            write_command: self.write_command,
            transfer: self.transfer@,
        }
    }
}

impl<E> Rewrite<E> {
    /// The address byte that will open the write.
    pub closed spec fn write_command(&self) -> u8 {
        self.write_command
    }

    /// Starts the write of `image` to the register that was read, and asks
    /// for the chip select.
    pub fn resume(self, image: Vec<u8>) -> (resumed: (ReadModifyWrite<E>, Action))
        ensures
            resumed.0@ == ReadModifyWriteView::<E>::write_back(self.write_command(), image@),
            resumed.1@ == Request::AssertChipSelect,
    {
        let (transfer, action) = Transaction::begin(self.write_command, image);
        (ReadModifyWrite { half: Half::Writing, write_command: self.write_command, transfer }, action)
    }
}

impl<E> View for RewriteStep<E> {
    type V = RewriteStepView<E>;

    open spec fn view(&self) -> RewriteStepView<E> {
        match self {
            RewriteStep::Perform(machine, action) => RewriteStepView::Perform(machine@, action@),
            RewriteStep::Rewrite(rewrite, image) => RewriteStepView::Rewrite(
                rewrite.write_command(),
                image@,
            ),
            RewriteStep::Finished(result) => RewriteStepView::Finished(*result),
        }
    }
}

impl<E> ReadModifyWriteView<E> {
    /// A read-modify-write that has asked for nothing but the chip select of
    /// its read yet.
    pub open spec fn begin(read_command: u8, write_command: u8, width: nat) -> ReadModifyWriteView<
        E,
    > {
        ReadModifyWriteView {
            half: Half::Reading,
            write_command,
            transfer: TransactionView::begin(read_command, zeros(width)),
        }
    }

    /// A read-modify-write that has read, and has asked for nothing but the
    /// chip select of its write yet.
    pub open spec fn write_back(write_command: u8, image: Seq<u8>) -> ReadModifyWriteView<E> {
        ReadModifyWriteView {
            half: Half::Writing,
            write_command,
            transfer: TransactionView::begin(write_command, image),
        }
    }

    /// The operation that the machine is waiting on.
    pub open spec fn request(self) -> Request {
        self.transfer.request()
    }

    /// The machine's move when its operation went as `outcome` says: that of
    /// its transfer, until the transfer ends. A failed transfer ends the
    /// read-modify-write with the transport's error; a read that succeeded
    /// hands out its image; a write that succeeded ends it well.
    pub open spec fn next(self, outcome: Result<Seq<u8>, E>) -> RewriteStepView<E> {
        match self.transfer.next(outcome) {
            StepView::Perform(then, request) => RewriteStepView::Perform(
                ReadModifyWriteView { transfer: then, ..self },
                request,
            ),
            StepView::Finished(Err(error)) => RewriteStepView::Finished(
                Err(Error::Transport(error)),
            ),
            StepView::Finished(Ok(bytes)) => match self.half {
                Half::Reading => RewriteStepView::Rewrite(self.write_command, bytes),
                Half::Writing => RewriteStepView::Finished(Ok(())),
            },
        }
    }
}

impl<E> ReadModifyWrite<E> {
    /// Starts a read-modify-write of the `width` bytes at `register`, and asks
    /// for the chip select of the read.
    pub fn start<A: AsAddressByte>(register: &A, width: usize) -> (started: (
        ReadModifyWrite<E>,
        Action,
    ))
        ensures
            started.0@ == ReadModifyWriteView::<E>::begin(
                register.wire_address(ReadWrite::Read),
                register.wire_address(ReadWrite::Write),
                width as nat,
            ),
            started.1@ == Request::AssertChipSelect,
    {
        let write_command = register.as_address_byte(ReadWrite::Write);
        let buffer = vec![0u8; width];
        assert(buffer@ =~= zeros(width as nat));
        let (transfer, action) = Transaction::start(register, ReadWrite::Read, buffer);
        (ReadModifyWrite { half: Half::Reading, write_command, transfer }, action)
    }

    /// Takes in the outcome of the operation asked for last.
    pub fn advance(self, outcome: Result<Vec<u8>, E>) -> (step: RewriteStep<E>)
        ensures
            step@ == self@.next(outcome_view(outcome)),
    {
        let ReadModifyWrite { half, write_command, transfer } = self;
        match transfer.advance(outcome) {
            Step::Perform(transfer, action) => RewriteStep::Perform(
                ReadModifyWrite { half, write_command, transfer },
                action,
            ),
            Step::Finished(Err(error)) => RewriteStep::Finished(Err(Error::Transport(error))),
            Step::Finished(Ok(bytes)) => match half {
                Half::Reading => RewriteStep::Rewrite(
                    Rewrite { write_command, transport: PhantomData },
                    bytes,
                ),
                Half::Writing => RewriteStep::Finished(Ok(())),
            },
        }
    }
}

/// A read-modify-write of a register of type `R`, in progress.
pub struct Modify<R, E> {
    machine: ReadModifyWrite<E>,
    register: PhantomData<R>,
}

/// The right to write a value to the register whose value was just read.
pub struct Mutation<R, E> {
    rewrite: Rewrite<E>,
    register: PhantomData<R>,
}

/// What a typed read-modify-write does when told how its operation went.
pub enum ModifyStepView<R, E> {
    /// It asks for the next operation.
    Perform(ReadModifyWriteView<E>, Request),
    /// The read is done: this value was read, and the write will open with
    /// this address byte.
    Mutate(u8, R),
    /// It has ended.
    Finished(Result<(), Error<E>>),
}

/// What [`Modify::advance`] hands back.
pub enum ModifyStep<R, E> {
    /// The machine, and the operation it asks for next.
    Perform(Modify<R, E>, Action),
    /// The value that was read. [`Mutation::resume`] takes the value to write.
    Mutate(Mutation<R, E>, R),
    /// What came of the read-modify-write.
    Finished(Result<(), Error<E>>),
}

impl<R, E> Mutation<R, E> {
    /// The address byte that will open the write.
    pub closed spec fn write_command(&self) -> u8 {
        self.rewrite.write_command()
    }
}

impl<R, E> View for Modify<R, E> {
    type V = ReadModifyWriteView<E>;

    closed spec fn view(&self) -> ReadModifyWriteView<E> {
        self.machine@
    }
}

impl<R, E> View for ModifyStep<R, E> {
    type V = ModifyStepView<R, E>;

    open spec fn view(&self) -> ModifyStepView<R, E> {
        match self {
            ModifyStep::Perform(machine, action) => ModifyStepView::Perform(machine@, action@),
            ModifyStep::Mutate(mutation, value) => ModifyStepView::Mutate(
                mutation.write_command(),
                *value,
            ),
            ModifyStep::Finished(result) => ModifyStepView::Finished(*result),
        }
    }
}

/// The typed move that goes with a move on images: the image that was read
/// is decoded, and one that does not decode ends the read-modify-write as
/// malformed, before anything is written.
pub open spec fn decoded_step<R: PackedRegister, E>(step: RewriteStepView<E>) -> ModifyStepView<
    R,
    E,
> {
    match step {
        RewriteStepView::Perform(then, request) => ModifyStepView::Perform(then, request),
        RewriteStepView::Rewrite(write_command, image) => match R::decoding(image) {
            Ok(value) => ModifyStepView::Mutate(write_command, value),
            Err(_) => ModifyStepView::Finished(Err(Error::MalformedRegisterImage)),
        },
        RewriteStepView::Finished(result) => ModifyStepView::Finished(result),
    }
}

impl<R: PackedRegister, E> Mutation<R, E> {
    /// Starts the write of `value` to the register that was read, and asks
    /// for the chip select.
    pub fn resume(self, value: R) -> (resumed: (Modify<R, E>, Action))
        ensures
            value.in_range(),
            resumed.0@ == ReadModifyWriteView::<E>::write_back(
                self.write_command(),
                value.encoding(),
            ),
            resumed.1@ == Request::AssertChipSelect,
    {
        let image = value.pack();
        let (machine, action) = self.rewrite.resume(image);
        (Modify { machine, register: PhantomData }, action)
    }
}

impl<R: PackedRegister, E> Modify<R, E> {
    /// Starts a read-modify-write of the register that holds an `R`, and asks
    /// for the chip select of the read.
    pub fn start<A: AsAddressByte>() -> (started: (Modify<R, E>, Action)) where
        R: RegisterAddress<A>,

        ensures
            started.0@ == ReadModifyWriteView::<E>::begin(
                R::location().wire_address(ReadWrite::Read),
                R::location().wire_address(ReadWrite::Write),
                R::width(),
            ),
            started.1@ == Request::AssertChipSelect,
    {
        let register = R::register_address();
        let (machine, action) = ReadModifyWrite::start(&register, R::size());
        (Modify { machine, register: PhantomData }, action)
    }

    /// Takes in the outcome of the operation asked for last.
    ///
    /// When the read has ended well, what was read is decoded. A decoded
    /// value is handed out for the caller to change; an image that does not
    /// decode ends the read-modify-write as malformed, with nothing written.
    pub fn advance(self, outcome: Result<Vec<u8>, E>) -> (step: ModifyStep<R, E>)
        ensures
            step@ == decoded_step::<R, E>(self@.next(outcome_view(outcome))),
    {
        match self.machine.advance(outcome) {
            RewriteStep::Perform(machine, action) => ModifyStep::Perform(
                Modify { machine, register: PhantomData },
                action,
            ),
            RewriteStep::Rewrite(rewrite, image) => match R::unpack(image.as_slice()) {
                Ok(value) => ModifyStep::Mutate(Mutation { rewrite, register: PhantomData }, value),
                Err(_) => ModifyStep::Finished(Err(Error::MalformedRegisterImage)),
            },
            RewriteStep::Finished(result) => ModifyStep::Finished(result),
        }
    }
}

/// What came of a read-modify-write whose write transfer ended as `result`
/// says, if it has ended.
pub open spec fn written<E>(result: Option<Result<Seq<u8>, E>>) -> Option<Result<(), Error<E>>> {
    match result {
        None => None,
        Some(Err(error)) => Some(Err(Error::Transport(error))),
        Some(Ok(_)) => Some(Ok(())),
    }
}

/// The transcript of a read-modify-write whose read transfer has the
/// transcript `read`: that of the read alone if the read has not ended, has
/// failed, or has brought an image that `rewrite` refuses; otherwise that of
/// the read followed by that of the write of the rewritten image, which takes
/// its outcomes from where the read left off.
pub open spec fn sequel<E>(
    read: Transcript<Result<Seq<u8>, E>>,
    write_command: u8,
    rewrite: spec_fn(Seq<u8>) -> Option<Seq<u8>>,
    outcomes: Seq<Result<Seq<u8>, E>>,
) -> Transcript<Result<(), Error<E>>> {
    match read.result {
        None => Transcript { requests: read.requests, result: None },
        Some(Err(error)) => Transcript {
            requests: read.requests,
            result: Some(Err(Error::Transport(error))),
        },
        Some(Ok(image)) => match rewrite(image) {
            None => Transcript {
                requests: read.requests,
                result: Some(Err(Error::MalformedRegisterImage)),
            },
            Some(changed) => {
                let write = TransactionView::<E>::begin(write_command, changed).run(
                    outcomes.skip(read.requests.len() as int),
                );
                Transcript {
                    requests: read.requests + write.requests,
                    result: written(write.result),
                }
            },
        },
    }
}

impl<E> ReadModifyWriteView<E> {
    /// The transcript of the read-modify-write when the operations it asks
    /// for go as `outcomes` say, one outcome per operation, and the image that
    /// is read is changed as `rewrite` says. An image for which `rewrite`
    /// gives nothing is one that does not decode.
    pub open spec fn run(
        self,
        rewrite: spec_fn(Seq<u8>) -> Option<Seq<u8>>,
        outcomes: Seq<Result<Seq<u8>, E>>,
    ) -> Transcript<Result<(), Error<E>>>
        decreases outcomes.len(),
    {
        if outcomes.len() == 0 {
            Transcript { requests: seq![self.request()], result: None }
        } else {
            match self.next(outcomes[0]) {
                RewriteStepView::Perform(then, _) => {
                    let rest = then.run(rewrite, outcomes.drop_first());
                    Transcript { requests: seq![self.request()] + rest.requests, result: rest.result }
                },
                RewriteStepView::Rewrite(write_command, image) => match rewrite(image) {
                    Some(changed) => {
                        let rest = Self::write_back(write_command, changed).run(
                            rewrite,
                            outcomes.drop_first(),
                        );
                        Transcript {
                            requests: seq![self.request()] + rest.requests,
                            result: rest.result,
                        }
                    },
                    None => Transcript {
                        requests: seq![self.request()],
                        result: Some(Err(Error::MalformedRegisterImage)),
                    },
                },
                RewriteStepView::Finished(result) => Transcript {
                    requests: seq![self.request()],
                    result: Some(result),
                },
            }
        }
    }

    /// While it writes, a read-modify-write asks for what its transfer asks
    /// for, and ends as its transfer ends.
    pub proof fn lemma_run_writing(
        self,
        rewrite: spec_fn(Seq<u8>) -> Option<Seq<u8>>,
        outcomes: Seq<Result<Seq<u8>, E>>,
    )
        requires
            self.half == Half::Writing,
        ensures
            self.run(rewrite, outcomes) == (Transcript {
                requests: self.transfer.run(outcomes).requests,
                result: written(self.transfer.run(outcomes).result),
            }),
        decreases outcomes.len(),
    {
        if outcomes.len() > 0 {
            match self.transfer.next(outcomes[0]) {
                StepView::Perform(then, _) => {
                    let after = ReadModifyWriteView { transfer: then, ..self };
                    after.lemma_run_writing(rewrite, outcomes.drop_first());
                },
                StepView::Finished(_) => {},
            }
        }
    }

    /// While it reads, a read-modify-write asks for what its transfer asks
    /// for, and goes on from the end of that transfer as [`sequel`] says.
    pub proof fn lemma_run_reading(
        self,
        rewrite: spec_fn(Seq<u8>) -> Option<Seq<u8>>,
        outcomes: Seq<Result<Seq<u8>, E>>,
    )
        requires
            self.half == Half::Reading,
        ensures
            self.run(rewrite, outcomes) == sequel(
                self.transfer.run(outcomes),
                self.write_command,
                rewrite,
                outcomes,
            ),
        decreases outcomes.len(),
    {
        let read = self.transfer.run(outcomes);
        if outcomes.len() > 0 {
            let rest = outcomes.drop_first();
            match self.transfer.next(outcomes[0]) {
                StepView::Perform(then, _) => {
                    let after = ReadModifyWriteView { transfer: then, ..self };
                    after.lemma_run_reading(rewrite, rest);
                    let inner = then.run(rest);
                    lemma_run_length(then, rest);
                    if let Some(Ok(image)) = inner.result {
                        if let Some(changed) = rewrite(image) {
                            assert(outcomes.skip(read.requests.len() as int) =~= rest.skip(
                                inner.requests.len() as int,
                            ));
                            let write = TransactionView::<E>::begin(
                                self.write_command,
                                changed,
                            ).run(rest.skip(inner.requests.len() as int));
                            assert(seq![self.request()] + (inner.requests + write.requests) =~= (
                            seq![self.request()] + inner.requests) + write.requests);
                        }
                    }
                },
                StepView::Finished(Ok(image)) => {
                    if let Some(changed) = rewrite(image) {
                        Self::write_back(self.write_command, changed).lemma_run_writing(
                            rewrite,
                            rest,
                        );
                        assert(outcomes.skip(1) =~= rest);
                    }
                },
                StepView::Finished(Err(_)) => {},
            }
        }
    }
}

/// A transfer that has ended has asked for no more operations than it was
/// given outcomes; one that has not ended has asked for one more.
pub proof fn lemma_run_length<E>(transfer: TransactionView<E>, outcomes: Seq<Result<Seq<u8>, E>>)
    ensures
        transfer.run(outcomes).result is Some ==> transfer.run(outcomes).requests.len()
            <= outcomes.len(),
        transfer.run(outcomes).result is None ==> transfer.run(outcomes).requests.len()
            == outcomes.len() + 1,
    decreases outcomes.len(),
{
    if outcomes.len() > 0 {
        match transfer.next(outcomes[0]) {
            StepView::Perform(then, _) => {
                lemma_run_length(then, outcomes.drop_first());
            },
            StepView::Finished(_) => {},
        }
    }
}

/// A read-modify-write is a read transfer of as many zero bytes as the
/// register is wide, followed, if the read succeeds and its image is
/// accepted, by a write transfer of the rewritten image to the same register.
pub proof fn lemma_modify_is_read_then_write<E>(
    read_command: u8,
    write_command: u8,
    width: nat,
    rewrite: spec_fn(Seq<u8>) -> Option<Seq<u8>>,
    outcomes: Seq<Result<Seq<u8>, E>>,
)
    ensures
        ReadModifyWriteView::<E>::begin(read_command, write_command, width).run(rewrite, outcomes)
            == sequel(
            TransactionView::<E>::begin(read_command, zeros(width)).run(outcomes),
            write_command,
            rewrite,
            outcomes,
        ),
{
    ReadModifyWriteView::<E>::begin(read_command, write_command, width).lemma_run_reading(
        rewrite,
        outcomes,
    );
}

/// When nothing fails and the image decodes, a read-modify-write puts two
/// frames on the bus and no more: the read of the register, then the write of
/// the changed image. Each is bracketed by one assertion and one release of
/// the chip select and holds two exchanges, the command and the payload.
pub proof fn lemma_modify_framing<E>(
    read_command: u8,
    write_command: u8,
    width: nat,
    rewrite: spec_fn(Seq<u8>) -> Option<Seq<u8>>,
    outcomes: Seq<Result<Seq<u8>, E>>,
)
    requires
        outcomes.len() >= 10,
        all_ok(outcomes, 10),
        rewrite(outcomes[2]->Ok_0) is Some,
    ensures
        ReadModifyWriteView::<E>::begin(read_command, write_command, width).run(rewrite, outcomes)
            == (Transcript {
            requests: frame(read_command, zeros(width)) + frame(
                write_command,
                rewrite(outcomes[2]->Ok_0)->Some_0,
            ),
            result: Some(Ok::<(), Error<E>>(())),
        }),
{
    lemma_modify_is_read_then_write(read_command, write_command, width, rewrite, outcomes);
    lemma_transfer_framing(read_command, zeros(width), outcomes);
    let later = outcomes.skip(5);
    assert(all_ok(later, 5)) by {
        assert forall|i: int| 0 <= i < 5 && i < later.len() implies (#[trigger] later[i]) is Ok by {
            assert(later[i] == outcomes[i + 5]);
        }
    }
    lemma_transfer_framing(write_command, rewrite(outcomes[2]->Ok_0)->Some_0, later);
}

/// When operation `failed` of the read is the first to fail, nothing is
/// written: the bus sees the read up to the failure and the release of the
/// chip select, and the read-modify-write ends with the error of that
/// operation.
pub proof fn lemma_modify_read_failure<E>(
    read_command: u8,
    write_command: u8,
    width: nat,
    rewrite: spec_fn(Seq<u8>) -> Option<Seq<u8>>,
    outcomes: Seq<Result<Seq<u8>, E>>,
    failed: int,
)
    requires
        0 <= failed < 5,
        outcomes.len() >= (if failed < 3 {
            failed + 3
        } else {
            5
        }),
        all_ok(outcomes, failed),
        outcomes[failed] is Err,
    ensures
        ReadModifyWriteView::<E>::begin(read_command, write_command, width).run(rewrite, outcomes)
            == (Transcript {
            requests: if failed < 3 {
                frame(read_command, zeros(width)).take(failed + 1) + release()
            } else {
                frame(read_command, zeros(width))
            },
            result: Some(Err::<(), Error<E>>(Error::Transport(outcomes[failed]->Err_0))),
        }),
{
    lemma_modify_is_read_then_write(read_command, write_command, width, rewrite, outcomes);
    lemma_transfer_failure(read_command, zeros(width), outcomes, failed);
}

/// When the read succeeds but its image is refused, nothing is written: the
/// bus sees the read alone, and the read-modify-write ends as malformed.
pub proof fn lemma_modify_malformed<E>(
    read_command: u8,
    write_command: u8,
    width: nat,
    rewrite: spec_fn(Seq<u8>) -> Option<Seq<u8>>,
    outcomes: Seq<Result<Seq<u8>, E>>,
)
    requires
        outcomes.len() >= 5,
        all_ok(outcomes, 5),
        rewrite(outcomes[2]->Ok_0) is None,
    ensures
        ReadModifyWriteView::<E>::begin(read_command, write_command, width).run(rewrite, outcomes)
            == (Transcript {
            requests: frame(read_command, zeros(width)),
            result: Some(Err::<(), Error<E>>(Error::MalformedRegisterImage)),
        }),
{
    lemma_modify_is_read_then_write(read_command, write_command, width, rewrite, outcomes);
    lemma_transfer_framing(read_command, zeros(width), outcomes);
}

/// When the read succeeds, the image decodes and operation `failed` of the
/// write is the first to fail, the bus sees the whole read, then the write up
/// to the failure and the release of the chip select, and the
/// read-modify-write ends with the error of that operation.
pub proof fn lemma_modify_write_failure<E>(
    read_command: u8,
    write_command: u8,
    width: nat,
    rewrite: spec_fn(Seq<u8>) -> Option<Seq<u8>>,
    outcomes: Seq<Result<Seq<u8>, E>>,
    failed: int,
)
    requires
        0 <= failed < 5,
        outcomes.len() >= 5 + (if failed < 3 {
            failed + 3
        } else {
            5
        }),
        all_ok(outcomes, 5 + failed),
        outcomes[5 + failed] is Err,
        rewrite(outcomes[2]->Ok_0) is Some,
    ensures
        ReadModifyWriteView::<E>::begin(read_command, write_command, width).run(rewrite, outcomes)
            == (Transcript {
            requests: frame(read_command, zeros(width)) + (if failed < 3 {
                frame(write_command, rewrite(outcomes[2]->Ok_0)->Some_0).take(failed + 1)
                    + release()
            } else {
                frame(write_command, rewrite(outcomes[2]->Ok_0)->Some_0)
            }),
            result: Some(Err::<(), Error<E>>(Error::Transport(outcomes[5 + failed]->Err_0))),
        }),
{
    lemma_modify_is_read_then_write(read_command, write_command, width, rewrite, outcomes);
    assert(all_ok(outcomes, 5));
    lemma_transfer_framing(read_command, zeros(width), outcomes);
    let later = outcomes.skip(5);
    assert(all_ok(later, failed)) by {
        assert forall|i: int| 0 <= i < failed && i < later.len() implies (#[trigger] later[i])
            is Ok by {
            assert(later[i] == outcomes[i + 5]);
        }
    }
    assert(later[failed] == outcomes[5 + failed]);
    lemma_transfer_failure(write_command, rewrite(outcomes[2]->Ok_0)->Some_0, later, failed);
}

/// The change to an image that goes with a change to the value it stands
/// for: decode, change, encode. An image that does not decode is refused.
pub open spec fn rewrite_with<R: PackedRegister>(change: spec_fn(R) -> R) -> spec_fn(
    Seq<u8>,
) -> Option<Seq<u8>> {
    |image: Seq<u8>|
        match R::decoding(image) {
            Ok(value) => Some(change(value).encoding()),
            Err(_) => None,
        }
}

/// When nothing fails and the image that is read decodes, a read-modify-write
/// of a register reads at its read address, writes the encoding of the
/// changed value at its write address, and ends well. A change that leaves
/// the value as it is writes back exactly the bytes that were read.
pub proof fn lemma_modify_register<R: PackedRegister + RegisterAddress<A>, A: AsAddressByte, E>(
    change: spec_fn(R) -> R,
    outcomes: Seq<Result<Seq<u8>, E>>,
)
    requires
        outcomes.len() >= 10,
        all_ok(outcomes, 10),
        R::decoding(outcomes[2]->Ok_0) is Ok,
    ensures
        ReadModifyWriteView::<E>::begin(
            R::location().wire_address(ReadWrite::Read),
            R::location().wire_address(ReadWrite::Write),
            R::width(),
        ).run(rewrite_with::<R>(change), outcomes) == (Transcript {
            requests: frame(R::location().wire_address(ReadWrite::Read), zeros(R::width())) + frame(
                R::location().wire_address(ReadWrite::Write),
                change(R::decoding(outcomes[2]->Ok_0)->Ok_0).encoding(),
            ),
            result: Some(Ok::<(), Error<E>>(())),
        }),
        change(R::decoding(outcomes[2]->Ok_0)->Ok_0) == R::decoding(outcomes[2]->Ok_0)->Ok_0
            ==> change(R::decoding(outcomes[2]->Ok_0)->Ok_0).encoding() == outcomes[2]->Ok_0,
{
    lemma_modify_framing(
        R::location().wire_address(ReadWrite::Read),
        R::location().wire_address(ReadWrite::Write),
        R::width(),
        rewrite_with::<R>(change),
        outcomes,
    );
    R::lemma_encode_decoded(outcomes[2]->Ok_0);
}

/// When the image that is read does not decode, a read-modify-write of a
/// register writes nothing and ends as malformed.
pub proof fn lemma_modify_register_malformed<
    R: PackedRegister + RegisterAddress<A>,
    A: AsAddressByte,
    E,
>(change: spec_fn(R) -> R, outcomes: Seq<Result<Seq<u8>, E>>)
    requires
        outcomes.len() >= 5,
        all_ok(outcomes, 5),
        R::decoding(outcomes[2]->Ok_0) is Err,
    ensures
        ReadModifyWriteView::<E>::begin(
            R::location().wire_address(ReadWrite::Read),
            R::location().wire_address(ReadWrite::Write),
            R::width(),
        ).run(rewrite_with::<R>(change), outcomes) == (Transcript {
            requests: frame(R::location().wire_address(ReadWrite::Read), zeros(R::width())),
            result: Some(Err::<(), Error<E>>(Error::MalformedRegisterImage)),
        }),
{
    lemma_modify_malformed(
        R::location().wire_address(ReadWrite::Read),
        R::location().wire_address(ReadWrite::Write),
        R::width(),
        rewrite_with::<R>(change),
        outcomes,
    );
}

/// A read-modify-write that has ended has asked for no more operations than
/// it was given outcomes.
pub proof fn lemma_modify_run_length<E>(
    machine: ReadModifyWriteView<E>,
    rewrite: spec_fn(Seq<u8>) -> Option<Seq<u8>>,
    outcomes: Seq<Result<Seq<u8>, E>>,
)
    ensures
        machine.run(rewrite, outcomes).result is Some ==> machine.run(
            rewrite,
            outcomes,
        ).requests.len() <= outcomes.len(),
    decreases outcomes.len(),
{
    if outcomes.len() > 0 {
        match machine.next(outcomes[0]) {
            RewriteStepView::Perform(after, _) => {
                lemma_modify_run_length(after, rewrite, outcomes.drop_first());
            },
            RewriteStepView::Rewrite(write_command, image) => {
                if let Some(changed) = rewrite(image) {
                    lemma_modify_run_length(
                        ReadModifyWriteView::<E>::write_back(write_command, changed),
                        rewrite,
                        outcomes.drop_first(),
                    );
                }
            },
            RewriteStepView::Finished(_) => {},
        }
    }
}

} // verus!
