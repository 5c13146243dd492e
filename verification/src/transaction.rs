//! One chip-select-framed transfer, as a machine that asks for bus operations
//! one at a time and is told how each went.
//!
//! The machine never touches the bus. Whoever owns the bus performs each
//! [`Action`] and hands its outcome to [`Transaction::advance`]: the bytes
//! that came back from an exchange (nothing for the other operations), or the
//! transport's error.
use crate::registers::{AsAddressByte, ReadWrite};
use vstd::prelude::*;

verus! {

/// The second byte of the command frame. The chip ignores it.
pub const PAD_BYTE: u8 = 0x00;

/// How long the chip select stays inactive after a transfer, in milliseconds.
pub const RECOVERY_MS: u8 = 1;

/// A bus operation that the driver asks for.
#[derive(Debug, PartialEq, Eq)]
pub enum Action {
    /// Drive the chip select to its active level.
    AssertChipSelect,
    /// Send these bytes and receive as many in the same clock cycles.
    Exchange(Vec<u8>),
    /// Drive the chip select to its inactive level.
    DeassertChipSelect,
    /// Wait this many milliseconds.
    Delay(u8),
}

/// What an [`Action`] asks for, with the bytes as a sequence.
pub enum Request {
    AssertChipSelect,
    Exchange(Seq<u8>),
    DeassertChipSelect,
    Delay(u8),
}

impl View for Action {
    type V = Request;

    open spec fn view(&self) -> Request {
        match self {
            Action::AssertChipSelect => Request::AssertChipSelect,
            Action::Exchange(bytes) => Request::Exchange(bytes@),
            Action::DeassertChipSelect => Request::DeassertChipSelect,
            Action::Delay(ms) => Request::Delay(*ms),
        }
    }
}

/// How a bus operation went, with the bytes that came back as a sequence.
pub open spec fn outcome_view<E>(outcome: Result<Vec<u8>, E>) -> Result<Seq<u8>, E> {
    match outcome {
        Ok(bytes) => Ok(bytes@),
        Err(error) => Err(error),
    }
}

/// The operation that a transfer is waiting on.
#[derive(Debug, Clone, Copy, PartialEq, Eq, Structural)]
pub enum Phase {
    /// The chip select is being asserted.
    Select,
    /// The command frame is being exchanged.
    Command,
    /// The payload is being exchanged.
    Data,
    /// The chip select is being deasserted.
    Release,
    /// The chip select is held inactive.
    Recover,
}

/// A transfer in progress.
pub struct Transaction<E> {
    phase: Phase,
    command: u8,
    payload: Vec<u8>,
    failure: Option<E>,
    reply: Vec<u8>,
}

/// The state of a transfer: what it is waiting on, the address byte and the
/// payload it was started with, the first failure if there was one, and the
/// bytes that the payload exchange brought back.
pub struct TransactionView<E> {
    pub phase: Phase,
    pub command: u8,
    pub payload: Seq<u8>,
    pub failure: Option<E>,
    pub reply: Seq<u8>,
}

/// What a transfer does when told how its operation went.
pub enum StepView<E> {
    Perform(TransactionView<E>, Request),
    Finished(Result<Seq<u8>, E>),
}

/// What [`Transaction::advance`] hands back: the transfer and the operation
/// it asks for next, or what came of the transfer.
pub enum Step<E> {
    Perform(Transaction<E>, Action),
    Finished(Result<Vec<u8>, E>),
}

impl<E> View for Transaction<E> {
    type V = TransactionView<E>;

    closed spec fn view(&self) -> TransactionView<E> {
        TransactionView {
            phase: self.phase,
            command: self.command,
            payload: self.payload@,
            failure: self.failure,
            reply: self.reply@,
        }
    }
}

impl<E> View for Step<E> {
    type V = StepView<E>;

    open spec fn view(&self) -> StepView<E> {
        match self {
            Step::Perform(transaction, action) => StepView::Perform(transaction@, action@),
            Step::Finished(result) => StepView::Finished(outcome_view(*result)),
        }
    }
}

impl<E> TransactionView<E> {
    /// A transfer that has asked for nothing but the chip select yet.
    pub open spec fn begin(command: u8, payload: Seq<u8>) -> TransactionView<E> {
        TransactionView {
            phase: Phase::Select,
            command,
            payload,
            failure: None,
            reply: Seq::empty(),
        }
    }

    /// The operation that the transfer is waiting on.
    pub open spec fn request(self) -> Request {
        match self.phase {
            Phase::Select => Request::AssertChipSelect,
            Phase::Command => Request::Exchange(seq![self.command, PAD_BYTE]),
            Phase::Data => Request::Exchange(self.payload),
            Phase::Release => Request::DeassertChipSelect,
            Phase::Recover => Request::Delay(RECOVERY_MS),
        }
    }

    /// The transfer with the outcome of its operation taken in: the first
    /// failure is kept, and so are the bytes that the payload exchange brought.
    pub open spec fn record(self, outcome: Result<Seq<u8>, E>) -> TransactionView<E> {
        match outcome {
            Ok(bytes) => TransactionView {
                reply: if self.phase == Phase::Data {
                    bytes
                } else {
                    self.reply
                },
                ..self
            },
            Err(error) => TransactionView {
                failure: if self.failure is None {
                    Some(error)
                } else {
                    self.failure
                },
                ..self
            },
        }
    }

    /// The operation after the one waited on, if any: the next of the frame
    /// while all is well, the release of the chip select as soon as anything
    /// has failed.
    pub open spec fn successor(self) -> Option<Phase> {
        match self.phase {
            Phase::Select => Some(
                if self.failure is Some {
                    Phase::Release
                } else {
                    Phase::Command
                },
            ),
            Phase::Command => Some(
                if self.failure is Some {
                    Phase::Release
                } else {
                    Phase::Data
                },
            ),
            Phase::Data => Some(Phase::Release),
            Phase::Release => Some(Phase::Recover),
            Phase::Recover => None,
        }
    }

    /// What comes of the transfer: its first failure, or the bytes received.
    pub open spec fn result(self) -> Result<Seq<u8>, E> {
        match self.failure {
            Some(error) => Err(error),
            None => Ok(self.reply),
        }
    }

    /// The transfer's move when its operation went as `outcome` says.
    pub open spec fn next(self, outcome: Result<Seq<u8>, E>) -> StepView<E> {
        let recorded = self.record(outcome);
        match recorded.successor() {
            Some(phase) => {
                let then = TransactionView { phase, ..recorded };
                StepView::Perform(then, then.request())
            },
            None => StepView::Finished(recorded.result()),
        }
    }
}

impl<E> Transaction<E> {
    /// Starts a transfer of `buffer` to or from `register`, and asks for the
    /// chip select.
    ///
    /// For a read the content of `buffer` does not matter, only its length.
    pub fn start<A: AsAddressByte>(register: &A, direction: ReadWrite, buffer: Vec<u8>) -> (started:
        (Transaction<E>, Action))
        ensures
            started.0@ == TransactionView::<E>::begin(register.wire_address(direction), buffer@),
            started.1@ == Request::AssertChipSelect,
    {
        let command = register.as_address_byte(direction);
        Self::begin(command, buffer)
    }

    /// Starts a transfer that opens with the address byte `command`.
    pub fn begin(command: u8, buffer: Vec<u8>) -> (started: (Transaction<E>, Action))
        ensures
            started.0@ == TransactionView::<E>::begin(command, buffer@),
            started.1@ == Request::AssertChipSelect,
    {
        let transaction = Transaction {
            phase: Phase::Select,
            command,
            payload: buffer,
            failure: None,
            reply: Vec::new(),
        };
        (transaction, Action::AssertChipSelect)
    }

    /// Takes in the outcome of the operation asked for last and asks for the
    /// next one, or ends the transfer.
    ///
    /// After any failure the chip select is still released and held inactive
    /// before the transfer ends with the first error that occurred.
    pub fn advance(self, outcome: Result<Vec<u8>, E>) -> (step: Step<E>)
        ensures
            step@ == self@.next(outcome_view(outcome)),
    {
        let Transaction { phase, command, payload, failure, reply } = self;
        let failed_before = failure.is_some();
        let (failure, reply) = match outcome {
            Ok(bytes) => (
                failure,
                match phase {
                    Phase::Data => bytes,
                    _ => reply,
                },
            ),
            Err(error) => (
                if failed_before {
                    failure
                } else {
                    Some(error)
                },
                reply,
            ),
        };
        let failed = failure.is_some();
        match phase {
            Phase::Select | Phase::Command => {
                if failed {
                    Step::Perform(
                        Transaction { phase: Phase::Release, command, payload, failure, reply },
                        Action::DeassertChipSelect,
                    )
                } else if matches!(phase, Phase::Select) {
                    let frame = vec![command, PAD_BYTE];
                    assert(frame@ =~= seq![command, PAD_BYTE]);
                    Step::Perform(
                        Transaction { phase: Phase::Command, command, payload, failure, reply },
                        Action::Exchange(frame),
                    )
                } else {
                    let bytes = payload.clone();
                    assert(bytes@ =~= payload@);
                    Step::Perform(
                        Transaction { phase: Phase::Data, command, payload, failure, reply },
                        Action::Exchange(bytes),
                    )
                }
            },
            Phase::Data => Step::Perform(
                Transaction { phase: Phase::Release, command, payload, failure, reply },
                Action::DeassertChipSelect,
            ),
            Phase::Release => Step::Perform(
                Transaction { phase: Phase::Recover, command, payload, failure, reply },
                Action::Delay(RECOVERY_MS),
            ),
            Phase::Recover => match failure {
                Some(error) => Step::Finished(Err(error)),
                None => Step::Finished(Ok(reply)),
            },
        }
    }
}

/// The operations of a transfer on which nothing fails, in order.
pub open spec fn frame(command: u8, payload: Seq<u8>) -> Seq<Request> {
    seq![
        Request::AssertChipSelect,
        Request::Exchange(seq![command, PAD_BYTE]),
        Request::Exchange(payload),
        Request::DeassertChipSelect,
        Request::Delay(RECOVERY_MS),
    ]
}

/// The two operations that end every transfer.
pub open spec fn release() -> Seq<Request> {
    seq![Request::DeassertChipSelect, Request::Delay(RECOVERY_MS)]
}

/// What a bus sees of a transfer, and what comes of the transfer.
pub struct Transcript<T> {
    /// The operations asked for, in order.
    pub requests: Seq<Request>,
    /// The result, once the transfer has ended.
    pub result: Option<T>,
}

impl<E> TransactionView<E> {
    /// The transcript of the transfer when the operations it asks for go as
    /// `outcomes` say, one outcome per operation, starting with the operation
    /// that the transfer is waiting on. Outcomes beyond the end of the
    /// transfer are not looked at.
    pub open spec fn run(self, outcomes: Seq<Result<Seq<u8>, E>>) -> Transcript<Result<Seq<u8>, E>>
        decreases outcomes.len(),
    {
        if outcomes.len() == 0 {
            Transcript { requests: seq![self.request()], result: None }
        } else {
            match self.next(outcomes[0]) {
                StepView::Perform(then, _) => {
                    let rest = then.run(outcomes.drop_first());
                    Transcript { requests: seq![self.request()] + rest.requests, result: rest.result }
                },
                StepView::Finished(result) => Transcript {
                    requests: seq![self.request()],
                    result: Some(result),
                },
            }
        }
    }
}

/// The first `count` outcomes are successes.
pub open spec fn all_ok<E>(outcomes: Seq<Result<Seq<u8>, E>>, count: int) -> bool {
    forall|i: int| 0 <= i < count && i < outcomes.len() ==> (#[trigger] outcomes[i]) is Ok
}

/// A transfer on which nothing fails asks for the chip select, exchanges the
/// command frame and then the payload, releases the chip select, waits, and
/// ends with the bytes that the payload exchange brought back.
pub proof fn lemma_transfer_framing<E>(
    command: u8,
    payload: Seq<u8>,
    outcomes: Seq<Result<Seq<u8>, E>>,
)
    requires
        outcomes.len() >= 5,
        all_ok(outcomes, 5),
    ensures
        TransactionView::<E>::begin(command, payload).run(outcomes) == (Transcript {
            requests: frame(command, payload),
            result: Some(Ok::<Seq<u8>, E>(outcomes[2]->Ok_0)),
        }),
{
    let start = TransactionView::<E>::begin(command, payload);
    let o1 = outcomes.drop_first();
    let o2 = o1.drop_first();
    let o3 = o2.drop_first();
    let o4 = o3.drop_first();
    assert(outcomes[0] is Ok && outcomes[1] is Ok && outcomes[2] is Ok && outcomes[3] is Ok
        && outcomes[4] is Ok);
    assert(o1[0] == outcomes[1] && o2[0] == outcomes[2] && o3[0] == outcomes[3] && o4[0]
        == outcomes[4]);
    reveal_with_fuel(TransactionView::run, 6);
    assert(start.run(outcomes).requests =~= frame(command, payload));
}

/// A transfer on which operation `failed` is the first to fail still releases
/// the chip select and waits, asks for no exchange after the failure, and ends
/// with the error of that operation, whatever the later operations do.
pub proof fn lemma_transfer_failure<E>(
    command: u8,
    payload: Seq<u8>,
    outcomes: Seq<Result<Seq<u8>, E>>,
    failed: int,
)
    requires
        0 <= failed < 5,
        outcomes.len() >= (if failed < 3 {
            failed + 3
        } else {
            5
        }),
        all_ok(outcomes, failed),
        outcomes[failed] is Err,
    ensures
        TransactionView::<E>::begin(command, payload).run(outcomes) == (Transcript {
            requests: if failed < 3 {
                frame(command, payload).take(failed + 1) + release()
            } else {
                frame(command, payload)
            },
            result: Some(Err::<Seq<u8>, E>(outcomes[failed]->Err_0)),
        }),
{
    let start = TransactionView::<E>::begin(command, payload);
    let o1 = outcomes.drop_first();
    let o2 = o1.drop_first();
    let o3 = o2.drop_first();
    let o4 = o3.drop_first();
    assert(o1[0] == outcomes[1] && o2[0] == outcomes[2]);
    assert(outcomes.len() > 3 ==> o3[0] == outcomes[3]);
    assert(outcomes.len() > 4 ==> o4[0] == outcomes[4]);
    assert(forall|i: int| 0 <= i < failed ==> (#[trigger] outcomes[i]) is Ok);
    reveal_with_fuel(TransactionView::run, 6);
    let expected = if failed < 3 {
        frame(command, payload).take(failed + 1) + release()
    } else {
        frame(command, payload)
    };
    assert(start.run(outcomes).requests =~= expected);
}

/// However its operations go, a transfer ends within five of them, and the
/// last two are the release of the chip select and the wait after it. Before
/// them the bus sees the chip select asserted once, and then at most the two
/// exchanges.
pub proof fn lemma_transfer_releases<E>(
    command: u8,
    payload: Seq<u8>,
    outcomes: Seq<Result<Seq<u8>, E>>,
)
    requires
        outcomes.len() >= 5,
    ensures
        TransactionView::<E>::begin(command, payload).run(outcomes).result is Some,
        exists|kept: int|
            1 <= kept <= 3 && TransactionView::<E>::begin(command, payload).run(outcomes).requests
                == #[trigger] frame(command, payload).take(kept) + release(),
{
    let whole = frame(command, payload);
    assert(whole.take(3) + release() =~= whole);
    if outcomes[0] is Err {
        lemma_transfer_failure(command, payload, outcomes, 0);
        assert(whole.take(1) + release() == whole.take(1) + release());
    } else if outcomes[1] is Err {
        lemma_transfer_failure(command, payload, outcomes, 1);
        assert(whole.take(2) + release() == whole.take(2) + release());
    } else if outcomes[2] is Err {
        lemma_transfer_failure(command, payload, outcomes, 2);
    } else if outcomes[3] is Err {
        lemma_transfer_failure(command, payload, outcomes, 3);
    } else if outcomes[4] is Err {
        lemma_transfer_failure(command, payload, outcomes, 4);
    } else {
        lemma_transfer_framing(command, payload, outcomes);
    }
}

} // verus!
