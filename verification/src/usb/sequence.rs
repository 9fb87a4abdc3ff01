//! Control requests sent one after the other, each once the one before was
//! accepted.

use crate::errors::{Error, Result, StatusCode};
use crate::usb::control::{RequestView, VendorControlRequest};
use vstd::prelude::*;

verus! {

/// What the reply to a control request has to hold.
#[derive(Clone, Copy, Debug, Eq, PartialEq)]
pub enum Expect {
    /// An OUT request: nothing comes back.
    Nothing,
    /// An IN request: at least this many bytes.
    AtLeast(usize),
    /// An IN request whose first byte has to be 1.
    Accepted {
        /// Operation named in the error.
        operation: &'static str,
        /// What the error says of a refusal.
        reason: &'static str,
    },
}

/// Error of a reply that is too short.
pub open spec fn short_reply() -> Error {
    Error::Protocol {
        operation: "control transfer",
        reason: "response is shorter than requested",
        status: StatusCode::LibUsb,
    }
}

/// Outcome of a reply `data` that the device sent.
pub open spec fn checked_reply(expect: Expect, data: Seq<u8>) -> Result<()> {
    match expect {
        Expect::Nothing => Ok(()),
        Expect::AtLeast(length) => if data.len() < length {
            Err(short_reply())
        } else {
            Ok(())
        },
        Expect::Accepted { operation, reason } => if data.len() == 0 {
            Err(short_reply())
        } else if data[0] != 1 {
            Err(Error::Protocol { operation, reason, status: StatusCode::InvalidParam })
        } else {
            Ok(())
        },
    }
}

/// Hold a reply to what its request expects.
pub fn check_reply(expect: Expect, data: &[u8]) -> (result: Result<()>)
    ensures
        result == checked_reply(expect, data@),
{
    let short: bool = match expect {
        Expect::Nothing => false,
        Expect::AtLeast(length) => data.len() < length,
        Expect::Accepted { .. } => data.len() == 0,
    };
    if short {
        return Err(
            Error::Protocol {
                operation: "control transfer",
                reason: "response is shorter than requested",
                status: StatusCode::LibUsb,
            },
        );
    }
    match expect {
        Expect::Accepted { operation, reason } => {
            if data[0] != 1 {
                return Err(Error::Protocol { operation, reason, status: StatusCode::InvalidParam });
            }
        },
        _ => {},
    }
    Ok(())
}

/// One control request and what its reply has to hold.
#[derive(Debug, Eq, PartialEq)]
pub struct ControlStep {
    /// Request to send.
    pub request: VendorControlRequest,
    /// What the reply has to hold.
    pub expect: Expect,
}

/// Contents of a [`ControlStep`].
pub struct StepView {
    /// Request to send.
    pub request: RequestView,
    /// What the reply has to hold.
    pub expect: Expect,
}

impl View for ControlStep {
    type V = StepView;

    open spec fn view(&self) -> StepView {
        StepView { request: self.request@, expect: self.expect }
    }
}

/// Contents of a list of steps.
pub open spec fn step_views(steps: Seq<ControlStep>) -> Seq<StepView> {
    steps.map_values(|step: ControlStep| step@)
}

/// Requests of a list of steps.
pub open spec fn requests(steps: Seq<StepView>) -> Seq<RequestView> {
    steps.map_values(|step: StepView| step.request)
}

/// Outcome of the transfer of one request: its failure, or what its reply says.
pub open spec fn checked_transfer(expect: Expect, reply: Result<Seq<u8>>) -> Result<()> {
    match reply {
        Err(error) => Err(error),
        Ok(data) => checked_reply(expect, data),
    }
}

/// Contents of a reply.
pub open spec fn reply_view(reply: Result<Vec<u8>>) -> Result<Seq<u8>> {
    match reply {
        Err(error) => Err(error),
        Ok(data) => Ok(data@),
    }
}

/// What is left of a sequence of control requests.
pub struct SequenceView {
    /// Steps not taken yet.
    pub remaining: Seq<StepView>,
    /// Error that ends the sequence once every step was taken.
    pub failure: Option<Error>,
}

/// Result of a sequence whose steps were all taken.
pub open spec fn ending(failure: Option<Error>) -> Result<()> {
    match failure {
        None => Ok(()),
        Some(error) => Err(error),
    }
}

/// Course of a sequence: what was sent, and the result if it has ended.
pub struct Course {
    /// Requests sent, in order.
    pub sent: Seq<RequestView>,
    /// Result, unless a reply is still awaited.
    pub result: Option<Result<()>>,
}

/// Course of `sequence` where the transfers come out as `replies`.
pub open spec fn course(sequence: SequenceView, replies: Seq<Result<Seq<u8>>>) -> Course
    decreases sequence.remaining.len(),
{
    let remaining = sequence.remaining;
    if remaining.len() == 0 {
        Course { sent: Seq::empty(), result: Some(ending(sequence.failure)) }
    } else if replies.len() == 0 {
        Course { sent: seq![remaining[0].request], result: None }
    } else {
        match checked_transfer(remaining[0].expect, replies[0]) {
            Err(error) => Course { sent: seq![remaining[0].request], result: Some(Err(error)) },
            Ok(()) => {
                let rest = course(
                    SequenceView { remaining: remaining.drop_first(), ..sequence },
                    replies.drop_first(),
                );
                Course { sent: seq![remaining[0].request] + rest.sent, result: rest.result }
            },
        }
    }
}

/// Control requests to send in order, stopping at the first failure.
#[derive(Debug)]
pub struct ControlSequence {
    steps: Vec<ControlStep>,
    taken: usize,
    failure: Option<Error>,
}

impl View for ControlSequence {
    type V = SequenceView;

    closed spec fn view(&self) -> SequenceView {
        SequenceView {
            remaining: step_views(self.steps@).skip(self.taken as int),
            failure: self.failure,
        }
    }
}

impl ControlSequence {
    #[verifier::type_invariant]
    spec fn well_formed(self) -> bool {
        self.taken <= self.steps@.len()
    }

    /// Sequence that sends `steps` and then ends in `failure`, if there is one.
    pub fn new(steps: Vec<ControlStep>, failure: Option<Error>) -> (sequence: Self)
        ensures
            sequence@ == (SequenceView { remaining: step_views(steps@), failure }),
    {
        assert(step_views(steps@).skip(0) =~= step_views(steps@));
        ControlSequence { steps, taken: 0, failure }
    }

    /// Request to send next, or nothing once every step was taken.
    pub fn next_request(&self) -> (request: Option<&VendorControlRequest>)
        ensures
            request is None <==> self@.remaining.len() == 0,
            request matches Some(request) ==> request@ == self@.remaining[0].request,
    {
        proof {
            use_type_invariant(self);
        }
        if self.taken < self.steps.len() {
            Some(&self.steps[self.taken].request)
        } else {
            None
        }
    }

    /// Take the outcome of the request sent last.
    ///
    /// An OUT request that went through is handed over as an empty reply. After
    /// an error nothing more is to be sent.
    pub fn accept(&mut self, reply: Result<Vec<u8>>) -> (result: Result<()>)
        requires
            old(self)@.remaining.len() > 0,
        ensures
            result == checked_transfer(old(self)@.remaining[0].expect, reply_view(reply)),
            final(self)@ == (SequenceView {
                remaining: old(self)@.remaining.drop_first(),
                ..old(self)@
            }),
    {
        proof {
            use_type_invariant(&*self);
            assert(self@.remaining.drop_first() =~= step_views(self.steps@).skip(
                self.taken + 1,
            ));
        }
        let count: usize = self.steps.len();
        assert(self.taken < count);
        let expect: Expect = self.steps[self.taken].expect;
        let next: usize = self.taken + 1;
        self.taken = next;
        match reply {
            Err(error) => Err(error),
            Ok(data) => check_reply(expect, data.as_slice()),
        }
    }

    /// Result of the sequence once every step was taken.
    pub fn finish(self) -> (result: Result<()>)
        ensures
            result == ending(self@.failure),
    {
        match self.failure {
            None => Ok(()),
            Some(error) => Err(error),
        }
    }
}

/// Law: what a sequence sends is the start of its steps, in order.
pub proof fn law_requests_sent_are_a_prefix(
    sequence: SequenceView,
    replies: Seq<Result<Seq<u8>>>,
)
    ensures
        ({
            let sent = course(sequence, replies).sent;
            sent.len() <= sequence.remaining.len() && sent == requests(
                sequence.remaining,
            ).take(sent.len() as int)
        }),
    decreases sequence.remaining.len(),
{
    let remaining = sequence.remaining;
    let sent = course(sequence, replies).sent;
    if remaining.len() > 0 {
        assert(requests(remaining).take(1) =~= seq![remaining[0].request]);
        if replies.len() > 0 && checked_transfer(remaining[0].expect, replies[0]) is Ok {
            let rest = SequenceView { remaining: remaining.drop_first(), ..sequence };
            law_requests_sent_are_a_prefix(rest, replies.drop_first());
            let rest_sent = course(rest, replies.drop_first()).sent;
            assert forall|i: int| 0 <= i < sent.len() implies sent[i] == requests(remaining)[i] by {
                if i > 0 {
                    assert(rest_sent[i - 1] == requests(rest.remaining)[i - 1]);
                }
            }
            assert(sent =~= requests(remaining).take(sent.len() as int));
        }
    } else {
        assert(sent =~= requests(remaining).take(0));
    }
}

/// Law: once a request fails or is refused, nothing that stands after it is
/// sent, and the sequence ends in an error. Where it is the first to fail, all
/// up to it is sent, and its error is the result.
pub proof fn law_nothing_is_sent_after_a_failure(
    sequence: SequenceView,
    replies: Seq<Result<Seq<u8>>>,
    failed: int,
)
    requires
        0 <= failed < sequence.remaining.len(),
        failed < replies.len(),
        checked_transfer(sequence.remaining[failed].expect, replies[failed]) is Err,
    ensures
        course(sequence, replies).sent.len() <= failed + 1,
        course(sequence, replies).result matches Some(Err(_)),
        (forall|i: int|
            #![trigger sequence.remaining[i]]
            0 <= i < failed ==> checked_transfer(sequence.remaining[i].expect, replies[i]) is Ok) ==> {
            &&& course(sequence, replies).sent == requests(sequence.remaining).take(failed + 1)
            &&& course(sequence, replies).result == Some(
                checked_transfer(sequence.remaining[failed].expect, replies[failed]),
            )
        },
    decreases sequence.remaining.len(),
{
    let remaining = sequence.remaining;
    if failed > 0 && checked_transfer(remaining[0].expect, replies[0]) is Ok {
        let rest = SequenceView { remaining: remaining.drop_first(), ..sequence };
        let later = replies.drop_first();
        law_nothing_is_sent_after_a_failure(rest, later, failed - 1);
        if (forall|i: int|
            #![trigger remaining[i]]
            0 <= i < failed ==> checked_transfer(remaining[i].expect, replies[i]) is Ok) {
            assert forall|i: int| #![trigger rest.remaining[i]] 0 <= i < failed - 1 implies checked_transfer(
                rest.remaining[i].expect,
                later[i],
            ) is Ok by {
                assert(checked_transfer(remaining[i + 1].expect, replies[i + 1]) is Ok);
            }
            assert(seq![remaining[0].request] + requests(rest.remaining).take(failed) =~= requests(
                remaining,
            ).take(failed + 1));
        }
    } else if failed > 0 {
        assert(sequence.remaining[0] == remaining[0]);
    } else {
        assert(requests(remaining).take(1) =~= seq![remaining[0].request]);
    }
}

/// Law: a sequence succeeds exactly when it has no failure of its own and every
/// one of its requests is sent and accepted.
pub proof fn law_success_means_every_step_was_accepted(
    sequence: SequenceView,
    replies: Seq<Result<Seq<u8>>>,
)
    requires
        replies.len() >= sequence.remaining.len(),
    ensures
        course(sequence, replies).result == Some(Ok::<(), Error>(())) <==> {
            &&& sequence.failure is None
            &&& forall|i: int|
                #![trigger sequence.remaining[i]]
                0 <= i < sequence.remaining.len() ==> checked_transfer(
                    sequence.remaining[i].expect,
                    replies[i],
                ) is Ok
        },
        course(sequence, replies).result == Some(Ok::<(), Error>(())) ==> course(
            sequence,
            replies,
        ).sent == requests(sequence.remaining),
    decreases sequence.remaining.len(),
{
    let remaining = sequence.remaining;
    if remaining.len() == 0 {
        assert(course(sequence, replies).sent =~= requests(remaining));
    } else {
        let rest = SequenceView { remaining: remaining.drop_first(), ..sequence };
        let later = replies.drop_first();
        law_success_means_every_step_was_accepted(rest, later);
        assert(seq![remaining[0].request] + requests(rest.remaining) =~= requests(remaining));
        assert forall|i: int| 0 <= i < rest.remaining.len() implies rest.remaining[i]
            == remaining[i + 1] && later[i] == replies[i + 1] by {}
        if course(sequence, replies).result == Some(Ok::<(), Error>(())) {
            assert forall|i: int| #![trigger remaining[i]] 0 <= i < remaining.len() implies checked_transfer(
                remaining[i].expect,
                replies[i],
            ) is Ok by {
                if i > 0 {
                    assert(checked_transfer(rest.remaining[i - 1].expect, later[i - 1]) is Ok);
                }
            }
        }
        if (forall|i: int|
            #![trigger remaining[i]]
            0 <= i < remaining.len() ==> checked_transfer(remaining[i].expect, replies[i]) is Ok) {
            assert(checked_transfer(remaining[0].expect, replies[0]) is Ok);
            assert forall|i: int| #![trigger rest.remaining[i]] 0 <= i < rest.remaining.len() implies checked_transfer(
                rest.remaining[i].expect,
                later[i],
            ) is Ok by {
                assert(checked_transfer(remaining[i + 1].expect, replies[i + 1]) is Ok);
            }
        }
    }
}

/// Law: a reply is accepted exactly where it holds what its request expects: as
/// many bytes as are due, or one as its first byte. A reply that is too short is a
/// USB failure, and a refusal an invalid parameter under its own operation.
pub proof fn law_which_replies_are_accepted(
    data: Seq<u8>,
    length: usize,
    operation: &'static str,
    reason: &'static str,
    error: Error,
)
    ensures
        checked_reply(Expect::Nothing, data) is Ok,
        checked_reply(Expect::AtLeast(length), data) is Ok <==> data.len() >= length,
        checked_reply(Expect::Accepted { operation, reason }, data) is Ok <==> data.len() > 0
            && data[0] == 1,
        data.len() < length ==> checked_reply(Expect::AtLeast(length), data) == Err::<(), Error>(
            short_reply(),
        ),
        data.len() == 0 ==> checked_reply(Expect::Accepted { operation, reason }, data) == Err::<
            (),
            Error,
        >(short_reply()),
        data.len() > 0 && data[0] != 1 ==> checked_reply(
            Expect::Accepted { operation, reason },
            data,
        ) == Err::<(), Error>(
            Error::Protocol { operation, reason, status: StatusCode::InvalidParam },
        ),
        short_reply() == (Error::Protocol {
            operation: "control transfer",
            reason: "response is shorter than requested",
            status: StatusCode::LibUsb,
        }),
        checked_transfer(Expect::AtLeast(length), Err(error)) == Err::<(), Error>(error),
        checked_transfer(Expect::Nothing, Err(error)) == Err::<(), Error>(error),
        checked_transfer(Expect::Accepted { operation, reason }, Err(error)) == Err::<(), Error>(
            error,
        ),
        checked_transfer(Expect::AtLeast(length), Ok(data)) == checked_reply(
            Expect::AtLeast(length),
            data,
        ),
        checked_transfer(Expect::Accepted { operation, reason }, Ok(data)) == checked_reply(
            Expect::Accepted { operation, reason },
            data,
        ),
        ending(None) == Ok::<(), Error>(()),
        ending(Some(error)) == Err::<(), Error>(error),
{
}

/// Law: a sequence whose requests are all accepted sends them all and ends in its
/// own failure, where it has one.
pub proof fn law_an_accepted_sequence_ends_in_its_own_failure(
    sequence: SequenceView,
    replies: Seq<Result<Seq<u8>>>,
)
    requires
        replies.len() >= sequence.remaining.len(),
        forall|i: int|
            #![trigger sequence.remaining[i]]
            0 <= i < sequence.remaining.len() ==> checked_transfer(
                sequence.remaining[i].expect,
                replies[i],
            ) is Ok,
    ensures
        course(sequence, replies).sent == requests(sequence.remaining),
        course(sequence, replies).result == Some(ending(sequence.failure)),
        requests(sequence.remaining).len() == sequence.remaining.len(),
    decreases sequence.remaining.len(),
{
    let remaining = sequence.remaining;
    if remaining.len() == 0 {
        assert(course(sequence, replies).sent =~= requests(remaining));
    } else {
        let rest = SequenceView { remaining: remaining.drop_first(), ..sequence };
        let later = replies.drop_first();
        assert(checked_transfer(remaining[0].expect, replies[0]) is Ok);
        assert forall|i: int| #![trigger rest.remaining[i]] 0 <= i < rest.remaining.len() implies checked_transfer(
            rest.remaining[i].expect,
            later[i],
        ) is Ok by {
            assert(checked_transfer(remaining[i + 1].expect, replies[i + 1]) is Ok);
        }
        law_an_accepted_sequence_ends_in_its_own_failure(rest, later);
        assert(seq![remaining[0].request] + requests(rest.remaining) =~= requests(remaining));
    }
}

} // verus!
