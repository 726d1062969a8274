//! Sending requests to the runtime and receiving its responses, one invocation
//! at a time.
//!
//! Encoding a request, writing the message and reading one are somebody else's
//! work. The channel is told what came of them, and says what is to be done next.

use vstd::prelude::*;

use crate::status::{Status, StatusCode};

verus! {

/// How far the current invocation has come.
#[derive(Debug, Clone, Copy, PartialEq, Eq, Structural)]
pub enum Phase {
    /// There is no current invocation.
    Idle,
    /// The request is being encoded.
    Encoding,
    /// The message is being written.
    Writing { invocation_id: u64 },
    /// The message was written, and the response is being read.
    Reading { invocation_id: u64 },
    /// A response to another invocation was read in the place of this one's.
    Aborted { invocation_id: u64 },
}

/// What happened on the way of an invocation, `Q` being the type of a request and
/// `M` that of an encoded message.
#[derive(Debug, PartialEq, Eq)]
pub enum ChannelEvent<Q, M> {
    /// A request was made.
    Requested { request: Q },
    /// The request was encoded, under this invocation id.
    RequestEncoded { invocation_id: u64, message: M },
    /// The message was written.
    RequestWritten,
    /// The message could not be written.
    WriteFailed,
    /// A response was read: the id that it carries, and what it answers.
    ResponseRead { invocation_id: u64, response: Result<Vec<u8>, Status> },
    /// No response could be read.
    ReadFailed,
}

/// What is to be done next.
#[derive(Debug, PartialEq, Eq)]
pub enum ChannelAction<Q, M> {
    /// Encode a request.
    EncodeRequest { request: Q },
    /// Write a message.
    WriteRequest { message: M },
    /// Read a response.
    ReadResponse,
    /// Hand the response to whoever made the request.
    Complete { response: Result<Vec<u8>, Status> },
    /// Panic: the ids of the request and of the response differ.
    Abort { expected: u64, received: u64 },
}

/// What a request is answered that could not be brought to the runtime and back.
pub open spec fn internal_error() -> Result<Vec<u8>, Status> {
    Err(Status { code: StatusCode::Internal, message: None })
}

impl Phase {
    /// Whether `event` can happen in this phase.
    pub open spec fn admits<Q, M>(self, event: ChannelEvent<Q, M>) -> bool {
        match self {
            Phase::Idle => event is Requested,
            Phase::Encoding => event is RequestEncoded,
            Phase::Writing { .. } => event is RequestWritten || event is WriteFailed,
            Phase::Reading { .. } => event is ResponseRead || event is ReadFailed,
            Phase::Aborted { .. } => false,
        }
    }

    /// The id of the invocation that was encoded and not answered, if there is one.
    pub open spec fn unanswered(self) -> Seq<u64> {
        match self {
            Phase::Idle => seq![],
            Phase::Encoding => seq![],
            Phase::Writing { invocation_id } => seq![invocation_id],
            Phase::Reading { invocation_id } => seq![invocation_id],
            Phase::Aborted { invocation_id } => seq![invocation_id],
        }
    }

    /// The phase after `event`.
    pub open spec fn after<Q, M>(self, event: ChannelEvent<Q, M>) -> Phase {
        match (self, event) {
            (Phase::Idle, ChannelEvent::Requested { request }) => Phase::Encoding,
            (
                Phase::Encoding,
                ChannelEvent::RequestEncoded { invocation_id, message },
            ) => Phase::Writing { invocation_id },
            (Phase::Writing { invocation_id }, ChannelEvent::RequestWritten) => Phase::Reading {
                invocation_id,
            },
            (
                Phase::Reading { invocation_id },
                ChannelEvent::ResponseRead { invocation_id: received, response },
            ) => if received == invocation_id {
                Phase::Idle
            } else {
                Phase::Aborted { invocation_id }
            },
            (_, _) => Phase::Idle,
        }
    }

    /// What `event` calls for.
    pub open spec fn action<Q, M>(self, event: ChannelEvent<Q, M>) -> ChannelAction<Q, M> {
        match (self, event) {
            (
                Phase::Idle,
                ChannelEvent::Requested { request },
            ) => ChannelAction::EncodeRequest { request },
            (
                Phase::Encoding,
                ChannelEvent::RequestEncoded { invocation_id, message },
            ) => ChannelAction::WriteRequest { message },
            (
                Phase::Writing { invocation_id },
                ChannelEvent::RequestWritten,
            ) => ChannelAction::ReadResponse,
            (
                Phase::Reading { invocation_id },
                ChannelEvent::ResponseRead { invocation_id: received, response },
            ) => if received == invocation_id {
                ChannelAction::Complete { response }
            } else {
                ChannelAction::Abort { expected: invocation_id, received }
            },
            (_, _) => ChannelAction::Complete { response: internal_error() },
        }
    }
}

/// The communication channel with the runtime. Messages are sent in sequence: the
/// next response answers the preceding request.
pub struct BaremetalCommunicationChannel {
    phase: Phase,
}

impl View for BaremetalCommunicationChannel {
    type V = Phase;

    closed spec fn view(&self) -> Phase {
        self.phase
    }
}

impl BaremetalCommunicationChannel {
    /// A channel on which nothing was sent yet.
    pub fn new() -> (channel: BaremetalCommunicationChannel)
        ensures
            channel@ == Phase::Idle,
    {
        BaremetalCommunicationChannel { phase: Phase::Idle }
    }

    /// Whether `event` can happen now.
    pub fn admits<Q, M>(&self, event: &ChannelEvent<Q, M>) -> (admitted: bool)
        ensures
            admitted == self@.admits(*event),
    {
        match (self.phase, event) {
            (Phase::Idle, ChannelEvent::Requested { .. }) => true,
            (Phase::Encoding, ChannelEvent::RequestEncoded { .. }) => true,
            (Phase::Writing { .. }, ChannelEvent::RequestWritten) => true,
            (Phase::Writing { .. }, ChannelEvent::WriteFailed) => true,
            (Phase::Reading { .. }, ChannelEvent::ResponseRead { .. }) => true,
            (Phase::Reading { .. }, ChannelEvent::ReadFailed) => true,
            (_, _) => false,
        }
    }

    /// Takes an invocation one step further: what `event` calls for. The request is
    /// encoded, the message that it was encoded to is written, and a response is
    /// read. An invocation is over once it is answered. It is answered what the
    /// response to it holds, or an internal error where writing or reading failed.
    pub fn invoke<Q, M>(&mut self, event: ChannelEvent<Q, M>) -> (action: ChannelAction<Q, M>)
        requires
            old(self)@.admits(event),
        ensures
            final(self)@ == old(self)@.after(event),
            action == old(self)@.action(event),
    {
        match (self.phase, event) {
            (Phase::Idle, ChannelEvent::Requested { request }) => {
                self.phase = Phase::Encoding;
                ChannelAction::EncodeRequest { request }
            },
            (Phase::Encoding, ChannelEvent::RequestEncoded { invocation_id, message }) => {
                self.phase = Phase::Writing { invocation_id };
                ChannelAction::WriteRequest { message }
            },
            (Phase::Writing { invocation_id }, ChannelEvent::RequestWritten) => {
                self.phase = Phase::Reading { invocation_id };
                ChannelAction::ReadResponse
            },
            (
                Phase::Reading { invocation_id: expected },
                ChannelEvent::ResponseRead { invocation_id: received, response },
            ) => {
                if received == expected {
                    self.phase = Phase::Idle;
                    ChannelAction::Complete { response }
                } else {
                    self.phase = Phase::Aborted { invocation_id: expected };
                    ChannelAction::Abort { expected, received }
                }
            },
            (_, _) => {
                self.phase = Phase::Idle;
                ChannelAction::Complete { response: Err(Status::new(StatusCode::Internal)) }
            },
        }
    }
}

/// Whether each of `events`, from `start` on, can happen where it stands.
pub open spec fn admitted<Q, M>(start: Phase, events: Seq<ChannelEvent<Q, M>>) -> bool
    decreases events.len(),
{
    events.len() > 0 ==> admitted(start, events.drop_last()) && phase_after(
        start,
        events.drop_last(),
    ).admits(events.last())
}

/// The phase after `events`, from `start` on.
pub open spec fn phase_after<Q, M>(start: Phase, events: Seq<ChannelEvent<Q, M>>) -> Phase
    decreases events.len(),
{
    if events.len() == 0 {
        start
    } else {
        phase_after(start, events.drop_last()).after(events.last())
    }
}

/// What `events` call for, from `start` on.
pub open spec fn actions<Q, M>(start: Phase, events: Seq<ChannelEvent<Q, M>>) -> Seq<
    ChannelAction<Q, M>,
>
    decreases events.len(),
{
    if events.len() == 0 {
        seq![]
    } else {
        actions(start, events.drop_last()).push(
            phase_after(start, events.drop_last()).action(events.last()),
        )
    }
}

/// The requests among `events`, in the order in which they were made.
pub open spec fn requests<Q, M>(events: Seq<ChannelEvent<Q, M>>) -> Seq<Q>
    decreases events.len(),
{
    if events.len() == 0 {
        seq![]
    } else {
        match events.last() {
            ChannelEvent::Requested { request } => requests(events.drop_last()).push(request),
            _ => requests(events.drop_last()),
        }
    }
}

/// The ids and messages that requests were encoded to among `events`, in order.
pub open spec fn encodings<Q, M>(events: Seq<ChannelEvent<Q, M>>) -> Seq<(u64, M)>
    decreases events.len(),
{
    if events.len() == 0 {
        seq![]
    } else {
        match events.last() {
            ChannelEvent::RequestEncoded { invocation_id, message } => encodings(
                events.drop_last(),
            ).push((invocation_id, message)),
            _ => encodings(events.drop_last()),
        }
    }
}

/// The requests that `actions` hand to the encoder, in order.
pub open spec fn handed_to_encoder<Q, M>(actions: Seq<ChannelAction<Q, M>>) -> Seq<Q>
    decreases actions.len(),
{
    if actions.len() == 0 {
        seq![]
    } else {
        match actions.last() {
            ChannelAction::EncodeRequest { request } => handed_to_encoder(actions.drop_last()).push(
                request,
            ),
            _ => handed_to_encoder(actions.drop_last()),
        }
    }
}

/// The messages that `actions` have written, in order.
pub open spec fn written<Q, M>(actions: Seq<ChannelAction<Q, M>>) -> Seq<M>
    decreases actions.len(),
{
    if actions.len() == 0 {
        seq![]
    } else {
        match actions.last() {
            ChannelAction::WriteRequest { message } => written(actions.drop_last()).push(message),
            _ => written(actions.drop_last()),
        }
    }
}

/// The ids of the invocations that were answered in the course of `events`, in
/// the order in which they were answered.
pub open spec fn answered<Q, M>(start: Phase, events: Seq<ChannelEvent<Q, M>>) -> Seq<u64>
    decreases events.len(),
{
    if events.len() == 0 {
        seq![]
    } else {
        let before = phase_after(start, events.drop_last());
        if before.action(events.last()) is Complete {
            answered(start, events.drop_last()) + before.unanswered()
        } else {
            answered(start, events.drop_last())
        }
    }
}

/// An encoder: what it encodes a request to, and its state after that, given its
/// state before.
#[verifier::reject_recursive_types(S)]
#[verifier::reject_recursive_types(Q)]
pub struct Encoder<S, Q, M> {
    /// The state of an encoder that has encoded nothing yet.
    pub initial: S,
    /// The id and the message that a request is encoded to.
    pub encode: spec_fn(S, Q) -> (u64, M),
    /// The state after a request was encoded.
    pub next: spec_fn(S, Q) -> S,
}

impl<S, Q, M> Encoder<S, Q, M> {
    /// The state after `requests`, each encoded once, in order.
    pub open spec fn state_after(self, requests: Seq<Q>) -> S
        decreases requests.len(),
    {
        if requests.len() == 0 {
            self.initial
        } else {
            (self.next)(self.state_after(requests.drop_last()), requests.last())
        }
    }

    /// What the last of `requests` is encoded to, after the ones before.
    pub open spec fn last_output(self, requests: Seq<Q>) -> (u64, M) {
        (self.encode)(self.state_after(requests.drop_last()), requests.last())
    }

    /// What `requests` are encoded to, each encoded once, in order.
    pub open spec fn outputs(self, requests: Seq<Q>) -> Seq<(u64, M)> {
        Seq::new(requests.len(), |i: int| self.last_output(requests.take(i + 1)))
    }

    /// Whether this encoder encoded the requests in the course of `events`: each
    /// time it is said what a request was encoded to, that is what the encoder makes
    /// of the last request that was handed to it, after all those before.
    pub open spec fn encoded(self, events: Seq<ChannelEvent<Q, M>>) -> bool
        decreases events.len(),
    {
        events.len() > 0 ==> {
            &&& self.encoded(events.drop_last())
            &&& events.last() matches ChannelEvent::RequestEncoded { invocation_id, message } ==> (
            invocation_id,
            message,
        ) == self.last_output(handed_to_encoder(actions(Phase::Idle, events.drop_last())))
        }
    }
}

/// Every request is handed to the encoder once, in the order in which requests
/// were made, and every message that a request is encoded to is written once, in
/// the same order, whether the invocations before went well or not.
pub proof fn law_requests_are_encoded_and_written<Q, M>(events: Seq<ChannelEvent<Q, M>>)
    requires
        admitted(Phase::Idle, events),
    ensures
        handed_to_encoder(actions(Phase::Idle, events)) == requests(events),
        written(actions(Phase::Idle, events)) == encodings(events).map_values(
            |encoding: (u64, M)| encoding.1,
        ),
        encodings(events).len() == if phase_after(Phase::Idle, events) is Encoding {
            requests(events).len() - 1
        } else {
            requests(events).len() as int
        },
    decreases events.len(),
{
    if events.len() > 0 {
        let before = events.drop_last();
        law_requests_are_encoded_and_written(before);
        assert(actions(Phase::Idle, events).drop_last() =~= actions(Phase::Idle, before));
        let message_of = |encoding: (u64, M)| encoding.1;
        if let ChannelEvent::RequestEncoded { invocation_id, message } = events.last() {
            assert(encodings(events).map_values(message_of) =~= encodings(before).map_values(
                message_of,
            ).push(message));
        }
    }
}

/// The messages written on a channel are the outputs of one encoder, fed the
/// requests in the order in which they were made: the encoder moves on by one
/// request for each invocation, also after a write or a read that failed. A
/// request that is just being encoded has no output yet.
pub proof fn law_messages_come_of_one_encoder<S, Q, M>(
    encoder: Encoder<S, Q, M>,
    events: Seq<ChannelEvent<Q, M>>,
)
    requires
        admitted(Phase::Idle, events),
        encoder.encoded(events),
    ensures
        encodings(events) == encoder.outputs(requests(events).take(encodings(events).len() as int)),
        written(actions(Phase::Idle, events)) == encoder.outputs(
            requests(events).take(encodings(events).len() as int),
        ).map_values(|encoding: (u64, M)| encoding.1),
    decreases events.len(),
{
    law_requests_are_encoded_and_written(events);
    if events.len() > 0 {
        let before = events.drop_last();
        law_messages_come_of_one_encoder(encoder, before);
        law_requests_are_encoded_and_written(before);
        let count = encodings(before).len() as int;
        match events.last() {
            ChannelEvent::Requested { request } => {
                assert(requests(events).take(count) =~= requests(before).take(count));
            },
            ChannelEvent::RequestEncoded { invocation_id, message } => {
                let all = requests(events);
                assert(all.take(count + 1) =~= all);
                assert forall|i: int| 0 <= i < count implies encoder.outputs(all)[i]
                    == encoder.outputs(all.take(count))[i] by {
                    assert(all.take(count).take(i + 1) =~= all.take(i + 1));
                }
                assert(encodings(events) =~= encoder.outputs(all));
            },
            _ => {},
        }
    }
}

/// Requests are sent sequentially, and answered first in, first out: whatever
/// happened, the invocations that were answered are the first ones that were
/// encoded, in the same order, and at most the last request is still open.
pub proof fn law_first_in_first_out<Q, M>(events: Seq<ChannelEvent<Q, M>>)
    requires
        admitted(Phase::Idle, events),
    ensures
        encodings(events).map_values(|encoding: (u64, M)| encoding.0) == answered(
            Phase::Idle,
            events,
        ) + phase_after(Phase::Idle, events).unanswered(),
        requests(events).len() == answered(Phase::Idle, events).len() + if phase_after(
            Phase::Idle,
            events,
        ) is Idle {
            0int
        } else {
            1int
        },
    decreases events.len(),
{
    if events.len() > 0 {
        let before = events.drop_last();
        law_first_in_first_out(before);
        let id_of = |encoding: (u64, M)| encoding.0;
        if let ChannelEvent::RequestEncoded { invocation_id, message } = events.last() {
            assert(encodings(events).map_values(id_of) =~= encodings(before).map_values(
                id_of,
            ).push(invocation_id));
        }
    }
}

/// What is done on the underlying channel.
pub enum Exchange {
    Write,
    Read,
}

/// The writes and reads that `actions` call for, in order.
pub open spec fn exchanges<Q, M>(actions: Seq<ChannelAction<Q, M>>) -> Seq<Exchange>
    decreases actions.len(),
{
    if actions.len() == 0 {
        seq![]
    } else {
        match actions.last() {
            ChannelAction::WriteRequest { message } => exchanges(actions.drop_last()).push(
                Exchange::Write,
            ),
            ChannelAction::ReadResponse => exchanges(actions.drop_last()).push(Exchange::Read),
            _ => exchanges(actions.drop_last()),
        }
    }
}

/// What `actions` hand to whoever made the requests, in order.
pub open spec fn returned<Q, M>(actions: Seq<ChannelAction<Q, M>>) -> Seq<Result<Vec<u8>, Status>>
    decreases actions.len(),
{
    if actions.len() == 0 {
        seq![]
    } else {
        match actions.last() {
            ChannelAction::Complete { response } => returned(actions.drop_last()).push(response),
            _ => returned(actions.drop_last()),
        }
    }
}

/// The responses that were read among `events`, in order.
pub open spec fn responses_read<Q, M>(events: Seq<ChannelEvent<Q, M>>) -> Seq<
    Result<Vec<u8>, Status>,
>
    decreases events.len(),
{
    if events.len() == 0 {
        seq![]
    } else {
        match events.last() {
            ChannelEvent::ResponseRead { invocation_id, response } => responses_read(
                events.drop_last(),
            ).push(response),
            _ => responses_read(events.drop_last()),
        }
    }
}

/// What came of the invocations among `events`, in order: the response that was
/// read, or an internal error where writing or reading failed.
pub open spec fn outcomes<Q, M>(events: Seq<ChannelEvent<Q, M>>) -> Seq<Result<Vec<u8>, Status>>
    decreases events.len(),
{
    if events.len() == 0 {
        seq![]
    } else {
        match events.last() {
            ChannelEvent::ResponseRead { invocation_id, response } => outcomes(
                events.drop_last(),
            ).push(response),
            ChannelEvent::WriteFailed => outcomes(events.drop_last()).push(internal_error()),
            ChannelEvent::ReadFailed => outcomes(events.drop_last()).push(internal_error()),
            _ => outcomes(events.drop_last()),
        }
    }
}

/// What comes of each invocation is handed to whoever made the requests, once and
/// in order. Only a response that puts an end to the channel is not handed to
/// anybody.
pub proof fn law_outcomes_are_returned_in_order<Q, M>(events: Seq<ChannelEvent<Q, M>>)
    requires
        admitted(Phase::Idle, events),
    ensures
        returned(actions(Phase::Idle, events)) == if phase_after(Phase::Idle, events) is Aborted {
            outcomes(events).drop_last()
        } else {
            outcomes(events)
        },
    decreases events.len(),
{
    if events.len() > 0 {
        let before = events.drop_last();
        law_outcomes_are_returned_in_order(before);
        assert(actions(Phase::Idle, events).drop_last() =~= actions(Phase::Idle, before));
        if phase_after(Phase::Idle, events) is Aborted {
            assert(outcomes(events).drop_last() =~= outcomes(before));
        }
    }
}

/// As long as no write fails, writes and reads alternate, beginning with a write.
pub proof fn law_writes_and_reads_alternate<Q, M>(events: Seq<ChannelEvent<Q, M>>)
    requires
        admitted(Phase::Idle, events),
        forall|i: int| 0 <= i < events.len() ==> !(#[trigger] events[i] is WriteFailed),
    ensures
        forall|i: int|
            0 <= i < exchanges(actions(Phase::Idle, events)).len() ==> #[trigger] exchanges(
                actions(Phase::Idle, events),
            )[i] == if i % 2 == 0 {
                Exchange::Write
            } else {
                Exchange::Read
            },
        exchanges(actions(Phase::Idle, events)).len() % 2 == 1 <==> phase_after(
            Phase::Idle,
            events,
        ) is Writing,
    decreases events.len(),
{
    if events.len() > 0 {
        let before = events.drop_last();
        assert forall|i: int| 0 <= i < before.len() implies !(#[trigger] before[i] is WriteFailed) by {
            assert(before[i] == events[i]);
        }
        law_writes_and_reads_alternate(before);
        assert(actions(Phase::Idle, events).drop_last() =~= actions(Phase::Idle, before));
        assert(!(events[events.len() - 1] is WriteFailed));
    }
}

/// As long as nothing fails, the responses that were read are handed to whoever
/// made the requests, in the order in which they were read, and writes and reads
/// alternate, beginning with a write.
pub proof fn law_responses_are_returned_in_order<Q, M>(events: Seq<ChannelEvent<Q, M>>)
    requires
        admitted(Phase::Idle, events),
        forall|i: int|
            0 <= i < events.len() ==> !(#[trigger] events[i] is WriteFailed) && !(
            events[i] is ReadFailed),
        !(phase_after(Phase::Idle, events) is Aborted),
    ensures
        returned(actions(Phase::Idle, events)) == responses_read(events),
        forall|i: int|
            0 <= i < exchanges(actions(Phase::Idle, events)).len() ==> #[trigger] exchanges(
                actions(Phase::Idle, events),
            )[i] == if i % 2 == 0 {
                Exchange::Write
            } else {
                Exchange::Read
            },
{
    law_outcomes_are_returned_in_order(events);
    law_writes_and_reads_alternate(events);
    lemma_outcomes_without_failures(events);
}

/// Where nothing failed, the outcomes are the responses that were read.
proof fn lemma_outcomes_without_failures<Q, M>(events: Seq<ChannelEvent<Q, M>>)
    requires
        forall|i: int|
            0 <= i < events.len() ==> !(#[trigger] events[i] is WriteFailed) && !(
            events[i] is ReadFailed),
    ensures
        outcomes(events) == responses_read(events),
    decreases events.len(),
{
    if events.len() > 0 {
        let before = events.drop_last();
        assert forall|i: int| 0 <= i < before.len() implies !(#[trigger] before[i] is WriteFailed)
            && !(before[i] is ReadFailed) by {
            assert(before[i] == events[i]);
        }
        lemma_outcomes_without_failures(before);
        assert(!(events[events.len() - 1] is WriteFailed));
    }
}

/// An invocation whose message is written and whose response is read ends with
/// what the response holds, provided that the response carries the request's id;
/// the channel is then ready for the next request.
pub proof fn law_response_is_returned<Q, M>(
    request: Q,
    invocation_id: u64,
    message: M,
    response: Result<Vec<u8>, Status>,
)
    ensures
        ({
            let events = seq![
                ChannelEvent::Requested { request },
                ChannelEvent::RequestEncoded { invocation_id, message },
                ChannelEvent::RequestWritten,
                ChannelEvent::ResponseRead { invocation_id, response },
            ];
            &&& admitted(Phase::Idle, events)
            &&& actions(Phase::Idle, events) == seq![
                ChannelAction::EncodeRequest { request },
                ChannelAction::WriteRequest { message },
                ChannelAction::ReadResponse,
                ChannelAction::Complete { response },
            ]
            &&& phase_after(Phase::Idle, events) == Phase::Idle
        }),
{
    let requested = seq![ChannelEvent::Requested { request }];
    let encoded = requested.push(ChannelEvent::RequestEncoded { invocation_id, message });
    let sent = encoded.push(ChannelEvent::RequestWritten);
    let events = sent.push(ChannelEvent::ResponseRead { invocation_id, response });
    reveal_with_fuel(admitted, 5);
    reveal_with_fuel(phase_after, 5);
    reveal_with_fuel(actions, 5);
    assert(requested.drop_last() =~= seq![]);
    assert(encoded.drop_last() =~= requested);
    assert(sent.drop_last() =~= encoded);
    assert(events.drop_last() =~= sent);
    assert(events =~= seq![
        ChannelEvent::Requested { request },
        ChannelEvent::RequestEncoded { invocation_id, message },
        ChannelEvent::RequestWritten,
        ChannelEvent::ResponseRead { invocation_id, response },
    ]);
}

/// Bytes are handed to whoever made a request only where they came in a response
/// that carries the id of that request.
pub proof fn law_only_own_response_is_returned<Q, M>(
    start: Phase,
    event: ChannelEvent<Q, M>,
    bytes: Vec<u8>,
)
    requires
        start.admits(event),
        start.action(event) == (ChannelAction::<Q, M>::Complete { response: Ok(bytes) }),
    ensures
        exists|invocation_id: u64|
            start == (Phase::Reading { invocation_id }) && event == (ChannelEvent::<Q, M>::ResponseRead {
                invocation_id,
                response: Ok(bytes),
            }),
{
    assert(start is Reading && event is ResponseRead);
    assert(start == (Phase::Reading { invocation_id: start->Reading_invocation_id }) && event == (
    ChannelEvent::<Q, M>::ResponseRead {
        invocation_id: start->Reading_invocation_id,
        response: Ok(bytes),
    }));
}

/// A request whose message cannot be written, or whose response cannot be read, is
/// answered an internal error, and the channel is ready for the next request.
pub proof fn law_failures_are_answered<Q, M>(start: Phase, event: ChannelEvent<Q, M>)
    requires
        start.admits(event),
        event is WriteFailed || event is ReadFailed,
    ensures
        start.action(event) == (ChannelAction::<Q, M>::Complete { response: internal_error() }),
        start.after(event) == Phase::Idle,
{
}

/// A response that carries another id than the request puts an end to the
/// channel: nothing is answered, and nothing can happen any more.
pub proof fn law_foreign_response_ends_channel<Q, M>(
    expected: u64,
    received: u64,
    response: Result<Vec<u8>, Status>,
    next: ChannelEvent<Q, M>,
)
    requires
        expected != received,
    ensures
        ({
            let start = Phase::Reading { invocation_id: expected };
            let event = ChannelEvent::<Q, M>::ResponseRead { invocation_id: received, response };
            &&& start.admits(event)
            &&& start.action(event) == ChannelAction::<Q, M>::Abort { expected, received }
            &&& !start.after(event).admits(next)
        }),
{
}

/// Whatever is requested, and whatever it is encoded to, an invocation begins with
/// handing the request to the encoder, goes on with writing the very message that
/// the encoder made of it, and then with reading a response.
pub proof fn law_request_goes_out<Q, M>(request: Q, invocation_id: u64, message: M)
    ensures
        ({
            let requested = ChannelEvent::<Q, M>::Requested { request };
            let encoded = ChannelEvent::<Q, M>::RequestEncoded { invocation_id, message };
            let encoding = Phase::Idle.after(requested);
            let writing = encoding.after(encoded);
            &&& Phase::Idle.admits(requested)
            &&& Phase::Idle.action(requested) == ChannelAction::<Q, M>::EncodeRequest { request }
            &&& encoding.admits(encoded)
            &&& encoding.action(encoded) == ChannelAction::<Q, M>::WriteRequest { message }
            &&& writing.admits(ChannelEvent::<Q, M>::RequestWritten)
            &&& writing.action(ChannelEvent::<Q, M>::RequestWritten) == ChannelAction::<
                Q,
                M,
            >::ReadResponse
        }),
{
}

/// Whatever the request, its id and its message are, a write that fails can be told
/// to the channel, the request is answered an internal error without a message, and
/// the channel is idle again.
pub proof fn law_write_failure_is_answered<Q, M>(request: Q, invocation_id: u64, message: M)
    ensures
        ({
            let requested = ChannelEvent::<Q, M>::Requested { request };
            let encoded = ChannelEvent::<Q, M>::RequestEncoded { invocation_id, message };
            let failed = ChannelEvent::<Q, M>::WriteFailed;
            let writing = Phase::Idle.after(requested).after(encoded);
            &&& writing.admits(failed)
            &&& writing.action(failed) == ChannelAction::<Q, M>::Complete {
                response: Err(Status { code: StatusCode::Internal, message: None }),
            }
            &&& writing.after(failed) == Phase::Idle
            &&& admitted(Phase::Idle, seq![requested, encoded, failed])
        }),
{
    let requested = ChannelEvent::<Q, M>::Requested { request };
    let encoded = ChannelEvent::<Q, M>::RequestEncoded { invocation_id, message };
    let failed = ChannelEvent::<Q, M>::WriteFailed;
    lemma_three_admitted(Phase::Idle, requested, encoded, failed);
}

/// Whatever the request, its id and its message are, a read that fails can be told to
/// the channel, the request is answered an internal error without a message, and the
/// channel is idle again.
pub proof fn law_read_failure_is_answered<Q, M>(request: Q, invocation_id: u64, message: M)
    ensures
        ({
            let requested = ChannelEvent::<Q, M>::Requested { request };
            let encoded = ChannelEvent::<Q, M>::RequestEncoded { invocation_id, message };
            let reading = Phase::Idle.after(requested).after(encoded).after(
                ChannelEvent::<Q, M>::RequestWritten,
            );
            let failed = ChannelEvent::<Q, M>::ReadFailed;
            &&& reading.admits(failed)
            &&& reading.action(failed) == ChannelAction::<Q, M>::Complete {
                response: Err(Status { code: StatusCode::Internal, message: None }),
            }
            &&& reading.after(failed) == Phase::Idle
        }),
{
}

/// Whatever response is read, under whatever id, it can be told to the channel. It is
/// handed to whoever made the request exactly where its id is that of the request,
/// and the channel is then idle again. Else nobody is answered, and nothing can
/// happen on the channel any more.
pub proof fn law_id_decides_on_response<Q, M>(
    request: Q,
    invocation_id: u64,
    message: M,
    received: u64,
    response: Result<Vec<u8>, Status>,
    next: ChannelEvent<Q, M>,
)
    ensures
        ({
            let requested = ChannelEvent::<Q, M>::Requested { request };
            let encoded = ChannelEvent::<Q, M>::RequestEncoded { invocation_id, message };
            let reading = Phase::Idle.after(requested).after(encoded).after(
                ChannelEvent::<Q, M>::RequestWritten,
            );
            let read = ChannelEvent::<Q, M>::ResponseRead { invocation_id: received, response };
            &&& reading.admits(read)
            &&& received == invocation_id ==> reading.action(read) == ChannelAction::<
                Q,
                M,
            >::Complete { response } && reading.after(read) == Phase::Idle
            &&& received != invocation_id ==> reading.action(read) == ChannelAction::<Q, M>::Abort {
                expected: invocation_id,
                received,
            } && !reading.after(read).admits(next)
        }),
{
}

/// Nothing happens out of order: only a request on an idle channel, only what it is
/// encoded to after that, then only what came of the write, and then only what came of
/// the read, whatever the request, its id and its message are.
pub proof fn law_nothing_happens_out_of_order<Q, M>(
    request: Q,
    invocation_id: u64,
    message: M,
    event: ChannelEvent<Q, M>,
)
    ensures
        ({
            let requested = ChannelEvent::<Q, M>::Requested { request };
            let encoded = ChannelEvent::<Q, M>::RequestEncoded { invocation_id, message };
            let encoding = Phase::Idle.after(requested);
            let writing = encoding.after(encoded);
            let reading = writing.after(ChannelEvent::<Q, M>::RequestWritten);
            &&& Phase::Idle.admits(event) <==> event is Requested
            &&& encoding.admits(event) <==> event is RequestEncoded
            &&& writing.admits(event) <==> event is RequestWritten || event is WriteFailed
            &&& reading.admits(event) <==> event is ResponseRead || event is ReadFailed
        }),
{
}

/// What it takes for three events to be admitted.
proof fn lemma_three_admitted<Q, M>(
    start: Phase,
    first: ChannelEvent<Q, M>,
    second: ChannelEvent<Q, M>,
    third: ChannelEvent<Q, M>,
)
    requires
        start.admits(first),
        start.after(first).admits(second),
        start.after(first).after(second).admits(third),
    ensures
        admitted(start, seq![first, second, third]),
{
    reveal_with_fuel(admitted, 4);
    reveal_with_fuel(phase_after, 4);
    assert(seq![first].drop_last() =~= seq![]);
    assert(seq![first, second].drop_last() =~= seq![first]);
    assert(seq![first, second, third].drop_last() =~= seq![first, second]);
}

} // verus!
