//! Keeping the lookup data of the runtime up to date.
//!
//! Loading, encoding and sending lookup data, and waiting, are somebody else's
//! work. The refresh is told what came of them, and says what is to be done next.

use vstd::prelude::*;

verus! {

/// The time from one refresh to the next, in milliseconds.
pub const REFRESH_INTERVAL_MILLIS: u64 = 1000 * 60 * 10;

/// How far the current refresh has come.
#[derive(Debug, Clone, Copy, PartialEq, Eq, Structural)]
pub enum RefreshPhase {
    /// Lookup data are being loaded.
    Loading,
    /// Lookup data were loaded, and are being encoded.
    Encoding,
    /// Lookup data were encoded, and are being sent.
    Sending,
    /// Lookup data were sent, and the next refresh is not yet due.
    Waiting,
    /// A refresh failed.
    Failed,
}

/// What a refresh can fail at.
#[derive(Debug, Clone, Copy, PartialEq, Eq, Structural)]
pub enum RefreshFailure {
    Load,
    Encode,
    Send,
}

/// What happened on the way of a refresh, `T` being the type of lookup data and
/// `E` that of an error.
#[derive(Debug, PartialEq, Eq)]
pub enum RefreshEvent<T, E> {
    /// Lookup data were loaded.
    Loaded { lookup_data: T },
    /// No lookup data could be loaded.
    LoadFailed { cause: E },
    /// Lookup data were encoded.
    Encoded { message: Vec<u8> },
    /// Lookup data could not be encoded.
    EncodeFailed { cause: E },
    /// Lookup data were taken by the runtime.
    Sent,
    /// Lookup data were not taken by the runtime.
    SendFailed { cause: E },
    /// The next refresh is due.
    Due,
}

/// What is to be done next.
#[derive(Debug, PartialEq, Eq)]
pub enum RefreshAction<T, E> {
    /// Load lookup data.
    Load,
    /// Encode lookup data.
    Encode { lookup_data: T },
    /// Send encoded lookup data to the runtime.
    Send { message: Vec<u8> },
    /// Wait until the next refresh is due.
    Wait,
    /// Panic.
    Panic { failure: RefreshFailure, cause: E },
}

/// What a refresh that failed has to say for itself.
pub open spec fn refresh_failure_text(failure: RefreshFailure) -> Seq<char> {
    match failure {
        RefreshFailure::Load => "failed to load lookup data"@,
        RefreshFailure::Encode => "failed to encode lookup data"@,
        RefreshFailure::Send => "failed to send lookup data"@,
    }
}

impl RefreshFailure {
    /// The text that the failure is shown as.
    pub fn text(&self) -> (text: &'static str)
        ensures
            text@ == refresh_failure_text(*self),
            *self is Load ==> text@ == "failed to load lookup data"@,
            *self is Encode ==> text@ == "failed to encode lookup data"@,
            *self is Send ==> text@ == "failed to send lookup data"@,
    {
        match self {
            RefreshFailure::Load => "failed to load lookup data",
            RefreshFailure::Encode => "failed to encode lookup data",
            RefreshFailure::Send => "failed to send lookup data",
        }
    }
}

impl RefreshPhase {
    /// Whether `event` can happen in this phase.
    pub open spec fn admits<T, E>(self, event: RefreshEvent<T, E>) -> bool {
        match self {
            RefreshPhase::Loading => event is Loaded || event is LoadFailed,
            RefreshPhase::Encoding => event is Encoded || event is EncodeFailed,
            RefreshPhase::Sending => event is Sent || event is SendFailed,
            RefreshPhase::Waiting => event is Due,
            RefreshPhase::Failed => false,
        }
    }
}

/// The phase after `event`, wherever it can happen.
pub open spec fn refresh_phase<T, E>(event: RefreshEvent<T, E>) -> RefreshPhase {
    match event {
        RefreshEvent::Loaded { .. } => RefreshPhase::Encoding,
        RefreshEvent::Encoded { .. } => RefreshPhase::Sending,
        RefreshEvent::Sent => RefreshPhase::Waiting,
        RefreshEvent::Due => RefreshPhase::Loading,
        _ => RefreshPhase::Failed,
    }
}

/// What `event` calls for, wherever it can happen.
pub open spec fn refresh_action<T, E>(event: RefreshEvent<T, E>) -> RefreshAction<T, E> {
    match event {
        RefreshEvent::Loaded { lookup_data } => RefreshAction::Encode { lookup_data },
        RefreshEvent::LoadFailed { cause } => RefreshAction::Panic {
            failure: RefreshFailure::Load,
            cause,
        },
        RefreshEvent::Encoded { message } => RefreshAction::Send { message },
        RefreshEvent::EncodeFailed { cause } => RefreshAction::Panic {
            failure: RefreshFailure::Encode,
            cause,
        },
        RefreshEvent::Sent => RefreshAction::Wait,
        RefreshEvent::SendFailed { cause } => RefreshAction::Panic {
            failure: RefreshFailure::Send,
            cause,
        },
        RefreshEvent::Due => RefreshAction::Load,
    }
}

/// The refresh of lookup data: load, encode, send and wait, over and over.
pub struct Refresh {
    phase: RefreshPhase,
}

impl View for Refresh {
    type V = RefreshPhase;

    closed spec fn view(&self) -> RefreshPhase {
        self.phase
    }
}

impl Refresh {
    /// The first refresh, which begins with loading lookup data.
    pub fn new() -> (refresh: Refresh)
        ensures
            refresh@ == RefreshPhase::Loading,
    {
        Refresh { phase: RefreshPhase::Loading }
    }

    /// Whether `event` can happen now.
    pub fn admits<T, E>(&self, event: &RefreshEvent<T, E>) -> (admitted: bool)
        ensures
            admitted == self@.admits(*event),
    {
        match (self.phase, event) {
            (RefreshPhase::Loading, RefreshEvent::Loaded { .. }) => true,
            (RefreshPhase::Loading, RefreshEvent::LoadFailed { .. }) => true,
            (RefreshPhase::Encoding, RefreshEvent::Encoded { .. }) => true,
            (RefreshPhase::Encoding, RefreshEvent::EncodeFailed { .. }) => true,
            (RefreshPhase::Sending, RefreshEvent::Sent) => true,
            (RefreshPhase::Sending, RefreshEvent::SendFailed { .. }) => true,
            (RefreshPhase::Waiting, RefreshEvent::Due) => true,
            (_, _) => false,
        }
    }

    /// Takes the refresh one step further: what `event` calls for.
    pub fn step<T, E>(&mut self, event: RefreshEvent<T, E>) -> (action: RefreshAction<T, E>)
        requires
            old(self)@.admits(event),
        ensures
            final(self)@ == refresh_phase(event),
            action == refresh_action(event),
    {
        match event {
            RefreshEvent::Loaded { lookup_data } => {
                self.phase = RefreshPhase::Encoding;
                RefreshAction::Encode { lookup_data }
            },
            RefreshEvent::LoadFailed { cause } => {
                self.phase = RefreshPhase::Failed;
                RefreshAction::Panic { failure: RefreshFailure::Load, cause }
            },
            RefreshEvent::Encoded { message } => {
                self.phase = RefreshPhase::Sending;
                RefreshAction::Send { message }
            },
            RefreshEvent::EncodeFailed { cause } => {
                self.phase = RefreshPhase::Failed;
                RefreshAction::Panic { failure: RefreshFailure::Encode, cause }
            },
            RefreshEvent::Sent => {
                self.phase = RefreshPhase::Waiting;
                RefreshAction::Wait
            },
            RefreshEvent::SendFailed { cause } => {
                self.phase = RefreshPhase::Failed;
                RefreshAction::Panic { failure: RefreshFailure::Send, cause }
            },
            RefreshEvent::Due => {
                self.phase = RefreshPhase::Loading;
                RefreshAction::Load
            },
        }
    }
}

/// Whether each of `events`, from the first refresh on, can happen where it stands.
pub open spec fn refresh_admitted<T, E>(events: Seq<RefreshEvent<T, E>>) -> bool {
    &&& events.len() > 0 ==> RefreshPhase::Loading.admits(events[0])
    &&& forall|i: int, j: int|
        0 <= i && j == i + 1 && j < events.len() ==> refresh_phase(#[trigger] events[i]).admits(
            #[trigger] events[j],
        )
}

/// Lookup data are loaded, encoded and sent, in this order, before the next
/// refresh is waited for, over and over: of the events from the first on, every
/// fourth is of the same kind, and only the last can be a failure.
pub proof fn law_refresh_goes_round<T, E>(events: Seq<RefreshEvent<T, E>>, i: int)
    requires
        refresh_admitted(events),
        0 <= i < events.len() - 1,
    ensures
        i % 4 == 0 ==> events[i] is Loaded,
        i % 4 == 1 ==> events[i] is Encoded,
        i % 4 == 2 ==> events[i] is Sent,
        i % 4 == 3 ==> events[i] is Due,
    decreases i,
{
    assert(refresh_phase(events[i]).admits(events[i + 1]));
    if i > 0 {
        law_refresh_goes_round(events, i - 1);
        assert(refresh_phase(events[i - 1]).admits(events[i]));
    }
}

/// What is encoded is what was loaded, and what is sent is what it was encoded to.
pub proof fn law_loaded_data_are_sent<T, E>(lookup_data: T, message: Vec<u8>)
    ensures
        ({
            let loaded = RefreshEvent::<T, E>::Loaded { lookup_data };
            let encoded = RefreshEvent::<T, E>::Encoded { message };
            &&& RefreshPhase::Loading.admits(loaded)
            &&& refresh_action(loaded) == RefreshAction::<T, E>::Encode { lookup_data }
            &&& refresh_phase(loaded).admits(encoded)
            &&& refresh_action(encoded) == RefreshAction::<T, E>::Send { message }
        }),
{
}

/// Whatever lookup data are loaded, and whatever they are encoded to, a round of the
/// refresh is admitted: what was loaded is encoded, what it was encoded to is sent, the
/// next refresh is waited for, and lookup data are loaded again.
pub proof fn law_refresh_round<T, E>(lookup_data: T, message: Vec<u8>, next_data: T)
    ensures
        ({
            let loaded = RefreshEvent::<T, E>::Loaded { lookup_data };
            let encoded = RefreshEvent::<T, E>::Encoded { message };
            let sent = RefreshEvent::<T, E>::Sent;
            let due = RefreshEvent::<T, E>::Due;
            &&& RefreshPhase::Loading.admits(loaded)
            &&& refresh_action(loaded) == RefreshAction::<T, E>::Encode { lookup_data }
            &&& refresh_phase(loaded).admits(encoded)
            &&& refresh_action(encoded) == RefreshAction::<T, E>::Send { message }
            &&& refresh_phase(encoded).admits(sent)
            &&& refresh_action(sent) == RefreshAction::<T, E>::Wait
            &&& refresh_phase(sent).admits(due)
            &&& refresh_action(due) == RefreshAction::<T, E>::Load
            &&& refresh_phase(due).admits(
                RefreshEvent::<T, E>::Loaded { lookup_data: next_data },
            )
            &&& refresh_admitted(seq![loaded, encoded, sent, due])
        }),
{
}

/// Whatever was loaded and encoded before, loading, encoding and sending can each fail,
/// in the first round and in every later one. The refresh then panics with the cause
/// that was told, and nothing can happen any more.
pub proof fn law_refresh_can_fail<T, E>(
    lookup_data: T,
    message: Vec<u8>,
    cause: E,
    next: RefreshEvent<T, E>,
)
    ensures
        ({
            let load_failed = RefreshEvent::<T, E>::LoadFailed { cause };
            let encode_failed = RefreshEvent::<T, E>::EncodeFailed { cause };
            let send_failed = RefreshEvent::<T, E>::SendFailed { cause };
            &&& RefreshPhase::Loading.admits(load_failed)
            &&& refresh_phase(RefreshEvent::<T, E>::Due).admits(load_failed)
            &&& refresh_action(load_failed) == RefreshAction::<T, E>::Panic {
                failure: RefreshFailure::Load,
                cause,
            }
            &&& !refresh_phase(load_failed).admits(next)
            &&& refresh_phase(RefreshEvent::<T, E>::Loaded { lookup_data }).admits(encode_failed)
            &&& refresh_action(encode_failed) == RefreshAction::<T, E>::Panic {
                failure: RefreshFailure::Encode,
                cause,
            }
            &&& !refresh_phase(encode_failed).admits(next)
            &&& refresh_phase(RefreshEvent::<T, E>::Encoded { message }).admits(send_failed)
            &&& refresh_action(send_failed) == RefreshAction::<T, E>::Panic {
                failure: RefreshFailure::Send,
                cause,
            }
            &&& !refresh_phase(send_failed).admits(next)
        }),
{
}

/// Nothing happens out of order: what can follow what in a refresh, whatever the events
/// carry.
pub proof fn law_refresh_order<T, E>(event: RefreshEvent<T, E>, next: RefreshEvent<T, E>)
    ensures
        RefreshPhase::Loading.admits(next) <==> next is Loaded || next is LoadFailed,
        refresh_phase(event).admits(next) <==> {
            ||| event is Loaded && (next is Encoded || next is EncodeFailed)
            ||| event is Encoded && (next is Sent || next is SendFailed)
            ||| event is Sent && next is Due
            ||| event is Due && (next is Loaded || next is LoadFailed)
        },
{
}

} // verus!
