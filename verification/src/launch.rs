//! Bringing up a virtual machine with the runtime in it, and taking it down.
//!
//! Starting the virtual machine, talking to the runtime in it and serving are
//! somebody else's work. The launch is told what came of them, and says what is to
//! be done next.

use vstd::prelude::*;

verus! {

/// How far the launch has come.
#[derive(Debug, Clone, Copy, PartialEq, Eq, Structural)]
pub enum LaunchPhase {
    /// The virtual machine is being started.
    Starting,
    /// The communication channel with the runtime is being created.
    Connecting,
    /// The Wasm file is being read.
    Reading,
    /// The message that initializes the runtime is being created.
    Encoding,
    /// The runtime is being initialized.
    Initializing,
    /// The launcher is serving.
    Serving,
    /// The virtual machine is being killed.
    Killing,
    /// The launcher is done.
    Finished,
}

/// What a launch can fail at in such a way that the launcher panics.
#[derive(Debug, Clone, Copy, PartialEq, Eq, Structural)]
pub enum LaunchFailure {
    Read,
    Encode,
    Initialize,
}

/// What happened on the way of a launch, `E` being the type of an error.
#[derive(Debug, PartialEq, Eq)]
pub enum LaunchEvent<E> {
    /// The virtual machine was started.
    Started,
    /// The virtual machine could not be started.
    StartFailed { cause: E },
    /// The communication channel was created.
    Connected,
    /// The communication channel could not be created.
    ConnectFailed { cause: E },
    /// The Wasm file was read.
    WasmRead { wasm: Vec<u8> },
    /// The Wasm file could not be read.
    ReadFailed { cause: E },
    /// The message that initializes the runtime was created.
    MessageEncoded { message: Vec<u8> },
    /// The message that initializes the runtime could not be created.
    EncodeFailed { cause: E },
    /// The runtime was initialized.
    Initialized,
    /// The runtime could not be initialized.
    InitializeFailed { cause: E },
    /// The launcher was told to terminate.
    Interrupted,
    /// The server came to an end.
    ServerStopped,
    /// The virtual machine came to an end.
    VmmExited,
    /// The virtual machine was killed.
    Killed,
    /// The virtual machine could not be killed.
    KillFailed { cause: E },
}

/// What is to be done next.
#[derive(Debug, PartialEq, Eq)]
pub enum LaunchAction<E> {
    /// Log what comes over the console, and create the communication channel.
    Connect,
    /// Begin to pass requests on and to refresh lookup data, and read the Wasm file.
    ReadWasm,
    /// Create the message that initializes the runtime with a Wasm module.
    Encode { wasm: Vec<u8> },
    /// Initialize the runtime.
    Initialize { message: Vec<u8> },
    /// Serve, until something dies or there is a signal to terminate.
    Serve,
    /// Kill the virtual machine.
    Kill,
    /// Log that the virtual machine came to an end unexpectedly, and return.
    ReportExit,
    /// Return.
    Return,
    /// Return an error.
    Fail { cause: E },
    /// Panic.
    Panic { failure: LaunchFailure, cause: E },
}

/// What a launch that failed has to say for itself, `wasm_path` being the path of
/// the Wasm file as it is shown.
pub open spec fn launch_failure_text(failure: LaunchFailure, wasm_path: Seq<char>) -> Seq<char> {
    match failure {
        LaunchFailure::Read => "Couldn't read Wasm file "@ + wasm_path,
        LaunchFailure::Encode => "errored when creating initialization message"@,
        LaunchFailure::Initialize => "failed to initialize the runtime"@,
    }
}

/// The text that a failure to read the Wasm file at `path` is shown as.
pub fn wasm_read_failure_text(path: &str) -> (text: String)
    ensures
        text@ == "Couldn't read Wasm file "@ + path@,
{
    let mut text = "Couldn't read Wasm file ".to_owned();
    text.append(path);
    text
}

impl LaunchFailure {
    /// The text that the failure is shown as, in a launch with the Wasm file at
    /// `wasm_path`.
    pub fn text(&self, wasm_path: &str) -> (text: String)
        ensures
            text@ == launch_failure_text(*self, wasm_path@),
            *self is Read ==> text@ == "Couldn't read Wasm file "@ + wasm_path@,
            *self is Encode ==> text@ == "errored when creating initialization message"@,
            *self is Initialize ==> text@ == "failed to initialize the runtime"@,
    {
        match self {
            LaunchFailure::Read => wasm_read_failure_text(wasm_path),
            LaunchFailure::Encode => "errored when creating initialization message".to_owned(),
            LaunchFailure::Initialize => "failed to initialize the runtime".to_owned(),
        }
    }
}

impl LaunchPhase {
    /// Whether `event` can happen in this phase.
    pub open spec fn admits<E>(self, event: LaunchEvent<E>) -> bool {
        match self {
            LaunchPhase::Starting => event is Started || event is StartFailed,
            LaunchPhase::Connecting => event is Connected || event is ConnectFailed,
            LaunchPhase::Reading => event is WasmRead || event is ReadFailed,
            LaunchPhase::Encoding => event is MessageEncoded || event is EncodeFailed,
            LaunchPhase::Initializing => event is Initialized || event is InitializeFailed,
            LaunchPhase::Serving => event is Interrupted || event is ServerStopped
                || event is VmmExited,
            LaunchPhase::Killing => event is Killed || event is KillFailed,
            LaunchPhase::Finished => false,
        }
    }
}

/// The phase after `event`, wherever it can happen.
pub open spec fn launch_phase<E>(event: LaunchEvent<E>) -> LaunchPhase {
    match event {
        LaunchEvent::Started => LaunchPhase::Connecting,
        LaunchEvent::Connected => LaunchPhase::Reading,
        LaunchEvent::WasmRead { .. } => LaunchPhase::Encoding,
        LaunchEvent::MessageEncoded { .. } => LaunchPhase::Initializing,
        LaunchEvent::Initialized => LaunchPhase::Serving,
        LaunchEvent::Interrupted => LaunchPhase::Killing,
        LaunchEvent::ServerStopped => LaunchPhase::Killing,
        _ => LaunchPhase::Finished,
    }
}

/// What `event` calls for, wherever it can happen.
pub open spec fn launch_action<E>(event: LaunchEvent<E>) -> LaunchAction<E> {
    match event {
        LaunchEvent::Started => LaunchAction::Connect,
        LaunchEvent::StartFailed { cause } => LaunchAction::Fail { cause },
        LaunchEvent::Connected => LaunchAction::ReadWasm,
        LaunchEvent::ConnectFailed { cause } => LaunchAction::Fail { cause },
        LaunchEvent::WasmRead { wasm } => LaunchAction::Encode { wasm },
        LaunchEvent::ReadFailed { cause } => LaunchAction::Panic {
            failure: LaunchFailure::Read,
            cause,
        },
        LaunchEvent::MessageEncoded { message } => LaunchAction::Initialize { message },
        LaunchEvent::EncodeFailed { cause } => LaunchAction::Panic {
            failure: LaunchFailure::Encode,
            cause,
        },
        LaunchEvent::Initialized => LaunchAction::Serve,
        LaunchEvent::InitializeFailed { cause } => LaunchAction::Panic {
            failure: LaunchFailure::Initialize,
            cause,
        },
        LaunchEvent::Interrupted => LaunchAction::Kill,
        LaunchEvent::ServerStopped => LaunchAction::Kill,
        LaunchEvent::VmmExited => LaunchAction::ReportExit,
        LaunchEvent::Killed => LaunchAction::Return,
        LaunchEvent::KillFailed { cause } => LaunchAction::Fail { cause },
    }
}

/// A launch.
pub struct Launch {
    phase: LaunchPhase,
}

impl View for Launch {
    type V = LaunchPhase;

    closed spec fn view(&self) -> LaunchPhase {
        self.phase
    }
}

impl Launch {
    /// A launch, which begins with starting the virtual machine.
    pub fn new() -> (launch: Launch)
        ensures
            launch@ == LaunchPhase::Starting,
    {
        Launch { phase: LaunchPhase::Starting }
    }

    /// Whether `event` can happen now.
    pub fn admits<E>(&self, event: &LaunchEvent<E>) -> (admitted: bool)
        ensures
            admitted == self@.admits(*event),
    {
        match (self.phase, event) {
            (LaunchPhase::Starting, LaunchEvent::Started) => true,
            (LaunchPhase::Starting, LaunchEvent::StartFailed { .. }) => true,
            (LaunchPhase::Connecting, LaunchEvent::Connected) => true,
            (LaunchPhase::Connecting, LaunchEvent::ConnectFailed { .. }) => true,
            (LaunchPhase::Reading, LaunchEvent::WasmRead { .. }) => true,
            (LaunchPhase::Reading, LaunchEvent::ReadFailed { .. }) => true,
            (LaunchPhase::Encoding, LaunchEvent::MessageEncoded { .. }) => true,
            (LaunchPhase::Encoding, LaunchEvent::EncodeFailed { .. }) => true,
            (LaunchPhase::Initializing, LaunchEvent::Initialized) => true,
            (LaunchPhase::Initializing, LaunchEvent::InitializeFailed { .. }) => true,
            (LaunchPhase::Serving, LaunchEvent::Interrupted) => true,
            (LaunchPhase::Serving, LaunchEvent::ServerStopped) => true,
            (LaunchPhase::Serving, LaunchEvent::VmmExited) => true,
            (LaunchPhase::Killing, LaunchEvent::Killed) => true,
            (LaunchPhase::Killing, LaunchEvent::KillFailed { .. }) => true,
            (_, _) => false,
        }
    }

    /// Takes the launch one step further: what `event` calls for.
    pub fn step<E>(&mut self, event: LaunchEvent<E>) -> (action: LaunchAction<E>)
        requires
            old(self)@.admits(event),
        ensures
            final(self)@ == launch_phase(event),
            action == launch_action(event),
    {
        let (phase, action) = match event {
            LaunchEvent::Started => (LaunchPhase::Connecting, LaunchAction::Connect),
            LaunchEvent::StartFailed { cause } => (
                LaunchPhase::Finished,
                LaunchAction::Fail { cause },
            ),
            LaunchEvent::Connected => (LaunchPhase::Reading, LaunchAction::ReadWasm),
            LaunchEvent::ConnectFailed { cause } => (
                LaunchPhase::Finished,
                LaunchAction::Fail { cause },
            ),
            LaunchEvent::WasmRead { wasm } => (
                LaunchPhase::Encoding,
                LaunchAction::Encode { wasm },
            ),
            LaunchEvent::ReadFailed { cause } => (
                LaunchPhase::Finished,
                LaunchAction::Panic { failure: LaunchFailure::Read, cause },
            ),
            LaunchEvent::MessageEncoded { message } => (
                LaunchPhase::Initializing,
                LaunchAction::Initialize { message },
            ),
            LaunchEvent::EncodeFailed { cause } => (
                LaunchPhase::Finished,
                LaunchAction::Panic { failure: LaunchFailure::Encode, cause },
            ),
            LaunchEvent::Initialized => (LaunchPhase::Serving, LaunchAction::Serve),
            LaunchEvent::InitializeFailed { cause } => (
                LaunchPhase::Finished,
                LaunchAction::Panic { failure: LaunchFailure::Initialize, cause },
            ),
            LaunchEvent::Interrupted => (LaunchPhase::Killing, LaunchAction::Kill),
            LaunchEvent::ServerStopped => (LaunchPhase::Killing, LaunchAction::Kill),
            LaunchEvent::VmmExited => (LaunchPhase::Finished, LaunchAction::ReportExit),
            LaunchEvent::Killed => (LaunchPhase::Finished, LaunchAction::Return),
            LaunchEvent::KillFailed { cause } => (
                LaunchPhase::Finished,
                LaunchAction::Fail { cause },
            ),
        };
        self.phase = phase;
        action
    }
}

/// Whether each of `events`, from the start of a launch on, can happen where it
/// stands.
pub open spec fn launch_admitted<E>(events: Seq<LaunchEvent<E>>) -> bool {
    &&& events.len() > 0 ==> LaunchPhase::Starting.admits(events[0])
    &&& forall|i: int, j: int|
        0 <= i && j == i + 1 && j < events.len() ==> launch_phase(#[trigger] events[i]).admits(
            #[trigger] events[j],
        )
}

/// The launcher serves only once the virtual machine was started, the channel was
/// created, the Wasm file was read, and the runtime was initialized with it.
pub proof fn law_runtime_is_initialized_before_serving<E>(events: Seq<LaunchEvent<E>>)
    requires
        launch_admitted(events),
        events.len() > 0,
        launch_action(events.last()) == LaunchAction::<E>::Serve,
    ensures
        events.len() == 5,
        events[0] is Started,
        events[1] is Connected,
        events[2] is WasmRead,
        events[3] is MessageEncoded,
        events[4] is Initialized,
{
    lemma_steps(events);
}

/// Up to the last event, a launch goes through its phases one after the other.
proof fn lemma_steps<E>(events: Seq<LaunchEvent<E>>)
    requires
        launch_admitted(events),
    ensures
        events.len() <= 7,
        events.len() > 0 ==> LaunchPhase::Starting.admits(events[0]),
        events.len() > 1 ==> events[0] is Started && LaunchPhase::Connecting.admits(events[1]),
        events.len() > 2 ==> events[1] is Connected && LaunchPhase::Reading.admits(events[2]),
        events.len() > 3 ==> events[2] is WasmRead && LaunchPhase::Encoding.admits(events[3]),
        events.len() > 4 ==> events[3] is MessageEncoded && LaunchPhase::Initializing.admits(
            events[4],
        ),
        events.len() > 5 ==> events[4] is Initialized && LaunchPhase::Serving.admits(events[5]),
        events.len() > 6 ==> (events[5] is Interrupted || events[5] is ServerStopped)
            && LaunchPhase::Killing.admits(events[6]),
{
    assert(events.len() > 1 ==> launch_phase(events[0]).admits(events[1]));
    assert(events.len() > 2 ==> launch_phase(events[1]).admits(events[2]));
    assert(events.len() > 3 ==> launch_phase(events[2]).admits(events[3]));
    assert(events.len() > 4 ==> launch_phase(events[3]).admits(events[4]));
    assert(events.len() > 5 ==> launch_phase(events[4]).admits(events[5]));
    assert(events.len() > 6 ==> launch_phase(events[5]).admits(events[6]));
    assert(events.len() > 7 ==> launch_phase(events[6]).admits(events[7]));
}

/// A launch comes to an end: nothing can happen after it is finished, and no more
/// than seven things happen before.
pub proof fn law_launch_ends<E>(events: Seq<LaunchEvent<E>>, next: LaunchEvent<E>)
    requires
        launch_admitted(events),
    ensures
        events.len() <= 7,
        !LaunchPhase::Finished.admits(next),
{
    lemma_steps(events);
}

/// What the runtime is initialized with is the message that was created from what
/// was read.
pub proof fn law_wasm_reaches_runtime<E>(wasm: Vec<u8>, message: Vec<u8>)
    ensures
        ({
            let read = LaunchEvent::<E>::WasmRead { wasm };
            let encoded = LaunchEvent::<E>::MessageEncoded { message };
            &&& LaunchPhase::Reading.admits(read)
            &&& launch_action(read) == LaunchAction::<E>::Encode { wasm }
            &&& launch_phase(read).admits(encoded)
            &&& launch_action(encoded) == LaunchAction::<E>::Initialize { message }
        }),
{
}

/// Whatever puts an end to serving, the launcher goes on to kill the virtual
/// machine, unless that came to an end by itself.
pub proof fn law_serving_ends_with_kill<E>(event: LaunchEvent<E>)
    requires
        LaunchPhase::Serving.admits(event),
    ensures
        launch_action(event) == LaunchAction::<E>::Kill <==> event is Interrupted
            || event is ServerStopped,
        launch_action(event) == LaunchAction::<E>::ReportExit <==> event is VmmExited,
        launch_action(event) is Kill || launch_action(event) is ReportExit,
{
}

/// Whatever the Wasm file holds, and whatever message is made of it, a launch in which
/// all goes well is admitted from the start to serving. It connects, reads the Wasm
/// file, has the message made of what was read, initializes the runtime with that
/// message, and serves.
pub proof fn law_launch_goes_well<E>(wasm: Vec<u8>, message: Vec<u8>)
    ensures
        ({
            let read = LaunchEvent::<E>::WasmRead { wasm };
            let encoded = LaunchEvent::<E>::MessageEncoded { message };
            &&& LaunchPhase::Starting.admits(LaunchEvent::<E>::Started)
            &&& launch_action(LaunchEvent::<E>::Started) == LaunchAction::<E>::Connect
            &&& launch_phase(LaunchEvent::<E>::Started).admits(LaunchEvent::<E>::Connected)
            &&& launch_action(LaunchEvent::<E>::Connected) == LaunchAction::<E>::ReadWasm
            &&& launch_phase(LaunchEvent::<E>::Connected).admits(read)
            &&& launch_action(read) == LaunchAction::<E>::Encode { wasm }
            &&& launch_phase(read).admits(encoded)
            &&& launch_action(encoded) == LaunchAction::<E>::Initialize { message }
            &&& launch_phase(encoded).admits(LaunchEvent::<E>::Initialized)
            &&& launch_action(LaunchEvent::<E>::Initialized) == LaunchAction::<E>::Serve
            &&& launch_admitted(
                seq![
                    LaunchEvent::<E>::Started,
                    LaunchEvent::<E>::Connected,
                    read,
                    encoded,
                    LaunchEvent::<E>::Initialized,
                ],
            )
        }),
{
}

/// Whatever was read and encoded before, each part of a launch can fail. The error is
/// returned where the virtual machine cannot be started, connected to or killed; the
/// launcher panics where the runtime cannot be initialized. Either way the cause is
/// the one that was told, and nothing can happen any more.
pub proof fn law_launch_can_fail<E>(
    wasm: Vec<u8>,
    message: Vec<u8>,
    cause: E,
    next: LaunchEvent<E>,
)
    ensures
        ({
            let start_failed = LaunchEvent::<E>::StartFailed { cause };
            let connect_failed = LaunchEvent::<E>::ConnectFailed { cause };
            let read_failed = LaunchEvent::<E>::ReadFailed { cause };
            let encode_failed = LaunchEvent::<E>::EncodeFailed { cause };
            let initialize_failed = LaunchEvent::<E>::InitializeFailed { cause };
            let kill_failed = LaunchEvent::<E>::KillFailed { cause };
            &&& LaunchPhase::Starting.admits(start_failed)
            &&& launch_action(start_failed) == LaunchAction::<E>::Fail { cause }
            &&& !launch_phase(start_failed).admits(next)
            &&& launch_phase(LaunchEvent::<E>::Started).admits(connect_failed)
            &&& launch_action(connect_failed) == LaunchAction::<E>::Fail { cause }
            &&& !launch_phase(connect_failed).admits(next)
            &&& launch_phase(LaunchEvent::<E>::Connected).admits(read_failed)
            &&& launch_action(read_failed) == LaunchAction::<E>::Panic {
                failure: LaunchFailure::Read,
                cause,
            }
            &&& !launch_phase(read_failed).admits(next)
            &&& launch_phase(LaunchEvent::<E>::WasmRead { wasm }).admits(encode_failed)
            &&& launch_action(encode_failed) == LaunchAction::<E>::Panic {
                failure: LaunchFailure::Encode,
                cause,
            }
            &&& !launch_phase(encode_failed).admits(next)
            &&& launch_phase(LaunchEvent::<E>::MessageEncoded { message }).admits(initialize_failed)
            &&& launch_action(initialize_failed) == LaunchAction::<E>::Panic {
                failure: LaunchFailure::Initialize,
                cause,
            }
            &&& !launch_phase(initialize_failed).admits(next)
            &&& launch_phase(LaunchEvent::<E>::Interrupted).admits(kill_failed)
            &&& launch_phase(LaunchEvent::<E>::ServerStopped).admits(kill_failed)
            &&& launch_action(kill_failed) == LaunchAction::<E>::Fail { cause }
            &&& !launch_phase(kill_failed).admits(next)
        }),
{
}

/// Serving ends with a signal, with the end of the server or with that of the virtual
/// machine. After the first two the virtual machine is killed, and the launcher
/// returns once it was; after the third the exit is reported. Nothing can happen any
/// more after that.
pub proof fn law_serving_comes_to_an_end<E>(next: LaunchEvent<E>)
    ensures
        ({
            let serving = launch_phase(LaunchEvent::<E>::Initialized);
            &&& serving.admits(LaunchEvent::<E>::Interrupted)
            &&& launch_action(LaunchEvent::<E>::Interrupted) == LaunchAction::<E>::Kill
            &&& launch_phase(LaunchEvent::<E>::Interrupted).admits(LaunchEvent::<E>::Killed)
            &&& serving.admits(LaunchEvent::<E>::ServerStopped)
            &&& launch_action(LaunchEvent::<E>::ServerStopped) == LaunchAction::<E>::Kill
            &&& launch_phase(LaunchEvent::<E>::ServerStopped).admits(LaunchEvent::<E>::Killed)
            &&& launch_action(LaunchEvent::<E>::Killed) == LaunchAction::<E>::Return
            &&& !launch_phase(LaunchEvent::<E>::Killed).admits(next)
            &&& serving.admits(LaunchEvent::<E>::VmmExited)
            &&& launch_action(LaunchEvent::<E>::VmmExited) == LaunchAction::<E>::ReportExit
            &&& !launch_phase(LaunchEvent::<E>::VmmExited).admits(next)
        }),
{
}

/// Nothing happens out of order: what can follow what in a launch, whatever the events
/// carry.
pub proof fn law_launch_order<E>(event: LaunchEvent<E>, next: LaunchEvent<E>)
    ensures
        LaunchPhase::Starting.admits(next) <==> next is Started || next is StartFailed,
        launch_phase(event).admits(next) <==> {
            ||| event is Started && (next is Connected || next is ConnectFailed)
            ||| event is Connected && (next is WasmRead || next is ReadFailed)
            ||| event is WasmRead && (next is MessageEncoded || next is EncodeFailed)
            ||| event is MessageEncoded && (next is Initialized || next is InitializeFailed)
            ||| event is Initialized && (next is Interrupted || next is ServerStopped
                || next is VmmExited)
            ||| (event is Interrupted || event is ServerStopped) && (next is Killed
                || next is KillFailed)
        },
{
}

} // verus!
