use oak_launcher::launch::{
    wasm_read_failure_text, Launch, LaunchAction, LaunchEvent, LaunchFailure,
};
use oak_launcher::launcher::{
    path_exists, Args, Mode, Params, Plan, DEFAULT_CROSVM, DEFAULT_QEMU, SERVER_ADDRESS,
};

fn step(launch: &mut Launch, event: LaunchEvent<u8>) -> LaunchAction<u8> {
    assert!(launch.admits(&event));
    launch.step(event)
}

fn serving() -> Launch {
    let mut launch = Launch::new();
    assert_eq!(step(&mut launch, LaunchEvent::Started), LaunchAction::Connect);
    assert_eq!(step(&mut launch, LaunchEvent::Connected), LaunchAction::ReadWasm);
    assert_eq!(
        step(&mut launch, LaunchEvent::WasmRead { wasm: vec![1] }),
        LaunchAction::Encode { wasm: vec![1] }
    );
    assert_eq!(
        step(&mut launch, LaunchEvent::MessageEncoded { message: vec![2] }),
        LaunchAction::Initialize { message: vec![2] }
    );
    assert_eq!(step(&mut launch, LaunchEvent::Initialized), LaunchAction::Serve);
    launch
}

fn args(mode: Mode) -> Args<&'static str> {
    Args {
        qemu: "qemu",
        crosvm: "crosvm",
        mode,
        app: "app",
        wasm: "wasm",
        lookup_data: "lookup",
        gdb: Some(1234),
    }
}

#[test]
fn plan_takes_the_binary_of_the_mode() {
    for (mode, binary) in [(Mode::Qemu, "qemu"), (Mode::Crosvm, "crosvm")] {
        let expected = Plan {
            mode,
            params: Params { binary, app: "app", console: 3, gdb: Some(1234) },
            wasm: "wasm",
            lookup_data: "lookup",
        };
        assert_eq!(args(mode).plan(3), expected);
    }
}

#[test]
fn only_files_exist() {
    assert_eq!(path_exists(Ok(true)), Ok(()));
    assert_eq!(path_exists(Ok(false)), Err("Path does not represent a file".to_string()));
    assert_eq!(path_exists(Err("no".to_string())), Err("no".to_string()));
}

#[test]
fn server_address() {
    assert_eq!(SERVER_ADDRESS, "127.0.0.1:8080");
}

#[test]
fn signal_kills_the_virtual_machine() {
    let mut launch = serving();
    assert_eq!(step(&mut launch, LaunchEvent::Interrupted), LaunchAction::Kill);
    assert_eq!(step(&mut launch, LaunchEvent::Killed), LaunchAction::Return);
    assert!(!launch.admits(&LaunchEvent::<u8>::VmmExited));
}

#[test]
fn end_of_server_kills_the_virtual_machine() {
    let mut launch = serving();
    assert_eq!(step(&mut launch, LaunchEvent::ServerStopped), LaunchAction::Kill);
    assert_eq!(
        step(&mut launch, LaunchEvent::KillFailed { cause: 4 }),
        LaunchAction::Fail { cause: 4 }
    );
}

#[test]
fn end_of_virtual_machine_is_reported() {
    let mut launch = serving();
    assert_eq!(step(&mut launch, LaunchEvent::VmmExited), LaunchAction::ReportExit);
    assert!(!launch.admits(&LaunchEvent::<u8>::Killed));
}

#[test]
fn failures_on_the_way() {
    let mut launch = Launch::new();
    let action = step(&mut launch, LaunchEvent::StartFailed { cause: 1 });
    assert_eq!(action, LaunchAction::Fail { cause: 1 });

    let mut launch = Launch::new();
    step(&mut launch, LaunchEvent::Started);
    let action = step(&mut launch, LaunchEvent::ConnectFailed { cause: 2 });
    assert_eq!(action, LaunchAction::Fail { cause: 2 });

    let mut launch = Launch::new();
    step(&mut launch, LaunchEvent::Started);
    step(&mut launch, LaunchEvent::Connected);
    let action = step(&mut launch, LaunchEvent::ReadFailed { cause: 3 });
    assert_eq!(action, LaunchAction::Panic { failure: LaunchFailure::Read, cause: 3 });

    let mut launch = Launch::new();
    step(&mut launch, LaunchEvent::Started);
    step(&mut launch, LaunchEvent::Connected);
    step(&mut launch, LaunchEvent::WasmRead { wasm: vec![] });
    let action = step(&mut launch, LaunchEvent::EncodeFailed { cause: 4 });
    assert_eq!(action, LaunchAction::Panic { failure: LaunchFailure::Encode, cause: 4 });

    let mut launch = Launch::new();
    step(&mut launch, LaunchEvent::Started);
    step(&mut launch, LaunchEvent::Connected);
    step(&mut launch, LaunchEvent::WasmRead { wasm: vec![] });
    step(&mut launch, LaunchEvent::MessageEncoded { message: vec![] });
    assert!(!launch.admits(&LaunchEvent::<u8>::Interrupted));
    let action = step(&mut launch, LaunchEvent::InitializeFailed { cause: 5 });
    assert_eq!(action, LaunchAction::Panic { failure: LaunchFailure::Initialize, cause: 5 });
}

#[test]
fn failure_texts() {
    let path = "/tmp/module.wasm";
    assert_eq!(LaunchFailure::Read.text(path), "Couldn't read Wasm file /tmp/module.wasm");
    assert_eq!(LaunchFailure::Encode.text(path), "errored when creating initialization message");
    assert_eq!(LaunchFailure::Initialize.text(path), "failed to initialize the runtime");
    assert_eq!(wasm_read_failure_text("a b"), "Couldn't read Wasm file a b");
}

#[test]
fn command_line_defaults() {
    assert_eq!(Mode::default(), Mode::Qemu);
    assert_eq!(DEFAULT_QEMU, "/usr/bin/qemu-system-x86_64");
    assert_eq!(DEFAULT_CROSVM, "/usr/local/cargo/bin/crosvm");
}
