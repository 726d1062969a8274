//! What the launcher is told on its command line, and what it makes of it.

use vstd::prelude::*;

verus! {

/// The address that the launcher serves on.
pub const SERVER_ADDRESS: &'static str = "127.0.0.1:8080";

/// The path of the `qemu-system-x86_64` binary, where the command line gives none.
pub const DEFAULT_QEMU: &'static str = "/usr/bin/qemu-system-x86_64";

/// The path of the `crosvm` binary, where the command line gives none.
pub const DEFAULT_CROSVM: &'static str = "/usr/local/cargo/bin/crosvm";

/// The virtual machine monitor to run the guest under.
#[derive(Debug, Clone, Copy, PartialEq, Eq, Structural)]
pub enum Mode {
    Qemu,
    Crosvm,
}

impl Default for Mode {
    /// The mode, where the command line gives none.
    fn default() -> (mode: Mode)
        ensures
            mode == Mode::Qemu,
    {
        Mode::Qemu
    }
}

/// The command line, `P` being the type of a path.
#[derive(Debug, PartialEq, Eq)]
pub struct Args<P> {
    /// Path to the `qemu-system-x86_64` binary.
    pub qemu: P,
    /// Path to the `crosvm` binary.
    pub crosvm: P,
    /// Execution mode.
    pub mode: Mode,
    /// Path to the kernel to execute.
    pub app: P,
    /// Path to a Wasm file to be loaded into the trusted runtime.
    pub wasm: P,
    /// Path to a file with the entries for lookup.
    pub lookup_data: P,
    /// The port on which to wait for a connection from gdb.
    pub gdb: Option<u16>,
}

/// What a virtual machine monitor is started with, `C` being the type of a
/// console.
#[derive(Debug, PartialEq, Eq)]
pub struct Params<P, C> {
    /// Path to the binary of the monitor.
    pub binary: P,
    /// Path to the kernel to execute.
    pub app: P,
    /// The guest's end of the console.
    pub console: C,
    /// The port on which to wait for a connection from gdb.
    pub gdb: Option<u16>,
}

/// What the launcher does with its command line.
#[derive(Debug, PartialEq, Eq)]
pub struct Plan<P, C> {
    /// The monitor to start.
    pub mode: Mode,
    /// What to start it with.
    pub params: Params<P, C>,
    /// The Wasm file to initialize the runtime with.
    pub wasm: P,
    /// The file to load lookup data from.
    pub lookup_data: P,
}

impl<P> Args<P> {
    /// The plan for this command line and for a console: the monitor of the mode
    /// is started, from the binary given for it.
    pub fn plan<C>(self, console: C) -> (plan: Plan<P, C>)
        ensures
            plan.mode == self.mode,
            plan.params.binary == match self.mode {
                Mode::Qemu => self.qemu,
                Mode::Crosvm => self.crosvm,
            },
            plan.params.app == self.app,
            plan.params.console == console,
            plan.params.gdb == self.gdb,
            plan.wasm == self.wasm,
            plan.lookup_data == self.lookup_data,
    {
        let binary = match self.mode {
            Mode::Qemu => self.qemu,
            Mode::Crosvm => self.crosvm,
        };
        Plan {
            mode: self.mode,
            params: Params { binary, app: self.app, console, gdb: self.gdb },
            wasm: self.wasm,
            lookup_data: self.lookup_data,
        }
    }
}

/// Whether a path on the command line can stand, given what its metadata say of
/// it: whether it is a file, or why there are none.
pub fn path_exists(is_file: Result<bool, String>) -> (res: Result<(), String>)
    ensures
        res is Ok <==> is_file == Ok::<bool, String>(true),
        is_file matches Err(err) ==> res == Err::<(), String>(err),
        is_file == Ok::<bool, String>(false) ==> (res matches Err(text) && text@
            == "Path does not represent a file"@),
{
    match is_file {
        Err(err) => Err(err),
        Ok(false) => Err("Path does not represent a file".to_owned()),
        Ok(true) => Ok(()),
    }
}

} // verus!
