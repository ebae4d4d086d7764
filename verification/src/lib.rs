//! Process-lifecycle management for shell commands attached to a
//! pseudo-terminal: the data types for captured I/O, the status and
//! termination logic, and the descriptive records a host registry reads.
//!
//! The OS-facing pieces (the PTY pair, fork/exec, the capture thread) live
//! with the host; this crate holds the decisions they carry out and the
//! contracts those decisions obey.

use vstd::prelude::*;

pub mod capture;
pub mod error;
pub mod io;
pub mod process;
pub mod records;

use records::CellSpec;
use records::FuncSpec;

verus! {

/// Marker for the terminal capability as a whole.
pub struct TtyCell;

impl TtyCell {
    /// The registry record naming this capability.
    pub fn record() -> (r: CellSpec)
        ensures
            r.name@ == "tty"@,
            r.version@ == "0.1.0-dev"@,
            r.title@ == "TTY Cell"@,
            r.description@ == "TTY/terminal cell providing shell process management via PTY"@,
    {
        CellSpec {
            name: "tty",
            version: "0.1.0-dev",
            title: "TTY Cell",
            description: "TTY/terminal cell providing shell process management via PTY",
        }
    }
}

/// Marker for the spawn operation.
pub struct SpawnProcess;

impl SpawnProcess {
    /// The registry record for the spawn operation.
    pub fn record() -> (r: FuncSpec)
        ensures
            r.name@ == "spawn_process"@,
            r.title@ == "Spawn Process"@,
            r.description@ == "Spawn a new shell process with a PTY"@,
    {
        FuncSpec {
            name: "spawn_process",
            title: "Spawn Process",
            description: "Spawn a new shell process with a PTY",
        }
    }
}

/// Marker for the stop operation.
pub struct StopProcess;

impl StopProcess {
    /// The registry record for the stop operation.
    pub fn record() -> (r: FuncSpec)
        ensures
            r.name@ == "stop_process"@,
            r.title@ == "Stop Process"@,
            r.description@ == "Stop a running shell process (SIGTERM then SIGKILL)"@,
    {
        FuncSpec {
            name: "stop_process",
            title: "Stop Process",
            description: "Stop a running shell process (SIGTERM then SIGKILL)",
        }
    }
}

/// Marker for the status query.
pub struct QueryProcessStatus;

impl QueryProcessStatus {
    /// The registry record for the status query.
    pub fn record() -> (r: FuncSpec)
        ensures
            r.name@ == "process_status"@,
            r.title@ == "Process Status"@,
            r.description@ == "Query the status of a shell process"@,
    {
        FuncSpec {
            name: "process_status",
            title: "Process Status",
            description: "Query the status of a shell process",
        }
    }
}

/// Marker for the stdin write operation.
pub struct WriteStdin;

impl WriteStdin {
    /// The registry record for the stdin write operation.
    pub fn record() -> (r: FuncSpec)
        ensures
            r.name@ == "write_stdin"@,
            r.title@ == "Write Stdin"@,
            r.description@ == "Write bytes to the stdin of a shell process"@,
    {
        FuncSpec {
            name: "write_stdin",
            title: "Write Stdin",
            description: "Write bytes to the stdin of a shell process",
        }
    }
}

/// Marker for the stdout read operation.
pub struct ReadStdout;

impl ReadStdout {
    /// The registry record for the stdout read operation.
    pub fn record() -> (r: FuncSpec)
        ensures
            r.name@ == "read_stdout"@,
            r.title@ == "Read Stdout"@,
            r.description@ == "Read buffered stdout output from a shell process"@,
    {
        FuncSpec {
            name: "read_stdout",
            title: "Read Stdout",
            description: "Read buffered stdout output from a shell process",
        }
    }
}

} // verus!
