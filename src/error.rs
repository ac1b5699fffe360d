use vstd::prelude::*;

verus! {

/// Why one line of the user override file was rejected.
#[derive(Debug, Clone, Copy, PartialEq, Eq)]
pub enum EnvLineError {
    /// The line holds no `=`.
    MissingEquals,
    /// The text before the first `=` is blank.
    EmptyKey,
}

/// Every way in which bringing the runtime up can fail.
#[derive(Debug, Clone, PartialEq, Eq)]
pub enum BootstrapError {
    /// A fixed loopback port is already taken by another listener.
    PortUnavailable { port: u16 },
    /// No candidate directory holds the runtime layout; `checked` lists them all.
    RuntimeNotFound { checked: Vec<String> },
    /// A required executable or entry point is absent.
    MissingRuntimeFile { path: String },
    /// Neither the standalone server executable nor interpreter plus script exists.
    LauncherNotFound { executable: String, interpreter: String, entry: String },
    /// The user override file has a malformed line; `line` counts from 1.
    EnvFileMalformed { line: usize, problem: EnvLineError },
    /// The user override file exists but could not be read.
    EnvFileUnreadable { path: String, detail: String },
    /// The per-user data directory could not be determined.
    DataDirUnavailable { detail: String },
    /// A data, temp or log directory could not be created.
    DirectoryCreateFailed { path: String, detail: String },
    /// The operating system refused to start a service.
    SpawnFailed { program: String, detail: String },
    /// A service terminated before its port accepted connections.
    ServiceExitedBeforeReady {
        service: String,
        port: u16,
        status: String,
        stderr_log: String,
        stderr_tail: String,
    },
    /// A service did not open its port within the time allowed.
    ServiceReadinessTimeout { service: String, port: u16, stdout_log: String, stderr_log: String },
    /// The state of a service's process could not be queried.
    ProcessStatusCheckFailed {
        service: String,
        detail: String,
        stdout_log: String,
        stderr_log: String,
    },
}

} // verus!
