//! The errors of the library and the messages they read as.
use vstd::prelude::*;
use crate::config::GuestOs;
use crate::text::{concat2, concat3, owned};

verus! {

#[verifier::external_type_specification]
#[verifier::external_body]
pub struct ExIoError(std::io::Error);

/// Errors that can occur when running a VM.
#[derive(Debug)]
pub enum Error {
    NoBackendAvailable,
    BackendUnavailable { name: String, reason: String },
    UnsupportedFeature(String),
    InvalidConfig(String),
    MissingConfig(String),
    UnsupportedGuestOs(GuestOs),
    StartFailed(String),
    NotRunning,
    AlreadyRunning,
    ConsoleNotEnabled,
    Timeout(String),
    PatternNotFound { pattern: String },
    Agent(String),
    PoolEmpty,
    PoolShutdown,
    Hypervisor(String),
    Io(std::io::Error),
}

/// Results whose error is an [`Error`].
pub type Result<T> = core::result::Result<T, Error>;

/// The name `{:?}` gives a guest OS.
pub open spec fn guest_os_name(os: GuestOs) -> Seq<char> {
    match os {
        GuestOs::Linux => "Linux"@,
    }
}

/// The message of every error but an I/O error, whose text comes from the I/O error itself.
pub open spec fn error_message(e: Error) -> Seq<char> {
    match e {
        Error::NoBackendAvailable => "no suitable hypervisor backend available"@,
        Error::BackendUnavailable { name, reason } => "backend '"@ + name@ + "' is not available: "@ + reason@,
        Error::UnsupportedFeature(s) => "feature not supported: "@ + s@,
        Error::InvalidConfig(s) => "invalid configuration: "@ + s@,
        Error::MissingConfig(s) => "missing required configuration: "@ + s@,
        Error::UnsupportedGuestOs(os) => "guest OS not supported by backend: "@ + guest_os_name(os),
        Error::StartFailed(s) => "VM failed to start: "@ + s@,
        Error::NotRunning => "VM is not running"@,
        Error::AlreadyRunning => "VM is already running"@,
        Error::ConsoleNotEnabled => "console not enabled for this VM"@,
        Error::Timeout(s) => "operation timed out: "@ + s@,
        Error::PatternNotFound { pattern } => "pattern not found in console output: "@ + pattern@,
        Error::Agent(s) => "agent error: "@ + s@,
        Error::PoolEmpty => "no VMs available in pool"@,
        Error::PoolShutdown => "pool is shutting down"@,
        Error::Hypervisor(s) => "hypervisor error: "@ + s@,
        Error::Io(_) => "IO error: "@,
    }
}

/// The text of an I/O error (`Display` of `std::io::Error`).
#[verifier::external_body]
fn io_error_text(e: &std::io::Error) -> String {
    e.to_string()
}

impl Error {
    /// The message this error reads as. For an I/O error it is "IO error: " followed by the
    /// I/O error's own text.
    pub fn to_string(&self) -> (r: String)
        ensures
            !(self is Io) ==> r@ == error_message(*self),
            self is Io ==> r@.len() >= error_message(*self).len()
                && r@.subrange(0, error_message(*self).len() as int) == error_message(*self),
    {
        match self {
            Error::NoBackendAvailable => owned("no suitable hypervisor backend available"),
            Error::BackendUnavailable { name, reason } => {
                let head = concat3("backend '", name.as_str(), "' is not available: ");
                concat2(head.as_str(), reason.as_str())
            },
            Error::UnsupportedFeature(s) => concat2("feature not supported: ", s.as_str()),
            Error::InvalidConfig(s) => concat2("invalid configuration: ", s.as_str()),
            Error::MissingConfig(s) => concat2("missing required configuration: ", s.as_str()),
            Error::UnsupportedGuestOs(os) => match os {
                GuestOs::Linux => concat2("guest OS not supported by backend: ", "Linux"),
            },
            Error::StartFailed(s) => concat2("VM failed to start: ", s.as_str()),
            Error::NotRunning => owned("VM is not running"),
            Error::AlreadyRunning => owned("VM is already running"),
            Error::ConsoleNotEnabled => owned("console not enabled for this VM"),
            Error::Timeout(s) => concat2("operation timed out: ", s.as_str()),
            Error::PatternNotFound { pattern } => concat2("pattern not found in console output: ", pattern.as_str()),
            Error::Agent(s) => concat2("agent error: ", s.as_str()),
            Error::PoolEmpty => owned("no VMs available in pool"),
            Error::PoolShutdown => owned("pool is shutting down"),
            Error::Hypervisor(s) => concat2("hypervisor error: ", s.as_str()),
            Error::Io(e) => {
                let text = io_error_text(e);
                let r = concat2("IO error: ", text.as_str());
                assert(r@.subrange(0, error_message(*self).len() as int) =~= error_message(*self));
                r
            },
        }
    }
}

impl From<std::io::Error> for Error {
    fn from(e: std::io::Error) -> (r: Error) {
        Error::Io(e)
    }
}

impl vstd::std_specs::convert::FromSpecImpl<std::io::Error> for Error {
    open spec fn obeys_from_spec() -> bool {
        true
    }

    open spec fn from_spec(v: std::io::Error) -> Error {
        Error::Io(v)
    }
}

} // verus!
