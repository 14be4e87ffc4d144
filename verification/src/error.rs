//! The ways in which resolving or instantiating an archetype can fail.

use vstd::prelude::*;
use vstd::string::*;
use crate::text::append;

verus! {

/// How a hook's process ended, as the caller observed it.
#[derive(Clone, Copy, Debug, PartialEq, Eq, Structural)]
pub enum ExitReport {
    /// The process ran and exited with this code.
    Exited(i32),
    /// The process ran and ended without an exit code.
    Killed,
    /// The process could not be started.
    NotStarted,
}

impl ExitReport {
    /// A hook succeeded exactly if its process exited with code zero.
    pub open spec fn succeeded(self) -> bool {
        self == ExitReport::Exited(0)
    }

    /// The exit code, where the process gave one.
    pub open spec fn code(self) -> Option<i32> {
        match self {
            ExitReport::Exited(c) => Some(c),
            _ => None,
        }
    }

    /// Whether the hook succeeded.
    pub fn is_success(self) -> (r: bool)
        ensures
            r == self.succeeded(),
    {
        match self {
            ExitReport::Exited(c) => c == 0,
            _ => false,
        }
    }

    /// The exit code, where the process gave one.
    pub fn exit_code(self) -> (r: Option<i32>)
        ensures
            r == self.code(),
    {
        match self {
            ExitReport::Exited(c) => Some(c),
            _ => None,
        }
    }
}

/// An error of the scaffolding engine. Each carries what is needed to tell the
/// user what went wrong: the archetype's name, a path, or the failing command.
#[derive(Clone, Debug, PartialEq, Eq)]
pub enum Error {
    /// No search root holds a template directory for the archetype `name`.
    NotFound { name: String },
    /// The template directory `path` holds no readable manifest.
    ManifestMissing { path: String },
    /// The manifest is not well-formed, or a field of it is missing or of the
    /// wrong type.
    ManifestInvalid { reason: String },
    /// The configuration file is not well-formed, or a field of it is of the
    /// wrong type.
    ConfigInvalid { reason: String },
    /// The destination `path` exists already.
    DestinationExists { path: String },
    /// Reading, writing or copying failed.
    Io { reason: String },
    /// The template engine rejected `template`.
    Render { template: String, reason: String },
    /// The hook `command` holds no word.
    HookEmpty { command: String },
    /// The hook `command` could not be started or did not succeed.
    HookFailed { command: String, status: Option<i32> },
}

/// The kinds of error, without what they carry.
#[derive(Clone, Copy, Debug, PartialEq, Eq, Structural)]
pub enum ErrorKind {
    NotFound,
    ManifestMissing,
    ManifestInvalid,
    ConfigInvalid,
    DestinationExists,
    Io,
    Render,
    HookEmpty,
    HookFailed,
}

impl Error {
    /// The kind of this error.
    pub open spec fn kind_spec(&self) -> ErrorKind {
        match self {
            Error::NotFound { .. } => ErrorKind::NotFound,
            Error::ManifestMissing { .. } => ErrorKind::ManifestMissing,
            Error::ManifestInvalid { .. } => ErrorKind::ManifestInvalid,
            Error::ConfigInvalid { .. } => ErrorKind::ConfigInvalid,
            Error::DestinationExists { .. } => ErrorKind::DestinationExists,
            Error::Io { .. } => ErrorKind::Io,
            Error::Render { .. } => ErrorKind::Render,
            Error::HookEmpty { .. } => ErrorKind::HookEmpty,
            Error::HookFailed { .. } => ErrorKind::HookFailed,
        }
    }

    /// What the error is about: the name, path, template or command that it
    /// carries, or its reason where it carries nothing else.
    pub open spec fn subject_spec(&self) -> Seq<char> {
        match self {
            Error::NotFound { name } => name@,
            Error::ManifestMissing { path } => path@,
            Error::ManifestInvalid { reason } => reason@,
            Error::ConfigInvalid { reason } => reason@,
            Error::DestinationExists { path } => path@,
            Error::Io { reason } => reason@,
            Error::Render { template, .. } => template@,
            Error::HookEmpty { command } => command@,
            Error::HookFailed { command, .. } => command@,
        }
    }

    /// The kind of this error.
    #[verifier::when_used_as_spec(kind_spec)]
    pub fn kind(&self) -> (r: ErrorKind)
        ensures
            r == self.kind_spec(),
    {
        match self {
            Error::NotFound { .. } => ErrorKind::NotFound,
            Error::ManifestMissing { .. } => ErrorKind::ManifestMissing,
            Error::ManifestInvalid { .. } => ErrorKind::ManifestInvalid,
            Error::ConfigInvalid { .. } => ErrorKind::ConfigInvalid,
            Error::DestinationExists { .. } => ErrorKind::DestinationExists,
            Error::Io { .. } => ErrorKind::Io,
            Error::Render { .. } => ErrorKind::Render,
            Error::HookEmpty { .. } => ErrorKind::HookEmpty,
            Error::HookFailed { .. } => ErrorKind::HookFailed,
        }
    }

    /// The sentence that introduces an error of each kind.
    pub open spec fn headline(kind: ErrorKind) -> Seq<char> {
        match kind {
            ErrorKind::NotFound => "Could not find template directory for archetype: "@,
            ErrorKind::ManifestMissing => "Failed to read archetype.toml in: "@,
            ErrorKind::ManifestInvalid => "Failed to parse archetype.toml: "@,
            ErrorKind::ConfigInvalid => "Failed to parse the configuration: "@,
            ErrorKind::DestinationExists => "Destination already exists: "@,
            ErrorKind::Io => "Input or output failed: "@,
            ErrorKind::Render => "Failed to render template: "@,
            ErrorKind::HookEmpty => "Empty command in hooks: "@,
            ErrorKind::HookFailed => "Hook command failed: "@,
        }
    }

    /// A line for the user: the headline of the kind, then the subject.
    pub fn message(&self) -> (r: String)
        ensures
            r@ == Error::headline(self.kind_spec()) + self.subject_spec(),
    {
        match self {
            Error::NotFound { name } => append(
                "Could not find template directory for archetype: ",
                name.as_str(),
            ),
            Error::ManifestMissing { path } => append(
                "Failed to read archetype.toml in: ",
                path.as_str(),
            ),
            Error::ManifestInvalid { reason } => append(
                "Failed to parse archetype.toml: ",
                reason.as_str(),
            ),
            Error::ConfigInvalid { reason } => append(
                "Failed to parse the configuration: ",
                reason.as_str(),
            ),
            Error::DestinationExists { path } => append(
                "Destination already exists: ",
                path.as_str(),
            ),
            Error::Io { reason } => append("Input or output failed: ", reason.as_str()),
            Error::Render { template, .. } => append(
                "Failed to render template: ",
                template.as_str(),
            ),
            Error::HookEmpty { command } => append("Empty command in hooks: ", command.as_str()),
            Error::HookFailed { command, .. } => append(
                "Hook command failed: ",
                command.as_str(),
            ),
        }
    }
}

} // verus!
