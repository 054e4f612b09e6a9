//! The error taxonomy of the agent.

use vstd::prelude::*;

verus! {

/// Everything that can go wrong while the controller brings the agent up.
///
/// Fatal errors abort the startup sequence; non-fatal ones are reported to
/// the caller for logging while the surrounding phase carries on.
#[derive(Clone, Copy, Debug, PartialEq, Eq, Structural)]
pub enum AgentError {
    /// A required environment setting is missing or the image file is
    /// unreadable.  Raised before any kernel resource is touched.
    ConfigError,
    /// The image failed to parse, or a program inside it failed to load.
    LoadError,
    /// A named map is absent from the loaded image (or already taken).
    MapNotFound,
    /// A named program is absent from the loaded image.
    ProgramNotFound,
    /// A probe or per-interface classifier attachment failed.  Non-fatal:
    /// the failing unit of work is skipped and its siblings proceed.
    AttachError,
    /// Pinning a map under the pin directory failed.  Fatal for the whole
    /// startup sequence.
    PinError,
    /// Creating the pin directory failed.  Reported for logging only, never
    /// propagated, so pinning may subsequently fail on a missing directory.
    DirectoryCreationError,
}

impl AgentError {
    /// Whether this error aborts the phase that raised it.
    pub open spec fn spec_is_fatal(self) -> bool {
        match self {
            AgentError::ConfigError => true,
            AgentError::LoadError => true,
            AgentError::MapNotFound => true,
            AgentError::ProgramNotFound => true,
            AgentError::AttachError => false,
            AgentError::PinError => true,
            AgentError::DirectoryCreationError => false,
        }
    }

    /// Whether this error aborts the phase that raised it.
    pub fn is_fatal(&self) -> (r: bool)
        ensures
            r == self.spec_is_fatal(),
    {
        match self {
            AgentError::ConfigError => true,
            AgentError::LoadError => true,
            AgentError::MapNotFound => true,
            AgentError::ProgramNotFound => true,
            AgentError::AttachError => false,
            AgentError::PinError => true,
            AgentError::DirectoryCreationError => false,
        }
    }
}

} // verus!
