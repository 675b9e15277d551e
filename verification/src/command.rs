//! The subcommands of the tool and what stands behind each of them.

use vstd::prelude::*;

verus! {

/// The subcommand selected on the command line.
#[derive(Clone, Copy, Debug, PartialEq, Eq, Structural)]
pub enum Commands {
    /// Initialise an infra project.
    Init,
    /// Add an environment.
    AddEnv,
    /// Add a cache.
    AddCache,
    /// Add a message queue.
    AddMessageQueue,
    /// Add a relational database exporter.
    AddRDBMS,
    /// Apply a snapshot to an environment.
    Apply,
    /// Build the infra base images.
    Build,
    /// Build the command line tool itself.
    BuildCli,
    /// Upload the command line tool.
    UploadCli,
    /// Register a portal with the identity service, or update its entry.
    InstallOrUpdatePortal,
}

/// The kind of handler that runs for a subcommand once the session is valid.
#[derive(Clone, Copy, Debug, PartialEq, Eq, Structural)]
pub enum Handler {
    /// Prints a greeting and does nothing else.
    Placeholder,
    /// Has no body yet: running it aborts the process.
    NotImplemented,
    /// The portal installer, the one handler that does real work.
    PortalInstaller,
}

impl Commands {
    /// The handler behind each subcommand.
    pub open spec fn spec_handler(self) -> Handler {
        match self {
            Commands::Build | Commands::BuildCli | Commands::UploadCli => Handler::NotImplemented,
            Commands::InstallOrUpdatePortal => Handler::PortalInstaller,
            _ => Handler::Placeholder,
        }
    }

    /// Tells which handler runs for this subcommand.
    #[verifier::when_used_as_spec(spec_handler)]
    pub fn handler(self) -> (h: Handler)
        ensures
            h == self.spec_handler(),
    {
        match self {
            Commands::Init => Handler::Placeholder,
            Commands::AddEnv => Handler::Placeholder,
            Commands::AddCache => Handler::Placeholder,
            Commands::AddMessageQueue => Handler::Placeholder,
            Commands::AddRDBMS => Handler::Placeholder,
            Commands::Apply => Handler::Placeholder,
            Commands::Build => Handler::NotImplemented,
            Commands::BuildCli => Handler::NotImplemented,
            Commands::UploadCli => Handler::NotImplemented,
            Commands::InstallOrUpdatePortal => Handler::PortalInstaller,
        }
    }
}

} // verus!
