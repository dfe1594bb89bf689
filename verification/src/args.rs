//! The commands of the program, as plain values.

use vstd::prelude::*;

verus! {

/// What the program was asked to do.
#[derive(Debug, PartialEq, Eq)]
pub enum Subcommands {
    /// Fetch a template from a repository and build a project from it.
    Git {
        /// The user and the repository where the template lies, as `user/repo`.
        repository: String,
        /// The project's name, which is also its directory.
        name: String,
        /// Build the project even if its directory exists.
        force: bool,
    },
    /// Build a project from a template in a local directory.
    New {
        /// The directory of the template, in the current directory or under
        /// the directory of global templates.
        directory: String,
        /// The project's name, which is also its directory.
        name: String,
        /// Build the project even if its directory exists.
        force: bool,
    },
    /// List the templates that are available.
    List,
}

/// The arguments of the program.
#[derive(Debug, PartialEq, Eq)]
pub struct Args {
    pub subcommand: Subcommands,
}

impl Subcommands {
    /// Whether the command asks to build over a directory that exists: only
    /// a command that builds a project can ask for it.
    pub open spec fn asks_to_force(self) -> bool {
        match self {
            Subcommands::Git { force, .. } => force,
            Subcommands::New { force, .. } => force,
            Subcommands::List => false,
        }
    }

    /// Whether the command asks to build over a directory that exists.
    pub fn forces(&self) -> (force: bool)
        ensures
            force == self.asks_to_force(),
    {
        match self {
            Subcommands::Git { force, .. } => *force,
            Subcommands::New { force, .. } => *force,
            Subcommands::List => false,
        }
    }
}

} // verus!
