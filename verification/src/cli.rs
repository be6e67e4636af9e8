//! The command vocabulary of the toolkit and the documentation sources it
//! can fetch.  Argument parsing itself happens outside the library.

use vstd::prelude::*;

verus! {

/// One invocation: an optional working directory and a single command.
#[derive(Debug, Clone)]
pub struct Cli {
    pub directory: Option<String>,
    pub commands: Commands,
}

/// The commands the toolkit understands.
#[derive(Debug, Clone)]
pub enum Commands {
    /// Create a new Moxen project.
    New { name: String, docs: Option<DocumentationType> },
    /// Add packages as dependencies of this addon or library.
    Add { names: Vec<String> },
    /// Display information about a Moxen project.
    Info,
    /// Package a Moxen project ready for publishing.
    Package,
    /// Publish a Moxen project to the registry.
    Publish,
    /// Register to the Moxen registry.
    Register { name: String },
    /// Recover an account with a recovery code.
    Recover { name: String, recovery_code: String },
    /// Add a Moxen.toml manifest to an existing project.
    Moxify,
    /// Clean any packaged artifacts.
    Clean,
}

/// Which World of Warcraft environment's interface documentation to fetch.
#[derive(Debug, Clone, Copy, PartialEq, Eq, Structural)]
pub enum DocumentationType {
    Live,
    Classic,
    Vanilla,
}

impl DocumentationType {
    /// The upstream interface-source repository for this environment.
    pub open spec fn repo_spec(&self) -> Seq<char> {
        match self {
            DocumentationType::Live => "https://github.com/Gethe/wow-ui-source/tree/live"@,
            DocumentationType::Classic => "https://github.com/Gethe/wow-ui-source/tree/classic"@,
            DocumentationType::Vanilla => (
            "https://github.com/Gethe/wow-ui-source/tree/classic_era")@,
        }
    }

    pub fn repo(&self) -> (r: String)
        ensures
            r@ == self.repo_spec(),
    {
        match self {
            DocumentationType::Live => String::from_str(
                "https://github.com/Gethe/wow-ui-source/tree/live",
            ),
            DocumentationType::Classic => String::from_str(
                "https://github.com/Gethe/wow-ui-source/tree/classic",
            ),
            DocumentationType::Vanilla => String::from_str(
                "https://github.com/Gethe/wow-ui-source/tree/classic_era",
            ),
        }
    }

    /// The branch of the upstream repository holding this environment's
    /// documentation.
    pub open spec fn branch_spec(&self) -> Seq<char> {
        match self {
            DocumentationType::Live => "live"@,
            DocumentationType::Classic => "classic"@,
            DocumentationType::Vanilla => "classic_era"@,
        }
    }

    pub fn branch(&self) -> (r: String)
        ensures
            r@ == self.branch_spec(),
    {
        match self {
            DocumentationType::Live => String::from_str("live"),
            DocumentationType::Classic => String::from_str("classic"),
            DocumentationType::Vanilla => String::from_str("classic_era"),
        }
    }
}

} // verus!
