//! The command-line surface as plain data: the argument records the tool's
//! subcommands carry. Parsing them from the actual command line is the
//! caller's concern; the records here hold only plain values.

use vstd::prelude::*;

verus! {

/// Top-level invocation: an optional shorthand project name, an optional
/// subcommand, and the logging severity.
#[derive(Debug, Clone)]
pub struct GDSetup {
    /// Shorthand for initializing a new project of this name.
    pub name: Option<String>,
    /// The subcommand to run; without one, initialization is implied.
    pub command: Option<Commands>,
    /// One of the fixed logging severities.
    pub log_level: String,
}

/// Arguments of the rename subcommand.
#[derive(Debug, Clone)]
pub struct RenameArgs {
    /// The module's current root identifier.
    pub old_modulename: String,
    /// The root identifier to rename it to.
    pub new_modulename: String,
    /// Path to an existing generated project folder.
    pub path: Option<String>,
    /// Whether to skip invoking the build tool afterwards.
    pub nobuild: bool,
}

/// Arguments of the add subcommand.
#[derive(Debug, Clone)]
pub struct AddArgs {
    /// The root identifier of the additional module.
    pub name: String,
}

/// Arguments of the init subcommand.
#[derive(Debug, Clone)]
pub struct InitArgs {
    /// Shorthand position for the project path.
    pub path: Option<String>,
    /// The project path given as a flag.
    pub path2: Option<String>,
    /// Whether to skip invoking the build tool afterwards.
    pub nobuild: bool,
}

impl InitArgs {
    /// The path argument actually used: the shorthand wins over the flag.
    pub fn chosen_path(&self) -> (r: Option<String>)
        ensures
            self.path is Some ==> r == self.path,
            self.path is None ==> r == self.path2,
    {
        match &self.path {
            Option::Some(p) => Option::Some(p.clone()),
            Option::None => match &self.path2 {
                Option::Some(p) => Option::Some(p.clone()),
                Option::None => Option::None,
            },
        }
    }
}

/// The tool's subcommands.
#[derive(Debug, Clone)]
pub enum Commands {
    /// Create or initialize a project folder.
    Init(InitArgs),
    /// Rename every occurrence of a module's root identifier.
    Rename(RenameArgs),
    /// Create another module.
    Add(AddArgs),
}

} // verus!
