//! Derived-symbol generation and rename engine for native plugin project
//! skeletons: from one root identifier it derives a fixed family of symbol
//! spellings, renders a catalog of project artifacts from templates, and can
//! later rewrite a generated project tree to use a different root identifier.
//!
//! The crate holds only the pure logic: derivation, templates, the generation
//! plan and the rename plan. All file-system work is left to the caller.

pub mod catalog;
pub mod cli;
pub mod codegen;
pub mod rename;
pub mod replace;
pub mod symbols;
pub mod text;

pub use cli::{AddArgs, Commands, GDSetup, InitArgs, RenameArgs};
pub use symbols::is_valid_root;

use vstd::prelude::*;
use vstd::string::*;

verus! {

/// The platform shell through which external tools are invoked: `cmd /C` on
/// Windows, `sh -c` everywhere else. The caller states which platform it is
/// running on.
pub fn get_basecommand(windows: bool) -> (r: (String, String))
    ensures
        windows ==> r.0@ == "cmd"@ && r.1@ == "/C"@,
        !windows ==> r.0@ == "sh"@ && r.1@ == "-c"@,
{
    if windows {
        (String::from_str("cmd"), String::from_str("/C"))
    } else {
        (String::from_str("sh"), String::from_str("-c"))
    }
}

} // verus!
