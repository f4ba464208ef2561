//! The command-line surface of the generator.
//!
//! The generator has a single subcommand, `gen`, which takes the root path
//! of the site. Parsing of the actual command line happens outside this
//! library; these types carry the parsed result.

use vstd::prelude::*;

verus! {

/// A parsed command line: the one subcommand that was requested.
pub struct Opt {
    pub cmd: Command,
}

/// The subcommands of the generator.
pub enum Command {
    /// Generate the site rooted at the given path.
    Gen { url: String },
}

} // verus!
