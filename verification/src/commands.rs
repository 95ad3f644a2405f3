//! The commands the tool understands, as plain data. Argument parsing and
//! help text live outside the library; these types carry what a command
//! needs once it has been read.

use vstd::prelude::*;

verus! {

/// The selected command.
pub struct Cli {
    pub command: Commands,
}

/// The closed set of output document formats.
#[derive(Clone, Copy, PartialEq, Eq, Structural, Debug)]
pub enum GenTypes {
    /// Generates a markdown (.md) document.
    Markdown,
}

/// Everything the `gen` command needs: where to search, where to write,
/// whether to recurse, whether to build the index, and the output format.
pub struct GenCommand {
    /// Directory to search for config files.
    pub source_dir: String,
    /// Directory to place generated docs in.
    pub dest_dir: String,
    /// Recursively search directories for more configs.
    pub recurse: bool,
    /// Also write an aggregate index document.
    pub readme: bool,
    /// Type of document to generate.
    pub doc_type: GenTypes,
}

/// Every command of the tool.
pub enum Commands {
    /// Generate documentation for one or many nodes.
    Gen(GenCommand),
    /// Create an empty config file for the named node.
    Init { node_name: String },
    /// Lint source files to ensure accurate documentation; reserved.
    Verify {},
}

} // verus!
