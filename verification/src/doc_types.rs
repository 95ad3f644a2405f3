//! The document model: the in-memory representation of one parsed config
//! file. A `Doc` describes a package and owns its `Node`s; a `Node` owns its
//! topic, parameter and launch lists. The model is a pure tree with no
//! behavior of its own.

use vstd::prelude::*;

verus! {

/// Top level doc representation: one package and the nodes it contains.
pub struct Doc {
    /// Name of the package containing all of the nodes in this doc.
    pub package_name: String,
    /// Optional link to the repo containing this package.
    pub repo: Option<String>,
    /// The nodes in this package.
    pub nodes: Vec<Node>,
}

/// One documented software component.
pub struct Node {
    /// Name of the node; also the stem of its output filename.
    pub node_name: String,
    /// Source file(s) of the node.
    pub source_file: Vec<String>,
    /// Summary of functionality.
    pub summary: String,
    /// Description of potential improvements to the node.
    pub potential_improvements: Option<String>,
    /// Anything else to be included in the documentation.
    pub misc: Option<String>,
    /// Topics published to, if any.
    pub publishes: Option<Vec<Topic>>,
    /// Topics subscribed to, if any.
    pub subscribes: Option<Vec<Topic>>,
    /// Node parameters.
    pub params: Option<Vec<Param>>,
    /// Launchfile information.
    pub launch: Option<Vec<LaunchInfo>>,
}

/// A named publish/subscribe channel description.
pub struct Topic {
    pub name: String,
    pub description: String,
}

/// A named configurable value description; also the shape of launch arguments.
pub struct Param {
    pub name: String,
    pub description: String,
}

/// How a node is started: a launchfile path, usage text, and optional
/// remappings and arguments.
pub struct LaunchInfo {
    pub file_path: String,
    pub usage: String,
    pub args: Option<Vec<Param>>,
    pub remap: Option<Vec<Remap>>,
}

/// One name remapping applied at launch time.
pub struct Remap {
    pub from: String,
    pub to: String,
}

} // verus!
