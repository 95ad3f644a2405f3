//! Documentation generators: the rendering rules that turn a document model
//! into output text, one blob per node, plus the aggregate index document.
//!
//! The exact text of every section is stated by spec functions; the exec
//! renderers are proved to produce exactly that text.

use crate::doc_types::{Doc, LaunchInfo, Node, Param, Remap, Topic};
use crate::errors::DocError;
use vstd::prelude::*;
use vstd::string::StringExecFns;

verus! {

// ------------------------------------------------------------------
// The rendered text of one node, stated exactly.
// ------------------------------------------------------------------

/// The level-1 heading line: the node's name.
pub open spec fn heading_line(n: Node) -> Seq<char> {
    "# "@ + n.node_name@ + "\n"@
}

/// The package attribution line: a link when the doc has a repo, plain text
/// otherwise.
pub open spec fn package_line(d: Doc) -> Seq<char> {
    match d.repo {
        Some(lnk) => "From package '["@ + d.package_name@ + "]("@ + lnk@ + ")'\n"@,
        None => "From package '"@ + d.package_name@ + "'\n"@,
    }
}

/// One inline-code line per source file path, in list order.
pub open spec fn source_lines(ss: Seq<String>) -> Seq<char>
    decreases ss.len(),
{
    if ss.len() == 0 {
        Seq::empty()
    } else {
        source_lines(ss.drop_last()) + "`"@ + ss.last()@ + "`\n"@
    }
}

/// The "File" section: heading, the source file lines, a blank line.
pub open spec fn file_section(n: Node) -> Seq<char> {
    "# File\n"@ + source_lines(n.source_file@) + "\n"@
}

/// The "Summary" section: heading followed by the summary text verbatim.
pub open spec fn summary_section(n: Node) -> Seq<char> {
    "## Summary \n "@ + n.summary@ + "\n"@
}

/// One `name: description` bullet per topic, in list order.
pub open spec fn topic_lines(ts: Seq<Topic>) -> Seq<char>
    decreases ts.len(),
{
    if ts.len() == 0 {
        Seq::empty()
    } else {
        topic_lines(ts.drop_last()) + "- `"@ + ts.last().name@ + "`: "@
            + ts.last().description@ + "\n"@
    }
}

/// One `name: description` bullet per param, in list order.
pub open spec fn param_lines(ps: Seq<Param>) -> Seq<char>
    decreases ps.len(),
{
    if ps.len() == 0 {
        Seq::empty()
    } else {
        param_lines(ps.drop_last()) + "- `"@ + ps.last().name@ + "`: "@
            + ps.last().description@ + "\n"@
    }
}

/// The "Publishes" subsection; empty when the field is absent. An explicitly
/// empty list still carries the subheading.
pub open spec fn publishes_part(n: Node) -> Seq<char> {
    match n.publishes {
        Some(ts) => "### Publishes\n"@ + topic_lines(ts@) + "\n"@,
        None => Seq::empty(),
    }
}

/// The "Subscribes" subsection; empty when the field is absent.
pub open spec fn subscribes_part(n: Node) -> Seq<char> {
    match n.subscribes {
        Some(ts) => "### Subscribes\n"@ + topic_lines(ts@) + "\n"@,
        None => Seq::empty(),
    }
}

/// The "Topics" section. Presence of either optional list is what gates the
/// section, not non-emptiness.
pub open spec fn topics_section(n: Node) -> Seq<char> {
    if n.publishes is Some || n.subscribes is Some {
        "## Topics\n\n"@ + publishes_part(n) + subscribes_part(n)
    } else {
        Seq::empty()
    }
}

/// The "Params" section; empty when the field is absent.
pub open spec fn params_section(n: Node) -> Seq<char> {
    match n.params {
        Some(ps) => "## Params\n"@ + param_lines(ps@) + "\n"@,
        None => Seq::empty(),
    }
}

/// The "Potential Improvements" section; empty when the field is absent.
pub open spec fn improvements_section(n: Node) -> Seq<char> {
    match n.potential_improvements {
        Some(s) => "# Potential Improvements\n"@ + s@ + " \n\n"@,
        None => Seq::empty(),
    }
}

/// One `from X to Y` bullet per remapping, in list order.
pub open spec fn remap_lines(rs: Seq<Remap>) -> Seq<char>
    decreases rs.len(),
{
    if rs.len() == 0 {
        Seq::empty()
    } else {
        remap_lines(rs.drop_last()) + "- from `"@ + rs.last().from@ + "` to `"@
            + rs.last().to@ + "`\n"@
    }
}

/// The "Remappings" subsection of one launch entry; empty when absent.
pub open spec fn remap_part(l: LaunchInfo) -> Seq<char> {
    match l.remap {
        Some(rs) => "### Remappings\n"@ + remap_lines(rs@) + "\n"@,
        None => Seq::empty(),
    }
}

/// The "Args" subsection of one launch entry; empty when absent.
pub open spec fn args_part(l: LaunchInfo) -> Seq<char> {
    match l.args {
        Some(ps) => "### Args\n"@ + param_lines(ps@) + "\n"@,
        None => Seq::empty(),
    }
}

/// One launch entry: subheading with file path and usage, then remappings
/// and args subsections.
pub open spec fn launch_entry(l: LaunchInfo) -> Seq<char> {
    "## File \n "@ + l.file_path@ + " \n \n "@ + l.usage@ + " \n\n"@ + remap_part(l)
        + args_part(l)
}

/// All launch entries, in list order.
pub open spec fn launch_entries(ls: Seq<LaunchInfo>) -> Seq<char>
    decreases ls.len(),
{
    if ls.len() == 0 {
        Seq::empty()
    } else {
        launch_entries(ls.drop_last()) + launch_entry(ls.last())
    }
}

/// The "Launch" section; empty when the field is absent.
pub open spec fn launch_section(n: Node) -> Seq<char> {
    match n.launch {
        Some(ls) => "# Launch\n"@ + launch_entries(ls@),
        None => Seq::empty(),
    }
}

/// The "Misc" section; empty when the field is absent.
pub open spec fn misc_section(n: Node) -> Seq<char> {
    match n.misc {
        Some(s) => "# Misc \n "@ + s@ + " \n"@,
        None => Seq::empty(),
    }
}

/// The full rendered text of one node: every section in its fixed order.
pub open spec fn node_text(d: Doc, n: Node) -> Seq<char> {
    heading_line(n) + package_line(d) + file_section(n) + summary_section(n)
        + topics_section(n) + params_section(n) + improvements_section(n)
        + launch_section(n) + misc_section(n)
}

/// Rendering a node with every optional field absent yields exactly the
/// heading, the package attribution, the "File" section and the "Summary"
/// section: no Topics, Params, Potential Improvements, Launch or Misc
/// heading appears in the output.
pub proof fn lemma_optional_sections_gated(d: Doc, n: Node)
    requires
        n.potential_improvements is None,
        n.misc is None,
        n.publishes is None,
        n.subscribes is None,
        n.params is None,
        n.launch is None,
    ensures
        node_text(d, n) == heading_line(n) + package_line(d) + file_section(n)
            + summary_section(n),
{
    assert(node_text(d, n) =~= heading_line(n) + package_line(d) + file_section(n)
        + summary_section(n));
}

// ------------------------------------------------------------------
// Output filenames.
// ------------------------------------------------------------------

/// A filename with the markdown extension appended.
pub open spec fn with_md_extension(name: Seq<char>) -> Seq<char> {
    name + ".md"@
}

/// The full path a node's rendered document is written to.
pub open spec fn output_path(dest: Seq<char>, name: Seq<char>) -> Seq<char> {
    dest + "/"@ + with_md_extension(name)
}

// ------------------------------------------------------------------
// The aggregate index document, stated exactly.
// ------------------------------------------------------------------

/// The path an index entry links to for a node of the given name.
pub open spec fn index_link_target(dest: Seq<char>, name: Seq<char>) -> Seq<char> {
    dest + "/"@ + with_md_extension(name)
}

/// The path a node's output file is written to and the target its index
/// entry links to are byte for byte the same text: both append the same
/// extension to the same name under the same destination.
pub proof fn lemma_extension_consistency(dest: Seq<char>, name: Seq<char>)
    ensures
        index_link_target(dest, name) == output_path(dest, name),
{
}

/// One bulleted index link for a node.
pub open spec fn node_bullet(dest: Seq<char>, name: Seq<char>) -> Seq<char> {
    "- ["@ + name + "]("@ + index_link_target(dest, name) + ")\n"@
}

/// The bullets for every node of a list, in list order.
pub open spec fn bullets_of(ns: Seq<Node>, dest: Seq<char>) -> Seq<char>
    decreases ns.len(),
{
    if ns.len() == 0 {
        Seq::empty()
    } else {
        bullets_of(ns.drop_last(), dest) + node_bullet(dest, ns.last().node_name@)
    }
}

/// The distinct package names of a document list, in order of first
/// appearance.
pub open spec fn pkg_names(docs: Seq<Doc>) -> Seq<Seq<char>>
    decreases docs.len(),
{
    if docs.len() == 0 {
        Seq::empty()
    } else {
        let pre = pkg_names(docs.drop_last());
        if pre.contains(docs.last().package_name@) {
            pre
        } else {
            pre.push(docs.last().package_name@)
        }
    }
}

/// The bullets of every node belonging to the given package, documents in
/// list order and nodes in each document's order.
pub open spec fn pkg_body(docs: Seq<Doc>, pkg: Seq<char>, dest: Seq<char>) -> Seq<char>
    decreases docs.len(),
{
    if docs.len() == 0 {
        Seq::empty()
    } else {
        pkg_body(docs.drop_last(), pkg, dest) + (if docs.last().package_name@ == pkg {
            bullets_of(docs.last().nodes@, dest)
        } else {
            Seq::empty()
        })
    }
}

/// One package's index section: a heading naming the package, its nodes'
/// bullets, and a blank separator line.
pub open spec fn pkg_section(docs: Seq<Doc>, pkg: Seq<char>, dest: Seq<char>) -> Seq<char> {
    "# "@ + pkg + "\n"@ + pkg_body(docs, pkg, dest) + "\n"@
}

/// The sections for the listed packages, in list order.
pub open spec fn sections_of(docs: Seq<Doc>, pkgs: Seq<Seq<char>>, dest: Seq<char>) -> Seq<char>
    decreases pkgs.len(),
{
    if pkgs.len() == 0 {
        Seq::empty()
    } else {
        sections_of(docs, pkgs.drop_last(), dest) + pkg_section(docs, pkgs.last(), dest)
    }
}

/// The whole index document: one section per package, grouped by first
/// appearance, each listing exactly its own nodes.
pub open spec fn index_text(docs: Seq<Doc>, dest: Seq<char>) -> Seq<char> {
    sections_of(docs, pkg_names(docs), dest)
}

/// The views of a list of strings.
pub open spec fn views_of(ss: Seq<String>) -> Seq<Seq<char>> {
    ss.map_values(|s: String| s@)
}

// ------------------------------------------------------------------
// The generator interface and the markdown implementation.
// ------------------------------------------------------------------

/// A pluggable strategy converting a document into rendered output text.
pub trait Generator {
    /// Generates docs as a string for each node. The resulting vector has
    /// the same node order as the doc passed in; each element is
    /// (node name, doc text).
    fn generate_string(&self, nodes: Doc) -> (r: Result<Vec<(String, String)>, DocError>)
        ensures
            r is Ok ==> r->Ok_0@.len() == nodes.nodes@.len(),
            r is Ok ==> forall|i: int|
                0 <= i < nodes.nodes@.len() ==> (#[trigger] r->Ok_0@[i]).0
                    == nodes.nodes@[i].node_name,
    ;

    /// Adds the file extension of the document type this generator creates
    /// to the passed filename.
    fn add_file_extension(&self, filename: &str) -> (r: String);
}

/// Renders docs to markdown.
pub struct MarkdownGenerator {}

impl Default for MarkdownGenerator {
    fn default() -> (r: Self)
        ensures
            r == (MarkdownGenerator {  }),
    {
        MarkdownGenerator {  }
    }
}

// ------------------------------------------------------------------
// Exec rendering, proved equal to the spec text.
// ------------------------------------------------------------------

fn push_source_lines(buf: &mut String, ss: &Vec<String>)
    ensures
        final(buf)@ == old(buf)@ + source_lines(ss@),
{
    let ghost pre = buf@;
    let mut i: usize = 0;
    while i < ss.len()
        invariant
            i <= ss.len(),
            buf@ == pre + source_lines(ss@.take(i as int)),
        decreases ss.len() - i,
    {
        buf.append("`");
        buf.append(ss[i].as_str());
        buf.append("`\n");
        proof {
            assert(ss@.take(i + 1).drop_last() =~= ss@.take(i as int));
            assert(buf@ =~= pre + source_lines(ss@.take(i + 1)));
        }
        i = i + 1;
    }
    proof {
        assert(ss@.take(ss@.len() as int) =~= ss@);
    }
}

fn push_topic_lines(buf: &mut String, ts: &Vec<Topic>)
    ensures
        final(buf)@ == old(buf)@ + topic_lines(ts@),
{
    let ghost pre = buf@;
    let mut i: usize = 0;
    while i < ts.len()
        invariant
            i <= ts.len(),
            buf@ == pre + topic_lines(ts@.take(i as int)),
        decreases ts.len() - i,
    {
        buf.append("- `");
        buf.append(ts[i].name.as_str());
        buf.append("`: ");
        buf.append(ts[i].description.as_str());
        buf.append("\n");
        proof {
            assert(ts@.take(i + 1).drop_last() =~= ts@.take(i as int));
            assert(buf@ =~= pre + topic_lines(ts@.take(i + 1)));
        }
        i = i + 1;
    }
    proof {
        assert(ts@.take(ts@.len() as int) =~= ts@);
    }
}

fn push_param_lines(buf: &mut String, ps: &Vec<Param>)
    ensures
        final(buf)@ == old(buf)@ + param_lines(ps@),
{
    let ghost pre = buf@;
    let mut i: usize = 0;
    while i < ps.len()
        invariant
            i <= ps.len(),
            buf@ == pre + param_lines(ps@.take(i as int)),
        decreases ps.len() - i,
    {
        buf.append("- `");
        buf.append(ps[i].name.as_str());
        buf.append("`: ");
        buf.append(ps[i].description.as_str());
        buf.append("\n");
        proof {
            assert(ps@.take(i + 1).drop_last() =~= ps@.take(i as int));
            assert(buf@ =~= pre + param_lines(ps@.take(i + 1)));
        }
        i = i + 1;
    }
    proof {
        assert(ps@.take(ps@.len() as int) =~= ps@);
    }
}

fn push_remap_lines(buf: &mut String, rs: &Vec<Remap>)
    ensures
        final(buf)@ == old(buf)@ + remap_lines(rs@),
{
    let ghost pre = buf@;
    let mut i: usize = 0;
    while i < rs.len()
        invariant
            i <= rs.len(),
            buf@ == pre + remap_lines(rs@.take(i as int)),
        decreases rs.len() - i,
    {
        buf.append("- from `");
        buf.append(rs[i].from.as_str());
        buf.append("` to `");
        buf.append(rs[i].to.as_str());
        buf.append("`\n");
        proof {
            assert(rs@.take(i + 1).drop_last() =~= rs@.take(i as int));
            assert(buf@ =~= pre + remap_lines(rs@.take(i + 1)));
        }
        i = i + 1;
    }
    proof {
        assert(rs@.take(rs@.len() as int) =~= rs@);
    }
}

fn push_launch_entry(buf: &mut String, l: &LaunchInfo)
    ensures
        final(buf)@ == old(buf)@ + launch_entry(*l),
{
    let ghost pre = buf@;
    buf.append("## File \n ");
    buf.append(l.file_path.as_str());
    buf.append(" \n \n ");
    buf.append(l.usage.as_str());
    buf.append(" \n\n");
    match &l.remap {
        Some(rs) => {
            buf.append("### Remappings\n");
            push_remap_lines(buf, rs);
            buf.append("\n");
        },
        None => {},
    }
    match &l.args {
        Some(ps) => {
            buf.append("### Args\n");
            push_param_lines(buf, ps);
            buf.append("\n");
        },
        None => {},
    }
    proof {
        assert(buf@ =~= pre + launch_entry(*l));
    }
}

fn push_launch_entries(buf: &mut String, ls: &Vec<LaunchInfo>)
    ensures
        final(buf)@ == old(buf)@ + launch_entries(ls@),
{
    let ghost pre = buf@;
    let mut i: usize = 0;
    while i < ls.len()
        invariant
            i <= ls.len(),
            buf@ == pre + launch_entries(ls@.take(i as int)),
        decreases ls.len() - i,
    {
        push_launch_entry(buf, &ls[i]);
        proof {
            assert(ls@.take(i + 1).drop_last() =~= ls@.take(i as int));
            assert(buf@ =~= pre + launch_entries(ls@.take(i + 1)));
        }
        i = i + 1;
    }
    proof {
        assert(ls@.take(ls@.len() as int) =~= ls@);
    }
}

fn push_heading(buf: &mut String, n: &Node)
    ensures
        final(buf)@ == old(buf)@ + heading_line(*n),
{
    let ghost pre = buf@;
    buf.append("# ");
    buf.append(n.node_name.as_str());
    buf.append("\n");
    proof {
        assert(buf@ =~= pre + heading_line(*n));
    }
}

fn push_package_line(buf: &mut String, d: &Doc)
    ensures
        final(buf)@ == old(buf)@ + package_line(*d),
{
    let ghost pre = buf@;
    match &d.repo {
        Some(lnk) => {
            buf.append("From package '[");
            buf.append(d.package_name.as_str());
            buf.append("](");
            buf.append(lnk.as_str());
            buf.append(")'\n");
        },
        None => {
            buf.append("From package '");
            buf.append(d.package_name.as_str());
            buf.append("'\n");
        },
    }
    proof {
        assert(buf@ =~= pre + package_line(*d));
    }
}

fn push_file_section(buf: &mut String, n: &Node)
    ensures
        final(buf)@ == old(buf)@ + file_section(*n),
{
    let ghost pre = buf@;
    buf.append("# File\n");
    push_source_lines(buf, &n.source_file);
    buf.append("\n");
    proof {
        assert(buf@ =~= pre + file_section(*n));
    }
}

fn push_summary_section(buf: &mut String, n: &Node)
    ensures
        final(buf)@ == old(buf)@ + summary_section(*n),
{
    let ghost pre = buf@;
    buf.append("## Summary \n ");
    buf.append(n.summary.as_str());
    buf.append("\n");
    proof {
        assert(buf@ =~= pre + summary_section(*n));
    }
}

fn push_topics_section(buf: &mut String, n: &Node)
    ensures
        final(buf)@ == old(buf)@ + topics_section(*n),
{
    let ghost pre = buf@;
    if n.publishes.is_some() || n.subscribes.is_some() {
        buf.append("## Topics\n\n");
        match &n.publishes {
            Some(ts) => {
                buf.append("### Publishes\n");
                push_topic_lines(buf, ts);
                buf.append("\n");
            },
            None => {},
        }
        match &n.subscribes {
            Some(ts) => {
                buf.append("### Subscribes\n");
                push_topic_lines(buf, ts);
                buf.append("\n");
            },
            None => {},
        }
    }
    proof {
        assert(buf@ =~= pre + topics_section(*n));
    }
}

fn push_params_section(buf: &mut String, n: &Node)
    ensures
        final(buf)@ == old(buf)@ + params_section(*n),
{
    let ghost pre = buf@;
    match &n.params {
        Some(ps) => {
            buf.append("## Params\n");
            push_param_lines(buf, ps);
            buf.append("\n");
        },
        None => {},
    }
    proof {
        assert(buf@ =~= pre + params_section(*n));
    }
}

fn push_improvements_section(buf: &mut String, n: &Node)
    ensures
        final(buf)@ == old(buf)@ + improvements_section(*n),
{
    let ghost pre = buf@;
    match &n.potential_improvements {
        Some(s) => {
            buf.append("# Potential Improvements\n");
            buf.append(s.as_str());
            buf.append(" \n\n");
        },
        None => {},
    }
    proof {
        assert(buf@ =~= pre + improvements_section(*n));
    }
}

fn push_launch_section(buf: &mut String, n: &Node)
    ensures
        final(buf)@ == old(buf)@ + launch_section(*n),
{
    let ghost pre = buf@;
    match &n.launch {
        Some(ls) => {
            buf.append("# Launch\n");
            push_launch_entries(buf, ls);
        },
        None => {},
    }
    proof {
        assert(buf@ =~= pre + launch_section(*n));
    }
}

fn push_misc_section(buf: &mut String, n: &Node)
    ensures
        final(buf)@ == old(buf)@ + misc_section(*n),
{
    let ghost pre = buf@;
    match &n.misc {
        Some(s) => {
            buf.append("# Misc \n ");
            buf.append(s.as_str());
            buf.append(" \n");
        },
        None => {},
    }
    proof {
        assert(buf@ =~= pre + misc_section(*n));
    }
}

/// Renders one node of the doc to its markdown text.
fn render_node(d: &Doc, n: &Node) -> (r: String)
    ensures
        r@ == node_text(*d, *n),
{
    let mut buf = String::new();
    push_heading(&mut buf, n);
    push_package_line(&mut buf, d);
    push_file_section(&mut buf, n);
    push_summary_section(&mut buf, n);
    push_topics_section(&mut buf, n);
    push_params_section(&mut buf, n);
    push_improvements_section(&mut buf, n);
    push_launch_section(&mut buf, n);
    push_misc_section(&mut buf, n);
    proof {
        assert(buf@ =~= node_text(*d, *n));
    }
    buf
}

impl MarkdownGenerator {
    /// Renders every node of the doc, in the doc's node order. Entry `i`
    /// carries node `i`'s name and its exact rendered text.
    pub fn render_nodes(&self, doc: &Doc) -> (r: Vec<(String, String)>)
        ensures
            r@.len() == doc.nodes@.len(),
            forall|i: int|
                0 <= i < doc.nodes@.len() ==> (#[trigger] r@[i]).0
                    == doc.nodes@[i].node_name,
            forall|i: int|
                0 <= i < doc.nodes@.len() ==> (#[trigger] r@[i]).1@
                    == node_text(*doc, doc.nodes@[i]),
    {
        let mut out: Vec<(String, String)> = Vec::new();
        let mut i: usize = 0;
        while i < doc.nodes.len()
            invariant
                i <= doc.nodes@.len(),
                out@.len() == i,
                forall|j: int|
                    0 <= j < i ==> (#[trigger] out@[j]).0 == doc.nodes@[j].node_name,
                forall|j: int|
                    0 <= j < i ==> (#[trigger] out@[j]).1@ == node_text(*doc, doc.nodes@[j]),
            decreases doc.nodes@.len() - i,
        {
            let name = doc.nodes[i].node_name.clone();
            let text = render_node(doc, &doc.nodes[i]);
            out.push((name, text));
            i = i + 1;
        }
        out
    }

    /// Appends the markdown file extension to the passed filename.
    pub fn add_file_extension(&self, filename: &str) -> (r: String)
        ensures
            r@ == with_md_extension(filename@),
    {
        let mut s = String::new();
        s.append(filename);
        s.append(".md");
        s
    }
}

/// Whether one of the strings has the given view.
fn contains_string(ss: &Vec<String>, p: &String) -> (r: bool)
    ensures
        r == views_of(ss@).contains(p@),
{
    let mut i: usize = 0;
    while i < ss.len()
        invariant
            i <= ss@.len(),
            forall|j: int| 0 <= j < i ==> views_of(ss@)[j] != p@,
        decreases ss@.len() - i,
    {
        if ss[i] == *p {
            proof {
                assert(views_of(ss@)[i as int] == p@);
            }
            return true;
        }
        i = i + 1;
    }
    false
}

fn push_bullets(buf: &mut String, ns: &Vec<Node>, dest_dir: &str)
    ensures
        final(buf)@ == old(buf)@ + bullets_of(ns@, dest_dir@),
{
    let ghost pre = buf@;
    let mut i: usize = 0;
    while i < ns.len()
        invariant
            i <= ns@.len(),
            buf@ == pre + bullets_of(ns@.take(i as int), dest_dir@),
        decreases ns@.len() - i,
    {
        buf.append("- [");
        buf.append(ns[i].node_name.as_str());
        buf.append("](");
        buf.append(dest_dir);
        buf.append("/");
        buf.append(ns[i].node_name.as_str());
        buf.append(".md");
        buf.append(")\n");
        proof {
            assert(ns@.take(i + 1).drop_last() =~= ns@.take(i as int));
            assert(buf@ =~= pre + bullets_of(ns@.take(i + 1), dest_dir@));
        }
        i = i + 1;
    }
    proof {
        assert(ns@.take(ns@.len() as int) =~= ns@);
    }
}

fn push_pkg_body(buf: &mut String, docs: &Vec<Doc>, pkg: &String, dest_dir: &str)
    ensures
        final(buf)@ == old(buf)@ + pkg_body(docs@, pkg@, dest_dir@),
{
    let ghost pre = buf@;
    let mut i: usize = 0;
    while i < docs.len()
        invariant
            i <= docs@.len(),
            buf@ == pre + pkg_body(docs@.take(i as int), pkg@, dest_dir@),
        decreases docs@.len() - i,
    {
        if docs[i].package_name == *pkg {
            push_bullets(buf, &docs[i].nodes, dest_dir);
        }
        proof {
            assert(docs@.take(i + 1).drop_last() =~= docs@.take(i as int));
            assert(buf@ =~= pre + pkg_body(docs@.take(i + 1), pkg@, dest_dir@));
        }
        i = i + 1;
    }
    proof {
        assert(docs@.take(docs@.len() as int) =~= docs@);
    }
}

fn push_pkg_section(buf: &mut String, docs: &Vec<Doc>, pkg: &String, dest_dir: &str)
    ensures
        final(buf)@ == old(buf)@ + pkg_section(docs@, pkg@, dest_dir@),
{
    let ghost pre = buf@;
    buf.append("# ");
    buf.append(pkg.as_str());
    buf.append("\n");
    push_pkg_body(buf, docs, pkg, dest_dir);
    buf.append("\n");
    proof {
        assert(buf@ =~= pre + pkg_section(docs@, pkg@, dest_dir@));
    }
}

/// Collects the distinct package names of the documents, in order of first
/// appearance.
fn collect_pkg_names(docs: &Vec<Doc>) -> (r: Vec<String>)
    ensures
        views_of(r@) == pkg_names(docs@),
{
    let mut pkgs: Vec<String> = Vec::new();
    let mut i: usize = 0;
    while i < docs.len()
        invariant
            i <= docs@.len(),
            views_of(pkgs@) == pkg_names(docs@.take(i as int)),
        decreases docs@.len() - i,
    {
        if !contains_string(&pkgs, &docs[i].package_name) {
            let ghost before = pkgs@;
            pkgs.push(docs[i].package_name.clone());
            proof {
                assert(views_of(pkgs@) =~= views_of(before).push(docs@[i as int].package_name@));
            }
        }
        proof {
            assert(docs@.take(i + 1).drop_last() =~= docs@.take(i as int));
            assert(views_of(pkgs@) =~= pkg_names(docs@.take(i + 1)));
        }
        i = i + 1;
    }
    proof {
        assert(docs@.take(docs@.len() as int) =~= docs@);
    }
    pkgs
}

impl MarkdownGenerator {
    /// Renders the aggregate index over all collected documents: the nodes
    /// grouped by package, in order of each package's first appearance,
    /// nodes within a package in document order.
    pub fn render_index(&self, docs: &Vec<Doc>, dest_dir: &str) -> (r: Result<String, DocError>)
        ensures
            r is Ok,
            (r->Ok_0)@ == index_text(docs@, dest_dir@),
    {
        let pkgs = collect_pkg_names(docs);
        let mut buf = String::new();
        let mut k: usize = 0;
        while k < pkgs.len()
            invariant
                k <= pkgs@.len(),
                views_of(pkgs@) == pkg_names(docs@),
                buf@ == sections_of(docs@, views_of(pkgs@).take(k as int), dest_dir@),
            decreases pkgs@.len() - k,
        {
            push_pkg_section(&mut buf, docs, &pkgs[k], dest_dir);
            proof {
                assert(views_of(pkgs@).take(k + 1).drop_last() =~= views_of(pkgs@).take(
                    k as int,
                ));
                assert(views_of(pkgs@).take(k + 1).last() == pkgs@[k as int]@);
                assert(buf@ =~= sections_of(docs@, views_of(pkgs@).take(k + 1), dest_dir@));
            }
            k = k + 1;
        }
        proof {
            assert(views_of(pkgs@).take(views_of(pkgs@).len() as int) =~= views_of(pkgs@));
        }
        Ok(buf)
    }
}

impl Generator for MarkdownGenerator {
    fn generate_string(&self, nodes: Doc) -> (r: Result<Vec<(String, String)>, DocError>) {
        Ok(self.render_nodes(&nodes))
    }

    fn add_file_extension(&self, filename: &str) -> (r: String) {
        MarkdownGenerator::add_file_extension(self, filename)
    }
}

} // verus!
