//! The traversal engine: the decisions and bookkeeping of the generation
//! run. It owns the directory queue, decides what to do with each directory
//! entry, parses and renders configs, and collects the statistics and the
//! documents the index is built from.
//!
//! All filesystem work stays outside: a caller pops directories with
//! [`TraversalEngine::next_dir`], lists each one itself, reports every entry
//! through [`TraversalEngine::handle_entry`], hands matching files' text to
//! [`TraversalEngine::process_config_text`], and writes the returned
//! (path, contents) jobs to disk.

use crate::commands::{GenCommand, GenTypes};
use crate::doc_types::{Doc, Node};
use crate::errors::DocError;
use crate::generators::{index_text, node_text, output_path, MarkdownGenerator};
use crate::parsers::{doc_matches, filename_matches, text_parses, toml_parse, TomlParser};
use vstd::prelude::*;
use vstd::string::StringExecFns;

verus! {

/// A counter bumped once more, stopping at its largest value.
pub open spec fn sat_inc(x: u128) -> u128 {
    if x < u128::MAX {
        (x + 1) as u128
    } else {
        x
    }
}

/// The names of a list of nodes, in order.
pub open spec fn names_of(ns: Seq<Node>) -> Seq<String> {
    ns.map_values(|n: Node| n.node_name)
}

/// The fixed path of the aggregate index document.
pub open spec fn readme_path(dest: Seq<char>) -> Seq<char> {
    dest + "/NODES_README.md"@
}

/// What the engine decided to do with one directory entry.
#[derive(Debug, PartialEq, Eq, Structural)]
pub enum EntryAction {
    /// A subdirectory was queued for a later visit.
    Enqueued,
    /// The entry is a config file the caller should read and hand to
    /// `process_config_text`.
    ParseConfig,
    /// The entry is of no interest.
    Ignored,
}

/// What a finished run reports.
pub struct GenerationResults {
    /// Directory entries looked at.
    pub files_read: u128,
    /// Directories visited.
    pub dir_read: u128,
    /// The names of the nodes that received generated documentation, in
    /// processing order.
    pub nodes_processed: Vec<String>,
}

/// The state of one generation run.
pub struct TraversalEngine {
    /// The options of the run.
    pub comm: GenCommand,
    /// Directories still to visit, front first.
    pub dir_queue: Vec<String>,
    /// Directory entries looked at so far.
    pub files_read: u128,
    /// Directories visited so far.
    pub dir_read: u128,
    /// The documents processed so far; retained only when the index was
    /// requested.
    pub docs: Vec<Doc>,
    /// The node names processed so far.
    pub nodes_processed: Vec<String>,
}

impl TraversalEngine {
    /// A fresh run: the queue holds the source directory alone and nothing
    /// has been counted or collected.
    pub fn new(comm: GenCommand) -> (r: TraversalEngine)
        ensures
            r.comm == comm,
            r.dir_queue@.len() == 1,
            r.dir_queue@[0] == comm.source_dir,
            r.files_read == 0,
            r.dir_read == 0,
            r.docs@.len() == 0,
            r.nodes_processed@.len() == 0,
    {
        let first = comm.source_dir.clone();
        let mut q: Vec<String> = Vec::new();
        q.push(first);
        TraversalEngine {
            comm,
            dir_queue: q,
            files_read: 0,
            dir_read: 0,
            docs: Vec::new(),
            nodes_processed: Vec::new(),
        }
    }

    /// Pops the next directory to visit, counting it; the run is complete
    /// when none is left.
    pub fn next_dir(&mut self) -> (r: Option<String>)
        ensures
            match r {
                Some(d) => {
                    &&& old(self).dir_queue@.len() > 0
                    &&& d == old(self).dir_queue@[0]
                    &&& final(self).dir_queue@ == old(self).dir_queue@.subrange(
                        1,
                        old(self).dir_queue@.len() as int,
                    )
                    &&& final(self).dir_read == sat_inc(old(self).dir_read)
                    &&& final(self).comm == old(self).comm
                    &&& final(self).files_read == old(self).files_read
                    &&& final(self).docs == old(self).docs
                    &&& final(self).nodes_processed == old(self).nodes_processed
                },
                None => old(self).dir_queue@.len() == 0 && *final(self) == *old(self),
            },
    {
        if self.dir_queue.len() == 0 {
            return None;
        }
        let d = self.dir_queue.remove(0);
        if self.dir_read < u128::MAX {
            self.dir_read = self.dir_read + 1;
        }
        proof {
            assert(final(self).dir_queue@ =~= old(self).dir_queue@.subrange(
                1,
                old(self).dir_queue@.len() as int,
            ));
        }
        Some(d)
    }

    /// Decides what to do with one directory entry, counting it. A
    /// subdirectory is enqueued exactly when recursion is enabled and is
    /// never itself parsed; a file is a config exactly when its name ends in
    /// the config suffix.
    pub fn handle_entry(&mut self, is_dir: bool, path: String, filename: &str) -> (r:
        EntryAction)
        ensures
            final(self).files_read == sat_inc(old(self).files_read),
            final(self).dir_queue@ == (if is_dir && old(self).comm.recurse {
                old(self).dir_queue@.push(path)
            } else {
                old(self).dir_queue@
            }),
            r == (if is_dir {
                if old(self).comm.recurse {
                    EntryAction::Enqueued
                } else {
                    EntryAction::Ignored
                }
            } else if filename_matches(filename@) {
                EntryAction::ParseConfig
            } else {
                EntryAction::Ignored
            }),
            final(self).comm == old(self).comm,
            final(self).dir_read == old(self).dir_read,
            final(self).docs == old(self).docs,
            final(self).nodes_processed == old(self).nodes_processed,
    {
        if self.files_read < u128::MAX {
            self.files_read = self.files_read + 1;
        }
        if is_dir {
            if self.comm.recurse {
                self.dir_queue.push(path);
                EntryAction::Enqueued
            } else {
                EntryAction::Ignored
            }
        } else {
            let parser = TomlParser {  };
            if parser.match_filename(filename) {
                EntryAction::ParseConfig
            } else {
                EntryAction::Ignored
            }
        }
    }

    /// Renders every node of a parsed document, records the node names,
    /// retains the document when the index was requested, and returns one
    /// (output path, rendered text) job per node, in the document's node
    /// order.
    pub fn process_document(&mut self, doc: Doc) -> (jobs: Vec<(String, String)>)
        ensures
            jobs@.len() == doc.nodes@.len(),
            forall|i: int|
                0 <= i < jobs@.len() ==> (#[trigger] jobs@[i]).0@ == output_path(
                    old(self).comm.dest_dir@,
                    doc.nodes@[i].node_name@,
                ),
            forall|i: int|
                0 <= i < jobs@.len() ==> (#[trigger] jobs@[i]).1@ == node_text(
                    doc,
                    doc.nodes@[i],
                ),
            final(self).nodes_processed@ == old(self).nodes_processed@ + names_of(doc.nodes@),
            final(self).docs@ == (if old(self).comm.readme {
                old(self).docs@.push(doc)
            } else {
                old(self).docs@
            }),
            final(self).comm == old(self).comm,
            final(self).dir_queue == old(self).dir_queue,
            final(self).files_read == old(self).files_read,
            final(self).dir_read == old(self).dir_read,
    {
        let generator = match self.comm.doc_type {
            GenTypes::Markdown => MarkdownGenerator {  },
        };
        let rendered = generator.render_nodes(&doc);
        let mut jobs: Vec<(String, String)> = Vec::new();
        let mut i: usize = 0;
        while i < rendered.len()
            invariant
                rendered@.len() == doc.nodes@.len(),
                forall|j: int|
                    0 <= j < doc.nodes@.len() ==> (#[trigger] rendered@[j]).0
                        == doc.nodes@[j].node_name,
                forall|j: int|
                    0 <= j < doc.nodes@.len() ==> (#[trigger] rendered@[j]).1@ == node_text(
                        doc,
                        doc.nodes@[j],
                    ),
                i <= rendered@.len(),
                jobs@.len() == i,
                forall|j: int|
                    0 <= j < i ==> (#[trigger] jobs@[j]).0@ == output_path(
                        old(self).comm.dest_dir@,
                        doc.nodes@[j].node_name@,
                    ),
                forall|j: int|
                    0 <= j < i ==> (#[trigger] jobs@[j]).1@ == node_text(doc, doc.nodes@[j]),
                self.nodes_processed@ == old(self).nodes_processed@ + names_of(
                    doc.nodes@.take(i as int),
                ),
                self.comm == old(self).comm,
                self.dir_queue == old(self).dir_queue,
                self.files_read == old(self).files_read,
                self.dir_read == old(self).dir_read,
                self.docs == old(self).docs,
            decreases rendered@.len() - i,
        {
            let name = rendered[i].0.clone();
            let text = rendered[i].1.clone();
            let mut path = String::new();
            path.append(self.comm.dest_dir.as_str());
            path.append("/");
            let with_ext = generator.add_file_extension(name.as_str());
            path.append(with_ext.as_str());
            proof {
                assert(path@ =~= output_path(old(self).comm.dest_dir@, doc.nodes@[i as int].node_name@));
            }
            jobs.push((path, text));
            self.nodes_processed.push(name);
            proof {
                assert(names_of(doc.nodes@.take(i + 1)) =~= names_of(doc.nodes@.take(i as int)).push(
                    doc.nodes@[i as int].node_name,
                ));
                assert(self.nodes_processed@ =~= old(self).nodes_processed@ + names_of(
                    doc.nodes@.take(i + 1),
                ));
            }
            i = i + 1;
        }
        proof {
            assert(doc.nodes@.take(doc.nodes@.len() as int) =~= doc.nodes@);
        }
        if self.comm.readme {
            self.docs.push(doc);
        }
        jobs
    }

    /// Parses one config file's text and, on success, processes the parsed
    /// document as `process_document` does. A text that does not parse
    /// aborts with a parse error whose message starts with the offending
    /// path, and leaves the run's state untouched: no output is produced for
    /// a malformed config.
    pub fn process_config_text(&mut self, path: &str, text: &str) -> (r: Result<
        Vec<(String, String)>,
        DocError,
    >)
        ensures
            match r {
                Ok(jobs) => {
                    &&& text_parses(text@)
                    &&& (exists|d: Doc|
                        {
                            &&& #[trigger] doc_matches(d, toml_parse(text@)->Ok_0)
                            &&& jobs@.len() == d.nodes@.len()
                            &&& (forall|i: int|
                                0 <= i < jobs@.len() ==> (#[trigger] jobs@[i]).0@
                                    == output_path(
                                    old(self).comm.dest_dir@,
                                    d.nodes@[i].node_name@,
                                ))
                            &&& (forall|i: int|
                                0 <= i < jobs@.len() ==> (#[trigger] jobs@[i]).1@ == node_text(
                                    d,
                                    d.nodes@[i],
                                ))
                            &&& final(self).nodes_processed@ == old(self).nodes_processed@
                                + names_of(d.nodes@)
                            &&& final(self).docs@ == (if old(self).comm.readme {
                                old(self).docs@.push(d)
                            } else {
                                old(self).docs@
                            })
                        })
                    &&& final(self).comm == old(self).comm
                    &&& final(self).dir_queue == old(self).dir_queue
                    &&& final(self).files_read == old(self).files_read
                    &&& final(self).dir_read == old(self).dir_read
                },
                Err(e) => {
                    &&& !text_parses(text@)
                    &&& *final(self) == *old(self)
                    &&& e is Parse
                    &&& e.message_view().len() >= path@.len()
                    &&& e.message_view().subrange(0, path@.len() as int) == path@
                },
            },
    {
        let parser = TomlParser {  };
        match parser.parse_str(text.to_owned()) {
            Ok(doc) => {
                let ghost d = doc;
                let jobs = self.process_document(doc);
                proof {
                    assert(doc_matches(d, toml_parse(text@)->Ok_0));
                }
                Ok(jobs)
            },
            Err(e) => {
                let mut m = String::new();
                m.append(path);
                m.append(": ");
                m.append(e.message());
                proof {
                    assert(m@.subrange(0, path@.len() as int) =~= path@);
                }
                Err(DocError::Parse(m))
            },
        }
    }

    /// The index write job, owed exactly when the index was requested and at
    /// least one document was processed: the fixed index path in the
    /// destination directory and the index text over the retained documents.
    pub fn index_job(&self) -> (r: Option<(String, String)>)
        ensures
            match r {
                Some(job) => {
                    &&& self.comm.readme
                    &&& self.docs@.len() > 0
                    &&& job.0@ == readme_path(self.comm.dest_dir@)
                    &&& job.1@ == index_text(self.docs@, self.comm.dest_dir@)
                },
                None => !(self.comm.readme && self.docs@.len() > 0),
            },
    {
        if self.comm.readme && self.docs.len() > 0 {
            let generator = match self.comm.doc_type {
                GenTypes::Markdown => MarkdownGenerator {  },
            };
            let mut path = String::new();
            path.append(self.comm.dest_dir.as_str());
            path.append("/NODES_README.md");
            proof {
                assert(path@ =~= readme_path(self.comm.dest_dir@));
            }
            match generator.render_index(&self.docs, self.comm.dest_dir.as_str()) {
                Ok(text) => Some((path, text)),
                Err(_) => None,
            }
        } else {
            None
        }
    }

    /// The run's statistics.
    pub fn into_results(self) -> (r: GenerationResults)
        ensures
            r.files_read == self.files_read,
            r.dir_read == self.dir_read,
            r.nodes_processed == self.nodes_processed,
    {
        GenerationResults {
            files_read: self.files_read,
            dir_read: self.dir_read,
            nodes_processed: self.nodes_processed,
        }
    }
}

} // verus!
