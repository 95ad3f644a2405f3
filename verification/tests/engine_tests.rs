use doctor::commands::{GenCommand, GenTypes};
use doctor::engine::{EntryAction, TraversalEngine};
use doctor::errors::DocError;

fn command(recurse: bool, readme: bool) -> GenCommand {
    GenCommand {
        source_dir: "src_tree".to_string(),
        dest_dir: "out".to_string(),
        recurse,
        readme,
        doc_type: GenTypes::Markdown,
    }
}

const VALID: &str = "package_name = 'p'

[[nodes]]
node_name = 'n'
source_file = []
summary = 's'
";

#[test]
fn queue_starts_with_the_source_directory() {
    let mut engine = TraversalEngine::new(command(false, false));
    assert_eq!(engine.next_dir().as_deref(), Some("src_tree"));
    assert_eq!(engine.next_dir(), None);
    let results = engine.into_results();
    assert_eq!(results.dir_read, 1);
    assert_eq!(results.files_read, 0);
}

#[test]
fn recursion_disabled_never_enqueues_directories() {
    let mut engine = TraversalEngine::new(command(false, false));
    engine.next_dir().unwrap();
    // The subdirectory is listed (counted) but neither enqueued nor parsed,
    // whatever its name looks like.
    assert_eq!(
        engine.handle_entry(true, "src_tree/sub".to_string(), "sub"),
        EntryAction::Ignored
    );
    assert_eq!(
        engine.handle_entry(true, "src_tree/odd.doctor.toml".to_string(), "odd.doctor.toml"),
        EntryAction::Ignored
    );
    assert_eq!(engine.next_dir(), None);
    let results = engine.into_results();
    assert_eq!(results.dir_read, 1);
    assert_eq!(results.files_read, 2);
}

#[test]
fn recursion_enabled_reaches_a_nested_config() {
    let mut engine = TraversalEngine::new(command(true, false));

    // Level 0: the source dir holds one subdirectory.
    assert_eq!(engine.next_dir().as_deref(), Some("src_tree"));
    assert_eq!(engine.handle_entry(true, "src_tree/a".to_string(), "a"), EntryAction::Enqueued);

    // Level 1 and 2: one subdirectory each.
    assert_eq!(engine.next_dir().as_deref(), Some("src_tree/a"));
    assert_eq!(
        engine.handle_entry(true, "src_tree/a/b".to_string(), "b"),
        EntryAction::Enqueued
    );
    assert_eq!(engine.next_dir().as_deref(), Some("src_tree/a/b"));
    assert_eq!(
        engine.handle_entry(true, "src_tree/a/b/c".to_string(), "c"),
        EntryAction::Enqueued
    );

    // Level 3: a config file, found and parsed.
    assert_eq!(engine.next_dir().as_deref(), Some("src_tree/a/b/c"));
    assert_eq!(
        engine.handle_entry(false, "src_tree/a/b/c/n.doctor.toml".to_string(), "n.doctor.toml"),
        EntryAction::ParseConfig
    );
    let jobs = engine.process_config_text("src_tree/a/b/c/n.doctor.toml", VALID).unwrap();
    assert_eq!(jobs.len(), 1);
    assert_eq!(jobs[0].0, "out/n.md");

    assert_eq!(engine.next_dir(), None);
    let results = engine.into_results();
    assert_eq!(results.dir_read, 4);
    assert_eq!(results.files_read, 4);
    assert_eq!(results.nodes_processed, vec!["n".to_string()]);
}

#[test]
fn non_matching_files_are_ignored() {
    let mut engine = TraversalEngine::new(command(false, false));
    engine.next_dir().unwrap();
    assert_eq!(
        engine.handle_entry(false, "src_tree/README.md".to_string(), "README.md"),
        EntryAction::Ignored
    );
    assert_eq!(
        engine.handle_entry(false, "src_tree/x.doctor.toml".to_string(), "x.doctor.toml"),
        EntryAction::ParseConfig
    );
}

#[test]
fn malformed_config_aborts_with_the_path() {
    let mut engine = TraversalEngine::new(command(false, false));
    engine.next_dir().unwrap();

    // One valid config was already processed and written.
    let jobs = engine.process_config_text("src_tree/good.doctor.toml", VALID).unwrap();
    assert_eq!(jobs.len(), 1);

    // The malformed one aborts: a parse error naming its path, and no jobs
    // for it, so nothing past this point is ever written.
    let err = engine
        .process_config_text("src_tree/bad.doctor.toml", "package_name = [broken")
        .unwrap_err();
    match err {
        DocError::Parse(msg) => assert!(msg.starts_with("src_tree/bad.doctor.toml")),
        other => panic!("expected a parse error, got {other:?}"),
    }

    // The earlier document's bookkeeping is untouched.
    let results = engine.into_results();
    assert_eq!(results.nodes_processed, vec!["n".to_string()]);
}

#[test]
fn output_paths_use_the_generator_extension() {
    let mut engine = TraversalEngine::new(command(false, true));
    engine.next_dir().unwrap();
    let jobs = engine.process_config_text("src_tree/p.doctor.toml", VALID).unwrap();
    // The write path and the index link target are the same text.
    assert_eq!(jobs[0].0, "out/n.md");
    let (index_path, index_body) = engine.index_job().unwrap();
    assert_eq!(index_path, "out/NODES_README.md");
    assert!(index_body.contains("(out/n.md)"));
}

#[test]
fn index_job_is_owed_only_when_requested_and_nonempty() {
    // Requested, but nothing processed: no index.
    let engine = TraversalEngine::new(command(false, true));
    assert!(engine.index_job().is_none());

    // Not requested, one document processed: no index.
    let mut engine = TraversalEngine::new(command(false, false));
    engine.process_config_text("p.doctor.toml", VALID).unwrap();
    assert!(engine.index_job().is_none());

    // Requested and one document processed: the index over it.
    let mut engine = TraversalEngine::new(command(false, true));
    engine.process_config_text("p.doctor.toml", VALID).unwrap();
    let (path, body) = engine.index_job().unwrap();
    assert_eq!(path, "out/NODES_README.md");
    assert_eq!(body, "# p\n- [n](out/n.md)\n\n");
}

#[test]
fn config_with_no_nodes_produces_no_jobs_but_counts() {
    let mut engine = TraversalEngine::new(command(false, true));
    engine.next_dir().unwrap();
    let jobs = engine
        .process_config_text("src_tree/empty.doctor.toml", "package_name = 'p'\nnodes = []")
        .unwrap();
    assert!(jobs.is_empty());
    // The document was still retained, so the index holds its (empty) section.
    let (_, body) = engine.index_job().unwrap();
    assert_eq!(body, "# p\n\n");
}
