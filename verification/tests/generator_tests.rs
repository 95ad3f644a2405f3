use doctor::doc_types::{Doc, LaunchInfo, Node, Param, Remap, Topic};
use doctor::generators::{Generator, MarkdownGenerator};
use doctor::parsers::TomlParser;

fn bare_node(name: &str, summary: &str) -> Node {
    Node {
        node_name: name.to_string(),
        source_file: vec![],
        summary: summary.to_string(),
        potential_improvements: None,
        misc: None,
        publishes: None,
        subscribes: None,
        params: None,
        launch: None,
    }
}

fn doc_with(package: &str, repo: Option<&str>, nodes: Vec<Node>) -> Doc {
    Doc {
        package_name: package.to_string(),
        repo: repo.map(|s| s.to_string()),
        nodes,
    }
}

#[test]
fn test_md_gen() {
    let wld = "package_name = 'white_line_detection'
repo = 'https://github.com/iscumd/WhiteLineDetection'

[[nodes]]
node_name = 'white_line_detection'
source_file = ['./src/white_line_detection.cpp']
summary = 'Detects white lines on the field and reports them as a pointcloud.'

[[nodes.publishes]]
name = '/camera/camera_points'
description = 'White points detected in view.'
";
    let parser = TomlParser::default();
    let parsed = parser.parse_str(wld.to_string()).unwrap();

    let gen = MarkdownGenerator::default();

    let md = gen.generate_string(parsed).unwrap();

    // Just print as its very hard to ensure a common output across platforms
    // due to line endings.
    println!("{md:?}")
}

#[test]
fn one_entry_per_node_in_order() {
    let doc = doc_with(
        "pkg",
        None,
        vec![bare_node("alpha", "a"), bare_node("beta", "b"), bare_node("gamma", "c")],
    );
    let gen = MarkdownGenerator::default();
    let out = gen.generate_string(doc).unwrap();
    assert_eq!(out.len(), 3);
    assert_eq!(out[0].0, "alpha");
    assert_eq!(out[1].0, "beta");
    assert_eq!(out[2].0, "gamma");
}

#[test]
fn minimal_node_renders_only_fixed_sections() {
    let mut node = bare_node("n1", "does things");
    node.source_file = vec!["src/a.rs".to_string()];
    let doc = doc_with("alpha", None, vec![node]);
    let gen = MarkdownGenerator::default();
    let out = gen.generate_string(doc).unwrap();
    assert_eq!(
        out[0].1,
        "# n1\nFrom package 'alpha'\n# File\n`src/a.rs`\n\n## Summary \n does things\n"
    );
    assert!(!out[0].1.contains("## Topics"));
    assert!(!out[0].1.contains("## Params"));
    assert!(!out[0].1.contains("Potential Improvements"));
    assert!(!out[0].1.contains("# Launch"));
    assert!(!out[0].1.contains("# Misc"));
}

#[test]
fn repo_link_renders_as_markdown_link() {
    let node = bare_node("n", "s");
    let doc = doc_with("p", Some("https://example.net/repo"), vec![node]);
    let gen = MarkdownGenerator::default();
    let out = gen.generate_string(doc).unwrap();
    assert!(out[0].1.contains("From package '[p](https://example.net/repo)'\n"));
}

#[test]
fn empty_optional_list_still_opens_its_section() {
    let mut node = bare_node("n", "s");
    node.publishes = Some(vec![]);
    let doc = doc_with("p", None, vec![node]);
    let gen = MarkdownGenerator::default();
    let out = gen.generate_string(doc).unwrap();
    // Presence of the field gates the section, not non-emptiness.
    assert_eq!(
        out[0].1,
        "# n\nFrom package 'p'\n# File\n\n## Summary \n s\n## Topics\n\n### Publishes\n\n"
    );
}

#[test]
fn full_node_renders_every_section_in_order() {
    let node = Node {
        node_name: "n".to_string(),
        source_file: vec!["a.rs".to_string(), "b.rs".to_string()],
        summary: "sum".to_string(),
        potential_improvements: Some("improve".to_string()),
        misc: Some("misc text".to_string()),
        publishes: Some(vec![Topic {
            name: "t1".to_string(),
            description: "d1".to_string(),
        }]),
        subscribes: Some(vec![Topic {
            name: "t2".to_string(),
            description: "d2".to_string(),
        }]),
        params: Some(vec![Param {
            name: "p1".to_string(),
            description: "pd1".to_string(),
        }]),
        launch: Some(vec![LaunchInfo {
            file_path: "l.py".to_string(),
            usage: "run it".to_string(),
            args: Some(vec![Param {
                name: "a1".to_string(),
                description: "ad1".to_string(),
            }]),
            remap: Some(vec![Remap {
                from: "x".to_string(),
                to: "y".to_string(),
            }]),
        }]),
    };
    let doc = doc_with("p", None, vec![node]);
    let gen = MarkdownGenerator::default();
    let out = gen.generate_string(doc).unwrap();
    let mut expected = String::new();
    expected.push_str("# n\n");
    expected.push_str("From package 'p'\n");
    expected.push_str("# File\n`a.rs`\n`b.rs`\n\n");
    expected.push_str("## Summary \n sum\n");
    expected.push_str("## Topics\n\n### Publishes\n- `t1`: d1\n\n### Subscribes\n- `t2`: d2\n\n");
    expected.push_str("## Params\n- `p1`: pd1\n\n");
    expected.push_str("# Potential Improvements\nimprove \n\n");
    expected.push_str("# Launch\n## File \n l.py \n \n run it \n\n");
    expected.push_str("### Remappings\n- from `x` to `y`\n\n");
    expected.push_str("### Args\n- `a1`: ad1\n\n");
    expected.push_str("# Misc \n misc text \n");
    assert_eq!(out[0].1, expected);
}

#[test]
fn add_file_extension_appends_md() {
    let gen = MarkdownGenerator::default();
    assert_eq!(MarkdownGenerator::add_file_extension(&gen, "node"), "node.md");
    assert_eq!(Generator::add_file_extension(&gen, "node"), "node.md");
}

#[test]
fn index_groups_nodes_by_package() {
    let alpha = doc_with("alpha", None, vec![bare_node("a1", "s"), bare_node("a2", "s")]);
    let beta = doc_with("beta", None, vec![bare_node("b1", "s")]);
    let gen = MarkdownGenerator::default();
    let text = gen.render_index(&vec![alpha, beta], "out").unwrap();
    let mut expected = String::new();
    expected.push_str("# alpha\n- [a1](out/a1.md)\n- [a2](out/a2.md)\n\n");
    expected.push_str("# beta\n- [b1](out/b1.md)\n\n");
    assert_eq!(text, expected);
    // No cross-contamination: beta's section holds no alpha node.
    let beta_section = text.split("# beta").nth(1).unwrap();
    assert!(!beta_section.contains("a1"));
    assert!(!beta_section.contains("a2"));
}

#[test]
fn index_merges_documents_of_one_package() {
    let first = doc_with("alpha", None, vec![bare_node("a1", "s")]);
    let second = doc_with("alpha", None, vec![bare_node("a2", "s")]);
    let gen = MarkdownGenerator::default();
    let text = gen.render_index(&vec![first, second], ".").unwrap();
    assert_eq!(text, "# alpha\n- [a1](./a1.md)\n- [a2](./a2.md)\n\n");
}

#[test]
fn empty_node_list_renders_nothing() {
    let doc = doc_with("p", None, vec![]);
    let gen = MarkdownGenerator::default();
    let out = gen.generate_string(doc).unwrap();
    assert!(out.is_empty());
}
