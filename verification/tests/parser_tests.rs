use doctor::doc_types::Doc;
use doctor::errors::DocError;
use doctor::parsers::TomlParser;

fn sample_config() -> String {
    "package_name = 'white_line_detection'
repo = 'https://github.com/iscumd/WhiteLineDetection'

[[nodes]]
node_name = 'white_line_detection'
source_file = ['./src/white_line_detection.cpp']
summary = 'Detects white lines on the field and reports them as a pointcloud.'
potential_improvements = 'Make the kernel faster.'
misc = 'Tuned for the 2022 course.'

[[nodes.publishes]]
name = '/camera/camera_points'
description = 'White points detected in view.'

[[nodes.subscribes]]
name = '/camera/image_raw'
description = 'Raw camera frames.'

[[nodes.params]]
name = 'lower_bound_white'
description = 'Lowest grey value considered white.'

[[nodes.launch]]
file_path = './launch/wld.launch.py'
usage = 'ros2 launch white_line_detection wld.launch.py'

[[nodes.launch.args]]
name = 'camera_topic'
description = 'Topic the camera publishes frames on.'

[[nodes.launch.remap]]
from = '/camera/image_raw'
to = '/ovcam/image_raw'
"
    .to_string()
}

#[test]
fn test_toml_parse() {
    let wld = sample_config();
    let parser = TomlParser::default();

    parser.parse_str(wld).unwrap();
}

#[test]
fn parse_reads_every_field() {
    let parser = TomlParser::default();
    let doc: Doc = parser.parse_str(sample_config()).unwrap();

    assert_eq!(doc.package_name, "white_line_detection");
    assert_eq!(
        doc.repo.as_deref(),
        Some("https://github.com/iscumd/WhiteLineDetection")
    );
    assert_eq!(doc.nodes.len(), 1);

    let node = &doc.nodes[0];
    assert_eq!(node.node_name, "white_line_detection");
    assert_eq!(node.source_file, vec!["./src/white_line_detection.cpp".to_string()]);
    assert_eq!(
        node.summary,
        "Detects white lines on the field and reports them as a pointcloud."
    );
    assert_eq!(node.potential_improvements.as_deref(), Some("Make the kernel faster."));
    assert_eq!(node.misc.as_deref(), Some("Tuned for the 2022 course."));

    let pubs = node.publishes.as_ref().unwrap();
    assert_eq!(pubs.len(), 1);
    assert_eq!(pubs[0].name, "/camera/camera_points");
    assert_eq!(pubs[0].description, "White points detected in view.");

    let subs = node.subscribes.as_ref().unwrap();
    assert_eq!(subs.len(), 1);
    assert_eq!(subs[0].name, "/camera/image_raw");

    let params = node.params.as_ref().unwrap();
    assert_eq!(params.len(), 1);
    assert_eq!(params[0].name, "lower_bound_white");

    let launch = node.launch.as_ref().unwrap();
    assert_eq!(launch.len(), 1);
    assert_eq!(launch[0].file_path, "./launch/wld.launch.py");
    assert_eq!(launch[0].usage, "ros2 launch white_line_detection wld.launch.py");
    let args = launch[0].args.as_ref().unwrap();
    assert_eq!(args[0].name, "camera_topic");
    let remap = launch[0].remap.as_ref().unwrap();
    assert_eq!(remap[0].from, "/camera/image_raw");
    assert_eq!(remap[0].to, "/ovcam/image_raw");
}

#[test]
fn parse_keeps_absent_fields_absent() {
    let parser = TomlParser::default();
    let doc = parser
        .parse_str(
            "package_name = 'p'

[[nodes]]
node_name = 'n'
source_file = []
summary = 's'
"
            .to_string(),
        )
        .unwrap();

    assert!(doc.repo.is_none());
    let node = &doc.nodes[0];
    assert!(node.potential_improvements.is_none());
    assert!(node.misc.is_none());
    assert!(node.publishes.is_none());
    assert!(node.subscribes.is_none());
    assert!(node.params.is_none());
    assert!(node.launch.is_none());
    assert!(node.source_file.is_empty());
}

#[test]
fn parse_rejects_malformed_toml() {
    let parser = TomlParser::default();
    let r = parser.parse_str("package_name = 'p".to_string());
    assert!(matches!(r, Err(DocError::Parse(_))));
}

#[test]
fn parse_rejects_missing_required_key() {
    let parser = TomlParser::default();
    // No package_name.
    let r = parser.parse_str("nodes = []".to_string());
    assert!(matches!(r, Err(DocError::Parse(_))));
    // No nodes array.
    let r = parser.parse_str("package_name = 'p'".to_string());
    assert!(matches!(r, Err(DocError::Parse(_))));
    // A node without a summary.
    let r = parser.parse_str(
        "package_name = 'p'

[[nodes]]
node_name = 'n'
source_file = []
"
        .to_string(),
    );
    assert!(matches!(r, Err(DocError::Parse(_))));
}

#[test]
fn parse_rejects_wrong_types() {
    let parser = TomlParser::default();
    // package_name must be a string.
    let r = parser.parse_str("package_name = 3\nnodes = []".to_string());
    assert!(matches!(r, Err(DocError::Parse(_))));
    // source_file must be an array of strings.
    let r = parser.parse_str(
        "package_name = 'p'

[[nodes]]
node_name = 'n'
source_file = [1]
summary = 's'
"
        .to_string(),
    );
    assert!(matches!(r, Err(DocError::Parse(_))));
    // repo, if present, must be a string.
    let r = parser.parse_str("package_name = 'p'\nrepo = false\nnodes = []".to_string());
    assert!(matches!(r, Err(DocError::Parse(_))));
}

#[test]
fn parse_allows_empty_node_list() {
    let parser = TomlParser::default();
    let doc = parser.parse_str("package_name = 'p'\nnodes = []".to_string()).unwrap();
    assert_eq!(doc.package_name, "p");
    assert!(doc.nodes.is_empty());
}

#[test]
fn match_filename_is_a_suffix_test() {
    let parser = TomlParser::default();
    assert!(parser.match_filename("foo.doctor.toml"));
    assert!(parser.match_filename("a/b/c.doctor.toml"));
    assert!(parser.match_filename("doctor.toml"));
    assert!(!parser.match_filename("foo.toml"));
    assert!(!parser.match_filename("doctor.toml.bak"));
    assert!(!parser.match_filename("Doctor.toml"));
    assert!(!parser.match_filename(""));
}
