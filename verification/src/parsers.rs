//! Config parsing: recognising config filenames and converting raw TOML text
//! into the document model.
//!
//! The TOML syntax itself is handled by the `toml` crate behind a small set
//! of trusted items; everything schema-shaped — which keys are required,
//! which are optional, what type each must have — is verified here against
//! a spec-level model of the parsed value tree.

use crate::doc_types::{Doc, LaunchInfo, Node, Param, Remap, Topic};
use crate::errors::DocError;
use vstd::prelude::*;
use vstd::string::StrSliceExecFns;
use vstd::string::StringExecFns;

verus! {

// ------------------------------------------------------------------
// Filename recognition.
// ------------------------------------------------------------------

/// The literal suffix that marks a config file.
pub open spec fn config_suffix() -> Seq<char> {
    "doctor.toml"@
}

/// A filename belongs to this parser exactly when it ends in the config
/// suffix: a case-sensitive literal suffix test, nothing more.
pub open spec fn filename_matches(s: Seq<char>) -> bool {
    s.len() >= config_suffix().len() && s.subrange(
        s.len() - config_suffix().len(),
        s.len() as int,
    ) == config_suffix()
}

/// Character-for-character string equality.
fn str_eq(a: &str, b: &str) -> (r: bool)
    ensures
        r == (a@ == b@),
{
    let la = a.unicode_len();
    let lb = b.unicode_len();
    if la != lb {
        return false;
    }
    let mut i: usize = 0;
    while i < la
        invariant
            i <= la,
            la as nat == a@.len(),
            la as nat == b@.len(),
            forall|j: int| 0 <= j < i ==> a@[j] == b@[j],
        decreases la - i,
    {
        if a.get_char(i) != b.get_char(i) {
            return false;
        }
        i = i + 1;
    }
    proof {
        assert(a@ =~= b@);
    }
    true
}

// ------------------------------------------------------------------
// The spec-level model of a parsed TOML value.
// ------------------------------------------------------------------

/// What a parsed TOML value holds, as far as the config schema can see.
/// Scalars other than strings (integers, floats, booleans, datetimes) are
/// all rejected by the schema, so the model does not tell them apart.
pub enum TomlTree {
    /// A string value.
    Str(Seq<char>),
    /// An array; holds the models of its elements in order.
    Arr(Seq<TomlTree>),
    /// A table; maps each key to the model of its value.
    Table(Map<Seq<char>, TomlTree>),
    /// Any other scalar.
    Scalar,
}

/// The model of the value a given TOML value holds.
pub uninterp spec fn tree_of(v: toml::Value) -> TomlTree;

/// What parsing a given text as TOML yields: the model of the parsed value,
/// or the message text of the syntax error. The result depends on the text
/// alone.
pub uninterp spec fn toml_parse(s: Seq<char>) -> Result<TomlTree, Seq<char>>;

// ------------------------------------------------------------------
// Trusted items over the toml crate.
// ------------------------------------------------------------------

#[verifier::external_type_specification]
#[verifier::external_body]
pub struct ExTomlValue(toml::Value);

/// Relies on toml::from_str::<toml::Value>: parses TOML markup into a value
/// tree; the outcome is a function of the input text alone.
#[verifier::external_body]
fn parse_value(s: &str) -> (r: Result<toml::Value, String>)
    ensures
        match r {
            Ok(v) => toml_parse(s@) is Ok && tree_of(v) == toml_parse(s@)->Ok_0,
            Err(e) => toml_parse(s@) is Err && e@ == toml_parse(s@)->Err_0,
        },
{
    match toml::from_str::<toml::Value>(s) {
        Ok(v) => Ok(v),
        Err(e) => Err(e.to_string()),
    }
}

/// Relies on toml::Value::get with a string index: looks the key up when the
/// value is a table and yields nothing otherwise.
#[verifier::external_body]
fn value_get<'a>(v: &'a toml::Value, key: &str) -> (r: Option<&'a toml::Value>)
    ensures
        match tree_of(*v) {
            TomlTree::Table(m) => {
                &&& m.contains_key(key@) ==> r is Some && tree_of(*(r->Some_0)) == m[key@]
                &&& !m.contains_key(key@) ==> r is None
            },
            _ => r is None,
        },
{
    v.get(key)
}

/// Relies on toml::Value::as_str: yields the string when the value is one.
#[verifier::external_body]
fn value_as_str<'a>(v: &'a toml::Value) -> (r: Option<&'a str>)
    ensures
        match tree_of(*v) {
            TomlTree::Str(s) => r is Some && (r->Some_0)@ == s,
            _ => r is None,
        },
{
    v.as_str()
}

/// Relies on toml::Value::as_array: yields the elements when the value is an
/// array.
#[verifier::external_body]
fn value_as_array<'a>(v: &'a toml::Value) -> (r: Option<&'a Vec<toml::Value>>)
    ensures
        match tree_of(*v) {
            TomlTree::Arr(ts) => r is Some && (r->Some_0)@.len() == ts.len() && (forall|i: int|
                0 <= i < ts.len() ==> tree_of(#[trigger] (r->Some_0)@[i]) == ts[i]),
            _ => r is None,
        },
{
    v.as_array()
}

// ------------------------------------------------------------------
// The config schema, stated over the model.
// ------------------------------------------------------------------

/// Key `k` is present and holds a string.
pub open spec fn has_str_key(m: Map<Seq<char>, TomlTree>, k: Seq<char>) -> bool {
    m.contains_key(k) && m[k] is Str
}

/// The string held at key `k`.
pub open spec fn str_key(m: Map<Seq<char>, TomlTree>, k: Seq<char>) -> Seq<char> {
    m[k]->Str_0
}

/// Key `k`, if present, holds a string.
pub open spec fn opt_str_ok(m: Map<Seq<char>, TomlTree>, k: Seq<char>) -> bool {
    m.contains_key(k) ==> m[k] is Str
}

/// An optional string field was read faithfully: present exactly when the
/// key is, with the key's text.
pub open spec fn opt_str_matches(
    o: Option<String>,
    m: Map<Seq<char>, TomlTree>,
    k: Seq<char>,
) -> bool {
    match o {
        Some(s) => has_str_key(m, k) && s@ == str_key(m, k),
        None => !m.contains_key(k),
    }
}

/// Every element is a string.
pub open spec fn strings_ok(ts: Seq<TomlTree>) -> bool {
    forall|i: int| 0 <= i < ts.len() ==> ts[i] is Str
}

/// A string list was read faithfully, in order.
pub open spec fn strings_match(ss: Seq<String>, ts: Seq<TomlTree>) -> bool {
    ss.len() == ts.len() && forall|i: int|
        #![trigger ss[i]]
        #![trigger ts[i]]
        0 <= i < ts.len() ==> ts[i] is Str && ss[i]@ == ts[i]->Str_0
}

/// A topic entry: a table with required string keys `name` and `description`.
pub open spec fn topic_ok(t: TomlTree) -> bool {
    t is Table && has_str_key(t->Table_0, "name"@) && has_str_key(t->Table_0, "description"@)
}

/// A topic was read faithfully.
pub open spec fn topic_matches(p: Topic, t: TomlTree) -> bool {
    topic_ok(t) && p.name@ == str_key(t->Table_0, "name"@) && p.description@ == str_key(
        t->Table_0,
        "description"@,
    )
}

pub open spec fn topics_ok(ts: Seq<TomlTree>) -> bool {
    forall|i: int| 0 <= i < ts.len() ==> topic_ok(#[trigger] ts[i])
}

pub open spec fn topics_match(ps: Seq<Topic>, ts: Seq<TomlTree>) -> bool {
    ps.len() == ts.len() && forall|i: int|
        #![trigger ps[i]]
        #![trigger ts[i]]
        0 <= i < ts.len() ==> topic_matches(ps[i], ts[i])
}

/// A param entry: a table with required string keys `name` and `description`.
pub open spec fn param_ok(t: TomlTree) -> bool {
    t is Table && has_str_key(t->Table_0, "name"@) && has_str_key(t->Table_0, "description"@)
}

pub open spec fn param_matches(p: Param, t: TomlTree) -> bool {
    param_ok(t) && p.name@ == str_key(t->Table_0, "name"@) && p.description@ == str_key(
        t->Table_0,
        "description"@,
    )
}

pub open spec fn params_ok(ts: Seq<TomlTree>) -> bool {
    forall|i: int| 0 <= i < ts.len() ==> param_ok(#[trigger] ts[i])
}

pub open spec fn params_match(ps: Seq<Param>, ts: Seq<TomlTree>) -> bool {
    ps.len() == ts.len() && forall|i: int|
        #![trigger ps[i]]
        #![trigger ts[i]]
        0 <= i < ts.len() ==> param_matches(ps[i], ts[i])
}

/// A remap entry: a table with required string keys `from` and `to`.
pub open spec fn remap_ok(t: TomlTree) -> bool {
    t is Table && has_str_key(t->Table_0, "from"@) && has_str_key(t->Table_0, "to"@)
}

pub open spec fn remap_matches(p: Remap, t: TomlTree) -> bool {
    remap_ok(t) && p.from@ == str_key(t->Table_0, "from"@) && p.to@ == str_key(
        t->Table_0,
        "to"@,
    )
}

pub open spec fn remaps_ok(ts: Seq<TomlTree>) -> bool {
    forall|i: int| 0 <= i < ts.len() ==> remap_ok(#[trigger] ts[i])
}

pub open spec fn remaps_match(ps: Seq<Remap>, ts: Seq<TomlTree>) -> bool {
    ps.len() == ts.len() && forall|i: int|
        #![trigger ps[i]]
        #![trigger ts[i]]
        0 <= i < ts.len() ==> remap_matches(ps[i], ts[i])
}

/// A launch entry: required string keys `file_path` and `usage`, optional
/// `args` (params) and `remap` (remappings) arrays.
pub open spec fn launch_ok(t: TomlTree) -> bool {
    &&& t is Table
    &&& has_str_key(t->Table_0, "file_path"@)
    &&& has_str_key(t->Table_0, "usage"@)
    &&& t->Table_0.contains_key("args"@) ==> t->Table_0["args"@] is Arr && params_ok(
        t->Table_0["args"@]->Arr_0,
    )
    &&& t->Table_0.contains_key("remap"@) ==> t->Table_0["remap"@] is Arr && remaps_ok(
        t->Table_0["remap"@]->Arr_0,
    )
}

pub open spec fn opt_params_matches(
    o: Option<Vec<Param>>,
    m: Map<Seq<char>, TomlTree>,
    k: Seq<char>,
) -> bool {
    match o {
        Some(v) => m.contains_key(k) && m[k] is Arr && params_match(v@, m[k]->Arr_0),
        None => !m.contains_key(k),
    }
}

pub open spec fn opt_remaps_matches(
    o: Option<Vec<Remap>>,
    m: Map<Seq<char>, TomlTree>,
    k: Seq<char>,
) -> bool {
    match o {
        Some(v) => m.contains_key(k) && m[k] is Arr && remaps_match(v@, m[k]->Arr_0),
        None => !m.contains_key(k),
    }
}

pub open spec fn opt_topics_matches(
    o: Option<Vec<Topic>>,
    m: Map<Seq<char>, TomlTree>,
    k: Seq<char>,
) -> bool {
    match o {
        Some(v) => m.contains_key(k) && m[k] is Arr && topics_match(v@, m[k]->Arr_0),
        None => !m.contains_key(k),
    }
}

pub open spec fn launch_matches(l: LaunchInfo, t: TomlTree) -> bool {
    &&& t is Table
    &&& has_str_key(t->Table_0, "file_path"@)
    &&& has_str_key(t->Table_0, "usage"@)
    &&& l.file_path@ == str_key(t->Table_0, "file_path"@)
    &&& l.usage@ == str_key(t->Table_0, "usage"@)
    &&& opt_params_matches(l.args, t->Table_0, "args"@)
    &&& opt_remaps_matches(l.remap, t->Table_0, "remap"@)
}

pub open spec fn launches_ok(ts: Seq<TomlTree>) -> bool {
    forall|i: int| 0 <= i < ts.len() ==> launch_ok(#[trigger] ts[i])
}

pub open spec fn launches_match(ls: Seq<LaunchInfo>, ts: Seq<TomlTree>) -> bool {
    ls.len() == ts.len() && forall|i: int|
        #![trigger ls[i]]
        #![trigger ts[i]]
        0 <= i < ts.len() ==> launch_matches(ls[i], ts[i])
}

pub open spec fn opt_launches_matches(
    o: Option<Vec<LaunchInfo>>,
    m: Map<Seq<char>, TomlTree>,
    k: Seq<char>,
) -> bool {
    match o {
        Some(v) => m.contains_key(k) && m[k] is Arr && launches_match(v@, m[k]->Arr_0),
        None => !m.contains_key(k),
    }
}

/// A node entry: required `node_name`, `source_file` (string array) and
/// `summary`; optional improvement and misc texts, topic, param and launch
/// lists. Unknown keys are ignored.
pub open spec fn node_ok(t: TomlTree) -> bool {
    &&& t is Table
    &&& has_str_key(t->Table_0, "node_name"@)
    &&& t->Table_0.contains_key("source_file"@)
    &&& t->Table_0["source_file"@] is Arr
    &&& strings_ok(t->Table_0["source_file"@]->Arr_0)
    &&& has_str_key(t->Table_0, "summary"@)
    &&& opt_str_ok(t->Table_0, "potential_improvements"@)
    &&& opt_str_ok(t->Table_0, "misc"@)
    &&& t->Table_0.contains_key("publishes"@) ==> t->Table_0["publishes"@] is Arr
        && topics_ok(t->Table_0["publishes"@]->Arr_0)
    &&& t->Table_0.contains_key("subscribes"@) ==> t->Table_0["subscribes"@] is Arr
        && topics_ok(t->Table_0["subscribes"@]->Arr_0)
    &&& t->Table_0.contains_key("params"@) ==> t->Table_0["params"@] is Arr && params_ok(
        t->Table_0["params"@]->Arr_0,
    )
    &&& t->Table_0.contains_key("launch"@) ==> t->Table_0["launch"@] is Arr && launches_ok(
        t->Table_0["launch"@]->Arr_0,
    )
}

pub open spec fn node_matches(n: Node, t: TomlTree) -> bool {
    &&& t is Table
    &&& has_str_key(t->Table_0, "node_name"@)
    &&& n.node_name@ == str_key(t->Table_0, "node_name"@)
    &&& t->Table_0.contains_key("source_file"@)
    &&& t->Table_0["source_file"@] is Arr
    &&& strings_match(n.source_file@, t->Table_0["source_file"@]->Arr_0)
    &&& has_str_key(t->Table_0, "summary"@)
    &&& n.summary@ == str_key(t->Table_0, "summary"@)
    &&& opt_str_matches(n.potential_improvements, t->Table_0, "potential_improvements"@)
    &&& opt_str_matches(n.misc, t->Table_0, "misc"@)
    &&& opt_topics_matches(n.publishes, t->Table_0, "publishes"@)
    &&& opt_topics_matches(n.subscribes, t->Table_0, "subscribes"@)
    &&& opt_params_matches(n.params, t->Table_0, "params"@)
    &&& opt_launches_matches(n.launch, t->Table_0, "launch"@)
}

pub open spec fn nodes_ok(ts: Seq<TomlTree>) -> bool {
    forall|i: int| 0 <= i < ts.len() ==> node_ok(#[trigger] ts[i])
}

pub open spec fn nodes_match(ns: Seq<Node>, ts: Seq<TomlTree>) -> bool {
    ns.len() == ts.len() && forall|i: int|
        #![trigger ns[i]]
        #![trigger ts[i]]
        0 <= i < ts.len() ==> node_matches(ns[i], ts[i])
}

/// A whole config: required `package_name`, optional `repo`, required
/// `nodes` array.
pub open spec fn doc_ok(t: TomlTree) -> bool {
    &&& t is Table
    &&& has_str_key(t->Table_0, "package_name"@)
    &&& opt_str_ok(t->Table_0, "repo"@)
    &&& t->Table_0.contains_key("nodes"@)
    &&& t->Table_0["nodes"@] is Arr
    &&& nodes_ok(t->Table_0["nodes"@]->Arr_0)
}

pub open spec fn doc_matches(d: Doc, t: TomlTree) -> bool {
    &&& t is Table
    &&& has_str_key(t->Table_0, "package_name"@)
    &&& d.package_name@ == str_key(t->Table_0, "package_name"@)
    &&& opt_str_matches(d.repo, t->Table_0, "repo"@)
    &&& t->Table_0.contains_key("nodes"@)
    &&& t->Table_0["nodes"@] is Arr
    &&& nodes_match(d.nodes@, t->Table_0["nodes"@]->Arr_0)
}

/// A text parses to a valid config: well-formed TOML whose value tree fits
/// the schema.
pub open spec fn text_parses(s: Seq<char>) -> bool {
    toml_parse(s) is Ok && doc_ok(toml_parse(s)->Ok_0)
}

// ------------------------------------------------------------------
// Verified schema mapping.
// ------------------------------------------------------------------

/// Builds a parse error whose message names the offending key.
fn key_error(what: &str, key: &str) -> (r: DocError)
    ensures
        r is Parse,
{
    let mut m = String::new();
    m.append(what);
    m.append(" '");
    m.append(key);
    m.append("'");
    DocError::Parse(m)
}

/// Reads a required string field of a table.
fn req_string(v: &toml::Value, key: &str) -> (r: Result<String, DocError>)
    ensures
        match r {
            Ok(s) => tree_of(*v) is Table && has_str_key(tree_of(*v)->Table_0, key@) && s@
                == str_key(tree_of(*v)->Table_0, key@),
            Err(e) => e is Parse && !(tree_of(*v) is Table && has_str_key(
                tree_of(*v)->Table_0,
                key@,
            )),
        },
{
    match value_get(v, key) {
        Some(f) => match value_as_str(f) {
            Some(s) => Ok(s.to_owned()),
            None => Err(key_error("expected a string at key", key)),
        },
        None => Err(key_error("missing required key", key)),
    }
}

/// Reads an optional string field of a table.
fn opt_string(v: &toml::Value, key: &str) -> (r: Result<Option<String>, DocError>)
    requires
        tree_of(*v) is Table,
    ensures
        match r {
            Ok(o) => opt_str_matches(o, tree_of(*v)->Table_0, key@),
            Err(e) => e is Parse && !opt_str_ok(tree_of(*v)->Table_0, key@),
        },
{
    match value_get(v, key) {
        Some(f) => match value_as_str(f) {
            Some(s) => Ok(Some(s.to_owned())),
            None => Err(key_error("expected a string at key", key)),
        },
        None => Ok(None),
    }
}

/// Reads a required array-of-strings field of a table.
fn string_array(v: &toml::Value, key: &str) -> (r: Result<Vec<String>, DocError>)
    requires
        tree_of(*v) is Table,
    ensures
        match r {
            Ok(ss) => tree_of(*v)->Table_0.contains_key(key@) && tree_of(*v)->Table_0[key@]
                is Arr && strings_ok(tree_of(*v)->Table_0[key@]->Arr_0) && strings_match(
                ss@,
                tree_of(*v)->Table_0[key@]->Arr_0,
            ),
            Err(e) => e is Parse && !(tree_of(*v)->Table_0.contains_key(key@) && tree_of(
                *v,
            )->Table_0[key@] is Arr && strings_ok(tree_of(*v)->Table_0[key@]->Arr_0)),
        },
{
    let f = match value_get(v, key) {
        Some(f) => f,
        None => {
            return Err(key_error("missing required key", key));
        },
    };
    let arr = match value_as_array(f) {
        Some(a) => a,
        None => {
            return Err(key_error("expected an array at key", key));
        },
    };
    let ghost ts = tree_of(*f)->Arr_0;
    let mut out: Vec<String> = Vec::new();
    let mut i: usize = 0;
    while i < arr.len()
        invariant
            tree_of(*v) is Table,
            tree_of(*v)->Table_0.contains_key(key@),
            tree_of(*v)->Table_0[key@] is Arr,
            ts == tree_of(*v)->Table_0[key@]->Arr_0,
            i <= arr@.len(),
            arr@.len() == ts.len(),
            forall|j: int| 0 <= j < ts.len() ==> tree_of(#[trigger] arr@[j]) == ts[j],
            out@.len() == i,
            forall|j: int| 0 <= j < i ==> (#[trigger] ts[j]) is Str,
            forall|j: int| 0 <= j < i ==> (#[trigger] out@[j])@ == ts[j]->Str_0,
        decreases arr@.len() - i,
    {
        match value_as_str(&arr[i]) {
            Some(s) => out.push(s.to_owned()),
            None => {
                proof {
                    assert(!(ts[i as int] is Str));
                    assert(!strings_ok(ts));
                }
                return Err(key_error("expected an array of strings at key", key));
            },
        }
        i = i + 1;
    }
    Ok(out)
}

/// Reads one topic entry.
fn parse_topic(v: &toml::Value) -> (r: Result<Topic, DocError>)
    ensures
        match r {
            Ok(p) => topic_matches(p, tree_of(*v)),
            Err(e) => e is Parse && !topic_ok(tree_of(*v)),
        },
{
    let name = match req_string(v, "name") {
        Ok(s) => s,
        Err(e) => {
            return Err(e);
        },
    };
    let description = match req_string(v, "description") {
        Ok(s) => s,
        Err(e) => {
            return Err(e);
        },
    };
    Ok(Topic { name, description })
}

/// Reads one param entry.
fn parse_param(v: &toml::Value) -> (r: Result<Param, DocError>)
    ensures
        match r {
            Ok(p) => param_matches(p, tree_of(*v)),
            Err(e) => e is Parse && !param_ok(tree_of(*v)),
        },
{
    let name = match req_string(v, "name") {
        Ok(s) => s,
        Err(e) => {
            return Err(e);
        },
    };
    let description = match req_string(v, "description") {
        Ok(s) => s,
        Err(e) => {
            return Err(e);
        },
    };
    Ok(Param { name, description })
}

/// Reads one remap entry.
fn parse_remap(v: &toml::Value) -> (r: Result<Remap, DocError>)
    ensures
        match r {
            Ok(p) => remap_matches(p, tree_of(*v)),
            Err(e) => e is Parse && !remap_ok(tree_of(*v)),
        },
{
    let from = match req_string(v, "from") {
        Ok(s) => s,
        Err(e) => {
            return Err(e);
        },
    };
    let to = match req_string(v, "to") {
        Ok(s) => s,
        Err(e) => {
            return Err(e);
        },
    };
    Ok(Remap { from, to })
}

/// Reads an optional array of topic entries.
fn parse_topics(v: &toml::Value, key: &str) -> (r: Result<Option<Vec<Topic>>, DocError>)
    requires
        tree_of(*v) is Table,
    ensures
        match r {
            Ok(o) => opt_topics_matches(o, tree_of(*v)->Table_0, key@),
            Err(e) => e is Parse && !(tree_of(*v)->Table_0.contains_key(key@) ==> tree_of(
                *v,
            )->Table_0[key@] is Arr && topics_ok(tree_of(*v)->Table_0[key@]->Arr_0)),
        },
{
    let f = match value_get(v, key) {
        Some(f) => f,
        None => {
            return Ok(None);
        },
    };
    let arr = match value_as_array(f) {
        Some(a) => a,
        None => {
            return Err(key_error("expected an array at key", key));
        },
    };
    let ghost ts = tree_of(*f)->Arr_0;
    let mut out: Vec<Topic> = Vec::new();
    let mut i: usize = 0;
    while i < arr.len()
        invariant
            tree_of(*v) is Table,
            tree_of(*v)->Table_0.contains_key(key@),
            tree_of(*v)->Table_0[key@] is Arr,
            ts == tree_of(*v)->Table_0[key@]->Arr_0,
            i <= arr@.len(),
            arr@.len() == ts.len(),
            forall|j: int| 0 <= j < ts.len() ==> tree_of(#[trigger] arr@[j]) == ts[j],
            out@.len() == i,
            forall|j: int| 0 <= j < i ==> topic_matches(#[trigger] out@[j], ts[j]),
        decreases arr@.len() - i,
    {
        match parse_topic(&arr[i]) {
            Ok(p) => out.push(p),
            Err(e) => {
                proof {
                    assert(!topic_ok(ts[i as int]));
                    assert(!topics_ok(ts));
                }
                return Err(e);
            },
        }
        i = i + 1;
    }
    Ok(Some(out))
}

/// Reads an optional array of param entries.
fn parse_params(v: &toml::Value, key: &str) -> (r: Result<Option<Vec<Param>>, DocError>)
    requires
        tree_of(*v) is Table,
    ensures
        match r {
            Ok(o) => opt_params_matches(o, tree_of(*v)->Table_0, key@),
            Err(e) => e is Parse && !(tree_of(*v)->Table_0.contains_key(key@) ==> tree_of(
                *v,
            )->Table_0[key@] is Arr && params_ok(tree_of(*v)->Table_0[key@]->Arr_0)),
        },
{
    let f = match value_get(v, key) {
        Some(f) => f,
        None => {
            return Ok(None);
        },
    };
    let arr = match value_as_array(f) {
        Some(a) => a,
        None => {
            return Err(key_error("expected an array at key", key));
        },
    };
    let ghost ts = tree_of(*f)->Arr_0;
    let mut out: Vec<Param> = Vec::new();
    let mut i: usize = 0;
    while i < arr.len()
        invariant
            tree_of(*v) is Table,
            tree_of(*v)->Table_0.contains_key(key@),
            tree_of(*v)->Table_0[key@] is Arr,
            ts == tree_of(*v)->Table_0[key@]->Arr_0,
            i <= arr@.len(),
            arr@.len() == ts.len(),
            forall|j: int| 0 <= j < ts.len() ==> tree_of(#[trigger] arr@[j]) == ts[j],
            out@.len() == i,
            forall|j: int| 0 <= j < i ==> param_matches(#[trigger] out@[j], ts[j]),
        decreases arr@.len() - i,
    {
        match parse_param(&arr[i]) {
            Ok(p) => out.push(p),
            Err(e) => {
                proof {
                    assert(!param_ok(ts[i as int]));
                    assert(!params_ok(ts));
                }
                return Err(e);
            },
        }
        i = i + 1;
    }
    Ok(Some(out))
}

/// Reads an optional array of remap entries.
fn parse_remaps(v: &toml::Value, key: &str) -> (r: Result<Option<Vec<Remap>>, DocError>)
    requires
        tree_of(*v) is Table,
    ensures
        match r {
            Ok(o) => opt_remaps_matches(o, tree_of(*v)->Table_0, key@),
            Err(e) => e is Parse && !(tree_of(*v)->Table_0.contains_key(key@) ==> tree_of(
                *v,
            )->Table_0[key@] is Arr && remaps_ok(tree_of(*v)->Table_0[key@]->Arr_0)),
        },
{
    let f = match value_get(v, key) {
        Some(f) => f,
        None => {
            return Ok(None);
        },
    };
    let arr = match value_as_array(f) {
        Some(a) => a,
        None => {
            return Err(key_error("expected an array at key", key));
        },
    };
    let ghost ts = tree_of(*f)->Arr_0;
    let mut out: Vec<Remap> = Vec::new();
    let mut i: usize = 0;
    while i < arr.len()
        invariant
            tree_of(*v) is Table,
            tree_of(*v)->Table_0.contains_key(key@),
            tree_of(*v)->Table_0[key@] is Arr,
            ts == tree_of(*v)->Table_0[key@]->Arr_0,
            i <= arr@.len(),
            arr@.len() == ts.len(),
            forall|j: int| 0 <= j < ts.len() ==> tree_of(#[trigger] arr@[j]) == ts[j],
            out@.len() == i,
            forall|j: int| 0 <= j < i ==> remap_matches(#[trigger] out@[j], ts[j]),
        decreases arr@.len() - i,
    {
        match parse_remap(&arr[i]) {
            Ok(p) => out.push(p),
            Err(e) => {
                proof {
                    assert(!remap_ok(ts[i as int]));
                    assert(!remaps_ok(ts));
                }
                return Err(e);
            },
        }
        i = i + 1;
    }
    Ok(Some(out))
}

/// Reads one launch entry.
fn parse_launch(v: &toml::Value) -> (r: Result<LaunchInfo, DocError>)
    ensures
        match r {
            Ok(l) => launch_ok(tree_of(*v)) && launch_matches(l, tree_of(*v)),
            Err(e) => e is Parse && !launch_ok(tree_of(*v)),
        },
{
    let file_path = match req_string(v, "file_path") {
        Ok(s) => s,
        Err(e) => {
            return Err(e);
        },
    };
    let usage = match req_string(v, "usage") {
        Ok(s) => s,
        Err(e) => {
            return Err(e);
        },
    };
    let args = match parse_params(v, "args") {
        Ok(o) => o,
        Err(e) => {
            return Err(e);
        },
    };
    let remap = match parse_remaps(v, "remap") {
        Ok(o) => o,
        Err(e) => {
            return Err(e);
        },
    };
    Ok(LaunchInfo { file_path, usage, args, remap })
}

/// Reads an optional array of launch entries.
fn parse_launches(v: &toml::Value, key: &str) -> (r: Result<
    Option<Vec<LaunchInfo>>,
    DocError,
>)
    requires
        tree_of(*v) is Table,
    ensures
        match r {
            Ok(o) => opt_launches_matches(o, tree_of(*v)->Table_0, key@),
            Err(e) => e is Parse && !(tree_of(*v)->Table_0.contains_key(key@) ==> tree_of(
                *v,
            )->Table_0[key@] is Arr && launches_ok(tree_of(*v)->Table_0[key@]->Arr_0)),
        },
{
    let f = match value_get(v, key) {
        Some(f) => f,
        None => {
            return Ok(None);
        },
    };
    let arr = match value_as_array(f) {
        Some(a) => a,
        None => {
            return Err(key_error("expected an array at key", key));
        },
    };
    let ghost ts = tree_of(*f)->Arr_0;
    let mut out: Vec<LaunchInfo> = Vec::new();
    let mut i: usize = 0;
    while i < arr.len()
        invariant
            tree_of(*v) is Table,
            tree_of(*v)->Table_0.contains_key(key@),
            tree_of(*v)->Table_0[key@] is Arr,
            ts == tree_of(*v)->Table_0[key@]->Arr_0,
            i <= arr@.len(),
            arr@.len() == ts.len(),
            forall|j: int| 0 <= j < ts.len() ==> tree_of(#[trigger] arr@[j]) == ts[j],
            out@.len() == i,
            forall|j: int| 0 <= j < i ==> launch_ok(#[trigger] ts[j]),
            forall|j: int| 0 <= j < i ==> launch_matches(#[trigger] out@[j], ts[j]),
        decreases arr@.len() - i,
    {
        match parse_launch(&arr[i]) {
            Ok(p) => out.push(p),
            Err(e) => {
                proof {
                    assert(!launch_ok(ts[i as int]));
                    assert(!launches_ok(ts));
                }
                return Err(e);
            },
        }
        i = i + 1;
    }
    Ok(Some(out))
}

/// Reads one node entry.
fn parse_node(v: &toml::Value) -> (r: Result<Node, DocError>)
    ensures
        match r {
            Ok(n) => node_ok(tree_of(*v)) && node_matches(n, tree_of(*v)),
            Err(e) => e is Parse && !node_ok(tree_of(*v)),
        },
{
    let node_name = match req_string(v, "node_name") {
        Ok(s) => s,
        Err(e) => {
            return Err(e);
        },
    };
    let source_file = match string_array(v, "source_file") {
        Ok(ss) => ss,
        Err(e) => {
            return Err(e);
        },
    };
    let summary = match req_string(v, "summary") {
        Ok(s) => s,
        Err(e) => {
            return Err(e);
        },
    };
    let potential_improvements = match opt_string(v, "potential_improvements") {
        Ok(o) => o,
        Err(e) => {
            return Err(e);
        },
    };
    let misc = match opt_string(v, "misc") {
        Ok(o) => o,
        Err(e) => {
            return Err(e);
        },
    };
    let publishes = match parse_topics(v, "publishes") {
        Ok(o) => o,
        Err(e) => {
            return Err(e);
        },
    };
    let subscribes = match parse_topics(v, "subscribes") {
        Ok(o) => o,
        Err(e) => {
            return Err(e);
        },
    };
    let params = match parse_params(v, "params") {
        Ok(o) => o,
        Err(e) => {
            return Err(e);
        },
    };
    let launch = match parse_launches(v, "launch") {
        Ok(o) => o,
        Err(e) => {
            return Err(e);
        },
    };
    Ok(
        Node {
            node_name,
            source_file,
            summary,
            potential_improvements,
            misc,
            publishes,
            subscribes,
            params,
            launch,
        },
    )
}

/// Reads a whole config from a parsed TOML value.
fn parse_doc(v: &toml::Value) -> (r: Result<Doc, DocError>)
    ensures
        match r {
            Ok(d) => doc_ok(tree_of(*v)) && doc_matches(d, tree_of(*v)),
            Err(e) => e is Parse && !doc_ok(tree_of(*v)),
        },
{
    let package_name = match req_string(v, "package_name") {
        Ok(s) => s,
        Err(e) => {
            return Err(e);
        },
    };
    let repo = match opt_string(v, "repo") {
        Ok(o) => o,
        Err(e) => {
            return Err(e);
        },
    };
    let f = match value_get(v, "nodes") {
        Some(f) => f,
        None => {
            return Err(key_error("missing required key", "nodes"));
        },
    };
    let arr = match value_as_array(f) {
        Some(a) => a,
        None => {
            return Err(key_error("expected an array at key", "nodes"));
        },
    };
    let ghost ts = tree_of(*f)->Arr_0;
    let mut nodes: Vec<Node> = Vec::new();
    let mut i: usize = 0;
    while i < arr.len()
        invariant
            tree_of(*v) is Table,
            tree_of(*v)->Table_0.contains_key("nodes"@),
            tree_of(*v)->Table_0["nodes"@] is Arr,
            ts == tree_of(*v)->Table_0["nodes"@]->Arr_0,
            i <= arr@.len(),
            arr@.len() == ts.len(),
            forall|j: int| 0 <= j < ts.len() ==> tree_of(#[trigger] arr@[j]) == ts[j],
            nodes@.len() == i,
            forall|j: int| 0 <= j < i ==> node_ok(#[trigger] ts[j]),
            forall|j: int| 0 <= j < i ==> node_matches(#[trigger] nodes@[j], ts[j]),
        decreases arr@.len() - i,
    {
        match parse_node(&arr[i]) {
            Ok(n) => nodes.push(n),
            Err(e) => {
                proof {
                    assert(!node_ok(ts[i as int]));
                    assert(!nodes_ok(ts));
                }
                return Err(e);
            },
        }
        i = i + 1;
    }
    Ok(Doc { package_name, repo, nodes })
}

// ------------------------------------------------------------------
// The parser type.
// ------------------------------------------------------------------

/// Parses configs from TOML markup.
pub struct TomlParser {}

impl Default for TomlParser {
    fn default() -> (r: Self)
        ensures
            r == (TomlParser {  }),
    {
        TomlParser {  }
    }
}

impl TomlParser {
    /// Parses a config from a string. Succeeds exactly on well-formed TOML
    /// whose value tree fits the config schema, and then returns the faithful
    /// reading of that tree.
    pub fn parse_str(&self, string: String) -> (r: Result<Doc, DocError>)
        ensures
            match r {
                Ok(d) => text_parses(string@) && doc_matches(d, toml_parse(string@)->Ok_0),
                Err(e) => e is Parse && !text_parses(string@),
            },
    {
        match parse_value(string.as_str()) {
            Ok(val) => parse_doc(&val),
            Err(msg) => {
                let mut m = String::new();
                m.append("invalid TOML: ");
                m.append(msg.as_str());
                Err(DocError::Parse(m))
            },
        }
    }

    /// True exactly when the passed filename ends in the config suffix.
    pub fn match_filename(&self, filename: &str) -> (r: bool)
        ensures
            r == filename_matches(filename@),
    {
        let suffix: &str = "doctor.toml";
        let n = filename.unicode_len();
        let m = suffix.unicode_len();
        if n < m {
            return false;
        }
        let tail = filename.substring_char(n - m, n);
        str_eq(tail, suffix)
    }
}

} // verus!
