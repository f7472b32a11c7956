//! YAML documents as trees of plain values, and the calls that make them
//! from text and text from them.

use crate::text::optional_text;
use vstd::prelude::*;
use yaml_rust::{Yaml, YamlEmitter, YamlLoader};

verus! {

/// The node type of the outside crate. The library does not look inside
/// it: it copies such a value into a `YamlNode`, or builds one from a
/// `YamlNode`.
#[verifier::external_type_specification]
#[verifier::external_body]
pub struct ExYaml(yaml_rust::Yaml);

/// The error of the outside crate's scanner. The library takes its text and
/// nothing else from it.
#[verifier::external_type_specification]
#[verifier::external_body]
pub struct ExScanError(yaml_rust::ScanError);

/// A node of a YAML document. A mapping holds its pairs of key and value in
/// the order of the document.
#[derive(Debug, PartialEq, Eq)]
pub enum YamlNode {
    Real(String),
    Integer(i64),
    String(String),
    Boolean(bool),
    Array(Vec<YamlNode>),
    Hash(Vec<(YamlNode, YamlNode)>),
    Alias(usize),
    Null,
    BadValue,
}

/// What a `YamlNode` stands for.
pub enum NodeView {
    Real(Seq<char>),
    Integer(i64),
    Text(Seq<char>),
    Boolean(bool),
    Array(Seq<NodeView>),
    Hash(Seq<(NodeView, NodeView)>),
    Alias(usize),
    Null,
    BadValue,
}

/// What the nodes of `items` stand for.
pub open spec fn nodes_view(items: Seq<YamlNode>) -> Seq<NodeView>
    decreases items,
{
    Seq::new(
        items.len(),
        |i: int|
            if 0 <= i < items.len() {
                items[i].view()
            } else {
                arbitrary()
            },
    )
}

/// What the pairs of `pairs` stand for.
pub open spec fn pairs_view(pairs: Seq<(YamlNode, YamlNode)>) -> Seq<(NodeView, NodeView)>
    decreases pairs,
{
    Seq::new(
        pairs.len(),
        |i: int|
            if 0 <= i < pairs.len() {
                (pairs[i].0.view(), pairs[i].1.view())
            } else {
                arbitrary()
            },
    )
}

impl View for YamlNode {
    type V = NodeView;

    open spec fn view(&self) -> NodeView
        decreases self,
    {
        match self {
            YamlNode::Real(text) => NodeView::Real(text@),
            YamlNode::Integer(value) => NodeView::Integer(*value),
            YamlNode::String(text) => NodeView::Text(text@),
            YamlNode::Boolean(value) => NodeView::Boolean(*value),
            YamlNode::Array(items) => NodeView::Array(nodes_view(items@)),
            YamlNode::Hash(pairs) => NodeView::Hash(pairs_view(pairs@)),
            YamlNode::Alias(id) => NodeView::Alias(*id),
            YamlNode::Null => NodeView::Null,
            YamlNode::BadValue => NodeView::BadValue,
        }
    }
}

/// The index of the first pair whose key is the text `key`, or -1.
pub open spec fn entry_position(pairs: Seq<(NodeView, NodeView)>, key: Seq<char>) -> int
    decreases pairs.len(),
{
    if pairs.len() == 0 {
        -1
    } else if pairs.last().0 == NodeView::Text(key) && entry_position(pairs.drop_last(), key)
        < 0 {
        pairs.len() - 1
    } else {
        entry_position(pairs.drop_last(), key)
    }
}

/// `entry_position` gives the place of a pair with the key, and no pair
/// before that place has the key.
pub proof fn entry_position_is_first(pairs: Seq<(NodeView, NodeView)>, key: Seq<char>)
    ensures
        -1 <= entry_position(pairs, key) < pairs.len(),
        entry_position(pairs, key) >= 0 ==> pairs[entry_position(pairs, key)].0 == NodeView::Text(
            key,
        ),
        forall|i: int|
            0 <= i < pairs.len() && (entry_position(pairs, key) < 0 || i < entry_position(
                pairs,
                key,
            )) ==> (#[trigger] pairs[i]).0 != NodeView::Text(key),
    decreases pairs.len(),
{
    if pairs.len() > 0 {
        entry_position_is_first(pairs.drop_last(), key);
        assert forall|i: int|
            0 <= i < pairs.len() && (entry_position(pairs, key) < 0 || i < entry_position(
                pairs,
                key,
            )) implies (#[trigger] pairs[i]).0 != NodeView::Text(key) by {
            if i < pairs.len() - 1 {
                assert(pairs.drop_last()[i] == pairs[i]);
            }
        }
    }
}

impl NodeView {
    /// The value that a mapping holds under the text `key`. A node that is no
    /// mapping, or a mapping without that key, gives `BadValue`.
    pub open spec fn entry(self, key: Seq<char>) -> NodeView {
        match self {
            NodeView::Hash(pairs) => {
                let at = entry_position(pairs, key);
                if 0 <= at < pairs.len() {
                    pairs[at].1
                } else {
                    NodeView::BadValue
                }
            },
            _ => NodeView::BadValue,
        }
    }

    /// No mapping, here or below, holds a key twice.
    pub open spec fn well_formed(self) -> bool
        decreases self,
    {
        match self {
            NodeView::Array(items) => forall|i: int|
                0 <= i < items.len() ==> (#[trigger] items[i]).well_formed(),
            NodeView::Hash(pairs) => {
                &&& forall|i: int|
                    0 <= i < pairs.len() ==> (#[trigger] pairs[i]).0.well_formed() && pairs[i].1.well_formed()
                &&& forall|i: int, j: int|
                    0 <= i < j < pairs.len() ==> (#[trigger] pairs[i]).0 != (#[trigger] pairs[j]).0
            },
            _ => true,
        }
    }
}

/// What a mapping holds under a key is as well formed as the mapping.
pub proof fn entry_well_formed(node: NodeView, key: Seq<char>)
    requires
        node.well_formed(),
    ensures
        node.entry(key).well_formed(),
{
    if let NodeView::Hash(pairs) = node {
        entry_position_is_first(pairs, key);
        let at = entry_position(pairs, key);
        if at >= 0 {
            assert(pairs[at].1.well_formed());
        }
    }
}

impl YamlNode {
    /// Whether the node is a null.
    pub fn is_null(&self) -> (null: bool)
        ensures
            null == (self@ is Null),
    {
        match self {
            YamlNode::Null => true,
            _ => false,
        }
    }

    /// Whether the node stands for a value that is not there.
    pub fn is_badvalue(&self) -> (bad: bool)
        ensures
            bad == (self@ is BadValue),
    {
        match self {
            YamlNode::BadValue => true,
            _ => false,
        }
    }

    /// The value under the text `key`, or `missing` where there is none.
    pub fn get<'a>(&'a self, key: &str, missing: &'a YamlNode) -> (value: &'a YamlNode)
        requires
            missing@ is BadValue,
        ensures
            value@ == self@.entry(key@),
    {
        match self {
            YamlNode::Hash(pairs) => {
                let wanted = key.to_owned();
                let mut i: usize = 0;
                while i < pairs.len()
                    invariant
                        i <= pairs.len(),
                        wanted@ == key@,
                        self@ == NodeView::Hash(pairs_view(pairs@)),
                        forall|j: int|
                            0 <= j < i ==> (#[trigger] pairs_view(pairs@)[j]).0 != NodeView::Text(
                                key@,
                            ),
                    decreases pairs.len() - i,
                {
                    if let YamlNode::String(name) = &pairs[i].0 {
                        if *name == wanted {
                            proof {
                                entry_position_is_first(pairs_view(pairs@), key@);
                                assert(pairs_view(pairs@)[i as int].0 == NodeView::Text(key@));
                                assert(pairs_view(pairs@)[i as int].1 == pairs@[i as int].1@);
                                assert(entry_position(pairs_view(pairs@), key@) == i);
                            }
                            return &pairs[i].1;
                        }
                    }
                    assert(pairs_view(pairs@)[i as int].0 != NodeView::Text(key@));
                    i += 1;
                }
                proof {
                    entry_position_is_first(pairs_view(pairs@), key@);
                    let at = entry_position(pairs_view(pairs@), key@);
                    if at >= 0 {
                        assert(pairs_view(pairs@)[at].0 == NodeView::Text(key@));
                    }
                }
                missing
            },
            _ => missing,
        }
    }
}

/// What a `Yaml` value of the outside crate holds, as a tree of plain values.
pub uninterp spec fn yaml_content(yaml: Yaml) -> NodeView;

/// The documents that the outside crate's loader reads from a text, or
/// `None` where it refuses the text.
pub uninterp spec fn yaml_documents(source: Seq<char>) -> Option<Seq<NodeView>>;

/// The text that the outside crate's emitter writes for a node, or `None`
/// where it fails.
pub uninterp spec fn emitted_yaml(node: NodeView) -> Option<Seq<char>>;

/// What each `Yaml` value of `documents` holds.
pub open spec fn contents(documents: Seq<Yaml>) -> Seq<NodeView> {
    documents.map_values(|document: Yaml| yaml_content(document))
}

/// Calls `YamlLoader::load_from_str`, which scans and parses `source` and
/// returns the documents of the stream, or the scanner's error. The contract
/// names the documents and says that the call fails exactly where there are
/// none to name.
#[verifier::external_body]
pub(crate) fn load_from_str(source: &str) -> (loaded: Result<Vec<Yaml>, yaml_rust::ScanError>)
    ensures
        match loaded {
            Ok(documents) => yaml_documents(source@) == Some(contents(documents@)),
            Err(_) => yaml_documents(source@) is None,
        },
{
    YamlLoader::load_from_str(source)
}

/// The text of a scanner's error, as its `Display` of the outside crate
/// writes it. Nothing is claimed of the text.
#[verifier::external_body]
pub(crate) fn scan_error_text(error: &yaml_rust::ScanError) -> (text: String) {
    format!("{}", error)
}

/// Copies a `Yaml` value of the outside crate into a `YamlNode`, variant by
/// variant; a mapping gives its pairs in the order in which it holds them.
/// The contract claims that the node stands for what the value holds, and
/// that no mapping in it holds a key twice, as the outside crate's map
/// cannot.
#[verifier::external_body]
pub(crate) fn node_of(yaml: &Yaml) -> (node: YamlNode)
    ensures
        node@ == yaml_content(*yaml),
        node@.well_formed(),
{
    match yaml {
        Yaml::Real(text) => YamlNode::Real(text.clone()),
        Yaml::Integer(value) => YamlNode::Integer(*value),
        Yaml::String(text) => YamlNode::String(text.clone()),
        Yaml::Boolean(value) => YamlNode::Boolean(*value),
        Yaml::Array(items) => YamlNode::Array(items.iter().map(node_of).collect()),
        Yaml::Hash(map) => YamlNode::Hash(map.iter().map(|(k, v)| (node_of(k), node_of(v))).collect()),
        Yaml::Alias(id) => YamlNode::Alias(*id),
        Yaml::Null => YamlNode::Null,
        Yaml::BadValue => YamlNode::BadValue,
    }
}

/// Builds the `Yaml` value of the outside crate that a `YamlNode` stands
/// for, variant by variant. The contract claims that the value holds what
/// the node stands for; it asks that no mapping holds a key twice, since the
/// outside crate's map would keep one pair of the two.
#[verifier::external_body]
pub(crate) fn yaml_of(node: &YamlNode) -> (yaml: Yaml)
    requires
        node@.well_formed(),
    ensures
        yaml_content(yaml) == node@,
{
    match node {
        YamlNode::Real(text) => Yaml::Real(text.clone()),
        YamlNode::Integer(value) => Yaml::Integer(*value),
        YamlNode::String(text) => Yaml::String(text.clone()),
        YamlNode::Boolean(value) => Yaml::Boolean(*value),
        YamlNode::Array(items) => Yaml::Array(items.iter().map(yaml_of).collect()),
        YamlNode::Hash(pairs) => Yaml::Hash(pairs.iter().map(|p| (yaml_of(&p.0), yaml_of(&p.1))).collect()),
        YamlNode::Alias(id) => Yaml::Alias(*id),
        YamlNode::Null => Yaml::Null,
        YamlNode::BadValue => Yaml::BadValue,
    }
}

/// Calls `YamlEmitter::dump` on a fresh emitter that writes into a string,
/// and returns the string unless the emitter reports an error. The contract
/// names the text.
#[verifier::external_body]
pub(crate) fn dump(yaml: &Yaml) -> (text: Option<String>)
    ensures
        optional_text(text) == emitted_yaml(yaml_content(*yaml)),
{
    let mut written = String::new();
    let outcome = YamlEmitter::new(&mut written).dump(yaml);
    outcome.ok().map(|_| written)
}

/// The text shown for a node where an error quotes it: what the emitter
/// writes for it, or a note that it could not.
pub open spec fn shown(node: NodeView) -> Seq<char> {
    match emitted_yaml(node) {
        Some(text) => text,
        None => "(INVALID YAML)"@,
    }
}

/// The YAML text of `node`, for error messages.
pub fn source_text(node: &YamlNode) -> (text: String)
    requires
        node@.well_formed(),
    ensures
        text@ == shown(node@),
{
    let yaml = yaml_of(node);
    match dump(&yaml) {
        Some(text) => text,
        None => "(INVALID YAML)".to_owned(),
    }
}

/// The documents of `source` as nodes, or the scanner's error.
pub fn parse_documents(source: &str) -> (parsed: Result<Vec<YamlNode>, yaml_rust::ScanError>)
    ensures
        match parsed {
            Ok(documents) => {
                &&& yaml_documents(source@) == Some(nodes_view(documents@))
                &&& forall|i: int|
                    0 <= i < documents.len() ==> (#[trigger] documents@[i])@.well_formed()
            },
            Err(_) => yaml_documents(source@) is None,
        },
{
    match load_from_str(source) {
        Ok(loaded) => {
            let mut documents: Vec<YamlNode> = Vec::new();
            let mut i: usize = 0;
            while i < loaded.len()
                invariant
                    i <= loaded.len(),
                    documents.len() == i,
                    forall|j: int|
                        0 <= j < i ==> (#[trigger] documents@[j])@ == yaml_content(loaded@[j]),
                    forall|j: int| 0 <= j < i ==> (#[trigger] documents@[j])@.well_formed(),
                decreases loaded.len() - i,
            {
                documents.push(node_of(&loaded[i]));
                i += 1;
            }
            assert(nodes_view(documents@) =~= contents(loaded@));
            Ok(documents)
        },
        Err(error) => Err(error),
    }
}

} // verus!
