//! Importing a YAML file of scalars and nested mappings as definitions.

use crate::config::model::{
    BlockView, DefinitionView, RawValue, ScalarView, ValueDefinition, VariableDefinitionBlock,
};
use crate::config::reader::result_view;
use crate::config::reader::{no_message, one_message};
use crate::config::yaml::{
    nodes_view, pairs_view, parse_documents, scan_error_text, yaml_documents, NodeView, YamlNode,
};
use crate::text::texts;
use crate::config::reader::first_document;
use vstd::prelude::*;

verus! {

/// Why a text cannot be imported.
#[derive(Debug, PartialEq, Eq)]
pub enum YamlImportReadError {
    /// The text is no YAML; `reason` is what the scanner reports.
    YamlError { reason: String },
    /// The text holds something that cannot be imported; `value_type` names
    /// its kind.
    InvalidType { value_type: String },
}

/// What a `YamlImportReadError` stands for. Of the scanner's error it keeps
/// only that there was one.
pub enum YamlImportReadErrorView {
    YamlError,
    InvalidType { value_type: Seq<char> },
}

impl View for YamlImportReadError {
    type V = YamlImportReadErrorView;

    open spec fn view(&self) -> YamlImportReadErrorView {
        match self {
            YamlImportReadError::YamlError { .. } => YamlImportReadErrorView::YamlError,
            YamlImportReadError::InvalidType { value_type } => {
                YamlImportReadErrorView::InvalidType { value_type: value_type@ }
            },
        }
    }
}

impl YamlImportReadError {
    /// What the message of the error says.
    pub open spec fn message(self) -> Seq<char> {
        match self {
            YamlImportReadError::YamlError { .. } => "Input is not valid YAML"@,
            YamlImportReadError::InvalidType { value_type } => "Unsupported Input Type "@
                + value_type@,
        }
    }

    /// What the messages of the causes of the error say. The cause of
    /// invalid YAML is what the scanner reports.
    pub open spec fn cause_messages(self) -> Seq<Seq<char>> {
        match self {
            YamlImportReadError::YamlError { reason } => seq![reason@],
            YamlImportReadError::InvalidType { .. } => Seq::empty(),
        }
    }

    /// The message of the error.
    pub fn to_string(&self) -> (text: String)
        ensures
            text@ == self.message(),
    {
        match self {
            YamlImportReadError::YamlError { .. } => "Input is not valid YAML".to_owned(),
            YamlImportReadError::InvalidType { value_type } => {
                "Unsupported Input Type ".to_owned().concat(value_type.as_str())
            },
        }
    }

    /// The messages of the causes of the error.
    pub fn causes(&self) -> (messages: Vec<String>)
        ensures
            texts(messages@) == self.cause_messages(),
    {
        match self {
            YamlImportReadError::YamlError { reason } => one_message(reason.clone()),
            YamlImportReadError::InvalidType { .. } => no_message(),
        }
    }
}

/// The name of the kind of a node.
pub open spec fn kind_name(node: NodeView) -> Seq<char> {
    match node {
        NodeView::Real(_) => "Real"@,
        NodeView::Integer(_) => "Integer"@,
        NodeView::Text(_) => "String"@,
        NodeView::Boolean(_) => "Boolean"@,
        NodeView::Array(_) => "Array"@,
        NodeView::Hash(_) => "Hash"@,
        NodeView::Alias(_) => "Alias"@,
        NodeView::Null => "Null"@,
        NodeView::BadValue => "BadValue"@,
    }
}

/// The definition that an imported value gives: a mapping is an object, a
/// scalar a value, and anything else is refused by the name of its kind.
pub open spec fn imported_value(node: NodeView) -> Result<DefinitionView, YamlImportReadErrorView>
    decreases node, 0nat,
{
    match node {
        NodeView::Hash(pairs) => match imported_upto(pairs, pairs.len()) {
            Ok(block) => Ok(DefinitionView::Object(block)),
            Err(error) => Err(error),
        },
        NodeView::Integer(value) => Ok(DefinitionView::Value(ScalarView::Integer(value))),
        NodeView::Text(text) => Ok(DefinitionView::Value(ScalarView::Text(text))),
        NodeView::Boolean(value) => Ok(DefinitionView::Value(ScalarView::Boolean(value))),
        NodeView::Real(text) => Ok(DefinitionView::Value(ScalarView::Float(text))),
        _ => Err(YamlImportReadErrorView::InvalidType { value_type: kind_name(node) }),
    }
}

/// The definitions that the first `count` pairs of an imported mapping
/// give, or the error of the first pair that gives none: a key that is no
/// text, or a value that is refused.
pub open spec fn imported_upto(pairs: Seq<(NodeView, NodeView)>, count: nat) -> Result<
    BlockView,
    YamlImportReadErrorView,
>
    decreases pairs, count,
{
    if count == 0 || count > pairs.len() {
        Ok(Map::empty())
    } else {
        match imported_upto(pairs, (count - 1) as nat) {
            Err(error) => Err(error),
            Ok(block) => match pairs[count - 1].0 {
                NodeView::Text(name) => match imported_value(pairs[count - 1].1) {
                    Ok(value) => Ok(block.insert(name, value)),
                    Err(error) => Err(error),
                },
                _ => Err(
                    YamlImportReadErrorView::InvalidType {
                        value_type: kind_name(pairs[count - 1].0),
                    },
                ),
            },
        }
    }
}

/// The definitions that an imported document gives. The document has to be
/// a mapping.
pub open spec fn imported_of(document: NodeView) -> Result<BlockView, YamlImportReadErrorView> {
    match document {
        NodeView::Hash(pairs) => imported_upto(pairs, pairs.len()),
        _ => Err(YamlImportReadErrorView::InvalidType { value_type: kind_name(document) }),
    }
}

/// The definitions that an imported text gives.
pub open spec fn imported_of_text(source: Seq<char>) -> Result<
    BlockView,
    YamlImportReadErrorView,
> {
    match yaml_documents(source) {
        Some(documents) => imported_of(first_document(documents)),
        None => Err(YamlImportReadErrorView::YamlError),
    }
}

/// Once a pair gives an error, every longer run of pairs gives that error.
pub proof fn imported_fail_on(pairs: Seq<(NodeView, NodeView)>, count: nat, at: nat)
    requires
        at < count <= pairs.len(),
        imported_upto(pairs, at + 1) is Err,
    ensures
        imported_upto(pairs, count) == imported_upto(pairs, at + 1),
    decreases count,
{
    if count > at + 1 {
        imported_fail_on(pairs, (count - 1) as nat, at);
    }
}

/// The name of the kind of `node`.
fn kind_of(node: &YamlNode) -> (name: String)
    ensures
        name@ == kind_name(node@),
{
    match node {
        YamlNode::Real(_) => "Real".to_owned(),
        YamlNode::Integer(_) => "Integer".to_owned(),
        YamlNode::String(_) => "String".to_owned(),
        YamlNode::Boolean(_) => "Boolean".to_owned(),
        YamlNode::Array(_) => "Array".to_owned(),
        YamlNode::Hash(_) => "Hash".to_owned(),
        YamlNode::Alias(_) => "Alias".to_owned(),
        YamlNode::Null => "Null".to_owned(),
        YamlNode::BadValue => "BadValue".to_owned(),
    }
}

/// Imports YAML files as definitions.
#[derive(Debug, PartialEq, Eq)]
pub struct YamlImporter {}

impl YamlImporter {
    /// An importer.
    pub fn new() -> (importer: Self)
        ensures
            importer == (YamlImporter {  }),
    {
        YamlImporter {  }
    }

    /// The definitions that the text `input` holds.
    pub fn read(&self, input: &str) -> (definitions: Result<
        VariableDefinitionBlock,
        YamlImportReadError,
    >)
        ensures
            result_view(definitions) == imported_of_text(input@),
    {
        match parse_documents(input) {
            Ok(yaml_stream) => self.read_documents(&yaml_stream),
            Err(error) => Err(YamlImportReadError::YamlError { reason: scan_error_text(&error) }),
        }
    }

    /// The definitions that the first of `yaml_stream` holds.
    pub fn read_documents(&self, yaml_stream: &Vec<YamlNode>) -> (definitions: Result<
        VariableDefinitionBlock,
        YamlImportReadError,
    >)
        ensures
            result_view(definitions) == imported_of(first_document(nodes_view(yaml_stream@))),
    {
        let missing = YamlNode::BadValue;
        let yaml_content: &YamlNode = if yaml_stream.len() > 0 {
            &yaml_stream[0]
        } else {
            &missing
        };
        if let YamlNode::Hash(hash) = yaml_content {
            self.convert_hash(hash)
        } else {
            Err(YamlImportReadError::InvalidType { value_type: kind_of(yaml_content) })
        }
    }

    /// The definition that an imported value gives.
    fn convert_value(&self, value: &YamlNode) -> (definition: Result<
        ValueDefinition,
        YamlImportReadError,
    >)
        ensures
            result_view(definition) == imported_value(value@),
        decreases value@, 0nat,
    {
        match value {
            YamlNode::Hash(sub_hash) => match self.convert_hash(sub_hash) {
                Ok(block) => Ok(ValueDefinition::Object(block)),
                Err(error) => Err(error),
            },
            YamlNode::Integer(int_value) => Ok(ValueDefinition::Value(RawValue::Integer(*int_value))),
            YamlNode::String(string_value) => Ok(
                ValueDefinition::Value(RawValue::String(string_value.clone())),
            ),
            YamlNode::Boolean(bool_value) => Ok(
                ValueDefinition::Value(RawValue::Boolean(*bool_value)),
            ),
            YamlNode::Real(real_as_string) => Ok(
                ValueDefinition::Value(RawValue::Float(real_as_string.clone())),
            ),
            YamlNode::Array(_) => Err(
                YamlImportReadError::InvalidType { value_type: "Array".to_owned() },
            ),
            YamlNode::Alias(_) => Err(
                YamlImportReadError::InvalidType { value_type: "Alias".to_owned() },
            ),
            YamlNode::Null => Err(YamlImportReadError::InvalidType { value_type: "Null".to_owned() }),
            YamlNode::BadValue => Err(
                YamlImportReadError::InvalidType { value_type: "BadValue".to_owned() },
            ),
        }
    }

    /// The definitions that a mapping gives.
    pub fn convert_hash(&self, hash: &Vec<(YamlNode, YamlNode)>) -> (definitions: Result<
        VariableDefinitionBlock,
        YamlImportReadError,
    >)
        ensures
            result_view(definitions) == imported_upto(pairs_view(hash@), hash.len() as nat),
        decreases pairs_view(hash@), hash.len(),
    {
        let ghost pairs = pairs_view(hash@);
        let mut result = VariableDefinitionBlock::new();
        let mut i: usize = 0;
        while i < hash.len()
            invariant
                i <= hash.len(),
                pairs == pairs_view(hash@),
                imported_upto(pairs, i as nat) == Ok::<BlockView, YamlImportReadErrorView>(
                    result@,
                ),
            decreases hash.len() - i,
        {
            assert(pairs[i as int] == (hash@[i as int].0@, hash@[i as int].1@));
            proof {
                imported_fail_on_or_not(pairs, hash.len() as nat, i as nat);
            }
            let key_string = if let YamlNode::String(name) = &hash[i].0 {
                name.clone()
            } else {
                return Err(YamlImportReadError::InvalidType { value_type: kind_of(&hash[i].0) });
            };
            match self.convert_value(&hash[i].1) {
                Ok(value) => {
                    result.insert(key_string, value);
                },
                Err(error) => return Err(error),
            }
            i += 1;
        }
        Ok(result)
    }
}

/// Where the pair at `at` gives an error, the whole mapping gives it.
pub proof fn imported_fail_on_or_not(pairs: Seq<(NodeView, NodeView)>, count: nat, at: nat)
    requires
        at < count <= pairs.len(),
    ensures
        imported_upto(pairs, at + 1) is Err ==> imported_upto(pairs, count) == imported_upto(
            pairs,
            at + 1,
        ),
{
    if imported_upto(pairs, at + 1) is Err {
        imported_fail_on(pairs, count, at);
    }
}

} // verus!
