//! Reading a document, or the definitions of a file that is loaded, from
//! YAML.

use crate::config::model::{
    list_view, list_view_push, rows_view, BlockView, ConfigView, DefinitionView,
    ExecuteStatement, GlitterConfig, LoadStatement, RawValue, RenderStatement, ScalarView,
    TemplateDefinition, TemplateValue, TemplateValueView, TemplateView, ValueDefinition,
    ValueDefinitionList, VariableDefinitionBlock,
};
use crate::config::yaml::{
    entry_well_formed, nodes_view, pairs_view, parse_documents, scan_error_text, shown,
    source_text, yaml_documents, NodeView, YamlNode,
};
use crate::text::{digits, natural_text, texts};
use vstd::prelude::*;

verus! {

/// What the two sides of a `Result` stand for.
pub open spec fn result_view<T: View, E: View>(result: Result<T, E>) -> Result<T::V, E::V> {
    match result {
        Ok(value) => Ok(value@),
        Err(error) => Err(error@),
    }
}

/// Why a text holds no document, or no definitions.
#[derive(Debug, PartialEq, Eq)]
#[allow(inconsistent_fields)]
pub enum ConfigReadError {
    /// The text is no YAML; `reason` is what the scanner reports.
    InvalidYaml { reason: String },
    /// The document gives its injection as null.
    InjectionMissing,
    /// The injection of the document is no list of mappings.
    InvalidTypeAtInjection,
    /// The document gives its template as null.
    TemplateMissing,
    /// The template of the document is neither a text nor a mapping.
    InvalidTypeAtTemplate,
    /// A section of the template is neither a text nor the name of a file.
    InvalidTemplateVarDefinition { section: &'static str, source: Box<TemplateDefinitionError> },
    /// The file that is loaded holds a null.
    MissingLoadSource,
    /// The file that is loaded holds no mapping; `yaml_source` is its text.
    InvalidTypeAtLoadSource { yaml_source: String },
    /// A block of definitions holds an error; `block` names the block.
    InvalidVarDefinitionBlock { block: String, source: Box<ConfigReadError> },
    /// The name of a definition is no text.
    InvalidTypeAsVarName { key: String },
    /// The definition named `key` is wrong.
    InvalidValueDefinition { key: String, source: Box<ValueDefinitionError> },
}

/// What a `ConfigReadError` stands for. Of a scanner's error it keeps only
/// that there was one.
#[allow(inconsistent_fields)]
pub enum ConfigReadErrorView {
    InvalidYaml,
    InjectionMissing,
    InvalidTypeAtInjection,
    TemplateMissing,
    InvalidTypeAtTemplate,
    InvalidTemplateVarDefinition { section: Seq<char>, source: TemplateDefinitionErrorView },
    MissingLoadSource,
    InvalidTypeAtLoadSource { yaml_source: Seq<char> },
    InvalidVarDefinitionBlock { block: Seq<char>, source: Box<ConfigReadErrorView> },
    InvalidTypeAsVarName { key: Seq<char> },
    InvalidValueDefinition { key: Seq<char>, source: Box<ValueDefinitionErrorView> },
}

/// Why a node is no scalar.
#[derive(Debug, Clone, Copy, PartialEq, Eq, Structural)]
pub enum RawValueError {
    /// The node is a list, a mapping, an alias or a bad value.
    UnsupportedRawValueType,
    /// The node is a null.
    EmptyRawValue,
}

impl View for RawValueError {
    type V = RawValueError;

    open spec fn view(&self) -> RawValueError {
        *self
    }
}

/// Why a node is no definition of a value.
#[derive(Debug, PartialEq, Eq)]
#[allow(inconsistent_fields)]
pub enum ValueDefinitionError {
    /// What stands under `value` is no scalar; `yaml_source` is the text of
    /// the definition.
    InvalidRawValue { yaml_source: String, source: Box<RawValueError> },
    /// The children, parameters or arguments of the definition hold an
    /// error; `var_type` says which.
    InvalidSubDefinition { var_type: &'static str, source: Box<ConfigReadError> },
    /// The definition has none of the known shapes; `yaml_source` is its
    /// text.
    UnknownValueType { yaml_source: String },
}

/// What a `ValueDefinitionError` stands for.
#[allow(inconsistent_fields)]
pub enum ValueDefinitionErrorView {
    InvalidRawValue { yaml_source: Seq<char>, source: RawValueError },
    InvalidSubDefinition { var_type: Seq<char>, source: Box<ConfigReadErrorView> },
    UnknownValueType { yaml_source: Seq<char> },
}

/// Why a node is no section of a template.
#[derive(Debug, PartialEq, Eq)]
pub enum TemplateDefinitionError {
    /// The section gives neither a text under `value` nor a file under
    /// `quote`; `yaml_source` is its text.
    InvalidTemplateSubstructure { yaml_source: String },
}

/// What a `TemplateDefinitionError` stands for.
pub enum TemplateDefinitionErrorView {
    InvalidTemplateSubstructure { yaml_source: Seq<char> },
}

impl View for TemplateDefinitionError {
    type V = TemplateDefinitionErrorView;

    open spec fn view(&self) -> TemplateDefinitionErrorView {
        match self {
            TemplateDefinitionError::InvalidTemplateSubstructure { yaml_source } => {
                TemplateDefinitionErrorView::InvalidTemplateSubstructure {
                    yaml_source: yaml_source@,
                }
            },
        }
    }
}

impl View for ConfigReadError {
    type V = ConfigReadErrorView;

    open spec fn view(&self) -> ConfigReadErrorView
        decreases self,
    {
        match self {
            ConfigReadError::InvalidYaml { .. } => ConfigReadErrorView::InvalidYaml,
            ConfigReadError::InjectionMissing => ConfigReadErrorView::InjectionMissing,
            ConfigReadError::InvalidTypeAtInjection => ConfigReadErrorView::InvalidTypeAtInjection,
            ConfigReadError::TemplateMissing => ConfigReadErrorView::TemplateMissing,
            ConfigReadError::InvalidTypeAtTemplate => ConfigReadErrorView::InvalidTypeAtTemplate,
            ConfigReadError::InvalidTemplateVarDefinition { section, source } => {
                ConfigReadErrorView::InvalidTemplateVarDefinition {
                    section: section@,
                    source: (**source)@,
                }
            },
            ConfigReadError::MissingLoadSource => ConfigReadErrorView::MissingLoadSource,
            ConfigReadError::InvalidTypeAtLoadSource { yaml_source } => {
                ConfigReadErrorView::InvalidTypeAtLoadSource { yaml_source: yaml_source@ }
            },
            ConfigReadError::InvalidVarDefinitionBlock { block, source } => {
                ConfigReadErrorView::InvalidVarDefinitionBlock {
                    block: block@,
                    source: Box::new((**source).view()),
                }
            },
            ConfigReadError::InvalidTypeAsVarName { key } => {
                ConfigReadErrorView::InvalidTypeAsVarName { key: key@ }
            },
            ConfigReadError::InvalidValueDefinition { key, source } => {
                ConfigReadErrorView::InvalidValueDefinition {
                    key: key@,
                    source: Box::new((**source).view()),
                }
            },
        }
    }
}

impl View for ValueDefinitionError {
    type V = ValueDefinitionErrorView;

    open spec fn view(&self) -> ValueDefinitionErrorView
        decreases self,
    {
        match self {
            ValueDefinitionError::InvalidRawValue { yaml_source, source } => {
                ValueDefinitionErrorView::InvalidRawValue {
                    yaml_source: yaml_source@,
                    source: **source,
                }
            },
            ValueDefinitionError::InvalidSubDefinition { var_type, source } => {
                ValueDefinitionErrorView::InvalidSubDefinition {
                    var_type: var_type@,
                    source: Box::new((**source).view()),
                }
            },
            ValueDefinitionError::UnknownValueType { yaml_source } => {
                ValueDefinitionErrorView::UnknownValueType { yaml_source: yaml_source@ }
            },
        }
    }
}


/// The messages of `cause` and of its causes.
pub open spec fn link(message: Seq<char>, causes: Seq<Seq<char>>) -> Seq<Seq<char>> {
    seq![message] + causes
}

impl RawValueError {
    /// What the message of the error says.
    pub open spec fn message(self) -> Seq<char> {
        match self {
            RawValueError::UnsupportedRawValueType => "Unsupported value type for a Raw Value"@,
            RawValueError::EmptyRawValue => "Empty value for a Raw Value"@,
        }
    }

    /// The message of the error.
    pub fn to_string(&self) -> (text: String)
        ensures
            text@ == self.message(),
    {
        match self {
            RawValueError::UnsupportedRawValueType => {
                "Unsupported value type for a Raw Value".to_owned()
            },
            RawValueError::EmptyRawValue => "Empty value for a Raw Value".to_owned(),
        }
    }
}

impl TemplateDefinitionError {
    /// What the message of the error says.
    pub open spec fn message(self) -> Seq<char> {
        match self {
            TemplateDefinitionError::InvalidTemplateSubstructure { yaml_source } => {
                "Unknown/Unsupported Variable definition:\n"@ + yaml_source@
            },
        }
    }

    /// The message of the error.
    pub fn to_string(&self) -> (text: String)
        ensures
            text@ == self.message(),
    {
        match self {
            TemplateDefinitionError::InvalidTemplateSubstructure { yaml_source } => {
                "Unknown/Unsupported Variable definition:\n".to_owned().concat(
                    yaml_source.as_str(),
                )
            },
        }
    }
}

impl ValueDefinitionError {
    /// What the message of the error says.
    pub open spec fn message(self) -> Seq<char> {
        match self {
            ValueDefinitionError::InvalidRawValue { yaml_source, .. } => {
                "Invalid definition of a raw value:\n"@ + yaml_source@
            },
            ValueDefinitionError::InvalidSubDefinition { var_type, .. } => {
                "Invalid sub-structure definition for a value of type "@ + var_type@
            },
            ValueDefinitionError::UnknownValueType { yaml_source } => {
                "Unknown/Unsupported Value definition:\n"@ + yaml_source@
            },
        }
    }

    /// What the messages of the causes of the error say, the nearest cause
    /// first.
    pub open spec fn cause_messages(self) -> Seq<Seq<char>>
        decreases self,
    {
        match self {
            ValueDefinitionError::InvalidRawValue { source, .. } => seq![(*source).message()],
            ValueDefinitionError::InvalidSubDefinition { source, .. } => link(
                (*source).message(),
                (*source).cause_messages(),
            ),
            ValueDefinitionError::UnknownValueType { .. } => Seq::empty(),
        }
    }

    /// The message of the error.
    pub fn to_string(&self) -> (text: String)
        ensures
            text@ == self.message(),
    {
        match self {
            ValueDefinitionError::InvalidRawValue { yaml_source, .. } => {
                "Invalid definition of a raw value:\n".to_owned().concat(yaml_source.as_str())
            },
            ValueDefinitionError::InvalidSubDefinition { var_type, .. } => {
                "Invalid sub-structure definition for a value of type ".to_owned().concat(var_type)
            },
            ValueDefinitionError::UnknownValueType { yaml_source } => {
                "Unknown/Unsupported Value definition:\n".to_owned().concat(yaml_source.as_str())
            },
        }
    }

    /// The messages of the causes of the error, the nearest cause first.
    pub fn causes(&self) -> (messages: Vec<String>)
        ensures
            texts(messages@) == self.cause_messages(),
        decreases self,
    {
        match self {
            ValueDefinitionError::InvalidRawValue { source, .. } => {
                let messages = vec![source.to_string()];
                assert(texts(messages@) =~= seq![(**source).message()]);
                messages
            },
            ValueDefinitionError::InvalidSubDefinition { source, .. } => chain(
                source.to_string(),
                source.causes(),
            ),
            ValueDefinitionError::UnknownValueType { .. } => {
                let messages: Vec<String> = Vec::new();
                assert(texts(messages@) =~= Seq::empty());
                messages
            },
        }
    }
}

/// `message` followed by `causes`.
pub fn chain(message: String, causes: Vec<String>) -> (messages: Vec<String>)
    ensures
        texts(messages@) == link(message@, texts(causes@)),
{
    let ghost given = texts(causes@);
    let ghost first = message@;
    let mut messages = vec![message];
    let mut rest = causes;
    messages.append(&mut rest);
    assert(texts(messages@) =~= link(first, given));
    messages
}

/// The one message `message`.
pub fn one_message(message: String) -> (messages: Vec<String>)
    ensures
        texts(messages@) == seq![message@],
{
    let messages = vec![message];
    assert(texts(messages@) =~= seq![message@]);
    messages
}

/// No message.
pub fn no_message() -> (messages: Vec<String>)
    ensures
        texts(messages@) == Seq::<Seq<char>>::empty(),
{
    let messages: Vec<String> = Vec::new();
    assert(texts(messages@) =~= Seq::empty());
    messages
}

impl ConfigReadError {
    /// What the message of the error says.
    pub open spec fn message(self) -> Seq<char> {
        match self {
            ConfigReadError::InvalidYaml { .. } => "Invalid YAML as input"@,
            ConfigReadError::InjectionMissing => "Missing injection"@,
            ConfigReadError::InvalidTypeAtInjection => "Invalid type for injection"@,
            ConfigReadError::TemplateMissing => "Missing template"@,
            ConfigReadError::InvalidTypeAtTemplate => "Invalid type for template"@,
            ConfigReadError::InvalidTemplateVarDefinition { section, .. } => {
                "Invalid variable definition at template "@ + section@
            },
            ConfigReadError::MissingLoadSource => "Empty load source"@,
            ConfigReadError::InvalidTypeAtLoadSource { yaml_source } => {
                "Wrong YAML type for load source:\n"@ + yaml_source@
            },
            ConfigReadError::InvalidVarDefinitionBlock { block, .. } => {
                "Invalid variable definition block for "@ + block@
            },
            ConfigReadError::InvalidTypeAsVarName { key } => {
                "Variable name "@ + key@ + " has an invalid type. Must be a string"@
            },
            ConfigReadError::InvalidValueDefinition { key, .. } => {
                "Invalid value definition for variable named "@ + key@
            },
        }
    }

    /// What the messages of the causes of the error say, the nearest cause
    /// first. The cause of invalid YAML is what the scanner reports.
    pub open spec fn cause_messages(self) -> Seq<Seq<char>>
        decreases self,
    {
        match self {
            ConfigReadError::InvalidYaml { reason } => seq![reason@],
            ConfigReadError::InvalidTemplateVarDefinition { source, .. } => seq![
                (*source).message(),
            ],
            ConfigReadError::InvalidVarDefinitionBlock { source, .. } => link(
                (*source).message(),
                (*source).cause_messages(),
            ),
            ConfigReadError::InvalidValueDefinition { source, .. } => link(
                (*source).message(),
                (*source).cause_messages(),
            ),
            _ => Seq::empty(),
        }
    }

    /// The message of the error.
    pub fn to_string(&self) -> (text: String)
        ensures
            text@ == self.message(),
    {
        match self {
            ConfigReadError::InvalidYaml { .. } => "Invalid YAML as input".to_owned(),
            ConfigReadError::InjectionMissing => "Missing injection".to_owned(),
            ConfigReadError::InvalidTypeAtInjection => "Invalid type for injection".to_owned(),
            ConfigReadError::TemplateMissing => "Missing template".to_owned(),
            ConfigReadError::InvalidTypeAtTemplate => "Invalid type for template".to_owned(),
            ConfigReadError::InvalidTemplateVarDefinition { section, .. } => {
                "Invalid variable definition at template ".to_owned().concat(section)
            },
            ConfigReadError::MissingLoadSource => "Empty load source".to_owned(),
            ConfigReadError::InvalidTypeAtLoadSource { yaml_source } => {
                "Wrong YAML type for load source:\n".to_owned().concat(yaml_source.as_str())
            },
            ConfigReadError::InvalidVarDefinitionBlock { block, .. } => {
                "Invalid variable definition block for ".to_owned().concat(block.as_str())
            },
            ConfigReadError::InvalidTypeAsVarName { key } => {
                "Variable name ".to_owned().concat(key.as_str()).concat(
                    " has an invalid type. Must be a string",
                )
            },
            ConfigReadError::InvalidValueDefinition { key, .. } => {
                "Invalid value definition for variable named ".to_owned().concat(key.as_str())
            },
        }
    }

    /// The messages of the causes of the error, the nearest cause first.
    pub fn causes(&self) -> (messages: Vec<String>)
        ensures
            texts(messages@) == self.cause_messages(),
        decreases self,
    {
        match self {
            ConfigReadError::InvalidYaml { reason } => one_message(reason.clone()),
            ConfigReadError::InvalidTemplateVarDefinition { source, .. } => one_message(
                source.to_string(),
            ),
            ConfigReadError::InvalidVarDefinitionBlock { source, .. } => chain(
                source.to_string(),
                source.causes(),
            ),
            ConfigReadError::InvalidValueDefinition { source, .. } => chain(
                source.to_string(),
                source.causes(),
            ),
            _ => no_message(),
        }
    }
}

/// The scalar that a node gives. Text, truth values, integers and reals are
/// scalars; a null is an empty value; nothing else is supported.
pub open spec fn raw_value_of(node: NodeView) -> Result<ScalarView, RawValueError> {
    match node {
        NodeView::Text(text) => Ok(ScalarView::Text(text)),
        NodeView::Boolean(value) => Ok(ScalarView::Boolean(value)),
        NodeView::Integer(value) => Ok(ScalarView::Integer(value)),
        NodeView::Real(text) => Ok(ScalarView::Float(text)),
        NodeView::Null => Err(RawValueError::EmptyRawValue),
        _ => Err(RawValueError::UnsupportedRawValueType),
    }
}

/// The parameters of a load or a render: the definitions of the mapping
/// under `parameter`, or none where there is no mapping.
pub open spec fn parameters_of(node: NodeView, var_type: Seq<char>) -> Result<
    BlockView,
    ValueDefinitionErrorView,
>
    decreases node, 0nat, 1nat,
{
    match node.entry("parameter"@) {
        NodeView::Hash(pairs) => match declarations_upto(pairs, pairs.len()) {
            Ok(block) => Ok(block),
            Err(error) => Err(
                ValueDefinitionErrorView::InvalidSubDefinition {
                    var_type,
                    source: Box::new(error),
                },
            ),
        },
        _ => Ok(Map::empty()),
    }
}

/// The definition that a node gives. The first of the keys `value`,
/// `children`, `variable`, `load`, `render`, `execute`, `quote` and `import`
/// that the node holds with a value of the right kind decides.
pub open spec fn definition_of(node: NodeView) -> Result<DefinitionView, ValueDefinitionErrorView>
    decreases node, 0nat, 2nat,
{
    let value = node.entry("value"@);
    if !(value is Null) && !(value is BadValue) {
        match raw_value_of(value) {
            Ok(scalar) => Ok(DefinitionView::Value(scalar)),
            Err(error) => Err(
                ValueDefinitionErrorView::InvalidRawValue {
                    yaml_source: shown(node),
                    source: error,
                },
            ),
        }
    } else if let NodeView::Hash(pairs) = node.entry("children"@) {
        match declarations_upto(pairs, pairs.len()) {
            Ok(block) => Ok(DefinitionView::Object(block)),
            Err(error) => Err(
                ValueDefinitionErrorView::InvalidSubDefinition {
                    var_type: "Object"@,
                    source: Box::new(error),
                },
            ),
        }
    } else if let NodeView::Text(path) = node.entry("variable"@) {
        Ok(DefinitionView::Variable(path))
    } else if let NodeView::Text(file) = node.entry("load"@) {
        match parameters_of(node, "Load->Parameter"@) {
            Ok(parameter) => Ok(DefinitionView::Load { file, parameter }),
            Err(error) => Err(error),
        }
    } else if let NodeView::Text(file) = node.entry("render"@) {
        match parameters_of(node, "Render->Parameter"@) {
            Ok(parameter) => Ok(DefinitionView::Render { file, parameter }),
            Err(error) => Err(error),
        }
    } else if let NodeView::Text(executable) = node.entry("execute"@) {
        match node.entry("arguments"@) {
            NodeView::Array(items) => match values_upto(items, items.len()) {
                Ok(arguments) => Ok(DefinitionView::Execute { executable, arguments }),
                Err(error) => Err(
                    ValueDefinitionErrorView::InvalidSubDefinition {
                        var_type: "Execute->Arguments"@,
                        source: Box::new(error),
                    },
                ),
            },
            _ => Ok(DefinitionView::Execute { executable, arguments: Seq::empty() }),
        }
    } else if let NodeView::Text(file) = node.entry("quote"@) {
        Ok(DefinitionView::Quote(file))
    } else if let NodeView::Text(file) = node.entry("import"@) {
        Ok(DefinitionView::Import(file))
    } else {
        Err(ValueDefinitionErrorView::UnknownValueType { yaml_source: shown(node) })
    }
}

/// The name under which the definition at place `index` of a list is
/// reported.
pub open spec fn place_name(index: nat) -> Seq<char> {
    seq!['['] + digits(index) + seq![']']
}

/// The definitions of the first `count` nodes of a list, or the error of
/// the first node that gives none.
pub open spec fn values_upto(items: Seq<NodeView>, count: nat) -> Result<
    Seq<DefinitionView>,
    ConfigReadErrorView,
>
    decreases items, count, 0nat,
{
    if count == 0 || count > items.len() {
        Ok(Seq::empty())
    } else {
        match values_upto(items, (count - 1) as nat) {
            Err(error) => Err(error),
            Ok(values) => match definition_of(items[count - 1]) {
                Ok(value) => Ok(values.push(value)),
                Err(error) => Err(
                    ConfigReadErrorView::InvalidValueDefinition {
                        key: place_name((count - 1) as nat),
                        source: Box::new(error),
                    },
                ),
            },
        }
    }
}

/// The definitions of the first `count` pairs of a mapping, or the error of
/// the first pair that gives none: a key that is no text, or a value that is
/// no definition.
pub open spec fn declarations_upto(pairs: Seq<(NodeView, NodeView)>, count: nat) -> Result<
    BlockView,
    ConfigReadErrorView,
>
    decreases pairs, count, 0nat,
{
    if count == 0 || count > pairs.len() {
        Ok(Map::empty())
    } else {
        match declarations_upto(pairs, (count - 1) as nat) {
            Err(error) => Err(error),
            Ok(block) => match pairs[count - 1].0 {
                NodeView::Text(name) => match definition_of(pairs[count - 1].1) {
                    Ok(value) => Ok(block.insert(name, value)),
                    Err(error) => Err(
                        ConfigReadErrorView::InvalidValueDefinition {
                            key: name,
                            source: Box::new(error),
                        },
                    ),
                },
                _ => Err(ConfigReadErrorView::InvalidTypeAsVarName { key: "\u{1F937}"@ }),
            },
        }
    }
}

/// The definitions of a mapping.
pub open spec fn declarations_of(pairs: Seq<(NodeView, NodeView)>) -> Result<
    BlockView,
    ConfigReadErrorView,
> {
    declarations_upto(pairs, pairs.len())
}

/// The definitions of a mapping that is one of the blocks of a document,
/// with the block's name in the error.
pub open spec fn block_of(pairs: Seq<(NodeView, NodeView)>, block: Seq<char>) -> Result<
    BlockView,
    ConfigReadErrorView,
> {
    match declarations_of(pairs) {
        Ok(definitions) => Ok(definitions),
        Err(error) => Err(
            ConfigReadErrorView::InvalidVarDefinitionBlock { block, source: Box::new(error) },
        ),
    }
}

/// The rows that the first `count` nodes of the injection list give.
pub open spec fn injections_upto(items: Seq<NodeView>, count: nat) -> Result<
    Seq<BlockView>,
    ConfigReadErrorView,
>
    decreases count,
{
    if count == 0 || count > items.len() {
        Ok(Seq::empty())
    } else {
        match injections_upto(items, (count - 1) as nat) {
            Err(error) => Err(error),
            Ok(rows) => match items[count - 1] {
                NodeView::Hash(pairs) => match block_of(pairs, "injection"@) {
                    Ok(row) => Ok(rows.push(row)),
                    Err(error) => Err(error),
                },
                _ => Err(ConfigReadErrorView::InvalidTypeAtInjection),
            },
        }
    }
}

/// The text of a template section: given under `value`, or the file named
/// under `quote`.
pub open spec fn template_value_of(node: NodeView) -> Result<
    TemplateValueView,
    TemplateDefinitionErrorView,
> {
    if let NodeView::Text(text) = node.entry("value"@) {
        Ok(TemplateValueView::RawValue(text))
    } else if let NodeView::Text(file) = node.entry("quote"@) {
        Ok(TemplateValueView::Quote(file))
    } else {
        Err(TemplateDefinitionErrorView::InvalidTemplateSubstructure { yaml_source: shown(node) })
    }
}

/// A section of a template, with the section's name in the error.
pub open spec fn section_of(node: NodeView, section: Seq<char>) -> Result<
    TemplateValueView,
    ConfigReadErrorView,
> {
    match template_value_of(node) {
        Ok(value) => Ok(value),
        Err(error) => Err(
            ConfigReadErrorView::InvalidTemplateVarDefinition { section, source: error },
        ),
    }
}

/// A section that a template may leave out, or give as null.
pub open spec fn optional_section_of(node: NodeView, section: Seq<char>) -> Result<
    Option<TemplateValueView>,
    ConfigReadErrorView,
> {
    if node is Null || node is BadValue {
        Ok(None)
    } else {
        match section_of(node, section) {
            Ok(value) => Ok(Some(value)),
            Err(error) => Err(error),
        }
    }
}

/// The template that a mapping with the keys `header`, `body` and `footer`
/// gives. Header and footer are looked at before the body.
pub open spec fn hbf_template_of(node: NodeView) -> Result<TemplateView, ConfigReadErrorView> {
    match optional_section_of(node.entry("header"@), "header"@) {
        Err(error) => Err(error),
        Ok(header) => match optional_section_of(node.entry("footer"@), "footer"@) {
            Err(error) => Err(error),
            Ok(footer) => match section_of(node.entry("body"@), "body"@) {
                Err(error) => Err(error),
                Ok(body) => Ok(TemplateView { header, body, footer }),
            },
        },
    }
}

/// The definitions under `key`, or none where `key` holds no mapping.
pub open spec fn optional_block_of(document: NodeView, key: Seq<char>) -> Result<
    BlockView,
    ConfigReadErrorView,
> {
    match document.entry(key) {
        NodeView::Hash(pairs) => block_of(pairs, key),
        _ => Ok(Map::empty()),
    }
}

/// The injection rows of a document.
pub open spec fn injection_of(document: NodeView) -> Result<Seq<BlockView>, ConfigReadErrorView> {
    match document.entry("injection"@) {
        NodeView::Array(items) => injections_upto(items, items.len()),
        NodeView::Null => Err(ConfigReadErrorView::InjectionMissing),
        _ => Err(ConfigReadErrorView::InvalidTypeAtInjection),
    }
}

/// The template of a document.
pub open spec fn template_of(document: NodeView) -> Result<TemplateView, ConfigReadErrorView> {
    match document.entry("template"@) {
        NodeView::Text(text) => Ok(
            TemplateView { header: None, body: TemplateValueView::RawValue(text), footer: None },
        ),
        NodeView::Hash(_) => hbf_template_of(document.entry("template"@)),
        NodeView::Null => Err(ConfigReadErrorView::TemplateMissing),
        _ => Err(ConfigReadErrorView::InvalidTypeAtTemplate),
    }
}

/// The document that a node gives: its blocks `global` and `local`, its
/// injection rows and its template, read in this order.
pub open spec fn config_of(document: NodeView) -> Result<ConfigView, ConfigReadErrorView> {
    match optional_block_of(document, "global"@) {
        Err(error) => Err(error),
        Ok(global) => match optional_block_of(document, "local"@) {
            Err(error) => Err(error),
            Ok(local) => match injection_of(document) {
                Err(error) => Err(error),
                Ok(injection) => match template_of(document) {
                    Err(error) => Err(error),
                    Ok(template) => Ok(ConfigView { global, local, injection, template }),
                },
            },
        },
    }
}

/// The first document of a stream, or `BadValue` for a stream without one.
pub open spec fn first_document(documents: Seq<NodeView>) -> NodeView {
    if documents.len() > 0 {
        documents[0]
    } else {
        NodeView::BadValue
    }
}

/// The document that a text gives.
pub open spec fn config_of_text(source: Seq<char>) -> Result<ConfigView, ConfigReadErrorView> {
    match yaml_documents(source) {
        Some(documents) => config_of(first_document(documents)),
        None => Err(ConfigReadErrorView::InvalidYaml),
    }
}

/// The definitions that a node gives where a file is loaded: those of a
/// mapping. The error for anything else but null quotes the whole text.
pub open spec fn load_of(document: NodeView, source: Seq<char>) -> Result<
    BlockView,
    ConfigReadErrorView,
> {
    match document {
        NodeView::Hash(pairs) => block_of(pairs, "Load Source"@),
        NodeView::Null => Err(ConfigReadErrorView::MissingLoadSource),
        _ => Err(ConfigReadErrorView::InvalidTypeAtLoadSource { yaml_source: source }),
    }
}

/// The definitions that a text gives where a file is loaded.
pub open spec fn load_of_text(source: Seq<char>) -> Result<BlockView, ConfigReadErrorView> {
    match yaml_documents(source) {
        Some(documents) => load_of(first_document(documents), source),
        None => Err(ConfigReadErrorView::InvalidYaml),
    }
}

/// The pairs of a well-formed mapping are well formed.
pub proof fn pairs_well_formed(pairs: Seq<(NodeView, NodeView)>, at: int)
    requires
        NodeView::Hash(pairs).well_formed(),
        0 <= at < pairs.len(),
    ensures
        pairs[at].0.well_formed(),
        pairs[at].1.well_formed(),
{
    let node = NodeView::Hash(pairs);
    assert(node.well_formed());
    assert(node->Hash_0 == pairs);
    assert(pairs[at].0.well_formed() && pairs[at].1.well_formed());
}

/// The nodes of a well-formed list are well formed.
pub proof fn items_well_formed(items: Seq<NodeView>, at: int)
    requires
        NodeView::Array(items).well_formed(),
        0 <= at < items.len(),
    ensures
        items[at].well_formed(),
{
    let node = NodeView::Array(items);
    assert(node.well_formed());
    assert(node->Array_0 == items);
    assert(items[at].well_formed());
}

impl RawValue {
    /// The scalar that a node gives.
    pub fn try_from(value: &YamlNode) -> (converted: Result<RawValue, RawValueError>)
        ensures
            result_view(converted) == raw_value_of(value@),
    {
        match value {
            YamlNode::String(string_value) => Ok(RawValue::String(string_value.clone())),
            YamlNode::Boolean(bool_value) => Ok(RawValue::Boolean(*bool_value)),
            YamlNode::Integer(int_value) => Ok(RawValue::Integer(*int_value)),
            YamlNode::Real(real_as_string) => Ok(RawValue::Float(real_as_string.clone())),
            YamlNode::Null => Err(RawValueError::EmptyRawValue),
            _ => Err(RawValueError::UnsupportedRawValueType),
        }
    }
}

impl ValueDefinition {
    /// The parameters that the declaration of a load or a render gives.
    fn parameters_from(var_declaration: &YamlNode, var_type: &'static str) -> (converted: Result<
        VariableDefinitionBlock,
        ValueDefinitionError,
    >)
        requires
            var_declaration@.well_formed(),
        ensures
            result_view(converted) == parameters_of(var_declaration@, var_type@),
        decreases var_declaration@, 0nat, 1nat,
    {
        let missing = YamlNode::BadValue;
        proof {
            entry_well_formed(var_declaration@, "parameter"@);
        }
        if let YamlNode::Hash(var_hash) = var_declaration.get("parameter", &missing) {
            match ConfigReader::read_var_declarations(var_hash) {
                Ok(block) => Ok(block),
                Err(error) => Err(
                    ValueDefinitionError::InvalidSubDefinition {
                        var_type,
                        source: Box::new(error),
                    },
                ),
            }
        } else {
            Ok(VariableDefinitionBlock::new())
        }
    }

    /// The definition that a node gives.
    pub fn try_from(var_declaration: &YamlNode) -> (converted: Result<
        ValueDefinition,
        ValueDefinitionError,
    >)
        requires
            var_declaration@.well_formed(),
        ensures
            result_view(converted) == definition_of(var_declaration@),
        decreases var_declaration@, 0nat, 2nat,
    {
        let missing = YamlNode::BadValue;
        let value_declaration = var_declaration.get("value", &missing);
        if !value_declaration.is_null() && !value_declaration.is_badvalue() {
            return match RawValue::try_from(value_declaration) {
                Ok(raw_value) => Ok(ValueDefinition::Value(raw_value)),
                Err(error) => Err(
                    ValueDefinitionError::InvalidRawValue {
                        yaml_source: source_text(var_declaration),
                        source: Box::new(error),
                    },
                ),
            };
        }
        proof {
            entry_well_formed(var_declaration@, "children"@);
            entry_well_formed(var_declaration@, "arguments"@);
        }
        if let YamlNode::Hash(var_hash) = var_declaration.get("children", &missing) {
            return match ConfigReader::read_var_declarations(var_hash) {
                Ok(block) => Ok(ValueDefinition::Object(block)),
                Err(error) => Err(
                    ValueDefinitionError::InvalidSubDefinition {
                        var_type: "Object",
                        source: Box::new(error),
                    },
                ),
            };
        }
        if let YamlNode::String(var_path) = var_declaration.get("variable", &missing) {
            return Ok(ValueDefinition::Variable(var_path.clone()));
        }
        if let YamlNode::String(file_path) = var_declaration.get("load", &missing) {
            return match Self::parameters_from(var_declaration, "Load->Parameter") {
                Ok(parameter) => Ok(
                    ValueDefinition::Load(LoadStatement { file: file_path.clone(), parameter }),
                ),
                Err(error) => Err(error),
            };
        }
        if let YamlNode::String(file_path) = var_declaration.get("render", &missing) {
            return match Self::parameters_from(var_declaration, "Render->Parameter") {
                Ok(parameter) => Ok(
                    ValueDefinition::Render(RenderStatement { file: file_path.clone(), parameter }),
                ),
                Err(error) => Err(error),
            };
        }
        if let YamlNode::String(executable) = var_declaration.get("execute", &missing) {
            if let YamlNode::Array(value_list) = var_declaration.get("arguments", &missing) {
                return match ConfigReader::read_value_list(value_list) {
                    Ok(arguments) => Ok(
                        ValueDefinition::Execute(
                            ExecuteStatement { executable: executable.clone(), arguments },
                        ),
                    ),
                    Err(error) => Err(
                        ValueDefinitionError::InvalidSubDefinition {
                            var_type: "Execute->Arguments",
                            source: Box::new(error),
                        },
                    ),
                };
            } else {
                let arguments: ValueDefinitionList = Vec::new();
                assert(list_view(arguments@) =~= Seq::empty());
                return Ok(
                    ValueDefinition::Execute(
                        ExecuteStatement { executable: executable.clone(), arguments },
                    ),
                );
            }
        }
        if let YamlNode::String(file_path) = var_declaration.get("quote", &missing) {
            return Ok(ValueDefinition::Quote(file_path.clone()));
        }
        if let YamlNode::String(file_path) = var_declaration.get("import", &missing) {
            return Ok(ValueDefinition::Import(file_path.clone()));
        }
        Err(ValueDefinitionError::UnknownValueType { yaml_source: source_text(var_declaration) })
    }
}

impl TemplateValue {
    /// The text of a template section that a node gives.
    pub fn try_from(value: &YamlNode) -> (converted: Result<TemplateValue, TemplateDefinitionError>)
        requires
            value@.well_formed(),
        ensures
            result_view(converted) == template_value_of(value@),
    {
        let missing = YamlNode::BadValue;
        if let YamlNode::String(raw_value) = value.get("value", &missing) {
            return Ok(TemplateValue::RawValue(raw_value.clone()));
        }
        if let YamlNode::String(file_path) = value.get("quote", &missing) {
            return Ok(TemplateValue::Quote(file_path.clone()));
        }
        Err(TemplateDefinitionError::InvalidTemplateSubstructure { yaml_source: source_text(value) })
    }
}

/// Reads documents and loaded files from YAML.
#[derive(Debug, PartialEq, Eq)]
pub struct ConfigReader {}

impl ConfigReader {
    /// A reader.
    pub fn new() -> (reader: ConfigReader)
        ensures
            reader == (ConfigReader {  }),
    {
        ConfigReader {  }
    }

    /// The document that the text `input` holds.
    pub fn read(&self, input: &str) -> (config: Result<GlitterConfig, ConfigReadError>)
        ensures
            result_view(config) == config_of_text(input@),
    {
        match parse_documents(input) {
            Ok(yaml_stream) => Self::read_documents(&yaml_stream),
            Err(error) => Err(ConfigReadError::InvalidYaml { reason: scan_error_text(&error) }),
        }
    }

    /// The document that the first of `yaml_stream` holds.
    pub fn read_documents(yaml_stream: &Vec<YamlNode>) -> (config: Result<
        GlitterConfig,
        ConfigReadError,
    >)
        requires
            forall|i: int| 0 <= i < yaml_stream.len() ==> (#[trigger] yaml_stream@[i])@.well_formed(),
        ensures
            result_view(config) == config_of(first_document(nodes_view(yaml_stream@))),
    {
        let missing = YamlNode::BadValue;
        let yaml_content: &YamlNode = if yaml_stream.len() > 0 {
            &yaml_stream[0]
        } else {
            &missing
        };
        proof {
            entry_well_formed(yaml_content@, "global"@);
            entry_well_formed(yaml_content@, "local"@);
            entry_well_formed(yaml_content@, "injection"@);
            entry_well_formed(yaml_content@, "template"@);
        }
        let global = match Self::read_block(yaml_content, "global") {
            Ok(block) => block,
            Err(error) => return Err(error),
        };
        let local = match Self::read_block(yaml_content, "local") {
            Ok(block) => block,
            Err(error) => return Err(error),
        };
        let injection: Vec<VariableDefinitionBlock> = match yaml_content.get(
            "injection",
            &missing,
        ) {
            YamlNode::Array(array) => match Self::read_injections(array) {
                Ok(rows) => rows,
                Err(error) => return Err(error),
            },
            YamlNode::Null => return Err(ConfigReadError::InjectionMissing),
            _ => return Err(ConfigReadError::InvalidTypeAtInjection),
        };
        let template_declaration = yaml_content.get("template", &missing);
        let template = match template_declaration {
            YamlNode::String(simple_template) => TemplateDefinition::simple_template(
                simple_template.clone(),
            ),
            YamlNode::Hash(_) => match Self::read_hbf_template(template_declaration) {
                Ok(template) => template,
                Err(error) => return Err(error),
            },
            YamlNode::Null => return Err(ConfigReadError::TemplateMissing),
            _ => return Err(ConfigReadError::InvalidTypeAtTemplate),
        };
        Ok(GlitterConfig { global, local, injection, template })
    }

    /// The definitions of the block `name` of a document, or none where the
    /// document has no such block.
    fn read_block(yaml_content: &YamlNode, name: &'static str) -> (block: Result<
        VariableDefinitionBlock,
        ConfigReadError,
    >)
        requires
            yaml_content@.well_formed(),
        ensures
            result_view(block) == optional_block_of(yaml_content@, name@),
    {
        let missing = YamlNode::BadValue;
        proof {
            entry_well_formed(yaml_content@, name@);
        }
        if let YamlNode::Hash(hash) = yaml_content.get(name, &missing) {
            Self::read_named_block(hash, name)
        } else {
            Ok(VariableDefinitionBlock::new())
        }
    }

    /// The definitions of a mapping, with the name `block` in the error.
    fn read_named_block(hash: &Vec<(YamlNode, YamlNode)>, block: &'static str) -> (definitions:
        Result<VariableDefinitionBlock, ConfigReadError>)
        requires
            NodeView::Hash(pairs_view(hash@)).well_formed(),
        ensures
            result_view(definitions) == block_of(pairs_view(hash@), block@),
    {
        match Self::read_var_declarations(hash) {
            Ok(definitions) => Ok(definitions),
            Err(error) => Err(
                ConfigReadError::InvalidVarDefinitionBlock {
                    block: block.to_owned(),
                    source: Box::new(error),
                },
            ),
        }
    }

    /// The injection rows that a list of mappings gives.
    pub fn read_injections(injections: &Vec<YamlNode>) -> (rows: Result<
        Vec<VariableDefinitionBlock>,
        ConfigReadError,
    >)
        requires
            NodeView::Array(nodes_view(injections@)).well_formed(),
        ensures
            match rows {
                Ok(rows) => Ok(rows_view(rows@)),
                Err(error) => Err(error@),
            } == injections_upto(nodes_view(injections@), injections.len() as nat),
    {
        let ghost items = nodes_view(injections@);
        let mut variable_block_list: Vec<VariableDefinitionBlock> = Vec::new();
        let mut i: usize = 0;
        assert(rows_view(variable_block_list@) =~= Seq::empty());
        while i < injections.len()
            invariant
                i <= injections.len(),
                items == nodes_view(injections@),
                NodeView::Array(items).well_formed(),
                injections_upto(items, i as nat) == Ok::<Seq<BlockView>, ConfigReadErrorView>(
                    rows_view(variable_block_list@),
                ),
            decreases injections.len() - i,
        {
            assert(items[i as int] == injections@[i as int]@);
            proof {
                items_well_formed(items, i as int);
            }
            if let YamlNode::Hash(hash) = &injections[i] {
                match Self::read_named_block(hash, "injection") {
                    Ok(row) => {
                        let ghost before = rows_view(variable_block_list@);
                        variable_block_list.push(row);
                        assert(rows_view(variable_block_list@) == before.push(row@));
                    },
                    Err(error) => {
                        proof {
                            injections_fail_on(items, injections.len() as nat, i as nat);
                        }
                        return Err(error);
                    },
                }
            } else {
                proof {
                    injections_fail_on(items, injections.len() as nat, i as nat);
                }
                return Err(ConfigReadError::InvalidTypeAtInjection);
            }
            i += 1;
        }
        Ok(variable_block_list)
    }

    /// The definitions that a list of nodes gives.
    pub fn read_value_list(value_declaration_list: &Vec<YamlNode>) -> (values: Result<
        ValueDefinitionList,
        ConfigReadError,
    >)
        requires
            NodeView::Array(nodes_view(value_declaration_list@)).well_formed(),
        ensures
            match values {
                Ok(values) => Ok(list_view(values@)),
                Err(error) => Err(error@),
            } == values_upto(
                nodes_view(value_declaration_list@),
                value_declaration_list.len() as nat,
            ),
        decreases nodes_view(value_declaration_list@), value_declaration_list.len(), 1nat,
    {
        let ghost items = nodes_view(value_declaration_list@);
        let mut value_list: ValueDefinitionList = Vec::new();
        let mut index: usize = 0;
        assert(list_view(value_list@) =~= Seq::empty());
        while index < value_declaration_list.len()
            invariant
                index <= value_declaration_list.len(),
                items == nodes_view(value_declaration_list@),
                NodeView::Array(items).well_formed(),
                values_upto(items, index as nat) == Ok::<Seq<DefinitionView>, ConfigReadErrorView>(
                    list_view(value_list@),
                ),
            decreases value_declaration_list.len() - index,
        {
            assert(items[index as int] == value_declaration_list@[index as int]@);
            proof {
                items_well_formed(items, index as int);
            }
            match ValueDefinition::try_from(&value_declaration_list[index]) {
                Ok(value) => {
                    proof {
                        list_view_push(value_list@, value);
                    }
                    value_list.push(value);
                },
                Err(error) => {
                    proof {
                        reveal_strlit("[");
                        reveal_strlit("]");
                        values_fail_on(items, value_declaration_list.len() as nat, index as nat);
                    }
                    let mut key = "[".to_owned();
                    key.append(natural_text(index as u64).as_str());
                    key.append("]");
                    assert(key@ =~= place_name(index as nat));
                    return Err(
                        ConfigReadError::InvalidValueDefinition { key, source: Box::new(error) },
                    );
                },
            }
            index += 1;
        }
        Ok(value_list)
    }

    /// The definitions that a mapping gives.
    pub fn read_var_declarations(var_declaration_block: &Vec<(YamlNode, YamlNode)>) -> (block:
        Result<VariableDefinitionBlock, ConfigReadError>)
        requires
            NodeView::Hash(pairs_view(var_declaration_block@)).well_formed(),
        ensures
            result_view(block) == declarations_of(pairs_view(var_declaration_block@)),
        decreases pairs_view(var_declaration_block@), var_declaration_block.len(), 1nat,
    {
        let ghost pairs = pairs_view(var_declaration_block@);
        let mut variable_block = VariableDefinitionBlock::new();
        let mut i: usize = 0;
        while i < var_declaration_block.len()
            invariant
                i <= var_declaration_block.len(),
                pairs == pairs_view(var_declaration_block@),
                NodeView::Hash(pairs).well_formed(),
                declarations_upto(pairs, i as nat) == Ok::<BlockView, ConfigReadErrorView>(
                    variable_block@,
                ),
            decreases var_declaration_block.len() - i,
        {
            assert(pairs[i as int] == (
                var_declaration_block@[i as int].0@,
                var_declaration_block@[i as int].1@,
            ));
            proof {
                pairs_well_formed(pairs, i as int);
            }
            let key_as_string = if let YamlNode::String(string_value) = &var_declaration_block[i].0 {
                string_value.clone()
            } else {
                proof {
                    declarations_fail_on(pairs, var_declaration_block.len() as nat, i as nat);
                }
                return Err(
                    ConfigReadError::InvalidTypeAsVarName { key: "\u{1F937}".to_owned() },
                );
            };
            match ValueDefinition::try_from(&var_declaration_block[i].1) {
                Ok(var_declaration) => {
                    variable_block.insert(key_as_string, var_declaration);
                },
                Err(error) => {
                    proof {
                        declarations_fail_on(pairs, var_declaration_block.len() as nat, i as nat);
                    }
                    return Err(
                        ConfigReadError::InvalidValueDefinition {
                            key: key_as_string,
                            source: Box::new(error),
                        },
                    );
                },
            }
            i += 1;
        }
        Ok(variable_block)
    }

    /// A section of a template, with the section's name in the error.
    fn read_section(value: &YamlNode, section: &'static str) -> (converted: Result<
        TemplateValue,
        ConfigReadError,
    >)
        requires
            value@.well_formed(),
        ensures
            result_view(converted) == section_of(value@, section@),
    {
        match TemplateValue::try_from(value) {
            Ok(value) => Ok(value),
            Err(error) => Err(
                ConfigReadError::InvalidTemplateVarDefinition { section, source: Box::new(error) },
            ),
        }
    }

    /// A section that a template may leave out.
    fn read_optional_section(value: &YamlNode, section: &'static str) -> (converted: Result<
        Option<TemplateValue>,
        ConfigReadError,
    >)
        requires
            value@.well_formed(),
        ensures
            match converted {
                Ok(value) => Ok(crate::config::model::section_view(value)),
                Err(error) => Err(error@),
            } == optional_section_of(value@, section@),
    {
        if value.is_null() || value.is_badvalue() {
            Ok(None)
        } else {
            match Self::read_section(value, section) {
                Ok(value) => Ok(Some(value)),
                Err(error) => Err(error),
            }
        }
    }

    /// The template that a mapping with header, body and footer gives.
    pub fn read_hbf_template(template: &YamlNode) -> (definition: Result<
        TemplateDefinition,
        ConfigReadError,
    >)
        requires
            template@.well_formed(),
        ensures
            result_view(definition) == hbf_template_of(template@),
    {
        let missing = YamlNode::BadValue;
        proof {
            entry_well_formed(template@, "header"@);
            entry_well_formed(template@, "footer"@);
            entry_well_formed(template@, "body"@);
        }
        let header = match Self::read_optional_section(template.get("header", &missing), "header") {
            Ok(header) => header,
            Err(error) => return Err(error),
        };
        let footer = match Self::read_optional_section(template.get("footer", &missing), "footer") {
            Ok(footer) => footer,
            Err(error) => return Err(error),
        };
        let body = match Self::read_section(template.get("body", &missing), "body") {
            Ok(body) => body,
            Err(error) => return Err(error),
        };
        Ok(TemplateDefinition { header, body, footer })
    }

    /// The definitions that the text `input` of a loaded file holds.
    pub fn load(&self, input: &str) -> (definitions: Result<VariableDefinitionBlock, ConfigReadError>)
        ensures
            result_view(definitions) == load_of_text(input@),
    {
        match parse_documents(input) {
            Ok(yaml_stream) => Self::load_documents(&yaml_stream, input),
            Err(error) => Err(ConfigReadError::InvalidYaml { reason: scan_error_text(&error) }),
        }
    }

    /// The definitions that the first of `yaml_stream` holds, for a file that
    /// is loaded. `input` is the text that the stream was read from.
    pub fn load_documents(yaml_stream: &Vec<YamlNode>, input: &str) -> (definitions: Result<
        VariableDefinitionBlock,
        ConfigReadError,
    >)
        requires
            forall|i: int| 0 <= i < yaml_stream.len() ==> (#[trigger] yaml_stream@[i])@.well_formed(),
        ensures
            result_view(definitions) == load_of(first_document(nodes_view(yaml_stream@)), input@),
    {
        let missing = YamlNode::BadValue;
        let yaml_content: &YamlNode = if yaml_stream.len() > 0 {
            &yaml_stream[0]
        } else {
            &missing
        };
        match yaml_content {
            YamlNode::Hash(hash) => Self::read_named_block(hash, "Load Source"),
            YamlNode::Null => Err(ConfigReadError::MissingLoadSource),
            _ => Err(ConfigReadError::InvalidTypeAtLoadSource { yaml_source: input.to_owned() }),
        }
    }
}

impl Default for ConfigReader {
    fn default() -> (reader: Self)
        ensures
            reader == (ConfigReader {  }),
    {
        Self::new()
    }
}

/// Once a pair gives an error, every longer run of pairs gives that error.
pub proof fn declarations_fail_on(pairs: Seq<(NodeView, NodeView)>, count: nat, at: nat)
    requires
        at < count <= pairs.len(),
        declarations_upto(pairs, at + 1) is Err,
    ensures
        declarations_upto(pairs, count) == declarations_upto(pairs, at + 1),
    decreases count,
{
    if count > at + 1 {
        declarations_fail_on(pairs, (count - 1) as nat, at);
    }
}

/// Once a node gives an error, every longer run of nodes gives that error.
pub proof fn values_fail_on(items: Seq<NodeView>, count: nat, at: nat)
    requires
        at < count <= items.len(),
        values_upto(items, at + 1) is Err,
    ensures
        values_upto(items, count) == values_upto(items, at + 1),
    decreases count,
{
    if count > at + 1 {
        values_fail_on(items, (count - 1) as nat, at);
    }
}

/// Once a row gives an error, every longer run of rows gives that error.
pub proof fn injections_fail_on(items: Seq<NodeView>, count: nat, at: nat)
    requires
        at < count <= items.len(),
        injections_upto(items, at + 1) is Err,
    ensures
        injections_upto(items, count) == injections_upto(items, at + 1),
    decreases count,
{
    if count > at + 1 {
        injections_fail_on(items, (count - 1) as nat, at);
    }
}

} // verus!
