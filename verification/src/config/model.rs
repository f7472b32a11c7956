//! The configuration model: value definitions, blocks of named definitions,
//! the template definition and the document that holds them.

use crate::text::{decimal, decimal_text};
use vstd::prelude::*;

verus! {

/// A scalar. A float keeps the text it was written with.
#[derive(Debug, PartialEq, Eq)]
pub enum RawValue {
    Boolean(bool),
    Integer(i64),
    Float(String),
    String(String),
}

/// What a `RawValue` stands for.
pub enum ScalarView {
    Boolean(bool),
    Integer(i64),
    Float(Seq<char>),
    Text(Seq<char>),
}

impl ScalarView {
    /// The text that stands for the scalar wherever it is written out.
    pub open spec fn text(self) -> Seq<char> {
        match self {
            ScalarView::Boolean(value) => if value {
                seq!['t', 'r', 'u', 'e']
            } else {
                seq!['f', 'a', 'l', 's', 'e']
            },
            ScalarView::Integer(value) => decimal(value as int),
            ScalarView::Float(text) => text,
            ScalarView::Text(text) => text,
        }
    }
}

impl View for RawValue {
    type V = ScalarView;

    open spec fn view(&self) -> ScalarView {
        match self {
            RawValue::Boolean(value) => ScalarView::Boolean(*value),
            RawValue::Integer(value) => ScalarView::Integer(*value),
            RawValue::Float(text) => ScalarView::Float(text@),
            RawValue::String(text) => ScalarView::Text(text@),
        }
    }
}

impl Clone for RawValue {
    fn clone(&self) -> (copy: Self)
        ensures
            copy@ == self@,
    {
        match self {
            RawValue::Boolean(value) => RawValue::Boolean(*value),
            RawValue::Integer(value) => RawValue::Integer(*value),
            RawValue::Float(text) => RawValue::Float(text.clone()),
            RawValue::String(text) => RawValue::String(text.clone()),
        }
    }
}

impl RawValue {
    /// The text of the scalar: `true` or `false`, the decimal digits of an
    /// integer, the stored text of a float or a string.
    pub fn to_string(&self) -> (text: String)
        ensures
            text@ == self@.text(),
    {
        match self {
            RawValue::Boolean(value) => {
                proof {
                    reveal_strlit("true");
                    reveal_strlit("false");
                }
                if *value {
                    let text = "true".to_owned();
                    assert(text@ =~= seq!['t', 'r', 'u', 'e']);
                    text
                } else {
                    let text = "false".to_owned();
                    assert(text@ =~= seq!['f', 'a', 'l', 's', 'e']);
                    text
                }
            },
            RawValue::Integer(value) => decimal_text(*value),
            RawValue::Float(text) => text.clone(),
            RawValue::String(text) => text.clone(),
        }
    }
}

/// A load: the file to load, and the parameters that it is given.
#[derive(Debug, PartialEq, Eq)]
pub struct LoadStatement {
    pub file: String,
    pub parameter: VariableDefinitionBlock,
}

/// A render: the file of the document to render, and the parameters that
/// it is given.
#[derive(Debug, PartialEq, Eq)]
pub struct RenderStatement {
    pub file: String,
    pub parameter: VariableDefinitionBlock,
}

/// An execute: the program to run, and the definitions of its arguments.
#[derive(Debug, PartialEq, Eq)]
pub struct ExecuteStatement {
    pub executable: String,
    pub arguments: ValueDefinitionList,
}

/// One case of a selection: the condition, if it has one, and the definition
/// that it selects.
#[derive(Debug, PartialEq, Eq)]
pub struct CaseClause {
    pub case: Option<String>,
    pub definition: ValueDefinition,
}

/// The definition of one value.
#[derive(Debug, PartialEq, Eq)]
pub enum ValueDefinition {
    Value(RawValue),
    Object(VariableDefinitionBlock),
    Variable(String),
    Load(LoadStatement),
    Render(RenderStatement),
    Execute(ExecuteStatement),
    Import(String),
    Quote(String),
}

/// The definitions of the arguments of a command, in order.
pub type ValueDefinitionList = Vec<ValueDefinition>;

/// Named value definitions. Each name is defined at most once: where a name
/// stands twice among the entries, the first entry is its definition.
#[derive(Debug, PartialEq, Eq)]
pub struct VariableDefinitionBlock {
    pub entries: Vec<(String, ValueDefinition)>,
}

/// What a `VariableDefinitionBlock` stands for.
pub type BlockView = Map<Seq<char>, DefinitionView>;

/// What a `ValueDefinition` stands for.
pub enum DefinitionView {
    Value(ScalarView),
    Object(BlockView),
    Variable(Seq<char>),
    Load { file: Seq<char>, parameter: BlockView },
    Render { file: Seq<char>, parameter: BlockView },
    Execute { executable: Seq<char>, arguments: Seq<DefinitionView> },
    Import(Seq<char>),
    Quote(Seq<char>),
}

/// The index of the first entry named `key`, or -1.
pub open spec fn first_named(entries: Seq<(String, ValueDefinition)>, key: Seq<char>) -> int
    decreases entries.len(),
{
    if entries.len() == 0 {
        -1
    } else if entries.last().0@ == key && first_named(entries.drop_last(), key) < 0 {
        entries.len() - 1
    } else {
        first_named(entries.drop_last(), key)
    }
}

/// `first_named` gives the place of an entry of the name, and no entry
/// before that place has the name.
pub proof fn first_named_is_first(entries: Seq<(String, ValueDefinition)>, key: Seq<char>)
    ensures
        -1 <= first_named(entries, key) < entries.len(),
        first_named(entries, key) >= 0 ==> entries[first_named(entries, key)].0@ == key,
        forall|i: int|
            0 <= i < entries.len() && (first_named(entries, key) < 0 || i < first_named(
                entries,
                key,
            )) ==> (#[trigger] entries[i]).0@ != key,
    decreases entries.len(),
{
    if entries.len() > 0 {
        first_named_is_first(entries.drop_last(), key);
        assert forall|i: int|
            0 <= i < entries.len() && (first_named(entries, key) < 0 || i < first_named(
                entries,
                key,
            )) implies (#[trigger] entries[i]).0@ != key by {
            if i < entries.len() - 1 {
                assert(entries.drop_last()[i] == entries[i]);
            }
        }
    }
}

/// The definitions of `list`, each as what it stands for.
pub open spec fn list_view(list: Seq<ValueDefinition>) -> Seq<DefinitionView>
    decreases list,
{
    Seq::new(
        list.len(),
        |i: int|
            if 0 <= i < list.len() {
                list[i].view()
            } else {
                arbitrary()
            },
    )
}

impl View for ValueDefinition {
    type V = DefinitionView;

    open spec fn view(&self) -> DefinitionView
        decreases self,
    {
        match self {
            ValueDefinition::Value(value) => DefinitionView::Value(value@),
            ValueDefinition::Object(block) => DefinitionView::Object(block.view()),
            ValueDefinition::Variable(path) => DefinitionView::Variable(path@),
            ValueDefinition::Load(statement) => DefinitionView::Load {
                file: statement.file@,
                parameter: statement.parameter.view(),
            },
            ValueDefinition::Render(statement) => DefinitionView::Render {
                file: statement.file@,
                parameter: statement.parameter.view(),
            },
            ValueDefinition::Execute(statement) => DefinitionView::Execute {
                executable: statement.executable@,
                arguments: list_view(statement.arguments@),
            },
            ValueDefinition::Import(file) => DefinitionView::Import(file@),
            ValueDefinition::Quote(file) => DefinitionView::Quote(file@),
        }
    }
}

/// The mapping that `entries` stand for: each name with its first definition.
pub open spec fn block_view(entries: Seq<(String, ValueDefinition)>) -> BlockView
    decreases entries,
{
    Map::new(
        |key: Seq<char>| first_named(entries, key) >= 0,
        |key: Seq<char>|
            {
                let i = first_named(entries, key);
                if 0 <= i < entries.len() {
                    entries[i].1.view()
                } else {
                    arbitrary()
                }
            },
    )
}

impl View for VariableDefinitionBlock {
    type V = BlockView;

    open spec fn view(&self) -> BlockView
        decreases self,
    {
        block_view(self.entries@)
    }
}

/// The first entry with a given name is the only one that `first_named` can give.
pub proof fn first_named_found(entries: Seq<(String, ValueDefinition)>, key: Seq<char>, at: int)
    requires
        0 <= at < entries.len(),
        entries[at].0@ == key,
        forall|i: int| 0 <= i < at ==> (#[trigger] entries[i]).0@ != key,
    ensures
        first_named(entries, key) == at,
{
    first_named_is_first(entries, key);
}

/// Entries with the same names in the same places have the same first entry
/// of each name.
pub proof fn first_named_by_names(
    a: Seq<(String, ValueDefinition)>,
    b: Seq<(String, ValueDefinition)>,
    key: Seq<char>,
)
    requires
        a.len() == b.len(),
        forall|i: int| 0 <= i < a.len() ==> (#[trigger] a[i]).0@ == b[i].0@,
    ensures
        first_named(a, key) == first_named(b, key),
    decreases a.len(),
{
    if a.len() > 0 {
        assert(a.last().0@ == b.last().0@);
        assert forall|i: int| 0 <= i < a.drop_last().len() implies (#[trigger] a.drop_last()[
            i
        ]).0@ == b.drop_last()[i].0@ by {
            assert(a[i].0@ == b[i].0@);
        }
        first_named_by_names(a.drop_last(), b.drop_last(), key);
    }
}

/// Entries that stand for the same names and definitions, place by place,
/// stand for the same mapping.
pub proof fn block_view_by_entries(
    a: Seq<(String, ValueDefinition)>,
    b: Seq<(String, ValueDefinition)>,
)
    requires
        a.len() == b.len(),
        forall|i: int| 0 <= i < a.len() ==> (#[trigger] a[i]).0@ == b[i].0@,
        forall|i: int| 0 <= i < a.len() ==> (#[trigger] a[i]).1@ == b[i].1@,
    ensures
        block_view(a) == block_view(b),
{
    assert forall|key: Seq<char>| first_named(a, key) == first_named(b, key) by {
        first_named_by_names(a, b, key);
    }
    assert forall|key: Seq<char>| #[trigger]
        block_view(a).contains_key(key) implies block_view(a)[key] == block_view(b)[key] by {
        first_named_is_first(a, key);
    }
    assert(block_view(a) =~= block_view(b));
}

/// A new entry at the end defines its name unless an earlier entry does.
pub proof fn block_view_push(
    entries: Seq<(String, ValueDefinition)>,
    key: String,
    value: ValueDefinition,
)
    ensures
        block_view(entries.push((key, value))) == if block_view(entries).contains_key(key@) {
            block_view(entries)
        } else {
            block_view(entries).insert(key@, value@)
        },
{
    let longer = entries.push((key, value));
    assert(longer.drop_last() == entries);
    let expected = if block_view(entries).contains_key(key@) {
        block_view(entries)
    } else {
        block_view(entries).insert(key@, value@)
    };
    assert forall|name: Seq<char>| #[trigger]
        block_view(longer).contains_key(name) implies expected.contains_key(name)
        && block_view(longer)[name] == expected[name] by {
        first_named_is_first(entries, name);
        let i = first_named(longer, name);
        if i < entries.len() {
            assert(longer[i] == entries[i]);
        }
    }
    assert forall|name: Seq<char>| #[trigger]
        expected.contains_key(name) implies block_view(longer).contains_key(name) by {
        first_named_is_first(entries, name);
    }
    assert(block_view(longer) =~= expected);
}

/// Replacing the first entry of a name by another of that name redefines
/// the name and nothing else.
pub proof fn block_view_update(
    entries: Seq<(String, ValueDefinition)>,
    at: int,
    key: String,
    value: ValueDefinition,
)
    requires
        0 <= at < entries.len(),
        at == first_named(entries, key@),
    ensures
        block_view(entries.update(at, (key, value))) == block_view(entries).insert(
            key@,
            value@,
        ),
{
    let changed = entries.update(at, (key, value));
    first_named_is_first(entries, key@);
    assert forall|name: Seq<char>| first_named(changed, name) == first_named(entries, name) by {
        first_named_by_names(changed, entries, name);
    }
    let expected = block_view(entries).insert(key@, value@);
    assert forall|name: Seq<char>| #[trigger]
        block_view(changed).contains_key(name) implies block_view(changed)[name] == expected[name] by {
        first_named_is_first(entries, name);
    }
    assert(block_view(changed) =~= expected);
}

/// No name is defined by no entries.
pub proof fn block_view_empty()
    ensures
        block_view(Seq::empty()) == Map::<Seq<char>, DefinitionView>::empty(),
{
    assert(block_view(Seq::empty()) =~= Map::<Seq<char>, DefinitionView>::empty());
}

/// One more definition at the end of a list.
pub proof fn list_view_push(list: Seq<ValueDefinition>, value: ValueDefinition)
    ensures
        list_view(list.push(value)) == list_view(list).push(value@),
{
    assert(list_view(list.push(value)) =~= list_view(list).push(value@));
}

impl VariableDefinitionBlock {
    /// A block that defines nothing.
    pub fn new() -> (block: Self)
        ensures
            block@ == Map::<Seq<char>, DefinitionView>::empty(),
    {
        proof {
            block_view_empty();
        }
        VariableDefinitionBlock { entries: Vec::new() }
    }

    /// The place of the first entry named `key`, if there is one.
    fn position(&self, key: &String) -> (at: Option<usize>)
        ensures
            match at {
                Some(i) => i < self.entries.len() && first_named(self.entries@, key@) == i,
                None => first_named(self.entries@, key@) < 0,
            },
    {
        let mut i: usize = 0;
        while i < self.entries.len()
            invariant
                i <= self.entries.len(),
                forall|j: int| 0 <= j < i ==> (#[trigger] self.entries@[j]).0@ != key@,
            decreases self.entries.len() - i,
        {
            if self.entries[i].0 == *key {
                proof {
                    first_named_found(self.entries@, key@, i as int);
                }
                return Some(i);
            }
            i += 1;
        }
        proof {
            first_named_is_first(self.entries@, key@);
        }
        None
    }

    /// Whether the block defines `key`.
    pub fn contains_key(&self, key: &String) -> (defined: bool)
        ensures
            defined == self@.contains_key(key@),
    {
        self.position(key).is_some()
    }

    /// The definition of `key`, if the block has one.
    pub fn get(&self, key: &String) -> (found: Option<&ValueDefinition>)
        ensures
            match found {
                Some(definition) => self@.contains_key(key@) && definition@ == self@[key@],
                None => !self@.contains_key(key@),
            },
    {
        match self.position(key) {
            Some(i) => Some(&self.entries[i].1),
            None => None,
        }
    }

    /// Defines `key` as `value`, in place of an earlier definition if there is one.
    pub fn insert(&mut self, key: String, value: ValueDefinition)
        ensures
            final(self)@ == old(self)@.insert(key@, value@),
    {
        match self.position(&key) {
            Some(i) => {
                proof {
                    block_view_update(self.entries@, i as int, key, value);
                }
                self.entries.set(i, (key, value));
            },
            None => {
                proof {
                    block_view_push(self.entries@, key, value);
                }
                self.entries.push((key, value));
            },
        }
    }
}

/// A copy of `list`.
pub fn clone_list(list: &Vec<ValueDefinition>) -> (copy: Vec<ValueDefinition>)
    ensures
        list_view(copy@) == list_view(list@),
    decreases list,
{
    let mut copy: Vec<ValueDefinition> = Vec::new();
    let mut i: usize = 0;
    while i < list.len()
        invariant
            i <= list.len(),
            copy.len() == i,
            forall|j: int| 0 <= j < i ==> (#[trigger] copy@[j])@ == list@[j]@,
        decreases list.len() - i,
    {
        copy.push(list[i].clone());
        i += 1;
    }
    assert(list_view(copy@) =~= list_view(list@));
    copy
}

impl Clone for ValueDefinition {
    fn clone(&self) -> (copy: Self)
        ensures
            copy@ == self@,
        decreases self,
    {
        match self {
            ValueDefinition::Value(value) => ValueDefinition::Value(value.clone()),
            ValueDefinition::Object(block) => ValueDefinition::Object(block.clone()),
            ValueDefinition::Variable(path) => ValueDefinition::Variable(path.clone()),
            ValueDefinition::Load(statement) => ValueDefinition::Load(
                LoadStatement {
                    file: statement.file.clone(),
                    parameter: statement.parameter.clone(),
                },
            ),
            ValueDefinition::Render(statement) => ValueDefinition::Render(
                RenderStatement {
                    file: statement.file.clone(),
                    parameter: statement.parameter.clone(),
                },
            ),
            ValueDefinition::Execute(statement) => ValueDefinition::Execute(
                ExecuteStatement {
                    executable: statement.executable.clone(),
                    arguments: clone_list(&statement.arguments),
                },
            ),
            ValueDefinition::Import(file) => ValueDefinition::Import(file.clone()),
            ValueDefinition::Quote(file) => ValueDefinition::Quote(file.clone()),
        }
    }
}

impl Clone for LoadStatement {
    fn clone(&self) -> (copy: Self)
        ensures
            copy.file@ == self.file@,
            copy.parameter@ == self.parameter@,
    {
        LoadStatement { file: self.file.clone(), parameter: self.parameter.clone() }
    }
}

impl Clone for RenderStatement {
    fn clone(&self) -> (copy: Self)
        ensures
            copy.file@ == self.file@,
            copy.parameter@ == self.parameter@,
    {
        RenderStatement { file: self.file.clone(), parameter: self.parameter.clone() }
    }
}

impl Clone for ExecuteStatement {
    fn clone(&self) -> (copy: Self)
        ensures
            copy.executable@ == self.executable@,
            list_view(copy.arguments@) == list_view(self.arguments@),
    {
        ExecuteStatement {
            executable: self.executable.clone(),
            arguments: clone_list(&self.arguments),
        }
    }
}

impl Clone for CaseClause {
    fn clone(&self) -> (copy: Self)
        ensures
            crate::text::optional_text(copy.case) == crate::text::optional_text(self.case),
            copy.definition@ == self.definition@,
    {
        CaseClause {
            case: match &self.case {
                Some(case) => Some(case.clone()),
                None => None,
            },
            definition: self.definition.clone(),
        }
    }
}

impl Clone for VariableDefinitionBlock {
    fn clone(&self) -> (copy: Self)
        ensures
            copy@ == self@,
        decreases self,
    {
        let mut entries: Vec<(String, ValueDefinition)> = Vec::new();
        let mut i: usize = 0;
        while i < self.entries.len()
            invariant
                i <= self.entries.len(),
                entries.len() == i,
                forall|j: int| 0 <= j < i ==> (#[trigger] entries@[j]).0@ == self.entries@[j].0@,
                forall|j: int| 0 <= j < i ==> (#[trigger] entries@[j]).1@ == self.entries@[j].1@,
            decreases self.entries.len() - i,
        {
            let key = self.entries[i].0.clone();
            let value = self.entries[i].1.clone();
            entries.push((key, value));
            i += 1;
        }
        proof {
            block_view_by_entries(entries@, self.entries@);
        }
        VariableDefinitionBlock { entries }
    }
}

/// The text of one section of a template: given in place, or the name of a
/// file that holds it.
#[derive(Debug, PartialEq, Eq)]
pub enum TemplateValue {
    RawValue(String),
    Quote(String),
}

/// What a `TemplateValue` stands for.
pub enum TemplateValueView {
    RawValue(Seq<char>),
    Quote(Seq<char>),
}

impl View for TemplateValue {
    type V = TemplateValueView;

    open spec fn view(&self) -> TemplateValueView {
        match self {
            TemplateValue::RawValue(text) => TemplateValueView::RawValue(text@),
            TemplateValue::Quote(file) => TemplateValueView::Quote(file@),
        }
    }
}

impl Clone for TemplateValue {
    fn clone(&self) -> (copy: Self)
        ensures
            copy@ == self@,
    {
        match self {
            TemplateValue::RawValue(text) => TemplateValue::RawValue(text.clone()),
            TemplateValue::Quote(file) => TemplateValue::Quote(file.clone()),
        }
    }
}

/// What an optional `TemplateValue` stands for.
pub open spec fn section_view(section: Option<TemplateValue>) -> Option<TemplateValueView> {
    match section {
        Some(value) => Some(value@),
        None => None,
    }
}

fn clone_section(section: &Option<TemplateValue>) -> (copy: Option<TemplateValue>)
    ensures
        section_view(copy) == section_view(*section),
{
    match section {
        Some(value) => Some(value.clone()),
        None => None,
    }
}

/// A template: an optional header, the body that is rendered once for each
/// injection row, and an optional footer.
#[derive(Debug, PartialEq, Eq)]
pub struct TemplateDefinition {
    pub header: Option<TemplateValue>,
    pub body: TemplateValue,
    pub footer: Option<TemplateValue>,
}

/// What a `TemplateDefinition` stands for.
pub struct TemplateView {
    pub header: Option<TemplateValueView>,
    pub body: TemplateValueView,
    pub footer: Option<TemplateValueView>,
}

impl View for TemplateDefinition {
    type V = TemplateView;

    open spec fn view(&self) -> TemplateView {
        TemplateView {
            header: section_view(self.header),
            body: self.body@,
            footer: section_view(self.footer),
        }
    }
}

impl Clone for TemplateDefinition {
    fn clone(&self) -> (copy: Self)
        ensures
            copy@ == self@,
    {
        TemplateDefinition {
            header: clone_section(&self.header),
            body: self.body.clone(),
            footer: clone_section(&self.footer),
        }
    }
}

impl TemplateDefinition {
    /// A template with neither header nor footer, whose body is `template`.
    pub fn simple_template(template: String) -> (definition: Self)
        ensures
            definition@ == (TemplateView {
                header: None,
                body: TemplateValueView::RawValue(template@),
                footer: None,
            }),
    {
        Self { header: None, body: TemplateValue::RawValue(template), footer: None }
    }
}

/// The blocks of `rows`, each as what it stands for.
pub open spec fn rows_view(rows: Seq<VariableDefinitionBlock>) -> Seq<BlockView> {
    rows.map_values(|row: VariableDefinitionBlock| row@)
}

/// A document: the global and the local definitions, the injection rows and
/// the template.
#[derive(Debug, PartialEq, Eq)]
pub struct GlitterConfig {
    pub global: VariableDefinitionBlock,
    pub local: VariableDefinitionBlock,
    pub injection: Vec<VariableDefinitionBlock>,
    pub template: TemplateDefinition,
}

/// What a `GlitterConfig` stands for.
pub struct ConfigView {
    pub global: BlockView,
    pub local: BlockView,
    pub injection: Seq<BlockView>,
    pub template: TemplateView,
}

impl View for GlitterConfig {
    type V = ConfigView;

    open spec fn view(&self) -> ConfigView {
        ConfigView {
            global: self.global@,
            local: self.local@,
            injection: rows_view(self.injection@),
            template: self.template@,
        }
    }
}

impl Clone for GlitterConfig {
    fn clone(&self) -> (copy: Self)
        ensures
            copy@ == self@,
    {
        let mut injection: Vec<VariableDefinitionBlock> = Vec::new();
        let mut i: usize = 0;
        while i < self.injection.len()
            invariant
                i <= self.injection.len(),
                rows_view(injection@) == rows_view(self.injection@).take(i as int),
            decreases self.injection.len() - i,
        {
            let ghost before = rows_view(injection@);
            let row = self.injection[i].clone();
            injection.push(row);
            assert(rows_view(injection@) == before.push(row@));
            assert(before.push(row@) == rows_view(self.injection@).take(i + 1));
            i += 1;
        }
        assert(rows_view(self.injection@).take(self.injection.len() as int) == rows_view(
            self.injection@,
        ));
        GlitterConfig {
            global: self.global.clone(),
            local: self.local.clone(),
            injection,
            template: self.template.clone(),
        }
    }
}

} // verus!
