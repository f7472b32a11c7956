use crate::config::model::{
    list_view, BlockView, DefinitionView, RawValue, ScalarView, ValueDefinition,
    ValueDefinitionList, VariableDefinitionBlock,
};
use crate::processing::context::{share, ContextView, ProcessingContext};
use crate::processing::ValuePath;
use crate::text::split;
use std::rc::Rc;
use vstd::prelude::*;

verus! {

/// What a definition asks the processor to do.
#[derive(Debug, PartialEq, Eq)]
pub enum ProcessingInstruction {
    Load(String, VariableDefinitionBlock),
    Render(String, VariableDefinitionBlock),
    Execute(String, ValueDefinitionList),
    Import(String),
    Quote(String),
}

/// What a `ProcessingInstruction` stands for.
pub enum InstructionView {
    Load { file: Seq<char>, parameter: BlockView },
    Render { file: Seq<char>, parameter: BlockView },
    Execute { executable: Seq<char>, arguments: Seq<DefinitionView> },
    Import(Seq<char>),
    Quote(Seq<char>),
}

impl View for ProcessingInstruction {
    type V = InstructionView;

    open spec fn view(&self) -> InstructionView {
        match self {
            ProcessingInstruction::Load(file, parameter) => InstructionView::Load {
                file: file@,
                parameter: parameter@,
            },
            ProcessingInstruction::Render(file, parameter) => InstructionView::Render {
                file: file@,
                parameter: parameter@,
            },
            ProcessingInstruction::Execute(executable, arguments) => InstructionView::Execute {
                executable: executable@,
                arguments: list_view(arguments@),
            },
            ProcessingInstruction::Import(file) => InstructionView::Import(file@),
            ProcessingInstruction::Quote(file) => InstructionView::Quote(file@),
        }
    }
}

/// What a store finds under a path.
#[derive(Debug, PartialEq, Eq)]
pub enum StoredVariable {
    Value(RawValue),
    Instruction(ProcessingInstruction, ValuePath),
    LocalReference(ValuePath),
    DistantReference(ValuePath, Rc<ProcessingContext>),
    Missing,
}

/// What a `StoredVariable` stands for.
pub enum StoredView {
    Value(ScalarView),
    Instruction(InstructionView, Seq<Seq<char>>),
    LocalReference(Seq<Seq<char>>),
    DistantReference(Seq<Seq<char>>, ContextView),
    Missing,
}

impl View for StoredVariable {
    type V = StoredView;

    open spec fn view(&self) -> StoredView {
        match self {
            StoredVariable::Value(value) => StoredView::Value(value@),
            StoredVariable::Instruction(instruction, path) => StoredView::Instruction(
                instruction@,
                path@,
            ),
            StoredVariable::LocalReference(path) => StoredView::LocalReference(path@),
            StoredVariable::DistantReference(path, context) => StoredView::DistantReference(
                path@,
                (**context)@,
            ),
            StoredVariable::Missing => StoredView::Missing,
        }
    }
}

/// What is found under `path` in `block`, and what is left of the path: the
/// first name picks a definition of the block, the rest of the path is
/// resolved in that definition. Nothing is found under the empty path or
/// under a name that the block does not define.
pub open spec fn found_in_block(block: BlockView, path: Seq<Seq<char>>) -> (
    StoredView,
    Seq<Seq<char>>,
)
    decreases path.len(), 0int,
{
    if path.len() == 0 {
        (StoredView::Missing, path)
    } else if block.contains_key(path[0]) {
        found_in_definition(block[path[0]], path.drop_first())
    } else {
        (StoredView::Missing, path)
    }
}

/// What `definition` yields for the rest `path` of a path, and what is left
/// of the path. A scalar is itself; an object is searched for the rest; an
/// alias refers to its target followed by the rest, of which nothing is left;
/// every other definition is an instruction that carries the rest.
pub open spec fn found_in_definition(definition: DefinitionView, path: Seq<Seq<char>>) -> (
    StoredView,
    Seq<Seq<char>>,
)
    decreases path.len(), 1int,
{
    match definition {
        DefinitionView::Value(value) => (StoredView::Value(value), path),
        DefinitionView::Object(block) => found_in_block(block, path),
        DefinitionView::Variable(target) => (
            StoredView::LocalReference(split(target, '.') + path),
            Seq::empty(),
        ),
        DefinitionView::Quote(file) => (
            StoredView::Instruction(InstructionView::Quote(file), path),
            path,
        ),
        DefinitionView::Import(file) => (
            StoredView::Instruction(InstructionView::Import(file), path),
            path,
        ),
        DefinitionView::Load { file, parameter } => (
            StoredView::Instruction(InstructionView::Load { file, parameter }, path),
            path,
        ),
        DefinitionView::Render { file, parameter } => (
            StoredView::Instruction(InstructionView::Render { file, parameter }, path),
            path,
        ),
        DefinitionView::Execute { executable, arguments } => (
            StoredView::Instruction(InstructionView::Execute { executable, arguments }, path),
            path,
        ),
    }
}

/// An alias that is reached with a rest of the path left refers to its
/// target followed by that rest: what the path names beyond the alias is
/// looked for in what the alias stands for.
pub proof fn alias_takes_the_rest_along(
    block: BlockView,
    name: Seq<char>,
    target: Seq<char>,
    rest: Seq<Seq<char>>,
)
    requires
        block.contains_key(name),
        block[name] == DefinitionView::Variable(target),
    ensures
        found_in_block(block, seq![name] + rest).0 == StoredView::LocalReference(
            split(target, '.') + rest,
        ),
{
    let path = seq![name] + rest;
    assert(path[0] == name);
    assert(path.drop_first() =~= rest);
}

impl StoredVariable {
    /// Looks `key_path` up in `block`. The names that the search has passed
    /// are removed from `key_path`.
    pub fn out_of_block(block: &VariableDefinitionBlock, key_path: &mut ValuePath) -> (found: Self)
        ensures
            (found@, final(key_path)@) == found_in_block(block@, old(key_path)@),
        decreases old(key_path)@.len(), 0int,
    {
        if key_path.is_empty() {
            return Self::Missing;
        }
        match block.get(key_path.index(0)) {
            Some(value_definition) => {
                key_path.drop_first();
                Self::from(value_definition, key_path)
            },
            None => Self::Missing,
        }
    }

    /// What `definition` yields for the rest `key_path` of a path.
    pub fn from(definition: &ValueDefinition, key_path: &mut ValuePath) -> (found: Self)
        ensures
            (found@, final(key_path)@) == found_in_definition(definition@, old(key_path)@),
        decreases old(key_path)@.len(), 1int,
    {
        match definition {
            ValueDefinition::Value(value) => StoredVariable::Value(value.clone()),
            ValueDefinition::Object(map) => StoredVariable::out_of_block(map, key_path),
            ValueDefinition::Variable(value_path) => {
                let mut path_parts = ValuePath::from(value_path);
                path_parts.append(key_path);
                StoredVariable::LocalReference(path_parts)
            },
            ValueDefinition::Quote(file_path) => StoredVariable::Instruction(
                ProcessingInstruction::Quote(file_path.clone()),
                key_path.clone(),
            ),
            ValueDefinition::Import(file_path) => StoredVariable::Instruction(
                ProcessingInstruction::Import(file_path.clone()),
                key_path.clone(),
            ),
            ValueDefinition::Load(load_statement) => StoredVariable::Instruction(
                ProcessingInstruction::Load(
                    load_statement.file.clone(),
                    load_statement.parameter.clone(),
                ),
                key_path.clone(),
            ),
            ValueDefinition::Render(render_statement) => StoredVariable::Instruction(
                ProcessingInstruction::Render(
                    render_statement.file.clone(),
                    render_statement.parameter.clone(),
                ),
                key_path.clone(),
            ),
            ValueDefinition::Execute(execute_statement) => {
                let arguments = crate::config::model::clone_list(&execute_statement.arguments);
                StoredVariable::Instruction(
                    ProcessingInstruction::Execute(execute_statement.executable.clone(), arguments),
                    key_path.clone(),
                )
            },
        }
    }
}

/// The definitions of one scope, and the parameters that the scope was
/// given together with the context that they belong to.
#[derive(Debug, PartialEq, Eq)]
pub struct VariableStore {
    pub inner_store: VariableDefinitionBlock,
    pub parameter: VariableDefinitionBlock,
    pub source_context: Option<Rc<ProcessingContext>>,
}

/// What a `VariableStore` stands for.
pub struct StoreView {
    pub inner: BlockView,
    pub parameter: BlockView,
    pub source: Option<Box<ContextView>>,
}

impl View for VariableStore {
    type V = StoreView;

    open spec fn view(&self) -> StoreView
        decreases self,
    {
        StoreView {
            inner: self.inner_store@,
            parameter: self.parameter@,
            source: match self.source_context {
                Some(context) => Some(Box::new((*context).view())),
                None => None,
            },
        }
    }
}

/// What the first `count` stores of `rows` stand for.
pub open spec fn stores_upto(rows: Seq<VariableStore>, count: nat) -> Seq<StoreView>
    decreases rows, count,
{
    if count == 0 || count > rows.len() {
        Seq::empty()
    } else {
        stores_upto(rows, (count - 1) as nat).push(rows[count - 1].view())
    }
}

/// What the first stores of `rows` stand for, place by place.
pub proof fn stores_upto_places(rows: Seq<VariableStore>, count: nat)
    requires
        count <= rows.len(),
    ensures
        stores_upto(rows, count).len() == count,
        forall|i: int| 0 <= i < count ==> (#[trigger] stores_upto(rows, count)[i]) == rows[i]@,
    decreases count,
{
    if count > 0 {
        stores_upto_places(rows, (count - 1) as nat);
        assert(stores_upto(rows, count) == stores_upto(rows, (count - 1) as nat).push(
            rows[count - 1].view(),
        ));
    } else {
        assert(stores_upto(rows, count).len() == 0);
    }
}

impl StoreView {
    /// Whether the store knows the name `key`: among its own definitions, or
    /// among its parameters where it has a source context.
    pub open spec fn contains(self, key: Seq<char>) -> bool {
        self.inner.contains_key(key) || (self.source is Some && self.parameter.contains_key(key))
    }

    /// What the store finds under `path`, and what is left of the path. Its
    /// own definitions come first. Where they give nothing and the store has
    /// a source context, what they left of the path is looked up among the
    /// parameters; an alias found there refers to the source context.
    pub open spec fn resolve(self, path: Seq<Seq<char>>) -> (StoredView, Seq<Seq<char>>) {
        let own = found_in_block(self.inner, path);
        if own.0 is Missing {
            match self.source {
                Some(context) => {
                    let given = found_in_block(self.parameter, own.1);
                    match given.0 {
                        StoredView::LocalReference(target) => (
                            StoredView::DistantReference(target, *context),
                            given.1,
                        ),
                        _ => given,
                    }
                },
                None => own,
            }
        } else {
            own
        }
    }
}

impl VariableStore {
    /// A store of definitions alone.
    pub fn from(variable_definition: VariableDefinitionBlock) -> (store: Self)
        ensures
            store@ == (StoreView {
                inner: variable_definition@,
                parameter: Map::empty(),
                source: None,
            }),
    {
        VariableStore {
            inner_store: variable_definition,
            parameter: VariableDefinitionBlock::new(),
            source_context: None,
        }
    }

    /// A store of definitions with parameters that belong to `source_context`.
    pub fn with_context(
        variable_definition: VariableDefinitionBlock,
        parameter: VariableDefinitionBlock,
        source_context: Rc<ProcessingContext>,
    ) -> (store: Self)
        ensures
            store@ == (StoreView {
                inner: variable_definition@,
                parameter: parameter@,
                source: Some(Box::new((*source_context)@)),
            }),
    {
        VariableStore {
            inner_store: variable_definition,
            parameter,
            source_context: Some(source_context),
        }
    }

    /// Whether the store knows the name `key`.
    pub fn contains(&self, key: &String) -> (known: bool)
        ensures
            known == self@.contains(key@),
    {
        self.inner_store.contains_key(key) || (self.source_context.is_some()
            && self.parameter.contains_key(key))
    }

    /// Looks `key_path` up in the store. The names that the search has passed
    /// are removed from `key_path`.
    pub fn resolve(&self, key_path: &mut ValuePath) -> (found: StoredVariable)
        ensures
            (found@, final(key_path)@) == self@.resolve(old(key_path)@),
    {
        match StoredVariable::out_of_block(&self.inner_store, key_path) {
            StoredVariable::Missing => (),
            found => return found,
        }
        if let Some(source_context) = &self.source_context {
            match StoredVariable::out_of_block(&self.parameter, key_path) {
                StoredVariable::Missing => (),
                StoredVariable::LocalReference(path_parts) => {
                    return StoredVariable::DistantReference(path_parts, share(source_context))
                },
                found => return found,
            };
        }
        StoredVariable::Missing
    }

    /// The store with `key` defined as `value` among its own definitions.
    pub fn insert(self, key: &str, value: ValueDefinition) -> (store: Self)
        ensures
            store@ == (StoreView { inner: self@.inner.insert(key@, value@), ..self@ }),
    {
        let mut store = self;
        store.inner_store.insert(key.to_owned(), value);
        store
    }
}

} // verus!
