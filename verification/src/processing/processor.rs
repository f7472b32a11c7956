//! The resolution engine: which scopes a lookup sees, and how a path is
//! followed to a value that can be rendered.

use crate::config::model::{
    list_view, ConfigView, GlitterConfig, RawValue, ScalarView, ValueDefinition,
    VariableDefinitionBlock,
};
use crate::config::reader::{place_name, result_view, ConfigReader};
use crate::config::yaml_import::YamlImporter;
use crate::processing::context::{
    file_name_of, injection_stores, injection_view, parent_of, path_parent, share, stores_view,
    ContextView, ProcessingContext,
};
use crate::processing::journal::{Interruption, Journal};
use crate::processing::var_store::{
    ProcessingInstruction, StoreView, StoredVariable, StoredView, VariableStore,
};
use crate::processing::ValuePath;
use crate::rendering::template_rendering::TemplateRenderer;
use crate::rendering::var_rendering::{
    scalars_view, RenderableExecutionResult, RenderableQuote, RenderableRawValue,
    RenderableVariable, RenderableView, SubRender,
};
use crate::rendering::{TemplateRenderError, ValueRenderError, ValueRenderErrorView};
use crate::semantics::{
    anchor, converted_definition, evaluated_argument, evaluated_arguments, imported_context,
    loaded_context, processed, processor_rendered, read_failure, resolved, resolved_filename,
    sub_processor, value_rendered, Resolved,
};
use crate::text::{join, natural_text, split_text, texts};
use std::rc::Rc;
use vstd::prelude::*;

verus! {

/// Why a lookup is made, which decides the scopes that it sees.
#[derive(Debug, Clone, Copy, PartialEq, Eq, Structural)]
pub enum RequestSource {
    /// From the template, while the row of this number is rendered.
    Template(usize),
    /// From a definition of an injection row.
    Injection,
    /// From a local definition.
    Local,
    /// From a global definition.
    Global,
    /// From another context.
    CallingContext,
}

/// What to do after one step of resolution.
#[derive(Debug, PartialEq, Eq)]
pub enum NextVarProcessingInstruction {
    /// Go on with this path and request source, in this context if one is given.
    ContinueElsewhere(Option<Rc<ProcessingContext>>, ValuePath, RequestSource),
    /// The value is found.
    ReturnValue(RenderableVariable),
    /// Nothing is defined under the path.
    ReportMissing,
}

/// What a `NextVarProcessingInstruction` stands for.
pub enum NextView {
    ContinueElsewhere(Option<ContextView>, Seq<Seq<char>>, RequestSource),
    ReturnValue(RenderableView),
    ReportMissing,
}

/// What an optional context stands for.
pub open spec fn optional_context_view(context: Option<Rc<ProcessingContext>>) -> Option<
    ContextView,
> {
    match context {
        Some(context) => Some((*context)@),
        None => None,
    }
}

impl View for NextVarProcessingInstruction {
    type V = NextView;

    open spec fn view(&self) -> NextView {
        match self {
            NextVarProcessingInstruction::ContinueElsewhere(context, path, source) => {
                NextView::ContinueElsewhere(optional_context_view(*context), path@, *source)
            },
            NextVarProcessingInstruction::ReturnValue(value) => NextView::ReturnValue(value@),
            NextVarProcessingInstruction::ReportMissing => NextView::ReportMissing,
        }
    }
}

/// The engine of one document: the context of the global definitions, and
/// the context of the document itself.
#[derive(Debug, PartialEq, Eq)]
pub struct GlitterProcessor {
    pub global: Rc<ProcessingContext>,
    pub root: Rc<ProcessingContext>,
}

/// What a `GlitterProcessor` stands for.
pub struct ProcessorView {
    pub global: ContextView,
    pub root: ContextView,
}

impl View for GlitterProcessor {
    type V = ProcessorView;

    open spec fn view(&self) -> ProcessorView {
        ProcessorView { global: (*self.global)@, root: (*self.root)@ }
    }
}

/// The scopes of the rows from `top` down to the first, each followed by
/// the request source `Injection`. Rows that the context does not have are
/// left out.
pub open spec fn row_scopes(rows: Seq<StoreView>, top: nat) -> Seq<(StoreView, RequestSource)> {
    let count: int = if top < rows.len() {
        (top + 1) as int
    } else {
        rows.len() as int
    };
    Seq::new(count as nat, |k: int| (rows[count - 1 - k], RequestSource::Injection))
}

/// The scopes that a lookup sees, in the order in which they are tried, each
/// with the request source of what is found in it.
pub open spec fn scopes_for(global: ContextView, context: ContextView, source: RequestSource) -> Seq<
    (StoreView, RequestSource),
> {
    match source {
        RequestSource::Template(row) => row_scopes(context.injection, row as nat),
        RequestSource::Injection | RequestSource::Local => seq![
            (context.local, RequestSource::Local),
            (global.local, RequestSource::Global),
        ],
        RequestSource::Global => seq![(global.local, RequestSource::Global)],
        RequestSource::CallingContext => seq![(context.local, RequestSource::Local)],
    }
}

/// What a lookup in an ordered list of scopes finds.
pub struct Lookup {
    /// What the scope that knows the first name of the path finds.
    pub found: StoredView,
    /// The request source of that scope, or `Global` where no scope knows
    /// the name.
    pub source: RequestSource,
    /// What the search has left of the path.
    pub left: Seq<Seq<char>>,
}

/// Looks `path` up in `scopes`: the first scope that knows the first name of
/// the path resolves the whole path. The empty path is found nowhere.
pub open spec fn looked_up(scopes: Seq<(StoreView, RequestSource)>, path: Seq<Seq<char>>) -> Lookup
    decreases scopes.len(),
{
    if path.len() == 0 || scopes.len() == 0 {
        Lookup { found: StoredView::Missing, source: RequestSource::Global, left: path }
    } else if scopes[0].0.contains(path[0]) {
        Lookup {
            found: scopes[0].0.resolve(path).0,
            source: scopes[0].1,
            left: scopes[0].0.resolve(path).1,
        }
    } else {
        looked_up(scopes.drop_first(), path)
    }
}

/// A name that both the local and the global scope define is resolved by
/// the local scope where the request comes from a local definition or from
/// an injection row, and by the global scope where it comes from a global
/// definition.
pub proof fn local_definitions_hide_global_ones(
    global: ContextView,
    context: ContextView,
    path: Seq<Seq<char>>,
)
    requires
        path.len() > 0,
        context.local.contains(path[0]),
        global.local.contains(path[0]),
    ensures
        looked_up(scopes_for(global, context, RequestSource::Local), path) == (Lookup {
            found: context.local.resolve(path).0,
            source: RequestSource::Local,
            left: context.local.resolve(path).1,
        }),
        looked_up(scopes_for(global, context, RequestSource::Injection), path) == looked_up(
            scopes_for(global, context, RequestSource::Local),
            path,
        ),
        looked_up(scopes_for(global, context, RequestSource::Global), path) == (Lookup {
            found: global.local.resolve(path).0,
            source: RequestSource::Global,
            left: global.local.resolve(path).1,
        }),
{
}

/// A name that only the global scope defines is resolved by the global
/// scope for every request that sees it.
pub proof fn global_definitions_are_seen_behind_local_ones(
    global: ContextView,
    context: ContextView,
    path: Seq<Seq<char>>,
)
    requires
        path.len() > 0,
        !context.local.contains(path[0]),
        global.local.contains(path[0]),
    ensures
        looked_up(scopes_for(global, context, RequestSource::Local), path) == (Lookup {
            found: global.local.resolve(path).0,
            source: RequestSource::Global,
            left: global.local.resolve(path).1,
        }),
        looked_up(scopes_for(global, context, RequestSource::Injection), path) == looked_up(
            scopes_for(global, context, RequestSource::Local),
            path,
        ),
{
    let scopes = scopes_for(global, context, RequestSource::Local);
    assert(scopes.drop_first() =~= seq![(global.local, RequestSource::Global)]);
    reveal_with_fuel(looked_up, 2);
}

/// A request from the template while row `row` is rendered sees that row
/// and the rows before it, the latest first, and no other scope.
pub proof fn template_sees_rows_up_to_its_own(global: ContextView, context: ContextView, row: usize)
    ensures
        scopes_for(global, context, RequestSource::Template(row)).len() <= row + 1,
        scopes_for(global, context, RequestSource::Template(row)).len()
            <= context.injection.len(),
        forall|k: int|
            0 <= k < scopes_for(global, context, RequestSource::Template(row)).len() ==> {
                let top = scopes_for(global, context, RequestSource::Template(row)).len() - 1;
                &&& 0 <= top - k <= row
                &&& (#[trigger] scopes_for(global, context, RequestSource::Template(row))[k]) == (
                    context.injection[top - k],
                    RequestSource::Injection,
                )
            },
{
}

/// What a request from the template sees while row `row` is rendered does
/// not depend on the rows after it: two contexts with the same rows up to
/// `row` give the same scopes, and so the same lookup.
pub proof fn later_rows_are_not_seen(
    global: ContextView,
    first: ContextView,
    second: ContextView,
    row: usize,
    path: Seq<Seq<char>>,
)
    requires
        row < first.injection.len(),
        row < second.injection.len(),
        first.injection.take(row + 1) == second.injection.take(row + 1),
    ensures
        scopes_for(global, first, RequestSource::Template(row)) == scopes_for(
            global,
            second,
            RequestSource::Template(row),
        ),
        looked_up(scopes_for(global, first, RequestSource::Template(row)), path) == looked_up(
            scopes_for(global, second, RequestSource::Template(row)),
            path,
        ),
{
    let one = scopes_for(global, first, RequestSource::Template(row));
    let other = scopes_for(global, second, RequestSource::Template(row));
    assert forall|k: int| 0 <= k < one.len() implies one[k] == other[k] by {
        assert(first.injection[row - k] == first.injection.take(row + 1)[row - k]);
        assert(second.injection[row - k] == second.injection.take(row + 1)[row - k]);
    }
    assert(one =~= other);
}

/// What the scopes of `storages` stand for.
pub open spec fn scopes_view(storages: Seq<(&VariableStore, RequestSource)>) -> Seq<
    (StoreView, RequestSource),
> {
    storages.map_values(|scope: (&VariableStore, RequestSource)| ((*scope.0)@, scope.1))
}

/// The context of the global definitions of a document.
pub open spec fn global_context(directory: Seq<char>, config: ConfigView) -> ContextView {
    ContextView {
        directory,
        local: StoreView { inner: config.global, parameter: Map::empty(), source: None },
        injection: Seq::empty(),
        template: None,
    }
}

/// The context of a document: its local definitions, with the parameters
/// that it was given, its injection rows and its template.
pub open spec fn document_context(
    filename: Seq<char>,
    directory: Seq<char>,
    config: ConfigView,
    parameter: crate::config::model::BlockView,
    source: Option<Box<ContextView>>,
) -> ContextView {
    ContextView {
        directory,
        local: StoreView { inner: config.local, parameter, source },
        injection: injection_stores(config.injection, filename, directory),
        template: Some(config.template),
    }
}

impl GlitterProcessor {
    /// The engine of the document `config`, which was read from the file
    /// `filename` in `directory`.
    pub fn new(filename: String, directory: String, config: GlitterConfig) -> (processor: Self)
        ensures
            processor@ == (ProcessorView {
                global: global_context(directory@, config@),
                root: document_context(filename@, directory@, config@, Map::empty(), None),
            }),
    {
        let global = Rc::new(ProcessingContext::local_standalone(directory.clone(), config.global));
        GlitterProcessor {
            global,
            root: Rc::new(
                ProcessingContext::initial(
                    filename,
                    directory,
                    config.local,
                    config.injection,
                    config.template,
                ),
            ),
        }
    }

    /// The engine of a document that this engine renders as a value. It
    /// shares the global context; the global definitions of `config` are not
    /// used.
    pub fn subprocessor(
        &self,
        filename: String,
        directory: String,
        config: GlitterConfig,
        parameter: VariableDefinitionBlock,
        source_context: Rc<ProcessingContext>,
    ) -> (processor: Self)
        ensures
            processor@ == (ProcessorView {
                global: self@.global,
                root: document_context(
                    filename@,
                    directory@,
                    config@,
                    parameter@,
                    Some(Box::new((*source_context)@)),
                ),
            }),
    {
        let global = share(&self.global);
        GlitterProcessor {
            global,
            root: Rc::new(
                ProcessingContext::subcontext(
                    filename,
                    directory,
                    config.local,
                    config.injection,
                    config.template,
                    parameter,
                    source_context,
                ),
            ),
        }
    }

    /// Looks `variable_path` up in `storages`. The names that the search has
    /// passed are removed from `variable_path`.
    pub fn read_variable(
        storages: &Vec<(&VariableStore, RequestSource)>,
        variable_path: &mut ValuePath,
    ) -> (found: (StoredVariable, RequestSource))
        ensures
            (Lookup { found: found.0@, source: found.1, left: final(variable_path)@ })
                == looked_up(scopes_view(storages@), old(variable_path)@),
    {
        if variable_path.is_empty() {
            return (StoredVariable::Missing, RequestSource::Global);
        }
        let ghost scopes = scopes_view(storages@);
        let mut i: usize = 0;
        assert(scopes.skip(0) == scopes);
        while i < storages.len()
            invariant
                i <= storages.len(),
                scopes == scopes_view(storages@),
                variable_path@ == old(variable_path)@,
                variable_path@.len() > 0,
                looked_up(scopes, variable_path@) == looked_up(
                    scopes.skip(i as int),
                    variable_path@,
                ),
            decreases storages.len() - i,
        {
            assert(scopes.skip(i as int)[0] == scopes[i as int]);
            assert(scopes.skip(i as int).drop_first() == scopes.skip(i + 1));
            if storages[i].0.contains(variable_path.index(0)) {
                let found = storages[i].0.resolve(variable_path);
                return (found, storages[i].1);
            }
            i += 1;
        }
        (StoredVariable::Missing, RequestSource::Global)
    }

    /// The scopes that a lookup with `request_source` sees in `context`.
    pub fn storages_for<'a>(
        global: &'a ProcessingContext,
        context: &'a ProcessingContext,
        request_source: &RequestSource,
    ) -> (storages: Vec<(&'a VariableStore, RequestSource)>)
        ensures
            scopes_view(storages@) == scopes_for(global@, context@, *request_source),
    {
        let mut storages: Vec<(&'a VariableStore, RequestSource)> = Vec::new();
        match request_source {
            RequestSource::Template(iteration_count) => {
                let ghost rows = stores_view(context.injection@);
                let count: usize = if *iteration_count < context.injection.len() {
                    *iteration_count + 1
                } else {
                    context.injection.len()
                };
                let mut next: usize = count;
                while next > 0
                    invariant
                        next <= count <= context.injection.len(),
                        rows == stores_view(context.injection@),
                        rows.len() == context.injection.len(),
                        storages.len() == count - next,
                        forall|k: int|
                            0 <= k < storages.len() ==> ((*(#[trigger] storages@[k]).0)@, storages@[k].1)
                                == (rows[count - 1 - k], RequestSource::Injection),
                    decreases next,
                {
                    next -= 1;
                    assert(rows[next as int] == context.injection@[next as int]@);
                    storages.push((&context.injection[next], RequestSource::Injection));
                }
                assert(scopes_view(storages@) =~= row_scopes(rows, *iteration_count as nat));
                proof {
                    injection_view(context);
                }
            },
            RequestSource::Injection | RequestSource::Local => {
                storages.push((&context.local, RequestSource::Local));
                storages.push((&global.local, RequestSource::Global));
                assert(scopes_view(storages@) =~= scopes_for(global@, context@, *request_source));
            },
            RequestSource::Global => {
                storages.push((&global.local, RequestSource::Global));
                assert(scopes_view(storages@) =~= scopes_for(global@, context@, *request_source));
            },
            RequestSource::CallingContext => {
                storages.push((&context.local, RequestSource::Local));
                assert(scopes_view(storages@) =~= scopes_for(global@, context@, *request_source));
            },
        }
        storages
    }
}

/// The depth that a run starts with: the number of aliases, arguments and
/// documents that may be nested in one another.
pub const RESOLUTION_DEPTH: usize = 256;

/// The error for a file that could not be read.
pub fn failed_reading(input_file: String, interruption: Interruption) -> (error: ValueRenderError)
    ensures
        error@ == read_failure(input_file@, interruption@),
{
    match interruption {
        Interruption::Suspended => ValueRenderError::Suspended,
        Interruption::Failed(reason) => ValueRenderError::FailedReadingText { input_file, reason },
    }
}

impl GlitterProcessor {
    /// The directory of the file `path`.
    pub fn extract_parent_directory(path: &str) -> (directory: Result<String, ValueRenderError>)
        ensures
            match directory {
                Ok(directory) => path_parent(path@) == Some(directory@),
                Err(error) => path_parent(path@) is None
                    && error@ == ValueRenderErrorView::FailedAccessingFilesystem,
            },
    {
        match parent_of(path) {
            Some(directory) => Ok(directory),
            None => Err(ValueRenderError::FailedAccessingFilesystem),
        }
    }

    /// The context whose directory the file names of an instruction of
    /// `current_context` are relative to.
    pub fn anchor(&self, request_source: &RequestSource, current_context: &Rc<ProcessingContext>) -> (anchored:
        Rc<ProcessingContext>)
        ensures
            (*anchored)@ == anchor(self@, *request_source, (**current_context)@),
    {
        if *request_source == RequestSource::Global {
            share(&self.global)
        } else {
            share(current_context)
        }
    }

    /// The file name that an instruction of `current_context` means by
    /// `filename`.
    pub fn resolve_filename(
        &self,
        filename: &str,
        request_source: &RequestSource,
        current_context: &Rc<ProcessingContext>,
    ) -> (full: String)
        ensures
            full@ == resolved_filename(self@, filename@, *request_source, (**current_context)@),
    {
        if *request_source == RequestSource::Global {
            self.global.resolve_filename(filename)
        } else {
            current_context.resolve_filename(filename)
        }
    }

    /// The engine of the document in the file `full_file_path`.
    pub fn sub_processor_for(
        &self,
        full_file_path: String,
        parameter: VariableDefinitionBlock,
        source_context: Rc<ProcessingContext>,
        journal: &mut Journal,
    ) -> (processor: Result<GlitterProcessor, ValueRenderError>)
        ensures
            (Resolved { result: result_view(processor), journal: final(journal)@ })
                == sub_processor(
                self@,
                full_file_path@,
                parameter@,
                (*source_context)@,
                old(journal)@,
            ),
    {
        let filename = match file_name_of(full_file_path.as_str()) {
            Some(name) => name,
            None => return Err(ValueRenderError::FailedAccessingFilesystem),
        };
        let directory = match parent_of(full_file_path.as_str()) {
            Some(directory) => directory,
            None => return Err(ValueRenderError::FailedAccessingFilesystem),
        };
        let input = match journal.ask_text(full_file_path.clone()) {
            Ok(input) => input,
            Err(interruption) => return Err(failed_reading(full_file_path, interruption)),
        };
        let config_reader = ConfigReader::new();
        let config = match config_reader.read(input.as_str()) {
            Ok(config) => config,
            Err(error) => return Err(
                ValueRenderError::InvalidSubRenderConfig {
                    input_file: full_file_path,
                    source: Box::new(error),
                },
            ),
        };
        Ok(self.subprocessor(filename, directory, config, parameter, source_context))
    }

    /// The context of the definitions that the file `full_file_path` holds
    /// as plain YAML.
    pub fn import_yaml(&self, full_file_path: String, journal: &mut Journal) -> (context: Result<
        Rc<ProcessingContext>,
        ValueRenderError,
    >)
        ensures
            (Resolved { result: result_view(context), journal: final(journal)@ })
                == imported_context(full_file_path@, old(journal)@),
    {
        let directory = match Self::extract_parent_directory(full_file_path.as_str()) {
            Ok(directory) => directory,
            Err(error) => return Err(error),
        };
        let input = match journal.ask_text(full_file_path.clone()) {
            Ok(input) => input,
            Err(interruption) => return Err(failed_reading(full_file_path, interruption)),
        };
        let imported_vals = match YamlImporter::new().read(input.as_str()) {
            Ok(definitions) => definitions,
            Err(error) => return Err(
                ValueRenderError::ImportCommandFailed {
                    input_file: full_file_path,
                    source: Box::new(error),
                },
            ),
        };
        Ok(Rc::new(ProcessingContext::local_standalone(directory, imported_vals)))
    }

    /// The context of the definitions that the file `full_file_path` holds,
    /// with the parameters of the load.
    pub fn load(
        &self,
        full_file_path: String,
        parameter: VariableDefinitionBlock,
        source_context: Rc<ProcessingContext>,
        journal: &mut Journal,
    ) -> (context: Result<Rc<ProcessingContext>, ValueRenderError>)
        ensures
            (Resolved { result: result_view(context), journal: final(journal)@ })
                == loaded_context(
                full_file_path@,
                parameter@,
                (*source_context)@,
                old(journal)@,
            ),
    {
        let directory = match Self::extract_parent_directory(full_file_path.as_str()) {
            Ok(directory) => directory,
            Err(error) => return Err(error),
        };
        let input = match journal.ask_text(full_file_path.clone()) {
            Ok(input) => input,
            Err(interruption) => return Err(failed_reading(full_file_path, interruption)),
        };
        let loaded_vals = match ConfigReader::new().load(input.as_str()) {
            Ok(definitions) => definitions,
            Err(error) => return Err(
                ValueRenderError::LoadCommandFailed {
                    input_file: full_file_path,
                    source: Box::new(error),
                },
            ),
        };
        Ok(
            Rc::new(
                ProcessingContext::local_subcontext(
                    directory,
                    loaded_vals,
                    parameter,
                    source_context,
                ),
            ),
        )
    }

    /// The value of a definition that stands in place, as an argument of a
    /// command does; `variable_path` is its name in errors.
    pub fn convert_definition(
        &self,
        definition: &ValueDefinition,
        context: Rc<ProcessingContext>,
        request_source: RequestSource,
        variable_path: String,
        journal: &mut Journal,
        depth: usize,
    ) -> (value: Result<RenderableVariable, ValueRenderError>)
        ensures
            (Resolved { result: result_view(value), journal: final(journal)@ })
                == converted_definition(
                self@,
                definition@,
                (*context)@,
                request_source,
                variable_path@,
                old(journal)@,
                depth as nat,
            ),
        decreases depth, 2nat, 0nat,
    {
        if depth == 0 {
            return Err(ValueRenderError::DepthExceeded);
        }
        let mut empty_path = ValuePath(Vec::new());
        assert(empty_path@ =~= Seq::empty());
        let var = StoredVariable::from(definition, &mut empty_path);
        let ghost name = variable_path@;
        match self.process_variable(var, &context, request_source, journal, depth - 1) {
            Err(error) => {
                let var_resolution_path = vec![variable_path];
                assert(texts(var_resolution_path@) =~= seq![name]);
                Err(
                    ValueRenderError::FailedProcessingVariable {
                        var_resolution_path,
                        source: Box::new(error),
                    },
                )
            },
            Ok(NextVarProcessingInstruction::ReportMissing) => {
                let var_resolution_path = vec![variable_path];
                assert(texts(var_resolution_path@) =~= seq![name]);
                Err(ValueRenderError::FailedResolvingVariable { var_resolution_path })
            },
            Ok(NextVarProcessingInstruction::ReturnValue(value)) => Ok(value),
            Ok(
                NextVarProcessingInstruction::ContinueElsewhere(
                    _,
                    new_variable_path,
                    new_request_source,
                ),
            ) => self.resolve_var(new_variable_path, new_request_source, journal, depth - 1),
        }
    }

    /// What to do with what a store has found.
    pub fn process_variable(
        &self,
        variable: StoredVariable,
        context: &Rc<ProcessingContext>,
        request_source: RequestSource,
        journal: &mut Journal,
        depth: usize,
    ) -> (next: Result<NextVarProcessingInstruction, ValueRenderError>)
        ensures
            (Resolved { result: result_view(next), journal: final(journal)@ }) == processed(
                self@,
                variable@,
                (**context)@,
                request_source,
                old(journal)@,
                depth as nat,
            ),
        decreases depth, 4nat, 0nat,
    {
        match variable {
            StoredVariable::Missing => Ok(NextVarProcessingInstruction::ReportMissing),
            StoredVariable::Value(actual_value) => Ok(
                NextVarProcessingInstruction::ReturnValue(
                    RenderableVariable::RawValue(RenderableRawValue::from(actual_value)),
                ),
            ),
            StoredVariable::LocalReference(new_path) => Ok(
                NextVarProcessingInstruction::ContinueElsewhere(None, new_path, request_source),
            ),
            StoredVariable::DistantReference(new_path, new_context) => Ok(
                NextVarProcessingInstruction::ContinueElsewhere(
                    Some(new_context),
                    new_path,
                    request_source,
                ),
            ),
            StoredVariable::Instruction(instruction, new_path) => match instruction {
                ProcessingInstruction::Quote(file) => Ok(
                    NextVarProcessingInstruction::ReturnValue(
                        RenderableVariable::Quote(
                            RenderableQuote::from(file, self.anchor(&request_source, context)),
                        ),
                    ),
                ),
                ProcessingInstruction::Import(file) => {
                    let full = self.resolve_filename(file.as_str(), &request_source, context);
                    match self.import_yaml(full, journal) {
                        Ok(import_context) => Ok(
                            NextVarProcessingInstruction::ContinueElsewhere(
                                Some(import_context),
                                new_path,
                                RequestSource::CallingContext,
                            ),
                        ),
                        Err(error) => Err(error),
                    }
                },
                ProcessingInstruction::Load(file, parameter) => {
                    let full = self.resolve_filename(file.as_str(), &request_source, context);
                    match self.load(full, parameter, share(context), journal) {
                        Ok(load_context) => Ok(
                            NextVarProcessingInstruction::ContinueElsewhere(
                                Some(load_context),
                                new_path,
                                RequestSource::CallingContext,
                            ),
                        ),
                        Err(error) => Err(error),
                    }
                },
                ProcessingInstruction::Render(file, parameter) => {
                    let full = self.resolve_filename(file.as_str(), &request_source, context);
                    match self.sub_processor_for(full, parameter, share(context), journal) {
                        Ok(subprocessor) => Ok(
                            NextVarProcessingInstruction::ReturnValue(
                                RenderableVariable::SubRender(SubRender::from(subprocessor)),
                            ),
                        ),
                        Err(error) => Err(error),
                    }
                },
                ProcessingInstruction::Execute(executable, arguments) => {
                    match self.evaluate_arguments(&arguments, context, request_source, journal, depth) {
                        Ok(rendered_argument_list) => Ok(
                            NextVarProcessingInstruction::ReturnValue(
                                RenderableVariable::ExecutionResult(
                                    RenderableExecutionResult::from(
                                        executable,
                                        rendered_argument_list,
                                        self.anchor(&request_source, context),
                                    ),
                                ),
                            ),
                        ),
                        Err(error) => Err(error),
                    }
                },
            },
        }
    }

    /// The scalar of the argument at `index` of a command.
    pub fn evaluate_argument(
        &self,
        arguments: &Vec<ValueDefinition>,
        index: usize,
        context: &Rc<ProcessingContext>,
        request_source: RequestSource,
        journal: &mut Journal,
        depth: usize,
    ) -> (scalar: Result<RawValue, ValueRenderError>)
        requires
            index < arguments.len(),
        ensures
            (Resolved { result: result_view(scalar), journal: final(journal)@ })
                == evaluated_argument(
                self@,
                arguments@[index as int]@,
                index as nat,
                (**context)@,
                request_source,
                old(journal)@,
                depth as nat,
            ),
        decreases depth, 3nat, 0nat,
    {
        proof {
            reveal_strlit("[");
            reveal_strlit("]");
        }
        let mut name = "[".to_owned();
        name.append(natural_text(index as u64).as_str());
        name.append("]");
        assert(name@ =~= place_name(index as nat));
        match self.convert_definition(
            &arguments[index],
            share(context),
            request_source,
            name,
            journal,
            depth,
        ) {
            Ok(renderable) => renderable.calculate(journal),
            Err(error) => Err(error),
        }
    }

    /// The scalars of the arguments of a command. Every argument is
    /// evaluated, in order; the first error is the one that is returned.
    pub fn evaluate_arguments(
        &self,
        arguments: &Vec<ValueDefinition>,
        context: &Rc<ProcessingContext>,
        request_source: RequestSource,
        journal: &mut Journal,
        depth: usize,
    ) -> (scalars: Result<Vec<RawValue>, ValueRenderError>)
        ensures
            (Resolved {
                result: match scalars {
                    Ok(values) => Ok(scalars_view(values@)),
                    Err(error) => Err(error@),
                },
                journal: final(journal)@,
            }) == evaluated_arguments(
                self@,
                list_view(arguments@),
                arguments.len() as nat,
                (**context)@,
                request_source,
                old(journal)@,
                depth as nat,
            ),
        decreases depth, 3nat, 1nat,
    {
        let ghost given = list_view(arguments@);
        let mut rendered_argument_list: Vec<RawValue> = Vec::new();
        let mut first_error: Option<ValueRenderError> = None;
        let mut index: usize = 0;
        assert(scalars_view(rendered_argument_list@) =~= Seq::empty());
        while index < arguments.len()
            invariant
                index <= arguments.len(),
                given == list_view(arguments@),
                evaluated_arguments(
                    self@,
                    given,
                    index as nat,
                    (**context)@,
                    request_source,
                    old(journal)@,
                    depth as nat,
                ) == (Resolved {
                    result: match first_error {
                        Some(error) => Err::<Seq<ScalarView>, ValueRenderErrorView>(error@),
                        None => Ok(scalars_view(rendered_argument_list@)),
                    },
                    journal: journal@,
                }),
            decreases arguments.len() - index,
        {
            assert(given[index as int] == arguments@[index as int]@);
            let ghost values = scalars_view(rendered_argument_list@);
            let evaluated = self.evaluate_argument(
                arguments,
                index,
                context,
                request_source,
                journal,
                depth,
            );
            match evaluated {
                Ok(value) => {
                    if first_error.is_none() {
                        rendered_argument_list.push(value);
                        assert(scalars_view(rendered_argument_list@) == values.push(value@));
                    }
                },
                Err(error) => {
                    if first_error.is_none() {
                        first_error = Some(error);
                    }
                },
            }
            index += 1;
        }
        match first_error {
            Some(error) => Err(error),
            None => Ok(rendered_argument_list),
        }
    }

    /// The value that `variable_path` resolves to from the root context.
    pub fn resolve_var(
        &self,
        variable_path: ValuePath,
        request_source: RequestSource,
        journal: &mut Journal,
        depth: usize,
    ) -> (value: Result<RenderableVariable, ValueRenderError>)
        ensures
            (Resolved { result: result_view(value), journal: final(journal)@ }) == resolved(
                self@,
                self@.root,
                variable_path@,
                request_source,
                Seq::empty(),
                old(journal)@,
                depth as nat,
            ),
        decreases depth, 1nat, 0nat,
    {
        let ghost wanted = resolved(
            self@,
            self@.root,
            variable_path@,
            request_source,
            Seq::empty(),
            old(journal)@,
            depth as nat,
        );
        let mut current_path = variable_path;
        let mut current_source = request_source;
        let mut context = share(&self.root);
        let mut path_history: Vec<String> = Vec::new();
        let mut left: usize = depth;
        assert(texts(path_history@) =~= Seq::empty());
        while left > 0
            invariant
                left <= depth,
                wanted == resolved(
                    self@,
                    self@.root,
                    variable_path@,
                    request_source,
                    Seq::empty(),
                    old(journal)@,
                    depth as nat,
                ),
                wanted == resolved(
                    self@,
                    (*context)@,
                    current_path@,
                    current_source,
                    texts(path_history@),
                    journal@,
                    left as nat,
                ),
            decreases left,
        {
            let current_variable_path = current_path.render();
            let ghost trail = texts(path_history@);
            path_history.push(current_variable_path);
            assert(texts(path_history@) == trail.push(join(current_path@, seq!['.'])));
            let ghost path = current_path@;
            let ghost visited = texts(path_history@);
            let ghost before = journal@;
            let storages = Self::storages_for(&self.global, &context, &current_source);
            let (result, next_request_source) = Self::read_variable(&storages, &mut current_path);
            left -= 1;
            let step = self.process_variable(result, &context, next_request_source, journal, left);
            proof {
                let lookup = looked_up(scopes_for(self@.global, (*context)@, current_source), path);
                let made = processed(
                    self@,
                    lookup.found,
                    (*context)@,
                    lookup.source,
                    before,
                    left as nat,
                );
                assert(made == (Resolved { result: result_view(step), journal: journal@ }));
                assert(wanted == match made.result {
                    Err(error) => Resolved {
                        result: Err(
                            ValueRenderErrorView::FailedProcessingVariable {
                                var_resolution_path: visited,
                                source: Box::new(error),
                            },
                        ),
                        journal: made.journal,
                    },
                    Ok(NextView::ReportMissing) => Resolved {
                        result: Err(
                            ValueRenderErrorView::FailedResolvingVariable {
                                var_resolution_path: visited,
                            },
                        ),
                        journal: made.journal,
                    },
                    Ok(NextView::ReturnValue(value)) => Resolved {
                        result: Ok(value),
                        journal: made.journal,
                    },
                    Ok(NextView::ContinueElsewhere(target, next_path, next_source)) => resolved(
                        self@,
                        match target {
                            Some(target) => target,
                            None => (*context)@,
                        },
                        next_path,
                        next_source,
                        visited,
                        made.journal,
                        left as nat,
                    ),
                });
            }
            match step {
                Err(error) => {
                    return Err(
                        ValueRenderError::FailedProcessingVariable {
                            var_resolution_path: path_history,
                            source: Box::new(error),
                        },
                    );
                },
                Ok(NextVarProcessingInstruction::ReportMissing) => {
                    return Err(
                        ValueRenderError::FailedResolvingVariable {
                            var_resolution_path: path_history,
                        },
                    );
                },
                Ok(NextVarProcessingInstruction::ReturnValue(value)) => {
                    return Ok(value);
                },
                Ok(
                    NextVarProcessingInstruction::ContinueElsewhere(
                        new_context_option,
                        new_variable_path,
                        new_request_source,
                    ),
                ) => {
                    if let Some(new_context) = new_context_option {
                        context = new_context;
                    }
                    current_path = new_variable_path;
                    current_source = new_request_source;
                },
            }
        }
        Err(ValueRenderError::DepthExceeded)
    }

    /// Resolves the placeholder `variable_path` of the template while the
    /// row `iteration_count` is rendered, and renders its value.
    pub fn render_value(
        &self,
        variable_path: &str,
        iteration_count: usize,
        output: &mut TemplateRenderer,
        journal: &mut Journal,
        depth: usize,
    ) -> (done: Result<(), ValueRenderError>)
        ensures
            final(output).config == old(output).config,
            ({
                let rendered = value_rendered(
                    old(output).config,
                    self@,
                    variable_path@,
                    iteration_count,
                    old(journal)@,
                    depth as nat,
                );
                &&& crate::rendering::var_rendering::unit_view(done) == rendered.result
                &&& final(journal)@ == rendered.journal
                &&& final(output).output@ == old(output).output@ + rendered.output
            }),
        decreases depth, 6nat, 0nat,
    {
        let vp = ValuePath(split_text(variable_path, '.'));
        match self.resolve_var(vp, RequestSource::Template(iteration_count), journal, depth) {
            Ok(value) => value.render(output, journal, depth),
            Err(error) => {
                assert(output.output@ + Seq::<char>::empty() =~= output.output@);
                Err(error)
            },
        }
    }

    /// Renders the document: its template, with one row for each injection
    /// row.
    pub fn render(&self, renderer: &mut TemplateRenderer, journal: &mut Journal, depth: usize) -> (done:
        Result<(), TemplateRenderError>)
        ensures
            final(renderer).config == old(renderer).config,
            ({
                let rendered = processor_rendered(
                    old(renderer).config,
                    self@,
                    old(journal)@,
                    depth as nat,
                );
                &&& crate::rendering::template_rendering::template_unit_view(done)
                    == rendered.result
                &&& final(journal)@ == rendered.journal
                &&& final(renderer).output@ == old(renderer).output@ + rendered.output
            }),
        decreases depth, 11nat, 0nat,
    {
        let injection_count = self.root.injection.len();
        proof {
            injection_view(&*self.root);
        }
        if let Some(template) = &self.root.template {
            renderer.render(template, injection_count, share(&self.root), self, journal, depth)
        } else {
            assert(renderer.output@ + Seq::<char>::empty() =~= renderer.output@);
            Ok(())
        }
    }

    /// Renders the document with `renderer` and returns what was written,
    /// whether rendering went well or not.
    pub fn run(self, renderer: TemplateRenderer, journal: &mut Journal) -> (outcome: (
        Result<(), TemplateRenderError>,
        String,
    ))
        ensures
            ({
                let rendered = processor_rendered(
                    renderer.config,
                    self@,
                    old(journal)@,
                    RESOLUTION_DEPTH as nat,
                );
                &&& crate::rendering::template_rendering::template_unit_view(outcome.0)
                    == rendered.result
                &&& final(journal)@ == rendered.journal
                &&& outcome.1@ == renderer.output@ + rendered.output
            }),
    {
        let mut renderer = renderer;
        let done = self.render(&mut renderer, journal, RESOLUTION_DEPTH);
        (done, renderer.into_output())
    }
}

} // verus!
