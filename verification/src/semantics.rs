//! What resolution and rendering yield: functions of the document, of the
//! answers that the outside has given, and of the depth that is left.
//! The functions of the library that resolve and render are held to these.

use crate::config::model::{
    BlockView, DefinitionView, ScalarView, TemplateValueView, TemplateView,
};
use crate::config::reader::{config_of_text, load_of_text, place_name};
use crate::config::yaml_import::imported_of_text;
use crate::processing::context::{joined_path, path_file_name, path_parent, ContextView};
use crate::processing::journal::{InterruptionView, JournalView, RequestView};
use crate::processing::processor::{
    document_context, looked_up, scopes_for, NextView, ProcessorView, RequestSource,
};
use crate::processing::var_store::{found_in_definition, InstructionView, StoreView, StoredView};
use crate::rendering::template_rendering::{
    enclosed_var_path, statement_at, trailing_var_path, TemplateRendererConfig,
};
use crate::rendering::var_rendering::RenderableView;
use crate::rendering::{ProcessingStatement, TemplateRenderErrorView, ValueRenderErrorView};
use crate::text::{first_at_or_after, join, split};
use vstd::prelude::*;
use vstd::utf8::{decode_utf8, valid_utf8};

verus! {

/// The outcome of a step of resolution, and the journal after it.
pub struct Resolved<T> {
    pub result: Result<T, ValueRenderErrorView>,
    pub journal: JournalView,
}

/// The outcome of rendering: whether it went well, the journal after it, and
/// the text that was written, which is kept where rendering fails.
pub struct Rendered<E> {
    pub result: Result<(), E>,
    pub journal: JournalView,
    pub output: Seq<char>,
}

impl<E> Rendered<E> {
    /// The same outcome after `text` has been written.
    pub open spec fn after(self, text: Seq<char>) -> Rendered<E> {
        Rendered { output: text + self.output, ..self }
    }
}

/// The error for a file that could not be read.
pub open spec fn read_failure(file: Seq<char>, interruption: InterruptionView) -> ValueRenderErrorView {
    match interruption {
        InterruptionView::Suspended => ValueRenderErrorView::Suspended,
        InterruptionView::Failed(reason) => ValueRenderErrorView::FailedReadingText {
            input_file: file,
            reason,
        },
    }
}

/// The context whose directory the file names of an instruction are
/// relative to: the global context where the instruction was found in the
/// global scope, and the current context otherwise. What the global scope
/// names stays anchored to the directory of the first document, however
/// deep the request comes from.
pub open spec fn anchor(engine: ProcessorView, source: RequestSource, context: ContextView) -> ContextView {
    if source == RequestSource::Global {
        engine.global
    } else {
        context
    }
}

/// The file name that an instruction means by `file`.
pub open spec fn resolved_filename(
    engine: ProcessorView,
    file: Seq<char>,
    source: RequestSource,
    context: ContextView,
) -> Seq<char> {
    joined_path(anchor(engine, source, context).directory, file)
}

/// The context that an imported file gives: its definitions, in the
/// directory of the file.
pub open spec fn imported_context(file: Seq<char>, journal: JournalView) -> Resolved<ContextView> {
    match path_parent(file) {
        None => Resolved { result: Err(ValueRenderErrorView::FailedAccessingFilesystem), journal },
        Some(directory) => {
            let asked = journal.ask_text(file);
            Resolved {
                result: match asked.result {
                    Err(interruption) => Err(read_failure(file, interruption)),
                    Ok(text) => match imported_of_text(text) {
                        Err(error) => Err(
                            ValueRenderErrorView::ImportCommandFailed {
                                input_file: file,
                                source: error,
                            },
                        ),
                        Ok(definitions) => Ok(
                            ContextView {
                                directory,
                                local: StoreView {
                                    inner: definitions,
                                    parameter: Map::empty(),
                                    source: None,
                                },
                                injection: Seq::empty(),
                                template: None,
                            },
                        ),
                    },
                },
                journal: asked.journal,
            }
        },
    }
}

/// The context that a loaded file gives: its definitions, in the directory
/// of the file, with the parameters of the load, which belong to the context
/// that loads.
pub open spec fn loaded_context(
    file: Seq<char>,
    parameter: BlockView,
    source_context: ContextView,
    journal: JournalView,
) -> Resolved<ContextView> {
    match path_parent(file) {
        None => Resolved { result: Err(ValueRenderErrorView::FailedAccessingFilesystem), journal },
        Some(directory) => {
            let asked = journal.ask_text(file);
            Resolved {
                result: match asked.result {
                    Err(interruption) => Err(read_failure(file, interruption)),
                    Ok(text) => match load_of_text(text) {
                        Err(error) => Err(
                            ValueRenderErrorView::LoadCommandFailed {
                                input_file: file,
                                source: error,
                            },
                        ),
                        Ok(definitions) => Ok(
                            ContextView {
                                directory,
                                local: StoreView {
                                    inner: definitions,
                                    parameter,
                                    source: Some(Box::new(source_context)),
                                },
                                injection: Seq::empty(),
                                template: None,
                            },
                        ),
                    },
                },
                journal: asked.journal,
            }
        },
    }
}

/// The engine of the document in `file`, which `engine` renders as a value.
pub open spec fn sub_processor(
    engine: ProcessorView,
    file: Seq<char>,
    parameter: BlockView,
    source_context: ContextView,
    journal: JournalView,
) -> Resolved<ProcessorView> {
    match (path_file_name(file), path_parent(file)) {
        (Some(filename), Some(directory)) => {
            let asked = journal.ask_text(file);
            Resolved {
                result: match asked.result {
                    Err(interruption) => Err(read_failure(file, interruption)),
                    Ok(text) => match config_of_text(text) {
                        Err(error) => Err(
                            ValueRenderErrorView::InvalidSubRenderConfig {
                                input_file: file,
                                source: error,
                            },
                        ),
                        Ok(config) => Ok(
                            ProcessorView {
                                global: engine.global,
                                root: document_context(
                                    filename,
                                    directory,
                                    config,
                                    parameter,
                                    Some(Box::new(source_context)),
                                ),
                            },
                        ),
                    },
                },
                journal: asked.journal,
            }
        },
        _ => Resolved { result: Err(ValueRenderErrorView::FailedAccessingFilesystem), journal },
    }
}

/// The texts of scalars.
pub open spec fn scalar_texts(values: Seq<ScalarView>) -> Seq<Seq<char>> {
    values.map_values(|value: ScalarView| value.text())
}

/// The scalar that a value reduces to. A scalar is itself; a quote is the
/// text of its file; the result of a command is what the command writes; a
/// document never reduces to a scalar.
pub open spec fn calculated(value: RenderableView, journal: JournalView) -> Resolved<ScalarView> {
    match value {
        RenderableView::RawValue(scalar) => Resolved { result: Ok(scalar), journal },
        RenderableView::Quote { file, context } => {
            let name = joined_path(context.directory, file);
            let asked = journal.ask_text(name);
            Resolved {
                result: match asked.result {
                    Ok(text) => Ok(ScalarView::Text(text)),
                    Err(interruption) => Err(read_failure(name, interruption)),
                },
                journal: asked.journal,
            }
        },
        RenderableView::ExecutionResult { executable, arguments, context } => {
            let asked = journal.ask(
                RequestView::Execute {
                    program: joined_path(context.directory, executable),
                    arguments: scalar_texts(arguments),
                },
            );
            Resolved {
                result: match asked.result {
                    Ok(bytes) => if valid_utf8(bytes) {
                        Ok(ScalarView::Text(decode_utf8(bytes)))
                    } else {
                        Err(ValueRenderErrorView::ExecuteResultInvalid)
                    },
                    Err(InterruptionView::Suspended) => Err(ValueRenderErrorView::Suspended),
                    Err(InterruptionView::Failed(reason)) => Err(
                        ValueRenderErrorView::ExecuteCommandFailed { reason },
                    ),
                },
                journal: asked.journal,
            }
        },
        RenderableView::SubRender(_) => Resolved {
            result: Err(ValueRenderErrorView::InvalidCalculateCall),
            journal,
        },
    }
}

/// What to do with what a store has found. Nothing found is reported; a
/// scalar is the value; an alias goes on elsewhere with the request source
/// of the scope that held it; a quote is the value; an import or a load goes
/// on with the rest of the path in the context of the file, as a request
/// from another context; a render is the value once the document is read; an
/// execute is the value once its arguments are evaluated. The file of a
/// quote and the program of an execute are relative to the anchor of the
/// request.
pub open spec fn processed(
    engine: ProcessorView,
    variable: StoredView,
    context: ContextView,
    source: RequestSource,
    journal: JournalView,
    depth: nat,
) -> Resolved<NextView>
    decreases depth, 4nat, 0nat,
{
    match variable {
        StoredView::Missing => Resolved { result: Ok(NextView::ReportMissing), journal },
        StoredView::Value(scalar) => Resolved {
            result: Ok(NextView::ReturnValue(RenderableView::RawValue(scalar))),
            journal,
        },
        StoredView::LocalReference(path) => Resolved {
            result: Ok(NextView::ContinueElsewhere(None, path, source)),
            journal,
        },
        StoredView::DistantReference(path, distant) => Resolved {
            result: Ok(NextView::ContinueElsewhere(Some(distant), path, source)),
            journal,
        },
        StoredView::Instruction(InstructionView::Quote(file), _) => Resolved {
            result: Ok(
                NextView::ReturnValue(
                    RenderableView::Quote { file, context: anchor(engine, source, context) },
                ),
            ),
            journal,
        },
        StoredView::Instruction(InstructionView::Import(file), rest) => {
            let imported = imported_context(
                resolved_filename(engine, file, source, context),
                journal,
            );
            Resolved {
                result: match imported.result {
                    Ok(target) => Ok(
                        NextView::ContinueElsewhere(
                            Some(target),
                            rest,
                            RequestSource::CallingContext,
                        ),
                    ),
                    Err(error) => Err(error),
                },
                journal: imported.journal,
            }
        },
        StoredView::Instruction(InstructionView::Load { file, parameter }, rest) => {
            let loaded = loaded_context(
                resolved_filename(engine, file, source, context),
                parameter,
                context,
                journal,
            );
            Resolved {
                result: match loaded.result {
                    Ok(target) => Ok(
                        NextView::ContinueElsewhere(
                            Some(target),
                            rest,
                            RequestSource::CallingContext,
                        ),
                    ),
                    Err(error) => Err(error),
                },
                journal: loaded.journal,
            }
        },
        StoredView::Instruction(InstructionView::Render { file, parameter }, _) => {
            let made = sub_processor(
                engine,
                resolved_filename(engine, file, source, context),
                parameter,
                context,
                journal,
            );
            Resolved {
                result: match made.result {
                    Ok(processor) => Ok(
                        NextView::ReturnValue(RenderableView::SubRender(processor)),
                    ),
                    Err(error) => Err(error),
                },
                journal: made.journal,
            }
        },
        StoredView::Instruction(InstructionView::Execute { executable, arguments }, _) => {
            let evaluated = evaluated_arguments(
                engine,
                arguments,
                arguments.len(),
                context,
                source,
                journal,
                depth,
            );
            Resolved {
                result: match evaluated.result {
                    Ok(values) => Ok(
                        NextView::ReturnValue(
                            RenderableView::ExecutionResult {
                                executable,
                                arguments: values,
                                context: anchor(engine, source, context),
                            },
                        ),
                    ),
                    Err(error) => Err(error),
                },
                journal: evaluated.journal,
            }
        },
    }
}

/// The scalar of the argument at place `at` of a command: the value of the
/// definition, reduced to a scalar.
pub open spec fn evaluated_argument(
    engine: ProcessorView,
    definition: DefinitionView,
    at: nat,
    context: ContextView,
    source: RequestSource,
    journal: JournalView,
    depth: nat,
) -> Resolved<ScalarView>
    decreases depth, 3nat, 0nat,
{
    let converted = converted_definition(
        engine,
        definition,
        context,
        source,
        place_name(at),
        journal,
        depth,
    );
    match converted.result {
        Err(error) => Resolved { result: Err(error), journal: converted.journal },
        Ok(value) => calculated(value, converted.journal),
    }
}

/// The scalars of the first `count` arguments of a command. Every argument
/// is evaluated, in order, whether an earlier one has failed or not; the
/// outcome is the scalars of all of them, or the error of the first that
/// failed.
pub open spec fn evaluated_arguments(
    engine: ProcessorView,
    arguments: Seq<DefinitionView>,
    count: nat,
    context: ContextView,
    source: RequestSource,
    journal: JournalView,
    depth: nat,
) -> Resolved<Seq<ScalarView>>
    decreases depth, 3nat, 1 + count,
{
    if count == 0 || count > arguments.len() {
        Resolved { result: Ok(Seq::empty()), journal }
    } else {
        let before = evaluated_arguments(
            engine,
            arguments,
            (count - 1) as nat,
            context,
            source,
            journal,
            depth,
        );
        let next = evaluated_argument(
            engine,
            arguments[count - 1],
            (count - 1) as nat,
            context,
            source,
            before.journal,
            depth,
        );
        Resolved {
            result: match (before.result, next.result) {
                (Err(error), _) => Err(error),
                (Ok(_), Err(error)) => Err(error),
                (Ok(values), Ok(scalar)) => Ok(values.push(scalar)),
            },
            journal: next.journal,
        }
    }
}

/// The value of a definition that stands in place, as an argument does.
/// Where the definition refers elsewhere, the path is resolved from the root
/// context of the engine.
pub open spec fn converted_definition(
    engine: ProcessorView,
    definition: DefinitionView,
    context: ContextView,
    source: RequestSource,
    name: Seq<char>,
    journal: JournalView,
    depth: nat,
) -> Resolved<RenderableView>
    decreases depth, 2nat, 0nat,
{
    if depth == 0 {
        Resolved { result: Err(ValueRenderErrorView::DepthExceeded), journal }
    } else {
        let step = processed(
            engine,
            found_in_definition(definition, Seq::empty()).0,
            context,
            source,
            journal,
            (depth - 1) as nat,
        );
        match step.result {
            Err(error) => Resolved {
                result: Err(
                    ValueRenderErrorView::FailedProcessingVariable {
                        var_resolution_path: seq![name],
                        source: Box::new(error),
                    },
                ),
                journal: step.journal,
            },
            Ok(NextView::ReportMissing) => Resolved {
                result: Err(
                    ValueRenderErrorView::FailedResolvingVariable {
                        var_resolution_path: seq![name],
                    },
                ),
                journal: step.journal,
            },
            Ok(NextView::ReturnValue(value)) => Resolved {
                result: Ok(value),
                journal: step.journal,
            },
            Ok(NextView::ContinueElsewhere(_, path, next)) => resolved(
                engine,
                engine.root,
                path,
                next,
                Seq::empty(),
                step.journal,
                (depth - 1) as nat,
            ),
        }
    }
}

/// The value that `path` resolves to from `context`. Each round adds the
/// path to the trail, looks the path up in the scopes of the request source
/// and does what the outcome asks for: it fails with the trail where nothing
/// is found, ends where a value is found, and goes on elsewhere otherwise.
/// Each round takes one of the depth that is left.
pub open spec fn resolved(
    engine: ProcessorView,
    context: ContextView,
    path: Seq<Seq<char>>,
    source: RequestSource,
    trail: Seq<Seq<char>>,
    journal: JournalView,
    depth: nat,
) -> Resolved<RenderableView>
    decreases depth, 1nat, 0nat,
{
    if depth == 0 {
        Resolved { result: Err(ValueRenderErrorView::DepthExceeded), journal }
    } else {
        let visited = trail.push(join(path, seq!['.']));
        let lookup = looked_up(scopes_for(engine.global, context, source), path);
        let step = processed(
            engine,
            lookup.found,
            context,
            lookup.source,
            journal,
            (depth - 1) as nat,
        );
        match step.result {
            Err(error) => Resolved {
                result: Err(
                    ValueRenderErrorView::FailedProcessingVariable {
                        var_resolution_path: visited,
                        source: Box::new(error),
                    },
                ),
                journal: step.journal,
            },
            Ok(NextView::ReportMissing) => Resolved {
                result: Err(
                    ValueRenderErrorView::FailedResolvingVariable { var_resolution_path: visited },
                ),
                journal: step.journal,
            },
            Ok(NextView::ReturnValue(value)) => Resolved {
                result: Ok(value),
                journal: step.journal,
            },
            Ok(NextView::ContinueElsewhere(target, next_path, next_source)) => resolved(
                engine,
                match target {
                    Some(target) => target,
                    None => context,
                },
                next_path,
                next_source,
                visited,
                step.journal,
                (depth - 1) as nat,
            ),
        }
    }
}

/// The position of the first line feed of `bytes` at or after `from`, or
/// the length of `bytes`.
pub open spec fn line_end(bytes: Seq<u8>, from: int) -> int
    decreases bytes.len() - from,
{
    if from >= bytes.len() {
        bytes.len() as int
    } else if bytes[from] == 10u8 {
        from
    } else {
        line_end(bytes, from + 1)
    }
}

/// The line `bytes[from..end]` without what ends it: where a line feed
/// follows it, a carriage return at its end belongs to the line ending.
pub open spec fn line_content(bytes: Seq<u8>, from: int, end: int) -> Seq<u8> {
    if end < bytes.len() && from < end && bytes[end - 1] == 13u8 {
        bytes.subrange(from, end - 1)
    } else {
        bytes.subrange(from, end)
    }
}

/// A file rendered line by line from position `from` on: every line is
/// written with a line feed after it, whether the file ends in one or not.
/// A line that is no UTF-8 ends the rendering with an error, after the lines
/// before it.
pub open spec fn rendered_lines(file: Seq<char>, bytes: Seq<u8>, from: int) -> (
    Result<(), ValueRenderErrorView>,
    Seq<char>,
)
    decreases bytes.len() - from,
{
    if from < 0 || from >= bytes.len() {
        (Ok(()), Seq::empty())
    } else {
        let end = line_end(bytes, from);
        let line = line_content(bytes, from, end);
        if !valid_utf8(line) {
            (
                Err(
                    ValueRenderErrorView::FailedReadingText {
                        input_file: file,
                        reason: "stream did not contain valid UTF-8"@,
                    },
                ),
                Seq::empty(),
            )
        } else {
            let rest = if from <= end < bytes.len() {
                rendered_lines(file, bytes, end + 1)
            } else {
                (Ok(()), Seq::empty())
            };
            (rest.0, decode_utf8(line) + seq!['\n'] + rest.1)
        }
    }
}

/// A value rendered. A scalar is written as its text; a quote line by line;
/// the result of a command as the command wrote it; a document by its own
/// engine, which takes one of the depth that is left.
pub open spec fn rendered_value(
    config: TemplateRendererConfig,
    value: RenderableView,
    journal: JournalView,
    depth: nat,
) -> Rendered<ValueRenderErrorView>
    decreases depth, 5nat, 0nat,
{
    match value {
        RenderableView::RawValue(scalar) => Rendered {
            result: Ok(()),
            journal,
            output: scalar.text(),
        },
        RenderableView::Quote { file, context } => {
            let name = joined_path(context.directory, file);
            let asked = journal.ask(RequestView::ReadFile { path: name });
            match asked.result {
                Err(interruption) => Rendered {
                    result: Err(read_failure(name, interruption)),
                    journal: asked.journal,
                    output: Seq::empty(),
                },
                Ok(bytes) => Rendered {
                    result: rendered_lines(name, bytes, 0).0,
                    journal: asked.journal,
                    output: rendered_lines(name, bytes, 0).1,
                },
            }
        },
        RenderableView::ExecutionResult { .. } => {
            let scalar = calculated(value, journal);
            match scalar.result {
                Err(error) => Rendered {
                    result: Err(error),
                    journal: scalar.journal,
                    output: Seq::empty(),
                },
                Ok(written) => Rendered {
                    result: Ok(()),
                    journal: scalar.journal,
                    output: written.text(),
                },
            }
        },
        RenderableView::SubRender(processor) => {
            if depth == 0 {
                Rendered {
                    result: Err(ValueRenderErrorView::DepthExceeded),
                    journal,
                    output: Seq::empty(),
                }
            } else {
                let inner = processor_rendered(config, processor, journal, (depth - 1) as nat);
                Rendered {
                    result: match inner.result {
                        Ok(()) => Ok(()),
                        Err(error) => Err(
                            ValueRenderErrorView::RenderCommandFailed { source: Box::new(error) },
                        ),
                    },
                    journal: inner.journal,
                    output: inner.output,
                }
            }
        },
    }
}

/// The value of the placeholder `path` rendered while row `row` is
/// rendered: the path is resolved as a request from the template, and the
/// value that it resolves to is rendered.
pub open spec fn value_rendered(
    config: TemplateRendererConfig,
    engine: ProcessorView,
    path: Seq<char>,
    row: usize,
    journal: JournalView,
    depth: nat,
) -> Rendered<ValueRenderErrorView>
    decreases depth, 6nat, 0nat,
{
    let found = resolved(
        engine,
        engine.root,
        split(path, '.'),
        RequestSource::Template(row),
        Seq::empty(),
        journal,
        depth,
    );
    match found.result {
        Err(error) => Rendered {
            result: Err(error),
            journal: found.journal,
            output: Seq::empty(),
        },
        Ok(value) => rendered_value(config, value, found.journal, depth),
    }
}

/// A placeholder rendered, and the scan of the text after it.
pub open spec fn placeholder_rendered(
    config: TemplateRendererConfig,
    engine: ProcessorView,
    text: Seq<char>,
    name: Result<(Seq<char>, usize), TemplateRenderErrorView>,
    next: int,
    row: usize,
    journal: JournalView,
    depth: nat,
    at: int,
) -> Rendered<TemplateRenderErrorView>
    decreases depth, 7nat, text.len() - at, 0nat,
{
    match name {
        Err(error) => Rendered { result: Err(error), journal, output: Seq::empty() },
        Ok((path, _)) => {
            let value = value_rendered(config, engine, path, row, journal, depth);
            match value.result {
                Err(error) => Rendered {
                    result: Err(
                        TemplateRenderErrorView::ValueRenderingFailed { source: Box::new(error) },
                    ),
                    journal: value.journal,
                    output: value.output,
                },
                Ok(()) => if at < next <= text.len() {
                    scanned(config, engine, text, next, row, value.journal, depth).after(
                        value.output,
                    )
                } else {
                    Rendered { result: Ok(()), journal: value.journal, output: value.output }
                },
            }
        },
    }
}

/// The text of a template section rendered from position `at` on, in one
/// pass from left to right. A marker followed by the start of a block
/// begins a block placeholder, which ends after the end of the block. A
/// marker followed by the line quote begins a line placeholder, which ends
/// before the end of the line. Every other character is written as it is.
pub open spec fn scanned(
    config: TemplateRendererConfig,
    engine: ProcessorView,
    text: Seq<char>,
    at: int,
    row: usize,
    journal: JournalView,
    depth: nat,
) -> Rendered<TemplateRenderErrorView>
    decreases depth, 7nat, text.len() - at, 1nat,
{
    if at < 0 || at >= text.len() {
        Rendered { result: Ok(()), journal, output: Seq::empty() }
    } else if text[at] == config.marker && statement_at(config, text, at)
        == ProcessingStatement::Block {
        placeholder_rendered(
            config,
            engine,
            text,
            enclosed_var_path(text, at + 2, config.end_block),
            first_at_or_after(text, config.end_block, at + 2) + 1,
            row,
            journal,
            depth,
            at,
        )
    } else if text[at] == config.marker && statement_at(config, text, at)
        == ProcessingStatement::LineQuote {
        placeholder_rendered(
            config,
            engine,
            text,
            trailing_var_path(text, at + 2),
            first_at_or_after(text, '\n', at + 2),
            row,
            journal,
            depth,
            at,
        )
    } else {
        scanned(config, engine, text, at + 1, row, journal, depth).after(seq![text[at]])
    }
}

/// The error for a template file that could not be read.
pub open spec fn template_failure(file: Seq<char>, interruption: InterruptionView) -> TemplateRenderErrorView {
    match interruption {
        InterruptionView::Suspended => TemplateRenderErrorView::Suspended,
        InterruptionView::Failed(reason) => TemplateRenderErrorView::InvalidTemplateFile {
            file_name: file,
            reason,
        },
    }
}

/// One section of a template rendered: its text is taken as it stands, or
/// read from the file that the section names, and scanned from its start.
pub open spec fn section_rendered(
    config: TemplateRendererConfig,
    engine: ProcessorView,
    section: TemplateValueView,
    row: usize,
    context: ContextView,
    journal: JournalView,
    depth: nat,
) -> Rendered<TemplateRenderErrorView>
    decreases depth, 8nat, 0nat,
{
    match section {
        TemplateValueView::RawValue(text) => scanned(config, engine, text, 0, row, journal, depth),
        TemplateValueView::Quote(file) => {
            let asked = journal.ask_text(joined_path(context.directory, file));
            match asked.result {
                Err(interruption) => Rendered {
                    result: Err(template_failure(file, interruption)),
                    journal: asked.journal,
                    output: Seq::empty(),
                },
                Ok(text) => scanned(config, engine, text, 0, row, asked.journal, depth),
            }
        },
    }
}

/// A section that a template may lack.
pub open spec fn optional_section_rendered(
    config: TemplateRendererConfig,
    engine: ProcessorView,
    section: Option<TemplateValueView>,
    context: ContextView,
    journal: JournalView,
    depth: nat,
) -> Rendered<TemplateRenderErrorView>
    decreases depth, 9nat, 0nat,
{
    match section {
        Some(section) => section_rendered(config, engine, section, 0, context, journal, depth),
        None => Rendered { result: Ok(()), journal, output: Seq::empty() },
    }
}

/// The body rendered for the rows from `row` up to `rows`, each time
/// followed by a line feed.
pub open spec fn rows_rendered(
    config: TemplateRendererConfig,
    engine: ProcessorView,
    body: TemplateValueView,
    row: usize,
    rows: usize,
    context: ContextView,
    journal: JournalView,
    depth: nat,
) -> Rendered<TemplateRenderErrorView>
    decreases depth, 9nat, rows - row,
{
    if row >= rows {
        Rendered { result: Ok(()), journal, output: Seq::empty() }
    } else {
        let first = section_rendered(config, engine, body, row, context, journal, depth);
        match first.result {
            Err(error) => first,
            Ok(()) => rows_rendered(
                config,
                engine,
                body,
                (row + 1) as usize,
                rows,
                context,
                first.journal,
                depth,
            ).after(first.output + seq!['\n']),
        }
    }
}

/// A template rendered: the header once, if there is one, the body once for
/// each row, and the footer once, if there is one.
pub open spec fn template_rendered(
    config: TemplateRendererConfig,
    engine: ProcessorView,
    template: TemplateView,
    rows: usize,
    context: ContextView,
    journal: JournalView,
    depth: nat,
) -> Rendered<TemplateRenderErrorView>
    decreases depth, 10nat, 0nat,
{
    let header = optional_section_rendered(
        config,
        engine,
        template.header,
        context,
        journal,
        depth,
    );
    match header.result {
        Err(error) => header,
        Ok(()) => {
            let body = rows_rendered(
                config,
                engine,
                template.body,
                0,
                rows,
                context,
                header.journal,
                depth,
            ).after(header.output);
            match body.result {
                Err(error) => body,
                Ok(()) => optional_section_rendered(
                    config,
                    engine,
                    template.footer,
                    context,
                    body.journal,
                    depth,
                ).after(body.output),
            }
        },
    }
}

/// The document of an engine rendered: its template, with one row for each
/// injection row of the root context. An engine without a template writes
/// nothing.
pub open spec fn processor_rendered(
    config: TemplateRendererConfig,
    engine: ProcessorView,
    journal: JournalView,
    depth: nat,
) -> Rendered<TemplateRenderErrorView>
    decreases depth, 11nat, 0nat,
{
    match engine.root.template {
        Some(template) => template_rendered(
            config,
            engine,
            template,
            engine.root.injection.len() as usize,
            engine.root,
            journal,
            depth,
        ),
        None => Rendered { result: Ok(()), journal, output: Seq::empty() },
    }
}

/// The stored text of a float or a string is what is rendered, and the
/// scalar itself is what it reduces to: neither is read or formatted anew.
pub proof fn stored_text_is_rendered_unchanged(
    config: TemplateRendererConfig,
    text: Seq<char>,
    journal: JournalView,
    depth: nat,
)
    ensures
        rendered_value(config, RenderableView::RawValue(ScalarView::Float(text)), journal, depth)
            == (Rendered::<ValueRenderErrorView> { result: Ok(()), journal, output: text }),
        rendered_value(config, RenderableView::RawValue(ScalarView::Text(text)), journal, depth)
            == (Rendered::<ValueRenderErrorView> { result: Ok(()), journal, output: text }),
        calculated(RenderableView::RawValue(ScalarView::Float(text)), journal) == (Resolved {
            result: Ok(ScalarView::Float(text)),
            journal,
        }),
        calculated(RenderableView::RawValue(ScalarView::Text(text)), journal) == (Resolved {
            result: Ok(ScalarView::Text(text)),
            journal,
        }),
{
}

/// Whether `from` is an alias for `to`: looked up with its request source,
/// the path of `from` is found as a reference to the path of `to`, in a scope
/// whose request source is that of `to`.
pub open spec fn aliases_to(
    engine: ProcessorView,
    context: ContextView,
    from: (Seq<Seq<char>>, RequestSource),
    to: (Seq<Seq<char>>, RequestSource),
) -> bool {
    let lookup = looked_up(scopes_for(engine.global, context, from.1), from.0);
    lookup.found == StoredView::LocalReference(to.0) && lookup.source == to.1
}

/// Resolving an alias is resolving what it stands for, with one less of the
/// depth and the alias on the trail.
pub proof fn alias_is_followed(
    engine: ProcessorView,
    context: ContextView,
    from: (Seq<Seq<char>>, RequestSource),
    to: (Seq<Seq<char>>, RequestSource),
    trail: Seq<Seq<char>>,
    journal: JournalView,
    depth: nat,
)
    requires
        depth > 0,
        aliases_to(engine, context, from, to),
    ensures
        resolved(engine, context, from.0, from.1, trail, journal, depth) == resolved(
            engine,
            context,
            to.0,
            to.1,
            trail.push(join(from.0, seq!['.'])),
            journal,
            (depth - 1) as nat,
        ),
{
    let lookup = looked_up(scopes_for(engine.global, context, from.1), from.0);
    let step = processed(engine, lookup.found, context, lookup.source, journal, (depth - 1) as nat);
    assert(step == Resolved {
        result: Ok(NextView::ContinueElsewhere(None, to.0, to.1)),
        journal,
    });
}

/// A chain of aliases that ends in a scalar resolves, from its start, to
/// that scalar, however long the chain is, as long as the depth allows one
/// round for each link. The journal is left as it is.
pub proof fn alias_chain_resolves_to_its_end(
    engine: ProcessorView,
    context: ContextView,
    chain: Seq<(Seq<Seq<char>>, RequestSource)>,
    value: ScalarView,
    trail: Seq<Seq<char>>,
    journal: JournalView,
    depth: nat,
)
    requires
        chain.len() >= 1,
        depth >= chain.len(),
        forall|i: int|
            0 <= i < chain.len() - 1 ==> aliases_to(engine, context, #[trigger] chain[i], chain[i + 1]),
        looked_up(scopes_for(engine.global, context, chain.last().1), chain.last().0).found
            == StoredView::Value(value),
    ensures
        resolved(engine, context, chain[0].0, chain[0].1, trail, journal, depth) == (Resolved {
            result: Ok(RenderableView::RawValue(value)),
            journal,
        }),
    decreases chain.len(),
{
    if chain.len() == 1 {
        let lookup = looked_up(scopes_for(engine.global, context, chain[0].1), chain[0].0);
        let step = processed(
            engine,
            lookup.found,
            context,
            lookup.source,
            journal,
            (depth - 1) as nat,
        );
        assert(step == Resolved {
            result: Ok(NextView::ReturnValue(RenderableView::RawValue(value))),
            journal,
        });
    } else {
        let rest = chain.drop_first();
        assert(aliases_to(engine, context, chain[0], chain[1]));
        alias_is_followed(engine, context, chain[0], chain[1], trail, journal, depth);
        assert forall|i: int| 0 <= i < rest.len() - 1 implies aliases_to(
            engine,
            context,
            #[trigger] rest[i],
            rest[i + 1],
        ) by {
            assert(aliases_to(engine, context, chain[i + 1], chain[i + 2]));
        }
        assert(rest.last() == chain.last());
        alias_chain_resolves_to_its_end(
            engine,
            context,
            rest,
            value,
            trail.push(join(chain[0].0, seq!['.'])),
            journal,
            (depth - 1) as nat,
        );
    }
}

/// The trail of an error of resolution: the paths that were visited.
pub open spec fn trail_of(error: ValueRenderErrorView) -> Option<Seq<Seq<char>>> {
    match error {
        ValueRenderErrorView::FailedResolvingVariable { var_resolution_path } => Some(
            var_resolution_path,
        ),
        ValueRenderErrorView::FailedProcessingVariable { var_resolution_path, .. } => Some(
            var_resolution_path,
        ),
        _ => None,
    }
}

/// Where resolution fails because a variable is missing, or because an
/// instruction on the way fails, the trail of the error begins with the trail
/// so far followed by the path that was asked for.
pub proof fn failed_resolution_reports_the_requested_path(
    engine: ProcessorView,
    context: ContextView,
    path: Seq<Seq<char>>,
    source: RequestSource,
    trail: Seq<Seq<char>>,
    journal: JournalView,
    depth: nat,
)
    ensures
        match resolved(engine, context, path, source, trail, journal, depth).result {
            Err(error) => match trail_of(error) {
                Some(visited) => visited.len() > trail.len() && visited.take(trail.len() as int + 1)
                    == trail.push(join(path, seq!['.'])),
                None => error == ValueRenderErrorView::DepthExceeded,
            },
            Ok(_) => true,
        },
    decreases depth,
{
    if depth > 0 {
        let visited = trail.push(join(path, seq!['.']));
        let lookup = looked_up(scopes_for(engine.global, context, source), path);
        let step = processed(
            engine,
            lookup.found,
            context,
            lookup.source,
            journal,
            (depth - 1) as nat,
        );
        assert(visited.take(trail.len() as int + 1) =~= visited);
        match step.result {
            Ok(NextView::ContinueElsewhere(target, next_path, next_source)) => {
                let next_context = match target {
                    Some(target) => target,
                    None => context,
                };
                failed_resolution_reports_the_requested_path(
                    engine,
                    next_context,
                    next_path,
                    next_source,
                    visited,
                    step.journal,
                    (depth - 1) as nat,
                );
                let outcome = resolved(
                    engine,
                    next_context,
                    next_path,
                    next_source,
                    visited,
                    step.journal,
                    (depth - 1) as nat,
                );
                if let Err(error) = outcome.result {
                    if let Some(longer) = trail_of(error) {
                        assert(longer.take(visited.len() as int + 1).take(trail.len() as int + 1)
                            =~= longer.take(trail.len() as int + 1));
                        assert(visited.push(join(next_path, seq!['.'])).take(trail.len() as int + 1)
                            =~= visited);
                    }
                }
            },
            _ => {},
        }
    }
}

/// Where the value of a placeholder is missing, the trail of the error
/// begins with the path as the placeholder spells it.
pub proof fn missing_placeholder_reports_its_path(
    config: TemplateRendererConfig,
    engine: ProcessorView,
    path: Seq<char>,
    row: usize,
    journal: JournalView,
    depth: nat,
)
    ensures
        match value_rendered(config, engine, path, row, journal, depth).result {
            Err(ValueRenderErrorView::FailedResolvingVariable { var_resolution_path }) => {
                var_resolution_path.len() > 0 && var_resolution_path[0] == path
            },
            _ => true,
        },
{
    failed_resolution_reports_the_requested_path(
        engine,
        engine.root,
        split(path, '.'),
        RequestSource::Template(row),
        Seq::empty(),
        journal,
        depth,
    );
    crate::text::join_of_split(path, '.');
    let found = resolved(
        engine,
        engine.root,
        split(path, '.'),
        RequestSource::Template(row),
        Seq::empty(),
        journal,
        depth,
    );
    match found.result {
        Err(ValueRenderErrorView::FailedResolvingVariable { var_resolution_path }) => {
            assert(var_resolution_path.take(1)[0] == var_resolution_path[0]);
            assert(Seq::<Seq<char>>::empty().push(join(split(path, '.'), seq!['.']))[0] == path);
        },
        Err(_) => {},
        Ok(value) => {
            rendering_does_not_miss(config, value, found.journal, depth);
        },
    }
}

/// Rendering a value never fails for a missing variable of the engine that
/// renders it: such an error belongs to resolution. (A document that a value
/// renders reports it as an error of that document.)
pub proof fn rendering_does_not_miss(
    config: TemplateRendererConfig,
    value: RenderableView,
    journal: JournalView,
    depth: nat,
)
    ensures
        !(rendered_value(config, value, journal, depth).result matches Err(
            ValueRenderErrorView::FailedResolvingVariable { .. },
        )),
{
    match value {
        RenderableView::Quote { file, context } => {
            let name = joined_path(context.directory, file);
            let asked = journal.ask(RequestView::ReadFile { path: name });
            if let Ok(bytes) = asked.result {
                lines_fail_for_reading_only(name, bytes, 0);
            }
        },
        _ => {},
    }
}

/// Rendering the lines of a file fails only because a line cannot be read
/// as text.
pub proof fn lines_fail_for_reading_only(file: Seq<char>, bytes: Seq<u8>, from: int)
    ensures
        match rendered_lines(file, bytes, from).0 {
            Ok(()) => true,
            Err(error) => error is FailedReadingText,
        },
    decreases bytes.len() - from,
{
    if 0 <= from < bytes.len() {
        let end = line_end(bytes, from);
        line_end_bounds(bytes, from);
        if valid_utf8(line_content(bytes, from, end)) && end < bytes.len() {
            lines_fail_for_reading_only(file, bytes, end + 1);
        }
    }
}

/// The end of the line that begins at `from` lies between `from` and the
/// end of the bytes.
pub proof fn line_end_bounds(bytes: Seq<u8>, from: int)
    requires
        0 <= from <= bytes.len(),
    ensures
        from <= line_end(bytes, from) <= bytes.len(),
    decreases bytes.len() - from,
{
    if from < bytes.len() && bytes[from] != 10u8 {
        line_end_bounds(bytes, from + 1);
    }
}

/// A quote that is rendered ends every line that it writes with a line
/// feed, the last one too, whether the file ends in a line feed or not: what
/// is written of a file with bytes left is not empty and ends in a line
/// feed.
pub proof fn quoted_lines_end_in_a_line_feed(file: Seq<char>, bytes: Seq<u8>, from: int)
    requires
        0 <= from < bytes.len(),
        rendered_lines(file, bytes, from).0 is Ok,
    ensures
        rendered_lines(file, bytes, from).1.len() > 0,
        rendered_lines(file, bytes, from).1.last() == '\n',
    decreases bytes.len() - from,
{
    let end = line_end(bytes, from);
    line_end_bounds(bytes, from);
    let line = decode_utf8(line_content(bytes, from, end));
    if end + 1 < bytes.len() {
        quoted_lines_end_in_a_line_feed(file, bytes, end + 1);
        let rest = rendered_lines(file, bytes, end + 1).1;
        assert((line + seq!['\n'] + rest).last() == rest.last());
    } else {
        let rest = if end < bytes.len() {
            rendered_lines(file, bytes, end + 1).1
        } else {
            Seq::<char>::empty()
        };
        assert(rest =~= Seq::<char>::empty());
        assert(line + seq!['\n'] + rest =~= line + seq!['\n']);
    }
}

/// A document that a value renders never reduces to a scalar, and trying
/// asks nothing of the outside.
pub proof fn a_document_does_not_reduce(processor: ProcessorView, journal: JournalView)
    ensures
        calculated(RenderableView::SubRender(processor), journal) == (Resolved::<ScalarView> {
            result: Err(ValueRenderErrorView::InvalidCalculateCall),
            journal,
        }),
{
}

/// Evaluated arguments are as many as the arguments.
pub proof fn every_argument_is_evaluated(
    engine: ProcessorView,
    arguments: Seq<DefinitionView>,
    count: nat,
    context: ContextView,
    source: RequestSource,
    journal: JournalView,
    depth: nat,
)
    requires
        count <= arguments.len(),
    ensures
        match evaluated_arguments(engine, arguments, count, context, source, journal, depth).result {
            Ok(values) => values.len() == count,
            Err(_) => true,
        },
    decreases count,
{
    if count > 0 {
        every_argument_is_evaluated(
            engine,
            arguments,
            (count - 1) as nat,
            context,
            source,
            journal,
            depth,
        );
    }
}

/// The arguments of a command are evaluated when the command is resolved:
/// the value that stands for its result holds one scalar for each argument,
/// and the journal after resolving is the journal after evaluating them.
/// Where an argument fails, resolving the command fails with its error.
pub proof fn arguments_are_evaluated_before_the_command(
    engine: ProcessorView,
    executable: Seq<char>,
    arguments: Seq<DefinitionView>,
    rest: Seq<Seq<char>>,
    context: ContextView,
    source: RequestSource,
    journal: JournalView,
    depth: nat,
)
    ensures
        ({
            let evaluated = evaluated_arguments(
                engine,
                arguments,
                arguments.len(),
                context,
                source,
                journal,
                depth,
            );
            let next = processed(
                engine,
                StoredView::Instruction(InstructionView::Execute { executable, arguments }, rest),
                context,
                source,
                journal,
                depth,
            );
            &&& next.journal == evaluated.journal
            &&& match evaluated.result {
                Ok(values) => values.len() == arguments.len() && next.result == Ok::<
                    NextView,
                    ValueRenderErrorView,
                >(
                    NextView::ReturnValue(
                        RenderableView::ExecutionResult {
                            executable,
                            arguments: values,
                            context: anchor(engine, source, context),
                        },
                    ),
                ),
                Err(error) => next.result == Err::<NextView, ValueRenderErrorView>(error),
            }
        }),
{
    every_argument_is_evaluated(
        engine,
        arguments,
        arguments.len(),
        context,
        source,
        journal,
        depth,
    );
}

/// A document among the arguments of a command fails the command: where
/// the arguments before it are evaluated without error and it resolves to a
/// document, the command fails because a document cannot be reduced to a
/// scalar, whatever the arguments after it give.
pub proof fn a_document_among_the_arguments_fails(
    engine: ProcessorView,
    arguments: Seq<DefinitionView>,
    at: nat,
    context: ContextView,
    source: RequestSource,
    journal: JournalView,
    depth: nat,
)
    requires
        at < arguments.len(),
        evaluated_arguments(engine, arguments, at, context, source, journal, depth).result is Ok,
        converted_definition(
            engine,
            arguments[at as int],
            context,
            source,
            place_name(at),
            evaluated_arguments(engine, arguments, at, context, source, journal, depth).journal,
            depth,
        ).result matches Ok(RenderableView::SubRender(_)),
    ensures
        evaluated_arguments(
            engine,
            arguments,
            arguments.len(),
            context,
            source,
            journal,
            depth,
        ).result == Err::<Seq<ScalarView>, ValueRenderErrorView>(
            ValueRenderErrorView::InvalidCalculateCall,
        ),
{
    let before = evaluated_arguments(engine, arguments, at, context, source, journal, depth);
    let argument = evaluated_argument(
        engine,
        arguments[at as int],
        at,
        context,
        source,
        before.journal,
        depth,
    );
    assert(argument.result == Err::<ScalarView, ValueRenderErrorView>(
        ValueRenderErrorView::InvalidCalculateCall,
    ));
    let next = evaluated_arguments(engine, arguments, at + 1, context, source, journal, depth);
    assert(next.result == Err::<Seq<ScalarView>, ValueRenderErrorView>(
        ValueRenderErrorView::InvalidCalculateCall,
    ));
    first_error_is_kept(
        engine,
        arguments,
        arguments.len(),
        at + 1,
        context,
        source,
        journal,
        depth,
    );
}

/// Once the arguments up to some place have given an error, the arguments
/// up to every later place give that error.
pub proof fn first_error_is_kept(
    engine: ProcessorView,
    arguments: Seq<DefinitionView>,
    count: nat,
    failed: nat,
    context: ContextView,
    source: RequestSource,
    journal: JournalView,
    depth: nat,
)
    requires
        failed <= count <= arguments.len(),
        evaluated_arguments(engine, arguments, failed, context, source, journal, depth).result is Err,
    ensures
        evaluated_arguments(engine, arguments, count, context, source, journal, depth).result
            == evaluated_arguments(engine, arguments, failed, context, source, journal, depth).result,
    decreases count,
{
    if count > failed {
        first_error_is_kept(
            engine,
            arguments,
            (count - 1) as nat,
            failed,
            context,
            source,
            journal,
            depth,
        );
    }
}

/// No `wanted` between `from` and `to` means that the first one at or after
/// `from` is the first one at or after `to`.
pub proof fn first_beyond(s: Seq<char>, wanted: char, from: int, to: int)
    requires
        0 <= from <= to <= s.len(),
        forall|i: int| from <= i < to ==> s[i] != wanted,
    ensures
        first_at_or_after(s, wanted, from) == first_at_or_after(s, wanted, to),
    decreases to - from,
{
    if from < to {
        first_beyond(s, wanted, from + 1, to);
    }
}

/// A block placeholder and a line placeholder that spell the same path are
/// rendered alike: as a whole template, `*{ path }` and `*> path` give the
/// same outcome, be it the value of the path or an error. The path may hold
/// neither the end of a block nor a line feed.
pub proof fn block_and_line_render_alike(
    config: TemplateRendererConfig,
    engine: ProcessorView,
    name: Seq<char>,
    row: usize,
    journal: JournalView,
    depth: nat,
)
    requires
        config.start_block != config.line_quote,
        forall|i: int| 0 <= i < name.len() ==> name[i] != config.end_block && name[i] != '\n',
    ensures
        scanned(
            config,
            engine,
            seq![config.marker, config.start_block] + name + seq![config.end_block],
            0,
            row,
            journal,
            depth,
        ) == scanned(
            config,
            engine,
            seq![config.marker, config.line_quote] + name,
            0,
            row,
            journal,
            depth,
        ),
{
    let block = seq![config.marker, config.start_block] + name + seq![config.end_block];
    let line = seq![config.marker, config.line_quote] + name;
    let end: int = 2 + name.len() as int;
    assert(block[0] == config.marker && block[1] == config.start_block);
    assert(line[0] == config.marker && line[1] == config.line_quote);
    assert(block[end] == config.end_block);
    assert forall|i: int| 2 <= i < end implies block[i] != config.end_block by {
        assert(block[i] == name[i - 2]);
    }
    assert forall|i: int| 2 <= i < end implies line[i] != '\n' by {
        assert(line[i] == name[i - 2]);
    }
    first_beyond(block, config.end_block, 2, end);
    first_beyond(line, '\n', 2, end);
    assert(first_at_or_after(block, config.end_block, 2) == end);
    assert(first_at_or_after(line, '\n', 2) == end);
    assert(block.subrange(2, end) =~= name);
    assert(line.subrange(2, end) =~= name);
    let found = crate::rendering::template_rendering::variable_name(block, 2, name.len() as int);
    assert(enclosed_var_path(block, 2, config.end_block) == found);
    assert(trailing_var_path(line, 2) == crate::rendering::template_rendering::variable_name(
        line,
        2,
        name.len() as int,
    ));
    assert(trailing_var_path(line, 2) == found);
    let of_block = placeholder_rendered(
        config,
        engine,
        block,
        found,
        end + 1,
        row,
        journal,
        depth,
        0,
    );
    let of_line = placeholder_rendered(config, engine, line, found, end, row, journal, depth, 0);
    assert(scanned(config, engine, block, 0, row, journal, depth) == of_block);
    assert(scanned(config, engine, line, 0, row, journal, depth) == of_line);
    match found {
        Err(_) => {},
        Ok((path, _)) => {
            let value = value_rendered(config, engine, path, row, journal, depth);
            if value.result is Ok {
                let after_block = scanned(config, engine, block, end + 1, row, value.journal, depth);
                let after_line = scanned(config, engine, line, end, row, value.journal, depth);
                assert(after_block == after_line);
            }
        },
    }
}

/// Reducing a value to a scalar moves the journal forward, if at all.
pub proof fn calculating_moves_forward(value: RenderableView, journal: JournalView)
    ensures
        journal.leads_to(calculated(value, journal).journal),
{
}

/// One step of resolution moves the journal forward, if at all.
proof fn processing_moves_forward(
    engine: ProcessorView,
    variable: StoredView,
    context: ContextView,
    source: RequestSource,
    journal: JournalView,
    depth: nat,
)
    ensures
        journal.leads_to(processed(engine, variable, context, source, journal, depth).journal),
    decreases depth, 4nat, 0nat,
{
    match variable {
        StoredView::Instruction(InstructionView::Execute { executable, arguments }, _) => {
            arguments_move_forward(
                engine,
                arguments,
                arguments.len(),
                context,
                source,
                journal,
                depth,
            );
        },
        _ => {},
    }
}

/// Evaluating an argument moves the journal forward, if at all.
proof fn argument_moves_forward(
    engine: ProcessorView,
    definition: DefinitionView,
    at: nat,
    context: ContextView,
    source: RequestSource,
    journal: JournalView,
    depth: nat,
)
    ensures
        journal.leads_to(
            evaluated_argument(engine, definition, at, context, source, journal, depth).journal,
        ),
    decreases depth, 3nat, 0nat,
{
    converting_moves_forward(engine, definition, context, source, place_name(at), journal, depth);
    let converted = converted_definition(
        engine,
        definition,
        context,
        source,
        place_name(at),
        journal,
        depth,
    );
    if let Ok(value) = converted.result {
        calculating_moves_forward(value, converted.journal);
    }
}

/// Evaluating arguments moves the journal forward, if at all.
proof fn arguments_move_forward(
    engine: ProcessorView,
    arguments: Seq<DefinitionView>,
    count: nat,
    context: ContextView,
    source: RequestSource,
    journal: JournalView,
    depth: nat,
)
    ensures
        journal.leads_to(
            evaluated_arguments(engine, arguments, count, context, source, journal, depth).journal,
        ),
    decreases depth, 3nat, 1 + count,
{
    if !(count == 0 || count > arguments.len()) {
        arguments_move_forward(
            engine,
            arguments,
            (count - 1) as nat,
            context,
            source,
            journal,
            depth,
        );
        let before = evaluated_arguments(
            engine,
            arguments,
            (count - 1) as nat,
            context,
            source,
            journal,
            depth,
        );
        argument_moves_forward(
            engine,
            arguments[count - 1],
            (count - 1) as nat,
            context,
            source,
            before.journal,
            depth,
        );
    }
}

/// Evaluating a definition in place moves the journal forward, if at all.
proof fn converting_moves_forward(
    engine: ProcessorView,
    definition: DefinitionView,
    context: ContextView,
    source: RequestSource,
    name: Seq<char>,
    journal: JournalView,
    depth: nat,
)
    ensures
        journal.leads_to(
            converted_definition(engine, definition, context, source, name, journal, depth).journal,
        ),
    decreases depth, 2nat, 0nat,
{
    if depth > 0 {
        let variable = found_in_definition(definition, Seq::empty()).0;
        processing_moves_forward(engine, variable, context, source, journal, (depth - 1) as nat);
        let step = processed(engine, variable, context, source, journal, (depth - 1) as nat);
        if let Ok(NextView::ContinueElsewhere(_, path, next)) = step.result {
            resolving_moves_forward(
                engine,
                engine.root,
                path,
                next,
                Seq::empty(),
                step.journal,
                (depth - 1) as nat,
            );
        }
    }
}

/// Resolution moves the journal forward, if at all: it leaves the answers
/// as they are, takes them in order, and asks nothing while a question is
/// pending.
pub proof fn resolving_moves_forward(
    engine: ProcessorView,
    context: ContextView,
    path: Seq<Seq<char>>,
    source: RequestSource,
    trail: Seq<Seq<char>>,
    journal: JournalView,
    depth: nat,
)
    ensures
        journal.leads_to(resolved(engine, context, path, source, trail, journal, depth).journal),
    decreases depth, 1nat, 0nat,
{
    if depth > 0 {
        let visited = trail.push(join(path, seq!['.']));
        let lookup = looked_up(scopes_for(engine.global, context, source), path);
        processing_moves_forward(
            engine,
            lookup.found,
            context,
            lookup.source,
            journal,
            (depth - 1) as nat,
        );
        let step = processed(
            engine,
            lookup.found,
            context,
            lookup.source,
            journal,
            (depth - 1) as nat,
        );
        if let Ok(NextView::ContinueElsewhere(target, next_path, next_source)) = step.result {
            resolving_moves_forward(
                engine,
                match target {
                    Some(target) => target,
                    None => context,
                },
                next_path,
                next_source,
                visited,
                step.journal,
                (depth - 1) as nat,
            );
        }
    }
}

/// Rendering a value moves the journal forward, if at all.
proof fn rendering_value_moves_forward(
    config: TemplateRendererConfig,
    value: RenderableView,
    journal: JournalView,
    depth: nat,
)
    ensures
        journal.leads_to(rendered_value(config, value, journal, depth).journal),
    decreases depth, 5nat, 0nat,
{
    match value {
        RenderableView::SubRender(processor) => {
            if depth > 0 {
                rendering_moves_forward(config, processor, journal, (depth - 1) as nat);
            }
        },
        _ => {
            calculating_moves_forward(value, journal);
        },
    }
}

/// Rendering the value of a placeholder moves the journal forward, if at
/// all.
proof fn placeholder_value_moves_forward(
    config: TemplateRendererConfig,
    engine: ProcessorView,
    path: Seq<char>,
    row: usize,
    journal: JournalView,
    depth: nat,
)
    ensures
        journal.leads_to(value_rendered(config, engine, path, row, journal, depth).journal),
    decreases depth, 6nat, 0nat,
{
    resolving_moves_forward(
        engine,
        engine.root,
        split(path, '.'),
        RequestSource::Template(row),
        Seq::empty(),
        journal,
        depth,
    );
    let found = resolved(
        engine,
        engine.root,
        split(path, '.'),
        RequestSource::Template(row),
        Seq::empty(),
        journal,
        depth,
    );
    if let Ok(value) = found.result {
        rendering_value_moves_forward(config, value, found.journal, depth);
    }
}

/// Rendering a placeholder and what follows it moves the journal forward,
/// if at all.
proof fn placeholder_moves_forward(
    config: TemplateRendererConfig,
    engine: ProcessorView,
    text: Seq<char>,
    name: Result<(Seq<char>, usize), TemplateRenderErrorView>,
    next: int,
    row: usize,
    journal: JournalView,
    depth: nat,
    at: int,
)
    ensures
        journal.leads_to(
            placeholder_rendered(config, engine, text, name, next, row, journal, depth, at).journal,
        ),
    decreases depth, 7nat, text.len() - at, 0nat,
{
    if let Ok((path, _)) = name {
        placeholder_value_moves_forward(config, engine, path, row, journal, depth);
        let value = value_rendered(config, engine, path, row, journal, depth);
        if value.result is Ok && at < next <= text.len() {
            scanning_moves_forward(config, engine, text, next, row, value.journal, depth);
        }
    }
}

/// Rendering a text moves the journal forward, if at all.
proof fn scanning_moves_forward(
    config: TemplateRendererConfig,
    engine: ProcessorView,
    text: Seq<char>,
    at: int,
    row: usize,
    journal: JournalView,
    depth: nat,
)
    ensures
        journal.leads_to(scanned(config, engine, text, at, row, journal, depth).journal),
    decreases depth, 7nat, text.len() - at, 1nat,
{
    if !(at < 0 || at >= text.len()) {
        if text[at] == config.marker && statement_at(config, text, at)
            == ProcessingStatement::Block {
            placeholder_moves_forward(
                config,
                engine,
                text,
                enclosed_var_path(text, at + 2, config.end_block),
                first_at_or_after(text, config.end_block, at + 2) + 1,
                row,
                journal,
                depth,
                at,
            );
        } else if text[at] == config.marker && statement_at(config, text, at)
            == ProcessingStatement::LineQuote {
            placeholder_moves_forward(
                config,
                engine,
                text,
                trailing_var_path(text, at + 2),
                first_at_or_after(text, '\n', at + 2),
                row,
                journal,
                depth,
                at,
            );
        } else {
            scanning_moves_forward(config, engine, text, at + 1, row, journal, depth);
        }
    }
}

/// Rendering a section moves the journal forward, if at all.
proof fn section_moves_forward(
    config: TemplateRendererConfig,
    engine: ProcessorView,
    section: TemplateValueView,
    row: usize,
    context: ContextView,
    journal: JournalView,
    depth: nat,
)
    ensures
        journal.leads_to(
            section_rendered(config, engine, section, row, context, journal, depth).journal,
        ),
    decreases depth, 8nat, 0nat,
{
    match section {
        TemplateValueView::RawValue(text) => {
            scanning_moves_forward(config, engine, text, 0, row, journal, depth);
        },
        TemplateValueView::Quote(file) => {
            let asked = journal.ask_text(joined_path(context.directory, file));
            if let Ok(text) = asked.result {
                scanning_moves_forward(config, engine, text, 0, row, asked.journal, depth);
            }
        },
    }
}

/// Rendering rows moves the journal forward, if at all.
proof fn rows_move_forward(
    config: TemplateRendererConfig,
    engine: ProcessorView,
    body: TemplateValueView,
    row: usize,
    rows: usize,
    context: ContextView,
    journal: JournalView,
    depth: nat,
)
    ensures
        journal.leads_to(
            rows_rendered(config, engine, body, row, rows, context, journal, depth).journal,
        ),
    decreases depth, 9nat, rows - row,
{
    if row < rows {
        section_moves_forward(config, engine, body, row, context, journal, depth);
        let first = section_rendered(config, engine, body, row, context, journal, depth);
        if first.result is Ok {
            rows_move_forward(
                config,
                engine,
                body,
                (row + 1) as usize,
                rows,
                context,
                first.journal,
                depth,
            );
        }
    }
}

/// Rendering a template moves the journal forward, if at all.
proof fn template_moves_forward(
    config: TemplateRendererConfig,
    engine: ProcessorView,
    template: TemplateView,
    rows: usize,
    context: ContextView,
    journal: JournalView,
    depth: nat,
)
    ensures
        journal.leads_to(
            template_rendered(config, engine, template, rows, context, journal, depth).journal,
        ),
    decreases depth, 10nat, 0nat,
{
    if let Some(section) = template.header {
        section_moves_forward(config, engine, section, 0, context, journal, depth);
    }
    let header = optional_section_rendered(
        config,
        engine,
        template.header,
        context,
        journal,
        depth,
    );
    if header.result is Ok {
        rows_move_forward(config, engine, template.body, 0, rows, context, header.journal, depth);
        let body = rows_rendered(
            config,
            engine,
            template.body,
            0,
            rows,
            context,
            header.journal,
            depth,
        );
        if body.result is Ok {
            if let Some(section) = template.footer {
                section_moves_forward(config, engine, section, 0, context, body.journal, depth);
            }
        }
    }
}

/// Rendering a document moves the journal forward, if at all: it leaves the
/// answers as they are, takes them in order, and asks nothing while a
/// question is pending.
pub proof fn rendering_moves_forward(
    config: TemplateRendererConfig,
    engine: ProcessorView,
    journal: JournalView,
    depth: nat,
)
    ensures
        journal.leads_to(processor_rendered(config, engine, journal, depth).journal),
    decreases depth, 11nat, 0nat,
{
    if let Some(template) = engine.root.template {
        template_moves_forward(
            config,
            engine,
            template,
            engine.root.injection.len() as usize,
            engine.root,
            journal,
            depth,
        );
    }
}

} // verus!
