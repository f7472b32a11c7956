//! The values that resolution ends in.

use crate::config::model::{RawValue, ScalarView};
use crate::config::reader::result_view;
use crate::processing::context::{ContextView, ProcessingContext};
use crate::processing::context::joined_path;
use crate::processing::journal::{decode, Interruption, Journal, Request, RequestView};
use crate::rendering::template_rendering::TemplateRenderer;
use crate::semantics::{line_end, read_failure, rendered_lines, rendered_value};
use crate::processing::processor::{failed_reading, GlitterProcessor, ProcessorView};
use crate::rendering::{ValueRenderError, ValueRenderErrorView};
use crate::semantics::{calculated, scalar_texts, Resolved};
use crate::text::texts;
use std::rc::Rc;
use vstd::prelude::*;

verus! {

/// A scalar, rendered as its text.
#[derive(Debug, PartialEq, Eq)]
pub struct RenderableRawValue {
    pub value: RawValue,
}

/// The text of a file, rendered line by line.
#[derive(Debug, PartialEq, Eq)]
pub struct RenderableQuote {
    pub file: String,
    pub context: Rc<ProcessingContext>,
}

/// What a command writes, rendered as it is. The arguments are scalars: they
/// were evaluated when the value was resolved.
#[derive(Debug, PartialEq, Eq)]
pub struct RenderableExecutionResult {
    pub executable: String,
    pub arguments: Vec<RawValue>,
    pub context: Rc<ProcessingContext>,
}

/// A document, rendered by its own processor.
#[derive(Debug, PartialEq, Eq)]
pub struct SubRender {
    pub processor: GlitterProcessor,
}

/// A value that can be rendered or reduced to a scalar.
#[derive(Debug, PartialEq, Eq)]
pub enum RenderableVariable {
    RawValue(RenderableRawValue),
    Quote(RenderableQuote),
    ExecutionResult(RenderableExecutionResult),
    SubRender(SubRender),
}

/// What a `RenderableVariable` stands for.
pub enum RenderableView {
    RawValue(ScalarView),
    Quote { file: Seq<char>, context: ContextView },
    ExecutionResult { executable: Seq<char>, arguments: Seq<ScalarView>, context: ContextView },
    SubRender(ProcessorView),
}

/// What the scalars of `values` stand for.
pub open spec fn scalars_view(values: Seq<RawValue>) -> Seq<ScalarView> {
    values.map_values(|value: RawValue| value@)
}

impl View for RenderableVariable {
    type V = RenderableView;

    open spec fn view(&self) -> RenderableView {
        match self {
            RenderableVariable::RawValue(raw) => RenderableView::RawValue(raw.value@),
            RenderableVariable::Quote(quote) => RenderableView::Quote {
                file: quote.file@,
                context: (*quote.context)@,
            },
            RenderableVariable::ExecutionResult(execution) => RenderableView::ExecutionResult {
                executable: execution.executable@,
                arguments: scalars_view(execution.arguments@),
                context: (*execution.context)@,
            },
            RenderableVariable::SubRender(sub) => RenderableView::SubRender(sub.processor@),
        }
    }
}

/// What the outcome of rendering a value stands for.
pub open spec fn unit_view(result: Result<(), ValueRenderError>) -> Result<(), ValueRenderErrorView> {
    match result {
        Ok(()) => Ok(()),
        Err(error) => Err(error@),
    }
}

/// The position of the first line feed of `bytes` at or after `from`.
fn find_line_end(bytes: &Vec<u8>, from: usize) -> (end: usize)
    requires
        from <= bytes.len(),
    ensures
        end == line_end(bytes@, from as int),
        from <= end <= bytes.len(),
{
    let mut end: usize = from;
    while end < bytes.len() && bytes[end] != 10u8
        invariant
            from <= end <= bytes.len(),
            line_end(bytes@, from as int) == line_end(bytes@, end as int),
        decreases bytes.len() - end,
    {
        end += 1;
    }
    end
}

/// The bytes `bytes[from..to]`.
fn bytes_between(bytes: &Vec<u8>, from: usize, to: usize) -> (part: Vec<u8>)
    requires
        from <= to <= bytes.len(),
    ensures
        part@ == bytes@.subrange(from as int, to as int),
{
    let mut part: Vec<u8> = Vec::new();
    let mut i: usize = from;
    while i < to
        invariant
            from <= i <= to <= bytes.len(),
            part@ == bytes@.subrange(from as int, i as int),
        decreases to - i,
    {
        part.push(bytes[i]);
        i += 1;
    }
    part
}

impl RenderableVariable {
    /// Renders the value.
    pub fn render(&self, output: &mut TemplateRenderer, journal: &mut Journal, depth: usize) -> (done:
        Result<(), ValueRenderError>)
        ensures
            final(output).config == old(output).config,
            ({
                let rendered = rendered_value(
                    old(output).config,
                    self@,
                    old(journal)@,
                    depth as nat,
                );
                &&& unit_view(done) == rendered.result
                &&& final(journal)@ == rendered.journal
                &&& final(output).output@ == old(output).output@ + rendered.output
            }),
        decreases depth, 5nat, 1nat,
    {
        match self {
            RenderableVariable::RawValue(raw) => raw.render(output),
            RenderableVariable::Quote(quote) => quote.render(output, journal),
            RenderableVariable::ExecutionResult(execution) => execution.render(output, journal),
            RenderableVariable::SubRender(sub) => sub.render(output, journal, depth),
        }
    }

    /// The scalar that the value reduces to.
    pub fn calculate(&self, journal: &mut Journal) -> (scalar: Result<RawValue, ValueRenderError>)
        ensures
            (Resolved { result: result_view(scalar), journal: final(journal)@ }) == calculated(
                self@,
                old(journal)@,
            ),
    {
        match self {
            RenderableVariable::RawValue(raw) => raw.calculate(),
            RenderableVariable::Quote(quote) => quote.calculate(journal),
            RenderableVariable::ExecutionResult(execution) => execution.calculate(journal),
            RenderableVariable::SubRender(sub) => sub.calculate(),
        }
    }
}

/// The texts of `values`.
fn texts_of(values: &Vec<RawValue>) -> (shown: Vec<String>)
    ensures
        texts(shown@) == scalar_texts(scalars_view(values@)),
{
    let mut shown: Vec<String> = Vec::new();
    let mut i: usize = 0;
    while i < values.len()
        invariant
            i <= values.len(),
            shown.len() == i,
            forall|j: int| 0 <= j < i ==> (#[trigger] shown@[j])@ == values@[j]@.text(),
        decreases values.len() - i,
    {
        shown.push(values[i].to_string());
        i += 1;
    }
    assert(texts(shown@) =~= scalar_texts(scalars_view(values@)));
    shown
}

impl RenderableRawValue {
    /// Writes the text of the scalar: `true` or `false`, the decimal digits
    /// of an integer, the stored text of a float or a string.
    pub fn render(&self, output: &mut TemplateRenderer) -> (done: Result<(), ValueRenderError>)
        ensures
            done is Ok,
            final(output).config == old(output).config,
            final(output).output@ == old(output).output@ + self.value@.text(),
    {
        let text = self.value.to_string();
        output.write(text.as_str());
        Ok(())
    }

    /// The scalar itself.
    pub fn calculate(&self) -> (scalar: Result<RawValue, ValueRenderError>)
        ensures
            result_view(scalar) == Ok::<ScalarView, ValueRenderErrorView>(self.value@),
    {
        Ok(self.value.clone())
    }
}

impl RenderableQuote {
    /// Writes the file line by line, each line followed by a line feed.
    pub fn render(&self, output: &mut TemplateRenderer, journal: &mut Journal) -> (done: Result<
        (),
        ValueRenderError,
    >)
        ensures
            final(output).config == old(output).config,
            ({
                let name = joined_path((*self.context)@.directory, self.file@);
                let asked = old(journal)@.ask(RequestView::ReadFile { path: name });
                &&& final(journal)@ == asked.journal
                &&& match asked.result {
                    Err(interruption) => {
                        &&& unit_view(done) == Err::<(), ValueRenderErrorView>(
                            read_failure(name, interruption),
                        )
                        &&& final(output).output@ == old(output).output@
                    },
                    Ok(bytes) => {
                        &&& unit_view(done) == rendered_lines(name, bytes, 0).0
                        &&& final(output).output@ == old(output).output@ + rendered_lines(
                            name,
                            bytes,
                            0,
                        ).1
                    },
                }
            }),
    {
        let fullname = self.context.resolve_filename(self.file.as_str());
        let bytes = match journal.ask(Request::ReadFile { path: fullname.clone() }) {
            Ok(bytes) => bytes,
            Err(interruption) => return Err(failed_reading(fullname, interruption)),
        };
        let ghost name = fullname@;
        let ghost asked = old(journal)@.ask(RequestView::ReadFile { path: name });
        let mut from: usize = 0;
        assert(output.output@ + rendered_lines(name, bytes@, 0).1 == old(output).output@
            + rendered_lines(name, bytes@, 0).1);
        while from < bytes.len()
            invariant
                from <= bytes.len(),
                name == fullname@,
                name == joined_path((*self.context)@.directory, self.file@),
                asked == old(journal)@.ask(RequestView::ReadFile { path: name }),
                journal@ == asked.journal,
                asked.result == Ok::<Seq<u8>, crate::processing::journal::InterruptionView>(bytes@),
                output.config == old(output).config,
                rendered_lines(name, bytes@, from as int).0 == rendered_lines(name, bytes@, 0).0,
                output.output@ + rendered_lines(name, bytes@, from as int).1 == old(output).output@
                    + rendered_lines(name, bytes@, 0).1,
            decreases bytes.len() - from,
        {
            let end = find_line_end(&bytes, from);
            let stop: usize = if end < bytes.len() && from < end && bytes[end - 1] == 13u8 {
                end - 1
            } else {
                end
            };
            let ghost before = output.output@;
            let ghost rest = if end < bytes.len() {
                rendered_lines(name, bytes@, end + 1)
            } else {
                (Ok::<(), ValueRenderErrorView>(()), Seq::<char>::empty())
            };
            match decode(bytes_between(&bytes, from, stop)) {
                Some(line) => {
                    proof {
                        reveal_strlit("\n");
                    }
                    output.write(line.as_str());
                    output.write("\n");
                    assert(output.output@ =~= before + (line@ + seq!['\n']));
                    assert(rendered_lines(name, bytes@, from as int).1 == line@ + seq!['\n']
                        + rest.1);
                    assert(before + (line@ + seq!['\n'] + rest.1) =~= before + (line@ + seq![
                        '\n',
                    ]) + rest.1);
                },
                None => {
                    assert(rendered_lines(name, bytes@, from as int).1 =~= Seq::<char>::empty());
                    assert(output.output@ + Seq::<char>::empty() =~= output.output@);
                    return Err(
                        ValueRenderError::FailedReadingText {
                            input_file: fullname,
                            reason: "stream did not contain valid UTF-8".to_owned(),
                        },
                    );
                },
            }
            if end < bytes.len() {
                from = end + 1;
            } else {
                from = end;
            }
        }
        assert(rendered_lines(name, bytes@, from as int).1 =~= Seq::<char>::empty());
        assert(output.output@ + Seq::<char>::empty() =~= output.output@);
        Ok(())
    }

    /// The whole text of the file.
    pub fn calculate(&self, journal: &mut Journal) -> (scalar: Result<RawValue, ValueRenderError>)
        ensures
            (Resolved { result: result_view(scalar), journal: final(journal)@ }) == calculated(
                RenderableView::Quote { file: self.file@, context: (*self.context)@ },
                old(journal)@,
            ),
    {
        let fullname = self.context.resolve_filename(self.file.as_str());
        match journal.ask_text(fullname.clone()) {
            Ok(text) => Ok(RawValue::String(text)),
            Err(interruption) => Err(failed_reading(fullname, interruption)),
        }
    }
}

impl RenderableExecutionResult {
    /// Runs the command and writes what it wrote.
    pub fn render(&self, output: &mut TemplateRenderer, journal: &mut Journal) -> (done: Result<
        (),
        ValueRenderError,
    >)
        ensures
            final(output).config == old(output).config,
            ({
                let scalar = calculated(
                    RenderableView::ExecutionResult {
                        executable: self.executable@,
                        arguments: scalars_view(self.arguments@),
                        context: (*self.context)@,
                    },
                    old(journal)@,
                );
                &&& final(journal)@ == scalar.journal
                &&& match scalar.result {
                    Err(error) => {
                        &&& unit_view(done) == Err::<(), ValueRenderErrorView>(error)
                        &&& final(output).output@ == old(output).output@
                    },
                    Ok(written) => {
                        &&& done is Ok
                        &&& final(output).output@ == old(output).output@ + written.text()
                    },
                }
            }),
    {
        match self.calculate(journal) {
            Ok(content) => {
                let text = content.to_string();
                output.write(text.as_str());
                Ok(())
            },
            Err(error) => Err(error),
        }
    }

    /// What the command writes to its standard output.
    pub fn calculate(&self, journal: &mut Journal) -> (scalar: Result<RawValue, ValueRenderError>)
        ensures
            (Resolved { result: result_view(scalar), journal: final(journal)@ }) == calculated(
                RenderableView::ExecutionResult {
                    executable: self.executable@,
                    arguments: scalars_view(self.arguments@),
                    context: (*self.context)@,
                },
                old(journal)@,
            ),
    {
        let fullname = self.context.resolve_filename(self.executable.as_str());
        let arguments = texts_of(&self.arguments);
        match journal.ask(Request::Execute { program: fullname, arguments }) {
            Ok(bytes) => match decode(bytes) {
                Some(text) => Ok(RawValue::String(text)),
                None => Err(ValueRenderError::ExecuteResultInvalid),
            },
            Err(Interruption::Suspended) => Err(ValueRenderError::Suspended),
            Err(Interruption::Failed(reason)) => Err(
                ValueRenderError::ExecuteCommandFailed { reason },
            ),
        }
    }
}

impl SubRender {
    /// Renders the document with its own engine.
    pub fn render(&self, renderer: &mut TemplateRenderer, journal: &mut Journal, depth: usize) -> (done:
        Result<(), ValueRenderError>)
        ensures
            final(renderer).config == old(renderer).config,
            ({
                let rendered = rendered_value(
                    old(renderer).config,
                    RenderableView::SubRender(self.processor@),
                    old(journal)@,
                    depth as nat,
                );
                &&& unit_view(done) == rendered.result
                &&& final(journal)@ == rendered.journal
                &&& final(renderer).output@ == old(renderer).output@ + rendered.output
            }),
        decreases depth, 5nat, 0nat,
    {
        if depth == 0 {
            assert(renderer.output@ + Seq::<char>::empty() =~= renderer.output@);
            return Err(ValueRenderError::DepthExceeded);
        }
        match self.processor.render(renderer, journal, depth - 1) {
            Ok(()) => Ok(()),
            Err(error) => Err(ValueRenderError::RenderCommandFailed { source: Box::new(error) }),
        }
    }

    /// A document does not reduce to a scalar.
    pub fn calculate(&self) -> (scalar: Result<RawValue, ValueRenderError>)
        ensures
            result_view(scalar) == Err::<ScalarView, ValueRenderErrorView>(
                ValueRenderErrorView::InvalidCalculateCall,
            ),
    {
        Err(ValueRenderError::InvalidCalculateCall)
    }
}

impl RenderableRawValue {
    /// The value that renders `value`.
    pub fn from(value: RawValue) -> (renderable: Self)
        ensures
            renderable.value == value,
    {
        RenderableRawValue { value }
    }
}

impl RenderableQuote {
    /// The value that renders the file `file`, seen from the directory of
    /// `context`.
    pub fn from(file: String, context: Rc<ProcessingContext>) -> (renderable: Self)
        ensures
            renderable.file == file,
            renderable.context == context,
    {
        RenderableQuote { file, context }
    }
}

impl RenderableExecutionResult {
    /// The value that renders what `executable`, seen from the directory of
    /// `context`, writes when it is run with `arguments`.
    pub fn from(executable: String, arguments: Vec<RawValue>, context: Rc<ProcessingContext>) -> (renderable: Self)
        ensures
            renderable.executable == executable,
            renderable.arguments == arguments,
            renderable.context == context,
    {
        RenderableExecutionResult { executable, arguments, context }
    }
}

impl SubRender {
    /// The value that renders the document of `processor`.
    pub fn from(processor: GlitterProcessor) -> (renderable: Self)
        ensures
            renderable.processor == processor,
    {
        SubRender { processor }
    }
}

} // verus!
