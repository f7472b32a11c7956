//! The markup of templates: literal text, and placeholders that name the
//! path of a value.

use crate::config::model::{TemplateDefinition, TemplateValue};
use crate::processing::context::ProcessingContext;
use crate::processing::journal::{Interruption, Journal};
use crate::processing::processor::GlitterProcessor;
use crate::rendering::{ProcessingStatement, TemplateRenderError, TemplateRenderErrorView};
use crate::semantics::{
    optional_section_rendered, placeholder_rendered, rows_rendered, scanned, section_rendered,
    template_failure, template_rendered, Rendered,
};
use crate::text::chars_of;
use std::rc::Rc;
use crate::text::{
    find_from, first_at_or_after, first_at_or_after_bounds, text_between, trim, trimmed_text,
};
use vstd::prelude::*;

verus! {

/// The four characters of the markup: the marker that starts a placeholder,
/// the brackets of a block placeholder, and the character that follows the
/// marker in a line placeholder.
#[derive(Debug, Clone, Copy, PartialEq, Eq, Structural)]
pub struct TemplateRendererConfig {
    pub marker: char,
    pub start_block: char,
    pub end_block: char,
    pub line_quote: char,
}

/// The markup `*{ path }` and `*> path`.
pub open spec fn default_renderer_config() -> TemplateRendererConfig {
    TemplateRendererConfig { marker: '*', start_block: '{', end_block: '}', line_quote: '>' }
}

impl Default for TemplateRendererConfig {
    /// The markup `*{ path }` and `*> path`.
    fn default() -> (config: Self)
        ensures
            config == default_renderer_config(),
    {
        TemplateRendererConfig { marker: '*', start_block: '{', end_block: '}', line_quote: '>' }
    }
}

/// A renderer: the markup that it reads, and the text that it has written.
#[derive(Debug, PartialEq, Eq)]
pub struct TemplateRenderer {
    pub config: TemplateRendererConfig,
    pub output: String,
}

/// What the marker at `at` starts, by the character that follows it.
pub open spec fn statement_at(config: TemplateRendererConfig, text: Seq<char>, at: int) -> ProcessingStatement {
    if at + 1 < text.len() && text[at + 1] == config.start_block {
        ProcessingStatement::Block
    } else if at + 1 < text.len() && text[at + 1] == config.line_quote {
        ProcessingStatement::LineQuote
    } else {
        ProcessingStatement::Plain
    }
}

/// The path that the `length` characters from `start` spell, without the
/// whitespace around it, together with `length`. A path without characters
/// is an error.
pub open spec fn variable_name(text: Seq<char>, start: int, length: int) -> Result<
    (Seq<char>, usize),
    TemplateRenderErrorView,
> {
    let path = trim(text.subrange(start, start + length));
    if path.len() == 0 {
        Err(TemplateRenderErrorView::EmptyProcessingBlock { start_at: start as usize })
    } else {
        Ok((path, length as usize))
    }
}

/// The path of a block placeholder whose path begins at `start`: what
/// stands before the first `end_marker`. Without an `end_marker` the
/// placeholder is not terminated.
pub open spec fn enclosed_var_path(text: Seq<char>, start: int, end_marker: char) -> Result<
    (Seq<char>, usize),
    TemplateRenderErrorView,
> {
    let end = first_at_or_after(text, end_marker, start);
    if end >= text.len() {
        Err(TemplateRenderErrorView::NonTerminatedProcessingBlock { start_at: start as usize })
    } else {
        variable_name(text, start, end - start)
    }
}

/// The path of a line placeholder whose path begins at `start`: what
/// stands before the end of the line, or of the text.
pub open spec fn trailing_var_path(text: Seq<char>, start: int) -> Result<
    (Seq<char>, usize),
    TemplateRenderErrorView,
> {
    variable_name(text, start, first_at_or_after(text, '\n', start) - start)
}

/// What a path and its length stand for.
pub open spec fn name_view(name: Result<(String, usize), TemplateRenderError>) -> Result<
    (Seq<char>, usize),
    TemplateRenderErrorView,
> {
    match name {
        Ok((path, length)) => Ok((path@, length)),
        Err(error) => Err(error@),
    }
}

/// What the outcome of rendering a template stands for.
pub open spec fn template_unit_view(result: Result<(), TemplateRenderError>) -> Result<
    (),
    TemplateRenderErrorView,
> {
    match result {
        Ok(()) => Ok(()),
        Err(error) => Err(error@),
    }
}

/// Text written before text written before an outcome is their concatenation
/// written before the outcome.
pub proof fn after_after<E>(outcome: Rendered<E>, first: Seq<char>, second: Seq<char>)
    ensures
        outcome.after(first).after(second) == outcome.after(second + first),
{
    assert(second + (first + outcome.output) =~= (second + first) + outcome.output);
}

/// The rows from `row` on are the row `row`, a line feed, and the rows after
/// it; a row that fails ends the rendering.
pub proof fn rows_step(
    config: TemplateRendererConfig,
    engine: crate::processing::processor::ProcessorView,
    body: crate::config::model::TemplateValueView,
    row: usize,
    rows: usize,
    context: crate::processing::context::ContextView,
    journal: crate::processing::journal::JournalView,
    depth: nat,
)
    requires
        row < rows,
    ensures
        ({
            let first = section_rendered(config, engine, body, row, context, journal, depth);
            rows_rendered(config, engine, body, row, rows, context, journal, depth)
                == match first.result {
                Err(error) => first,
                Ok(()) => rows_rendered(
                    config,
                    engine,
                    body,
                    (row + 1) as usize,
                    rows,
                    context,
                    first.journal,
                    depth,
                ).after(first.output + seq!['\n']),
            }
        }),
{
}

impl TemplateRenderer {
    /// A renderer of the markup `*{ path }` and `*> path` that has written
    /// nothing.
    pub fn new() -> (renderer: Self)
        ensures
            renderer.config == default_renderer_config(),
            renderer.output@ == Seq::<char>::empty(),
    {
        Self { config: TemplateRendererConfig::default(), output: String::new() }
    }

    /// A renderer of the markup of `config` that has written nothing.
    pub fn based_upon_config(config: TemplateRendererConfig) -> (renderer: Self)
        ensures
            renderer.config == config,
            renderer.output@ == Seq::<char>::empty(),
    {
        Self { config, output: String::new() }
    }

    /// The text that the renderer has written.
    pub fn into_output(self) -> (output: String)
        ensures
            output == self.output,
    {
        self.output
    }

    /// Writes `text`.
    pub fn write(&mut self, text: &str)
        ensures
            final(self).config == old(self).config,
            final(self).output@ == old(self).output@ + text@,
    {
        self.output.append(text);
    }

    /// What the marker at `char_index` starts.
    pub fn is_processing_block(&self, chars: &Vec<char>, char_index: usize) -> (statement:
        ProcessingStatement)
        requires
            char_index < chars.len(),
        ensures
            statement == statement_at(self.config, chars@, char_index as int),
    {
        if char_index + 1 < chars.len() && chars[char_index + 1] == self.config.start_block {
            ProcessingStatement::Block
        } else if char_index + 1 < chars.len() && chars[char_index + 1] == self.config.line_quote {
            ProcessingStatement::LineQuote
        } else {
            ProcessingStatement::Plain
        }
    }

    /// Writes the literal text `template[from..to]`.
    pub fn quote(&mut self, template: &Vec<char>, from: usize, to: usize)
        requires
            from <= to <= template.len(),
        ensures
            final(self).config == old(self).config,
            final(self).output@ == old(self).output@ + template@.subrange(from as int, to as int),
    {
        if from < to {
            let text = text_between(template, from, to);
            self.write(text.as_str());
        } else {
            assert(template@.subrange(from as int, to as int) =~= Seq::empty());
            assert(self.output@ + Seq::empty() =~= self.output@);
        }
    }

    /// The path of the block placeholder whose path begins at
    /// `start_position`, and the number of characters before `end_marker`.
    pub fn extract_enclosed_var_path(
        &self,
        chars: &Vec<char>,
        start_position: usize,
        end_marker: char,
    ) -> (name: Result<(String, usize), TemplateRenderError>)
        requires
            start_position <= chars.len(),
        ensures
            name_view(name) == enclosed_var_path(chars@, start_position as int, end_marker),
    {
        let end = find_from(chars, end_marker, start_position);
        if end < chars.len() {
            Self::return_variable_name(chars, start_position, end - start_position)
        } else {
            Err(TemplateRenderError::NonTerminatedProcessingBlock { start_at: start_position })
        }
    }

    /// The path of the line placeholder whose path begins at
    /// `start_position`, and the number of characters up to the end of the
    /// line.
    pub fn extract_trailing_var_path(&self, chars: &Vec<char>, start_position: usize) -> (name:
        Result<(String, usize), TemplateRenderError>)
        requires
            start_position <= chars.len(),
        ensures
            name_view(name) == trailing_var_path(chars@, start_position as int),
    {
        let end = find_from(chars, '\n', start_position);
        Self::return_variable_name(chars, start_position, end - start_position)
    }

    /// The path that the `relative_index` characters from `start_position`
    /// spell.
    pub fn return_variable_name(chars: &Vec<char>, start_position: usize, relative_index: usize) -> (name:
        Result<(String, usize), TemplateRenderError>)
        requires
            start_position + relative_index <= chars.len(),
        ensures
            name_view(name) == variable_name(
                chars@,
                start_position as int,
                relative_index as int,
            ),
    {
        let path = trimmed_text(chars, start_position, start_position + relative_index);
        if path.as_str().unicode_len() == 0 {
            Err(TemplateRenderError::EmptyProcessingBlock { start_at: start_position })
        } else {
            Ok((path, relative_index))
        }
    }

    /// The text of a template section: as it stands, or read from the file
    /// that the section names.
    pub fn read_template(
        &self,
        template: &TemplateValue,
        context: &Rc<ProcessingContext>,
        journal: &mut Journal,
    ) -> (text: Result<String, TemplateRenderError>)
        ensures
            match template@ {
                crate::config::model::TemplateValueView::RawValue(given) => {
                    &&& final(journal)@ == old(journal)@
                    &&& text matches Ok(text) && text@ == given
                },
                crate::config::model::TemplateValueView::Quote(file) => {
                    let asked = old(journal)@.ask_text(
                        crate::processing::context::joined_path((**context)@.directory, file),
                    );
                    &&& final(journal)@ == asked.journal
                    &&& match asked.result {
                        Ok(read) => text matches Ok(text) && text@ == read,
                        Err(interruption) => text matches Err(error) && error@
                            == template_failure(file, interruption),
                    }
                },
            },
    {
        match template {
            TemplateValue::RawValue(template) => Ok(template.clone()),
            TemplateValue::Quote(file_path) => {
                let full_file_path = context.resolve_filename(file_path.as_str());
                match journal.ask_text(full_file_path) {
                    Ok(contents) => Ok(contents),
                    Err(Interruption::Suspended) => Err(TemplateRenderError::Suspended),
                    Err(Interruption::Failed(reason)) => Err(
                        TemplateRenderError::InvalidTemplateFile {
                            file_name: file_path.clone(),
                            reason,
                        },
                    ),
                }
            },
        }
    }

    /// Renders one section of a template for the row `iteration_count`.
    pub fn heavylift_render(
        &mut self,
        template: &TemplateValue,
        iteration_count: usize,
        context: &Rc<ProcessingContext>,
        value_renderer: &GlitterProcessor,
        journal: &mut Journal,
        depth: usize,
    ) -> (done: Result<(), TemplateRenderError>)
        ensures
            final(self).config == old(self).config,
            ({
                let rendered = section_rendered(
                    old(self).config,
                    value_renderer@,
                    template@,
                    iteration_count,
                    (**context)@,
                    old(journal)@,
                    depth as nat,
                );
                &&& template_unit_view(done) == rendered.result
                &&& final(journal)@ == rendered.journal
                &&& final(self).output@ == old(self).output@ + rendered.output
            }),
        decreases depth, 8nat, 0nat,
    {
        let template_content = match self.read_template(template, context, journal) {
            Ok(content) => content,
            Err(error) => {
                assert(self.output@ + Seq::<char>::empty() =~= self.output@);
                return Err(error);
            },
        };
        let chars = chars_of(template_content.as_str());
        self.scan(&chars, iteration_count, value_renderer, journal, depth)
    }

    /// Renders the text `chars` of a template section for the row
    /// `iteration_count`.
    pub fn scan(
        &mut self,
        chars: &Vec<char>,
        iteration_count: usize,
        value_renderer: &GlitterProcessor,
        journal: &mut Journal,
        depth: usize,
    ) -> (done: Result<(), TemplateRenderError>)
        ensures
            final(self).config == old(self).config,
            ({
                let rendered = scanned(
                    old(self).config,
                    value_renderer@,
                    chars@,
                    0,
                    iteration_count,
                    old(journal)@,
                    depth as nat,
                );
                &&& template_unit_view(done) == rendered.result
                &&& final(journal)@ == rendered.journal
                &&& final(self).output@ == old(self).output@ + rendered.output
            }),
        decreases depth, 7nat, 0nat,
    {
        let ghost config = self.config;
        let ghost engine = value_renderer@;
        let ghost text = chars@;
        let ghost total = scanned(
            config,
            engine,
            text,
            0,
            iteration_count,
            old(journal)@,
            depth as nat,
        );
        let ghost mut written: Seq<char> = Seq::empty();
        let mut from: usize = 0;
        let mut char_index: usize = 0;
        assert(self.output@ + written =~= self.output@);
        assert(total.after(written + text.subrange(0, 0)) == total) by {
            assert(written + text.subrange(0, 0) + total.output =~= total.output);
        }
        while char_index < chars.len()
            invariant
                from <= char_index <= chars.len(),
                config == old(self).config,
                self.config == config,
                engine == value_renderer@,
                text == chars@,
                self.output@ == old(self).output@ + written,
                total == scanned(
                    config,
                    engine,
                    text,
                    0,
                    iteration_count,
                    old(journal)@,
                    depth as nat,
                ),
                total == scanned(
                    config,
                    engine,
                    text,
                    char_index as int,
                    iteration_count,
                    journal@,
                    depth as nat,
                ).after(written + text.subrange(from as int, char_index as int)),
            decreases chars.len() - char_index,
        {
            let ghost here = scanned(
                config,
                engine,
                text,
                char_index as int,
                iteration_count,
                journal@,
                depth as nat,
            );
            let ghost pending = written + text.subrange(from as int, char_index as int);
            let statement = if chars[char_index] == self.config.marker {
                self.is_processing_block(chars, char_index)
            } else {
                ProcessingStatement::Plain
            };
            match statement {
                ProcessingStatement::Plain => {
                    proof {
                        let next = scanned(
                            config,
                            engine,
                            text,
                            char_index + 1,
                            iteration_count,
                            journal@,
                            depth as nat,
                        );
                        assert(here == next.after(seq![text[char_index as int]]));
                        after_after(next, seq![text[char_index as int]], pending);
                        assert(pending + seq![text[char_index as int]] =~= written + text.subrange(
                            from as int,
                            char_index + 1,
                        ));
                    }
                    char_index += 1;
                },
                _ => {
                    self.quote(chars, from, char_index);
                    proof {
                        written = pending;
                    }
                    let start = char_index + 2;
                    let name = if statement == ProcessingStatement::Block {
                        self.extract_enclosed_var_path(chars, start, self.config.end_block)
                    } else {
                        self.extract_trailing_var_path(chars, start)
                    };
                    let ghost next: int = if statement == ProcessingStatement::Block {
                        first_at_or_after(text, config.end_block, start as int) + 1
                    } else {
                        first_at_or_after(text, '\n', start as int)
                    };
                    proof {
                        first_at_or_after_bounds(text, config.end_block, start as int);
                        first_at_or_after_bounds(text, '\n', start as int);
                        assert(here == placeholder_rendered(
                            config,
                            engine,
                            text,
                            name_view(name),
                            next,
                            iteration_count,
                            journal@,
                            depth as nat,
                            char_index as int,
                        ));
                    }
                    let (var_path, length) = match name {
                        Ok(found) => found,
                        Err(error) => {
                            assert(pending + Seq::<char>::empty() =~= pending);
                            return Err(error);
                        },
                    };
                    let ghost before = journal@;
                    let rendered = value_renderer.render_value(
                        var_path.as_str(),
                        iteration_count,
                        self,
                        journal,
                        depth,
                    );
                    let ghost value = crate::semantics::value_rendered(
                        config,
                        engine,
                        var_path@,
                        iteration_count,
                        before,
                        depth as nat,
                    );
                    proof {
                        written = pending + value.output;
                        assert(self.output@ =~= old(self).output@ + written);
                    }
                    if let Err(error) = rendered {
                        return Err(
                            TemplateRenderError::ValueRenderingFailed { source: Box::new(error) },
                        );
                    }
                    char_index = if statement == ProcessingStatement::Block {
                        start + length + 1
                    } else {
                        start + length
                    };
                    from = char_index;
                    proof {
                        let rest = scanned(
                            config,
                            engine,
                            text,
                            char_index as int,
                            iteration_count,
                            journal@,
                            depth as nat,
                        );
                        assert(here == rest.after(value.output));
                        after_after(rest, value.output, pending);
                        assert(written + text.subrange(from as int, char_index as int)
                            =~= written);
                    }
                },
            }
        }
        self.quote(chars, from, char_index);
        proof {
            let end = scanned(
                config,
                engine,
                text,
                char_index as int,
                iteration_count,
                journal@,
                depth as nat,
            );
            assert(written + text.subrange(from as int, char_index as int) + end.output
                =~= written + text.subrange(from as int, char_index as int));
            assert(old(self).output@ + written + text.subrange(from as int, char_index as int)
                =~= old(self).output@ + (written + text.subrange(
                from as int,
                char_index as int,
            )));
        }
        Ok(())
    }

    /// Renders a section that a template may lack.
    fn render_optional(
        &mut self,
        section: &Option<TemplateValue>,
        context: &Rc<ProcessingContext>,
        value_renderer: &GlitterProcessor,
        journal: &mut Journal,
        depth: usize,
    ) -> (done: Result<(), TemplateRenderError>)
        ensures
            final(self).config == old(self).config,
            ({
                let rendered = optional_section_rendered(
                    old(self).config,
                    value_renderer@,
                    crate::config::model::section_view(*section),
                    (**context)@,
                    old(journal)@,
                    depth as nat,
                );
                &&& template_unit_view(done) == rendered.result
                &&& final(journal)@ == rendered.journal
                &&& final(self).output@ == old(self).output@ + rendered.output
            }),
        decreases depth, 9nat, 0nat,
    {
        match section {
            Some(section) => self.heavylift_render(
                section,
                0,
                context,
                value_renderer,
                journal,
                depth,
            ),
            None => {
                assert(self.output@ + Seq::<char>::empty() =~= self.output@);
                Ok(())
            },
        }
    }

    /// Renders the body of a template once for each of `body_iterations`
    /// rows, each time followed by a line feed.
    fn render_rows(
        &mut self,
        body: &TemplateValue,
        body_iterations: usize,
        context: &Rc<ProcessingContext>,
        value_renderer: &GlitterProcessor,
        journal: &mut Journal,
        depth: usize,
    ) -> (done: Result<(), TemplateRenderError>)
        ensures
            final(self).config == old(self).config,
            ({
                let rendered = rows_rendered(
                    old(self).config,
                    value_renderer@,
                    body@,
                    0,
                    body_iterations,
                    (**context)@,
                    old(journal)@,
                    depth as nat,
                );
                &&& template_unit_view(done) == rendered.result
                &&& final(journal)@ == rendered.journal
                &&& final(self).output@ == old(self).output@ + rendered.output
            }),
        decreases depth, 9nat, 1nat,
    {
        let ghost config = self.config;
        let ghost engine = value_renderer@;
        let ghost all_rows = rows_rendered(
            config,
            engine,
            body@,
            0,
            body_iterations,
            (**context)@,
            old(journal)@,
            depth as nat,
        );
        let ghost mut written: Seq<char> = Seq::empty();
        let mut iteration_count: usize = 0;
        assert(all_rows.after(written) == all_rows) by {
            assert(written + all_rows.output =~= all_rows.output);
        }
        assert(self.output@ =~= old(self).output@ + written);
        while iteration_count < body_iterations
            invariant
                iteration_count <= body_iterations,
                self.config == config,
                config == old(self).config,
                engine == value_renderer@,
                self.output@ == old(self).output@ + written,
                all_rows == rows_rendered(
                    config,
                    engine,
                    body@,
                    0,
                    body_iterations,
                    (**context)@,
                    old(journal)@,
                    depth as nat,
                ),
                all_rows == rows_rendered(
                    config,
                    engine,
                    body@,
                    iteration_count,
                    body_iterations,
                    (**context)@,
                    journal@,
                    depth as nat,
                ).after(written),
            decreases body_iterations - iteration_count,
        {
            let ghost before = journal@;
            let ghost first = section_rendered(
                config,
                engine,
                body@,
                iteration_count,
                (**context)@,
                before,
                depth as nat,
            );
            let ghost start = self.output@;
            let done = self.heavylift_render(
                body,
                iteration_count,
                context,
                value_renderer,
                journal,
                depth,
            );
            assert(self.output@ == start + first.output);
            if let Err(error) = done {
                proof {
                    rows_step(
                        config,
                        engine,
                        body@,
                        iteration_count,
                        body_iterations,
                        (**context)@,
                        before,
                        depth as nat,
                    );
                    assert(old(self).output@ + written + first.output =~= old(self).output@ + (
                    written + first.output));
                }
                return Err(error);
            }
            proof {
                reveal_strlit("\n");
            }
            self.write("\n");
            proof {
                rows_step(
                    config,
                    engine,
                    body@,
                    iteration_count,
                    body_iterations,
                    (**context)@,
                    before,
                    depth as nat,
                );
                let rest = rows_rendered(
                    config,
                    engine,
                    body@,
                    (iteration_count + 1) as usize,
                    body_iterations,
                    (**context)@,
                    journal@,
                    depth as nat,
                );
                after_after(rest, first.output + seq!['\n'], written);
                assert(self.output@ =~= old(self).output@ + (written + (first.output + seq![
                    '\n',
                ])));
                written = written + (first.output + seq!['\n']);
            }
            iteration_count += 1;
        }
        proof {
            assert(written + Seq::<char>::empty() =~= written);
        }
        Ok(())
    }

    /// Renders a template: the header once, the body once for each of
    /// `body_iterations` rows, each time followed by a line feed, and the
    /// footer once.
    pub fn render(
        &mut self,
        template: &TemplateDefinition,
        body_iterations: usize,
        context: Rc<ProcessingContext>,
        value_renderer: &GlitterProcessor,
        journal: &mut Journal,
        depth: usize,
    ) -> (done: Result<(), TemplateRenderError>)
        ensures
            final(self).config == old(self).config,
            ({
                let rendered = template_rendered(
                    old(self).config,
                    value_renderer@,
                    template@,
                    body_iterations,
                    (*context)@,
                    old(journal)@,
                    depth as nat,
                );
                &&& template_unit_view(done) == rendered.result
                &&& final(journal)@ == rendered.journal
                &&& final(self).output@ == old(self).output@ + rendered.output
            }),
        decreases depth, 10nat, 0nat,
    {
        let ghost config = self.config;
        let ghost engine = value_renderer@;
        let ghost header = optional_section_rendered(
            config,
            engine,
            template@.header,
            (*context)@,
            old(journal)@,
            depth as nat,
        );
        if let Err(error) = self.render_optional(
            &template.header,
            &context,
            value_renderer,
            journal,
            depth,
        ) {
            return Err(error);
        }
        let ghost rows = rows_rendered(
            config,
            engine,
            template@.body,
            0,
            body_iterations,
            (*context)@,
            header.journal,
            depth as nat,
        );
        if let Err(error) = self.render_rows(
            &template.body,
            body_iterations,
            &context,
            value_renderer,
            journal,
            depth,
        ) {
            proof {
                assert(old(self).output@ + header.output + rows.output =~= old(self).output@ + (
                header.output + rows.output));
            }
            return Err(error);
        }
        let ghost footer = optional_section_rendered(
            config,
            engine,
            template@.footer,
            (*context)@,
            rows.journal,
            depth as nat,
        );
        let done = self.render_optional(&template.footer, &context, value_renderer, journal, depth);
        proof {
            assert(old(self).output@ + header.output + rows.output + footer.output
                =~= old(self).output@ + (header.output + rows.output + footer.output));
        }
        done
    }
}

} // verus!
