//! A template engine. A document defines values in a global scope, a local
//! scope and a list of injection rows, and a template whose placeholders
//! name the values to put in their place. The body of the template is
//! rendered once for each injection row.
//!
//! A value is a scalar, an alias for another value, the text of a file, the
//! definitions of another file, another document that is rendered in its
//! place, or what a command writes. The library reads no file and runs no
//! command itself: it asks for them. The answers are kept in a
//! [`processing::journal::Journal`]. A run takes its answers from the journal
//! in the order in which it asks; where the journal has none left, the run
//! ends and leaves its question pending. The caller answers the question,
//! records the answer and runs again, until a run ends with no question
//! pending. What a run yields is a function of the document and of the
//! answers alone; [`semantics`] says which.

pub mod config;
pub mod processing;
pub mod rendering;
pub mod semantics;
pub mod text;

use crate::config::reader::{
    chain, config_of_text, link, ConfigReadError, ConfigReadErrorView, ConfigReader,
};
use crate::text::texts;
use crate::processing::journal::Journal;
use crate::processing::processor::{
    document_context, global_context, GlitterProcessor, ProcessorView, RESOLUTION_DEPTH,
};
use crate::rendering::template_rendering::{default_renderer_config, TemplateRenderer};
use crate::rendering::{TemplateRenderError, TemplateRenderErrorView};
use crate::semantics::processor_rendered;
use vstd::prelude::*;

verus! {

/// Why a run failed.
#[derive(Debug, PartialEq, Eq)]
#[allow(inconsistent_fields)]
pub enum GlitterError {
    /// The input holds no document.
    InvalidConfig { source: ConfigReadError },
    /// The document could not be rendered.
    RenderingFailed { source: TemplateRenderError },
}

/// What a `GlitterError` stands for.
#[allow(inconsistent_fields)]
pub enum GlitterErrorView {
    InvalidConfig { source: ConfigReadErrorView },
    RenderingFailed { source: TemplateRenderErrorView },
}

impl View for GlitterError {
    type V = GlitterErrorView;

    open spec fn view(&self) -> GlitterErrorView {
        match self {
            GlitterError::InvalidConfig { source } => GlitterErrorView::InvalidConfig {
                source: source@,
            },
            GlitterError::RenderingFailed { source } => GlitterErrorView::RenderingFailed {
                source: source@,
            },
        }
    }
}

impl GlitterError {
    /// What the message of the error says.
    pub open spec fn message(self) -> Seq<char> {
        match self {
            GlitterError::InvalidConfig { .. } => "Failed to read input."@,
            GlitterError::RenderingFailed { .. } => "Failed to render value."@,
        }
    }

    /// What the messages of the causes of the error say, the nearest cause
    /// first.
    pub open spec fn cause_messages(self) -> Seq<Seq<char>> {
        match self {
            GlitterError::InvalidConfig { source } => link(
                source.message(),
                source.cause_messages(),
            ),
            GlitterError::RenderingFailed { source } => link(
                source.message(),
                source.cause_messages(),
            ),
        }
    }

    /// The message of the error.
    pub fn to_string(&self) -> (text: String)
        ensures
            text@ == self.message(),
    {
        match self {
            GlitterError::InvalidConfig { .. } => "Failed to read input.".to_owned(),
            GlitterError::RenderingFailed { .. } => "Failed to render value.".to_owned(),
        }
    }

    /// The messages of the causes of the error, the nearest cause first.
    pub fn causes(&self) -> (messages: Vec<String>)
        ensures
            texts(messages@) == self.cause_messages(),
    {
        match self {
            GlitterError::InvalidConfig { source } => chain(source.to_string(), source.causes()),
            GlitterError::RenderingFailed { source } => chain(source.to_string(), source.causes()),
        }
    }
}

/// What the outcome of a run stands for.
pub open spec fn outcome_view(outcome: Result<(), GlitterError>) -> Result<(), GlitterErrorView> {
    match outcome {
        Ok(()) => Ok(()),
        Err(error) => Err(error@),
    }
}

/// Reads the document that the text `input` holds, and renders it with the
/// markup `*{ path }` and `*> path`. `inputname` is the name of the file that
/// the text comes from and `starting_directory` its directory. What is
/// rendered is added to `output`; what was rendered before an error stays
/// there. Where the run needs the contents of a file or the output of a
/// command that `journal` does not hold yet, it ends in an error and leaves
/// the request pending in `journal`.
pub fn process(
    input: &str,
    inputname: String,
    starting_directory: String,
    journal: &mut Journal,
    output: &mut String,
) -> (outcome: Result<(), GlitterError>)
    ensures
        match config_of_text(input@) {
            Err(error) => {
                &&& outcome_view(outcome) == Err::<(), GlitterErrorView>(
                    GlitterErrorView::InvalidConfig { source: error },
                )
                &&& final(journal)@ == old(journal)@
                &&& final(output)@ == old(output)@
            },
            Ok(config) => {
                let rendered = processor_rendered(
                    default_renderer_config(),
                    ProcessorView {
                        global: global_context(starting_directory@, config),
                        root: document_context(
                            inputname@,
                            starting_directory@,
                            config,
                            Map::empty(),
                            None,
                        ),
                    },
                    old(journal)@,
                    RESOLUTION_DEPTH as nat,
                );
                &&& outcome_view(outcome) == match rendered.result {
                    Ok(()) => Ok(()),
                    Err(error) => Err(GlitterErrorView::RenderingFailed { source: error }),
                }
                &&& final(journal)@ == rendered.journal
                &&& final(output)@ == old(output)@ + rendered.output
            },
        },
{
    let config_reader = ConfigReader::new();
    let config = match config_reader.read(input) {
        Ok(config) => config,
        Err(error) => return Err(GlitterError::InvalidConfig { source: error }),
    };
    let processor = GlitterProcessor::new(inputname, starting_directory, config);
    let (done, written) = processor.run(TemplateRenderer::new(), journal);
    output.append(written.as_str());
    match done {
        Ok(()) => Ok(()),
        Err(error) => Err(GlitterError::RenderingFailed { source: error }),
    }
}

} // verus!
