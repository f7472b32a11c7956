//! Rendering templates and values, and what can go wrong with it.

pub mod template_rendering;
pub mod var_rendering;

use crate::config::reader::{chain, link, no_message, one_message, ConfigReadError, ConfigReadErrorView};
use crate::config::yaml_import::{YamlImportReadError, YamlImportReadErrorView};
use crate::text::{digits, join, join_texts, natural_text, texts};
use vstd::prelude::*;

verus! {

/// What the character after a marker makes of it.
#[derive(Debug, Clone, Copy, PartialEq, Eq, Structural)]
pub enum ProcessingStatement {
    Block,
    LineQuote,
    Plain,
}

/// Why a template could not be rendered.
#[derive(Debug, PartialEq, Eq)]
pub enum TemplateRenderError {
    /// The value of a placeholder could not be had or rendered.
    ValueRenderingFailed { source: Box<ValueRenderError> },
    /// A placeholder without a path; `start_at` is where the path would begin.
    EmptyProcessingBlock { start_at: usize },
    /// A block placeholder without its end; `start_at` is where its path begins.
    NonTerminatedProcessingBlock { start_at: usize },
    /// The file of a template section could not be read.
    InvalidTemplateFile { file_name: String, reason: String },
    /// The file of a template section is awaited from the outside.
    Suspended,
}

/// What a `TemplateRenderError` stands for.
pub enum TemplateRenderErrorView {
    ValueRenderingFailed { source: Box<ValueRenderErrorView> },
    EmptyProcessingBlock { start_at: usize },
    NonTerminatedProcessingBlock { start_at: usize },
    InvalidTemplateFile { file_name: Seq<char>, reason: Seq<char> },
    Suspended,
}

/// Why a value could not be resolved, rendered or reduced to a scalar.
#[derive(Debug, PartialEq, Eq)]
#[allow(inconsistent_fields)]
pub enum ValueRenderError {
    /// A file could not be read.
    FailedReadingText { input_file: String, reason: String },
    /// The value can be rendered, but not reduced to a scalar.
    InvalidCalculateCall,
    /// A document that a value renders failed.
    RenderCommandFailed { source: Box<TemplateRenderError> },
    /// A file name has no directory or no last part.
    FailedAccessingFilesystem,
    /// The loaded file `input_file` holds no definitions.
    LoadCommandFailed { input_file: String, source: Box<ConfigReadError> },
    /// The imported file `input_file` holds no definitions.
    ImportCommandFailed { input_file: String, source: Box<YamlImportReadError> },
    /// A command could not be run.
    ExecuteCommandFailed { reason: String },
    /// The output of a command is no UTF-8.
    ExecuteResultInvalid,
    /// An instruction on the way to a value failed; the paths are those
    /// visited up to it.
    FailedProcessingVariable { var_resolution_path: Vec<String>, source: Box<ValueRenderError> },
    /// No scope defines the path that was reached; the paths are those
    /// visited, the requested one first.
    FailedResolvingVariable { var_resolution_path: Vec<String> },
    /// The file `input_file` of a document to render holds no document.
    InvalidSubRenderConfig { input_file: String, source: Box<ConfigReadError> },
    /// Aliases, arguments or documents are nested deeper than the limit.
    DepthExceeded,
    /// An answer is awaited from the outside.
    Suspended,
}

/// What a `ValueRenderError` stands for.
#[allow(inconsistent_fields)]
pub enum ValueRenderErrorView {
    FailedReadingText { input_file: Seq<char>, reason: Seq<char> },
    InvalidCalculateCall,
    RenderCommandFailed { source: Box<TemplateRenderErrorView> },
    FailedAccessingFilesystem,
    LoadCommandFailed { input_file: Seq<char>, source: ConfigReadErrorView },
    ImportCommandFailed { input_file: Seq<char>, source: YamlImportReadErrorView },
    ExecuteCommandFailed { reason: Seq<char> },
    ExecuteResultInvalid,
    FailedProcessingVariable {
        var_resolution_path: Seq<Seq<char>>,
        source: Box<ValueRenderErrorView>,
    },
    FailedResolvingVariable { var_resolution_path: Seq<Seq<char>> },
    InvalidSubRenderConfig { input_file: Seq<char>, source: ConfigReadErrorView },
    DepthExceeded,
    Suspended,
}

impl View for TemplateRenderError {
    type V = TemplateRenderErrorView;

    open spec fn view(&self) -> TemplateRenderErrorView
        decreases self,
    {
        match self {
            TemplateRenderError::ValueRenderingFailed { source } => {
                TemplateRenderErrorView::ValueRenderingFailed {
                    source: Box::new((**source).view()),
                }
            },
            TemplateRenderError::EmptyProcessingBlock { start_at } => {
                TemplateRenderErrorView::EmptyProcessingBlock { start_at: *start_at }
            },
            TemplateRenderError::NonTerminatedProcessingBlock { start_at } => {
                TemplateRenderErrorView::NonTerminatedProcessingBlock { start_at: *start_at }
            },
            TemplateRenderError::InvalidTemplateFile { file_name, reason } => {
                TemplateRenderErrorView::InvalidTemplateFile {
                    file_name: file_name@,
                    reason: reason@,
                }
            },
            TemplateRenderError::Suspended => TemplateRenderErrorView::Suspended,
        }
    }
}

impl View for ValueRenderError {
    type V = ValueRenderErrorView;

    open spec fn view(&self) -> ValueRenderErrorView
        decreases self,
    {
        match self {
            ValueRenderError::FailedReadingText { input_file, reason } => {
                ValueRenderErrorView::FailedReadingText {
                    input_file: input_file@,
                    reason: reason@,
                }
            },
            ValueRenderError::InvalidCalculateCall => ValueRenderErrorView::InvalidCalculateCall,
            ValueRenderError::RenderCommandFailed { source } => {
                ValueRenderErrorView::RenderCommandFailed { source: Box::new((**source).view()) }
            },
            ValueRenderError::FailedAccessingFilesystem => {
                ValueRenderErrorView::FailedAccessingFilesystem
            },
            ValueRenderError::LoadCommandFailed { input_file, source } => {
                ValueRenderErrorView::LoadCommandFailed {
                    input_file: input_file@,
                    source: (**source)@,
                }
            },
            ValueRenderError::ImportCommandFailed { input_file, source } => {
                ValueRenderErrorView::ImportCommandFailed {
                    input_file: input_file@,
                    source: (**source)@,
                }
            },
            ValueRenderError::ExecuteCommandFailed { reason } => {
                ValueRenderErrorView::ExecuteCommandFailed { reason: reason@ }
            },
            ValueRenderError::ExecuteResultInvalid => ValueRenderErrorView::ExecuteResultInvalid,
            ValueRenderError::FailedProcessingVariable { var_resolution_path, source } => {
                ValueRenderErrorView::FailedProcessingVariable {
                    var_resolution_path: texts(var_resolution_path@),
                    source: Box::new((**source).view()),
                }
            },
            ValueRenderError::FailedResolvingVariable { var_resolution_path } => {
                ValueRenderErrorView::FailedResolvingVariable {
                    var_resolution_path: texts(var_resolution_path@),
                }
            },
            ValueRenderError::InvalidSubRenderConfig { input_file, source } => {
                ValueRenderErrorView::InvalidSubRenderConfig {
                    input_file: input_file@,
                    source: (**source)@,
                }
            },
            ValueRenderError::DepthExceeded => ValueRenderErrorView::DepthExceeded,
            ValueRenderError::Suspended => ValueRenderErrorView::Suspended,
        }
    }
}

impl TemplateRenderError {
    /// What the message of the error says.
    pub open spec fn message(self) -> Seq<char> {
        match self {
            TemplateRenderError::ValueRenderingFailed { .. } => {
                "Failed to generate a value for a processing block"@
            },
            TemplateRenderError::EmptyProcessingBlock { start_at } => {
                "Empty processing block in template starting at "@ + digits(start_at as nat)
            },
            TemplateRenderError::NonTerminatedProcessingBlock { start_at } => {
                "Non terminated processing block in template starting at "@ + digits(
                    start_at as nat,
                )
            },
            TemplateRenderError::InvalidTemplateFile { file_name, .. } => {
                "Invalid template source file "@ + file_name@
            },
            TemplateRenderError::Suspended => "Waiting for a template source file"@,
        }
    }

    /// What the messages of the causes of the error say, the nearest cause
    /// first.
    pub open spec fn cause_messages(self) -> Seq<Seq<char>>
        decreases self,
    {
        match self {
            TemplateRenderError::ValueRenderingFailed { source } => link(
                (*source).message(),
                (*source).cause_messages(),
            ),
            TemplateRenderError::InvalidTemplateFile { reason, .. } => seq![reason@],
            _ => Seq::empty(),
        }
    }

    /// The message of the error.
    pub fn to_string(&self) -> (text: String)
        ensures
            text@ == self.message(),
    {
        match self {
            TemplateRenderError::ValueRenderingFailed { .. } => {
                "Failed to generate a value for a processing block".to_owned()
            },
            TemplateRenderError::EmptyProcessingBlock { start_at } => {
                "Empty processing block in template starting at ".to_owned().concat(
                    natural_text(*start_at as u64).as_str(),
                )
            },
            TemplateRenderError::NonTerminatedProcessingBlock { start_at } => {
                "Non terminated processing block in template starting at ".to_owned().concat(
                    natural_text(*start_at as u64).as_str(),
                )
            },
            TemplateRenderError::InvalidTemplateFile { file_name, .. } => {
                "Invalid template source file ".to_owned().concat(file_name.as_str())
            },
            TemplateRenderError::Suspended => "Waiting for a template source file".to_owned(),
        }
    }

    /// The messages of the causes of the error, the nearest cause first.
    pub fn causes(&self) -> (messages: Vec<String>)
        ensures
            texts(messages@) == self.cause_messages(),
        decreases self,
    {
        match self {
            TemplateRenderError::ValueRenderingFailed { source } => chain(
                source.to_string(),
                source.causes(),
            ),
            TemplateRenderError::InvalidTemplateFile { reason, .. } => one_message(reason.clone()),
            _ => no_message(),
        }
    }
}

impl ValueRenderError {
    /// What the message of the error says. The paths of a trail stand one
    /// below the other, each after an arrow.
    pub open spec fn message(self) -> Seq<char> {
        match self {
            ValueRenderError::FailedReadingText { input_file, .. } => {
                "Failed to read input text from file "@ + input_file@
            },
            ValueRenderError::InvalidCalculateCall => {
                "Value can't be calculated, only rendered directly"@
            },
            ValueRenderError::RenderCommandFailed { .. } => "Sub-Rendering failed"@,
            ValueRenderError::FailedAccessingFilesystem => {
                "Filesystem could not be accessed successfully"@
            },
            ValueRenderError::LoadCommandFailed { input_file, .. } => {
                "Failed to process load of file "@ + input_file@
            },
            ValueRenderError::ImportCommandFailed { input_file, .. } => {
                "Failed to process import of file "@ + input_file@
            },
            ValueRenderError::ExecuteCommandFailed { .. } => "ExecuteCommandFailed"@,
            ValueRenderError::ExecuteResultInvalid => "ExecuteResultInvalid"@,
            ValueRenderError::FailedProcessingVariable { var_resolution_path, .. } => {
                "Failed to process variable definition: "@ + join(
                    texts(var_resolution_path@),
                    "\n\t\t\u{21d2} "@,
                )
            },
            ValueRenderError::FailedResolvingVariable { var_resolution_path } => {
                "Failed to resolve variable path: "@ + join(
                    texts(var_resolution_path@),
                    "\n\t\t\u{21d2}"@,
                )
            },
            ValueRenderError::InvalidSubRenderConfig { input_file, .. } => {
                "Configuration for Sub-Rendering is invalid in file "@ + input_file@
            },
            ValueRenderError::DepthExceeded => "Definitions are nested too deeply"@,
            ValueRenderError::Suspended => "Waiting for an answer from outside"@,
        }
    }

    /// What the messages of the causes of the error say, the nearest cause
    /// first.
    pub open spec fn cause_messages(self) -> Seq<Seq<char>>
        decreases self,
    {
        match self {
            ValueRenderError::FailedReadingText { reason, .. } => seq![reason@],
            ValueRenderError::RenderCommandFailed { source } => link(
                (*source).message(),
                (*source).cause_messages(),
            ),
            ValueRenderError::LoadCommandFailed { source, .. } => link(
                (*source).message(),
                (*source).cause_messages(),
            ),
            ValueRenderError::ImportCommandFailed { source, .. } => link(
                (*source).message(),
                (*source).cause_messages(),
            ),
            ValueRenderError::ExecuteCommandFailed { reason } => seq![reason@],
            ValueRenderError::FailedProcessingVariable { source, .. } => link(
                (*source).message(),
                (*source).cause_messages(),
            ),
            ValueRenderError::InvalidSubRenderConfig { source, .. } => link(
                (*source).message(),
                (*source).cause_messages(),
            ),
            _ => Seq::empty(),
        }
    }

    /// The message of the error.
    pub fn to_string(&self) -> (text: String)
        ensures
            text@ == self.message(),
    {
        match self {
            ValueRenderError::FailedReadingText { input_file, .. } => {
                "Failed to read input text from file ".to_owned().concat(input_file.as_str())
            },
            ValueRenderError::InvalidCalculateCall => {
                "Value can't be calculated, only rendered directly".to_owned()
            },
            ValueRenderError::RenderCommandFailed { .. } => "Sub-Rendering failed".to_owned(),
            ValueRenderError::FailedAccessingFilesystem => {
                "Filesystem could not be accessed successfully".to_owned()
            },
            ValueRenderError::LoadCommandFailed { input_file, .. } => {
                "Failed to process load of file ".to_owned().concat(input_file.as_str())
            },
            ValueRenderError::ImportCommandFailed { input_file, .. } => {
                "Failed to process import of file ".to_owned().concat(input_file.as_str())
            },
            ValueRenderError::ExecuteCommandFailed { .. } => "ExecuteCommandFailed".to_owned(),
            ValueRenderError::ExecuteResultInvalid => "ExecuteResultInvalid".to_owned(),
            ValueRenderError::FailedProcessingVariable { var_resolution_path, .. } => {
                "Failed to process variable definition: ".to_owned().concat(
                    join_texts(var_resolution_path, "\n\t\t\u{21d2} ").as_str(),
                )
            },
            ValueRenderError::FailedResolvingVariable { var_resolution_path } => {
                "Failed to resolve variable path: ".to_owned().concat(
                    join_texts(var_resolution_path, "\n\t\t\u{21d2}").as_str(),
                )
            },
            ValueRenderError::InvalidSubRenderConfig { input_file, .. } => {
                "Configuration for Sub-Rendering is invalid in file ".to_owned().concat(
                    input_file.as_str(),
                )
            },
            ValueRenderError::DepthExceeded => "Definitions are nested too deeply".to_owned(),
            ValueRenderError::Suspended => "Waiting for an answer from outside".to_owned(),
        }
    }

    /// The messages of the causes of the error, the nearest cause first.
    pub fn causes(&self) -> (messages: Vec<String>)
        ensures
            texts(messages@) == self.cause_messages(),
        decreases self,
    {
        match self {
            ValueRenderError::FailedReadingText { reason, .. } => one_message(reason.clone()),
            ValueRenderError::RenderCommandFailed { source } => chain(
                source.to_string(),
                source.causes(),
            ),
            ValueRenderError::LoadCommandFailed { source, .. } => chain(
                source.to_string(),
                source.causes(),
            ),
            ValueRenderError::ImportCommandFailed { source, .. } => chain(
                source.to_string(),
                source.causes(),
            ),
            ValueRenderError::ExecuteCommandFailed { reason } => one_message(reason.clone()),
            ValueRenderError::FailedProcessingVariable { source, .. } => chain(
                source.to_string(),
                source.causes(),
            ),
            ValueRenderError::InvalidSubRenderConfig { source, .. } => chain(
                source.to_string(),
                source.causes(),
            ),
            _ => no_message(),
        }
    }
}

} // verus!
