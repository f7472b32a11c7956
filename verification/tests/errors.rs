use glitter::config::reader::{
    ConfigReadError, ConfigReader, RawValueError, TemplateDefinitionError, ValueDefinitionError,
};
use glitter::config::yaml_import::{YamlImportReadError, YamlImporter};
use glitter::rendering::{TemplateRenderError, ValueRenderError};
use glitter::GlitterError;

#[test]
fn messages_of_reading_errors() {
    assert_eq!(RawValueError::EmptyRawValue.to_string(), "Empty value for a Raw Value");
    assert_eq!(
        RawValueError::UnsupportedRawValueType.to_string(),
        "Unsupported value type for a Raw Value"
    );
    assert_eq!(
        TemplateDefinitionError::InvalidTemplateSubstructure { yaml_source: "---\n5".to_owned() }
            .to_string(),
        "Unknown/Unsupported Variable definition:\n---\n5"
    );
    assert_eq!(
        ValueDefinitionError::UnknownValueType { yaml_source: "---\nx: 1".to_owned() }.to_string(),
        "Unknown/Unsupported Value definition:\n---\nx: 1"
    );
    assert_eq!(
        ValueDefinitionError::InvalidRawValue {
            yaml_source: "s".to_owned(),
            source: Box::new(RawValueError::EmptyRawValue)
        }
        .to_string(),
        "Invalid definition of a raw value:\ns"
    );
    assert_eq!(
        ValueDefinitionError::InvalidSubDefinition {
            var_type: "Object",
            source: Box::new(ConfigReadError::InjectionMissing)
        }
        .to_string(),
        "Invalid sub-structure definition for a value of type Object"
    );
    assert_eq!(ConfigReadError::InjectionMissing.to_string(), "Missing injection");
    assert_eq!(ConfigReadError::InvalidTypeAtInjection.to_string(), "Invalid type for injection");
    assert_eq!(ConfigReadError::TemplateMissing.to_string(), "Missing template");
    assert_eq!(ConfigReadError::InvalidTypeAtTemplate.to_string(), "Invalid type for template");
    assert_eq!(ConfigReadError::MissingLoadSource.to_string(), "Empty load source");
    assert_eq!(
        ConfigReadError::InvalidYaml { reason: "r".to_owned() }.to_string(),
        "Invalid YAML as input"
    );
    assert_eq!(
        ConfigReadError::InvalidTypeAtLoadSource { yaml_source: "- 1".to_owned() }.to_string(),
        "Wrong YAML type for load source:\n- 1"
    );
    assert_eq!(
        ConfigReadError::InvalidTypeAsVarName { key: "k".to_owned() }.to_string(),
        "Variable name k has an invalid type. Must be a string"
    );
    assert_eq!(
        ConfigReadError::InvalidTemplateVarDefinition {
            section: "header",
            source: Box::new(TemplateDefinitionError::InvalidTemplateSubstructure {
                yaml_source: "s".to_owned()
            })
        }
        .to_string(),
        "Invalid variable definition at template header"
    );
    assert_eq!(
        YamlImportReadError::InvalidType { value_type: "Array".to_owned() }.to_string(),
        "Unsupported Input Type Array"
    );
    assert_eq!(
        YamlImportReadError::YamlError { reason: "r".to_owned() }.to_string(),
        "Input is not valid YAML"
    );
}

#[test]
fn messages_of_rendering_errors() {
    assert_eq!(
        TemplateRenderError::EmptyProcessingBlock { start_at: 12 }.to_string(),
        "Empty processing block in template starting at 12"
    );
    assert_eq!(
        TemplateRenderError::NonTerminatedProcessingBlock { start_at: 0 }.to_string(),
        "Non terminated processing block in template starting at 0"
    );
    assert_eq!(
        TemplateRenderError::InvalidTemplateFile { file_name: "t".to_owned(), reason: "r".to_owned() }
            .to_string(),
        "Invalid template source file t"
    );
    assert_eq!(
        TemplateRenderError::Suspended.to_string(),
        "Waiting for a template source file"
    );
    assert_eq!(
        ValueRenderError::FailedResolvingVariable {
            var_resolution_path: vec!["a".to_owned(), "b.c".to_owned(), "d".to_owned()]
        }
        .to_string(),
        "Failed to resolve variable path: a\n\t\t\u{21d2}b.c\n\t\t\u{21d2}d"
    );
    assert_eq!(
        ValueRenderError::FailedProcessingVariable {
            var_resolution_path: vec!["a".to_owned(), "b".to_owned()],
            source: Box::new(ValueRenderError::Suspended)
        }
        .to_string(),
        "Failed to process variable definition: a\n\t\t\u{21d2} b"
    );
    assert_eq!(
        ValueRenderError::FailedReadingText { input_file: "f".to_owned(), reason: "r".to_owned() }
            .to_string(),
        "Failed to read input text from file f"
    );
    assert_eq!(
        ValueRenderError::InvalidCalculateCall.to_string(),
        "Value can't be calculated, only rendered directly"
    );
    assert_eq!(
        ValueRenderError::FailedAccessingFilesystem.to_string(),
        "Filesystem could not be accessed successfully"
    );
    assert_eq!(
        ValueRenderError::ExecuteCommandFailed { reason: "r".to_owned() }.to_string(),
        "ExecuteCommandFailed"
    );
    assert_eq!(ValueRenderError::ExecuteResultInvalid.to_string(), "ExecuteResultInvalid");
    assert_eq!(ValueRenderError::DepthExceeded.to_string(), "Definitions are nested too deeply");
    assert_eq!(ValueRenderError::Suspended.to_string(), "Waiting for an answer from outside");
}

#[test]
fn the_causes_of_an_error_are_listed_from_the_nearest() {
    let error = GlitterError::RenderingFailed {
        source: TemplateRenderError::ValueRenderingFailed {
            source: Box::new(ValueRenderError::FailedProcessingVariable {
                var_resolution_path: vec!["sub".to_owned()],
                source: Box::new(ValueRenderError::InvalidSubRenderConfig {
                    input_file: "/base/sub.yaml".to_owned(),
                    source: Box::new(ConfigReadError::InvalidVarDefinitionBlock {
                        block: "local".to_owned(),
                        source: Box::new(ConfigReadError::InvalidValueDefinition {
                            key: "a".to_owned(),
                            source: Box::new(ValueDefinitionError::InvalidRawValue {
                                yaml_source: "---\nv".to_owned(),
                                source: Box::new(RawValueError::UnsupportedRawValueType),
                            }),
                        }),
                    }),
                }),
            }),
        },
    };
    assert_eq!(error.to_string(), "Failed to render value.");
    assert_eq!(
        error.causes(),
        vec![
            "Failed to generate a value for a processing block",
            "Failed to process variable definition: sub",
            "Configuration for Sub-Rendering is invalid in file /base/sub.yaml",
            "Invalid variable definition block for local",
            "Invalid value definition for variable named a",
            "Invalid definition of a raw value:\n---\nv",
            "Unsupported value type for a Raw Value",
        ]
    );
}

#[test]
fn what_the_outside_reports_is_the_last_cause() {
    let error = GlitterError::RenderingFailed {
        source: TemplateRenderError::ValueRenderingFailed {
            source: Box::new(ValueRenderError::RenderCommandFailed {
                source: Box::new(TemplateRenderError::InvalidTemplateFile {
                    file_name: "t.tpl".to_owned(),
                    reason: "No such file or directory".to_owned(),
                }),
            }),
        },
    };
    assert_eq!(
        error.causes(),
        vec![
            "Failed to generate a value for a processing block",
            "Sub-Rendering failed",
            "Invalid template source file t.tpl",
            "No such file or directory",
        ]
    );
    assert_eq!(
        ValueRenderError::ExecuteCommandFailed { reason: "denied".to_owned() }.causes(),
        vec!["denied"]
    );
    assert_eq!(ValueRenderError::DepthExceeded.causes(), Vec::<String>::new());
}

#[test]
fn invalid_yaml_is_reported_with_what_the_scanner_says() {
    let error = ConfigReader::new().read("a: [1").unwrap_err();
    assert_eq!(error.to_string(), "Invalid YAML as input");
    let causes = error.causes();
    assert_eq!(causes.len(), 1);
    assert!(causes[0].contains("line 2"), "{}", causes[0]);
    let wrapped = GlitterError::InvalidConfig { source: error };
    assert_eq!(wrapped.to_string(), "Failed to read input.");
    assert_eq!(wrapped.causes()[0], "Invalid YAML as input");
    assert_eq!(wrapped.causes().len(), 2);
    let imported = YamlImporter::new().read("a: [1").unwrap_err();
    assert_eq!(imported.causes(), causes);
}
