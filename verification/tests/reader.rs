use glitter::config::model::{
    ExecuteStatement, GlitterConfig, LoadStatement, RawValue, RenderStatement, TemplateDefinition,
    TemplateValue, ValueDefinition, VariableDefinitionBlock,
};
use glitter::config::reader::{
    ConfigReadError, ConfigReader, RawValueError, TemplateDefinitionError, ValueDefinitionError,
};
use glitter::config::yaml::{parse_documents, source_text, YamlNode};
use glitter::config::yaml_import::{YamlImportReadError, YamlImporter};

fn block(entries: Vec<(&str, ValueDefinition)>) -> VariableDefinitionBlock {
    let mut block = VariableDefinitionBlock::new();
    for (name, definition) in entries {
        block.insert(name.to_owned(), definition);
    }
    block
}

fn text(value: &str) -> ValueDefinition {
    ValueDefinition::Value(RawValue::String(value.to_owned()))
}

fn key(name: &str) -> YamlNode {
    YamlNode::String(name.to_owned())
}

fn definition_of(source: &str) -> Result<ValueDefinition, ValueDefinitionError> {
    let documents = parse_documents(source).unwrap();
    ValueDefinition::try_from(&documents[0])
}

#[test]
fn parse_documents_gives_the_tree_of_the_text() {
    let documents = parse_documents("a: 1\nb:\n  - x\n  - 2.5\n  - true\n  - ~\n").unwrap();
    assert_eq!(
        documents,
        vec![YamlNode::Hash(vec![
            (key("a"), YamlNode::Integer(1)),
            (
                key("b"),
                YamlNode::Array(vec![
                    key("x"),
                    YamlNode::Real("2.5".to_owned()),
                    YamlNode::Boolean(true),
                    YamlNode::Null,
                ])
            ),
        ])]
    );
}

#[test]
fn parse_documents_keeps_the_order_of_a_mapping() {
    let documents = parse_documents("z: 1\na: 2\nm: 3\n").unwrap();
    assert_eq!(
        documents[0],
        YamlNode::Hash(vec![
            (key("z"), YamlNode::Integer(1)),
            (key("a"), YamlNode::Integer(2)),
            (key("m"), YamlNode::Integer(3)),
        ])
    );
}

#[test]
fn parse_documents_of_nothing_is_no_document() {
    assert_eq!(parse_documents("").unwrap(), Vec::<YamlNode>::new());
}

#[test]
fn parse_documents_refuses_what_is_no_yaml() {
    assert!(parse_documents("a: [1, 2").is_err());
}

#[test]
fn a_node_finds_the_value_under_a_key() {
    let missing = YamlNode::BadValue;
    let node = YamlNode::Hash(vec![
        (YamlNode::Integer(1), key("number")),
        (key("a"), key("first")),
        (key("b"), key("second")),
    ]);
    assert_eq!(node.get("a", &missing), &key("first"));
    assert_eq!(node.get("b", &missing), &key("second"));
    assert_eq!(node.get("c", &missing), &YamlNode::BadValue);
    assert_eq!(key("a").get("a", &missing), &YamlNode::BadValue);
}

#[test]
fn source_text_is_what_the_emitter_writes() {
    let node = YamlNode::Hash(vec![(key("foo"), YamlNode::Integer(1))]);
    assert_eq!(source_text(&node), "---\nfoo: 1");
    assert_eq!(source_text(&key("plain")), "---\nplain");
    let list = YamlNode::Array(vec![YamlNode::Boolean(true), YamlNode::Null]);
    assert_eq!(source_text(&list), "---\n- true\n- ~");
}

#[test]
fn raw_values_of_scalars() {
    assert_eq!(RawValue::try_from(&key("x")), Ok(RawValue::String("x".to_owned())));
    assert_eq!(RawValue::try_from(&YamlNode::Boolean(false)), Ok(RawValue::Boolean(false)));
    assert_eq!(RawValue::try_from(&YamlNode::Integer(-3)), Ok(RawValue::Integer(-3)));
    assert_eq!(
        RawValue::try_from(&YamlNode::Real("1.50".to_owned())),
        Ok(RawValue::Float("1.50".to_owned()))
    );
    assert_eq!(RawValue::try_from(&YamlNode::Null), Err(RawValueError::EmptyRawValue));
    assert_eq!(
        RawValue::try_from(&YamlNode::Array(vec![])),
        Err(RawValueError::UnsupportedRawValueType)
    );
    assert_eq!(
        RawValue::try_from(&YamlNode::Hash(vec![])),
        Err(RawValueError::UnsupportedRawValueType)
    );
}

#[test]
fn a_float_keeps_its_text() {
    assert_eq!(
        definition_of("value: 1.500"),
        Ok(ValueDefinition::Value(RawValue::Float("1.500".to_owned())))
    );
}

#[test]
fn definitions_of_every_shape() {
    assert_eq!(definition_of("value: hi"), Ok(text("hi")));
    assert_eq!(
        definition_of("children:\n  a:\n    value: 1\n"),
        Ok(ValueDefinition::Object(block(vec![(
            "a",
            ValueDefinition::Value(RawValue::Integer(1))
        )])))
    );
    assert_eq!(
        definition_of("variable: a.b"),
        Ok(ValueDefinition::Variable("a.b".to_owned()))
    );
    assert_eq!(
        definition_of("load: part.yaml\nparameter:\n  p:\n    value: 1\n"),
        Ok(ValueDefinition::Load(LoadStatement {
            file: "part.yaml".to_owned(),
            parameter: block(vec![("p", ValueDefinition::Value(RawValue::Integer(1)))]),
        }))
    );
    assert_eq!(
        definition_of("load: part.yaml"),
        Ok(ValueDefinition::Load(LoadStatement {
            file: "part.yaml".to_owned(),
            parameter: VariableDefinitionBlock::new(),
        }))
    );
    assert_eq!(
        definition_of("render: sub.yaml"),
        Ok(ValueDefinition::Render(RenderStatement {
            file: "sub.yaml".to_owned(),
            parameter: VariableDefinitionBlock::new(),
        }))
    );
    assert_eq!(
        definition_of("execute: tool\narguments:\n  - value: 1\n  - variable: x\n"),
        Ok(ValueDefinition::Execute(ExecuteStatement {
            executable: "tool".to_owned(),
            arguments: vec![
                ValueDefinition::Value(RawValue::Integer(1)),
                ValueDefinition::Variable("x".to_owned()),
            ],
        }))
    );
    assert_eq!(
        definition_of("execute: tool"),
        Ok(ValueDefinition::Execute(ExecuteStatement {
            executable: "tool".to_owned(),
            arguments: vec![],
        }))
    );
    assert_eq!(definition_of("quote: a.txt"), Ok(ValueDefinition::Quote("a.txt".to_owned())));
    assert_eq!(definition_of("import: a.yaml"), Ok(ValueDefinition::Import("a.yaml".to_owned())));
}

#[test]
fn the_first_shape_in_the_order_of_priority_decides() {
    assert_eq!(definition_of("import: a.yaml\nquote: a.txt\n"), Ok(ValueDefinition::Quote("a.txt".to_owned())));
    assert_eq!(definition_of("quote: a.txt\nvariable: v\n"), Ok(ValueDefinition::Variable("v".to_owned())));
    assert_eq!(definition_of("variable: v\nvalue: 1\n"), Ok(ValueDefinition::Value(RawValue::Integer(1))));
    assert_eq!(
        definition_of("execute: e\nrender: r\nload: l\n"),
        Ok(ValueDefinition::Load(LoadStatement {
            file: "l".to_owned(),
            parameter: VariableDefinitionBlock::new(),
        }))
    );
    assert_eq!(
        definition_of("value: ~\nvariable: v\n"),
        Ok(ValueDefinition::Variable("v".to_owned()))
    );
}

#[test]
fn a_definition_of_no_shape_is_refused_with_its_source() {
    assert_eq!(
        definition_of("foo: 1"),
        Err(ValueDefinitionError::UnknownValueType { yaml_source: "---\nfoo: 1".to_owned() })
    );
    assert_eq!(
        definition_of("variable: 5"),
        Err(ValueDefinitionError::UnknownValueType { yaml_source: "---\nvariable: 5".to_owned() })
    );
}

#[test]
fn a_value_that_is_no_scalar_is_refused() {
    assert_eq!(
        definition_of("value:\n  string: hi\n"),
        Err(ValueDefinitionError::InvalidRawValue {
            yaml_source: "---\nvalue:\n  string: hi".to_owned(),
            source: Box::new(RawValueError::UnsupportedRawValueType),
        })
    );
}

#[test]
fn errors_below_a_definition_name_the_kind_of_block() {
    assert_eq!(
        definition_of("children:\n  a:\n    foo: 1\n"),
        Err(ValueDefinitionError::InvalidSubDefinition {
            var_type: "Object",
            source: Box::new(ConfigReadError::InvalidValueDefinition {
                key: "a".to_owned(),
                source: Box::new(ValueDefinitionError::UnknownValueType {
                    yaml_source: "---\nfoo: 1".to_owned()
                }),
            }),
        })
    );
    assert_eq!(
        definition_of("load: f\nparameter:\n  1:\n    value: 1\n"),
        Err(ValueDefinitionError::InvalidSubDefinition {
            var_type: "Load->Parameter",
            source: Box::new(ConfigReadError::InvalidTypeAsVarName { key: "\u{1F937}".to_owned() }),
        })
    );
    assert_eq!(
        definition_of("render: f\nparameter:\n  a:\n    foo: 1\n"),
        Err(ValueDefinitionError::InvalidSubDefinition {
            var_type: "Render->Parameter",
            source: Box::new(ConfigReadError::InvalidValueDefinition {
                key: "a".to_owned(),
                source: Box::new(ValueDefinitionError::UnknownValueType {
                    yaml_source: "---\nfoo: 1".to_owned()
                }),
            }),
        })
    );
    assert_eq!(
        definition_of("execute: e\narguments:\n  - value: 1\n  - foo: 1\n"),
        Err(ValueDefinitionError::InvalidSubDefinition {
            var_type: "Execute->Arguments",
            source: Box::new(ConfigReadError::InvalidValueDefinition {
                key: "[1]".to_owned(),
                source: Box::new(ValueDefinitionError::UnknownValueType {
                    yaml_source: "---\nfoo: 1".to_owned()
                }),
            }),
        })
    );
}

#[test]
fn template_values_of_both_shapes() {
    let documents = parse_documents("value: text\n").unwrap();
    assert_eq!(TemplateValue::try_from(&documents[0]), Ok(TemplateValue::RawValue("text".to_owned())));
    let documents = parse_documents("quote: t.txt\n").unwrap();
    assert_eq!(TemplateValue::try_from(&documents[0]), Ok(TemplateValue::Quote("t.txt".to_owned())));
    let documents = parse_documents("other: t.txt\n").unwrap();
    assert_eq!(
        TemplateValue::try_from(&documents[0]),
        Err(TemplateDefinitionError::InvalidTemplateSubstructure {
            yaml_source: "---\nother: t.txt".to_owned()
        })
    );
}

const DOCUMENT: &str = "
global:
  g:
    value: 1
local:
  greeting:
    value: hi
injection:
  - a:
      value: true
  - {}
template:
  header:
    value: head
  body:
    quote: body.txt
";

#[test]
fn read_gives_the_document() {
    let config = ConfigReader::new().read(DOCUMENT).unwrap();
    assert_eq!(
        config,
        GlitterConfig {
            global: block(vec![("g", ValueDefinition::Value(RawValue::Integer(1)))]),
            local: block(vec![("greeting", text("hi"))]),
            injection: vec![
                block(vec![("a", ValueDefinition::Value(RawValue::Boolean(true)))]),
                VariableDefinitionBlock::new(),
            ],
            template: TemplateDefinition {
                header: Some(TemplateValue::RawValue("head".to_owned())),
                body: TemplateValue::Quote("body.txt".to_owned()),
                footer: None,
            },
        }
    );
}

#[test]
fn read_takes_a_text_as_a_simple_template() {
    let config = ConfigReader::new().read("injection: []\ntemplate: '*{a}'\n").unwrap();
    assert_eq!(config.global, VariableDefinitionBlock::new());
    assert_eq!(config.local, VariableDefinitionBlock::new());
    assert_eq!(config.injection, Vec::<VariableDefinitionBlock>::new());
    assert_eq!(config.template, TemplateDefinition::simple_template("*{a}".to_owned()));
}

#[test]
fn read_takes_null_sections_of_a_template_as_absent() {
    let config = ConfigReader::new()
        .read("injection: []\ntemplate:\n  header: ~\n  body:\n    value: b\n  footer: ~\n")
        .unwrap();
    assert_eq!(
        config.template,
        TemplateDefinition {
            header: None,
            body: TemplateValue::RawValue("b".to_owned()),
            footer: None,
        }
    );
}

#[test]
fn read_reports_what_a_document_lacks() {
    let reader = ConfigReader::new();
    assert!(matches!(reader.read("a: [1"), Err(ConfigReadError::InvalidYaml { .. })));
    assert_eq!(reader.read("injection: ~\ntemplate: x\n"), Err(ConfigReadError::InjectionMissing));
    assert_eq!(reader.read("template: x\n"), Err(ConfigReadError::InvalidTypeAtInjection));
    assert_eq!(reader.read(""), Err(ConfigReadError::InvalidTypeAtInjection));
    assert_eq!(
        reader.read("injection: 5\ntemplate: x\n"),
        Err(ConfigReadError::InvalidTypeAtInjection)
    );
    assert_eq!(
        reader.read("injection:\n  - 5\ntemplate: x\n"),
        Err(ConfigReadError::InvalidTypeAtInjection)
    );
    assert_eq!(reader.read("injection: []\ntemplate: ~\n"), Err(ConfigReadError::TemplateMissing));
    assert_eq!(reader.read("injection: []\n"), Err(ConfigReadError::InvalidTypeAtTemplate));
    assert_eq!(
        reader.read("injection: []\ntemplate: 5\n"),
        Err(ConfigReadError::InvalidTypeAtTemplate)
    );
}

#[test]
fn read_names_the_block_that_is_wrong() {
    let reader = ConfigReader::new();
    let unknown = |source: &str| {
        Box::new(ConfigReadError::InvalidValueDefinition {
            key: "a".to_owned(),
            source: Box::new(ValueDefinitionError::UnknownValueType {
                yaml_source: source.to_owned(),
            }),
        })
    };
    assert_eq!(
        reader.read("global:\n  a:\n    foo: 1\ninjection: []\ntemplate: x\n"),
        Err(ConfigReadError::InvalidVarDefinitionBlock {
            block: "global".to_owned(),
            source: unknown("---\nfoo: 1"),
        })
    );
    assert_eq!(
        reader.read("local:\n  a:\n    foo: 1\ninjection: []\ntemplate: x\n"),
        Err(ConfigReadError::InvalidVarDefinitionBlock {
            block: "local".to_owned(),
            source: unknown("---\nfoo: 1"),
        })
    );
    assert_eq!(
        reader.read("injection:\n  - a:\n      foo: 1\ntemplate: x\n"),
        Err(ConfigReadError::InvalidVarDefinitionBlock {
            block: "injection".to_owned(),
            source: unknown("---\nfoo: 1"),
        })
    );
}

#[test]
fn read_names_the_section_of_the_template_that_is_wrong() {
    let reader = ConfigReader::new();
    assert_eq!(
        reader.read("injection: []\ntemplate:\n  header: 5\n  body:\n    value: b\n"),
        Err(ConfigReadError::InvalidTemplateVarDefinition {
            section: "header",
            source: Box::new(TemplateDefinitionError::InvalidTemplateSubstructure {
                yaml_source: "---\n5".to_owned()
            }),
        })
    );
    assert_eq!(
        reader.read("injection: []\ntemplate:\n  footer: 5\n  body:\n    value: b\n"),
        Err(ConfigReadError::InvalidTemplateVarDefinition {
            section: "footer",
            source: Box::new(TemplateDefinitionError::InvalidTemplateSubstructure {
                yaml_source: "---\n5".to_owned()
            }),
        })
    );
    assert_eq!(
        reader.read("injection: []\ntemplate:\n  header:\n    value: h\n"),
        Err(ConfigReadError::InvalidTemplateVarDefinition {
            section: "body",
            source: Box::new(TemplateDefinitionError::InvalidTemplateSubstructure {
                yaml_source: "---\n~".to_owned()
            }),
        })
    );
}

#[test]
fn load_gives_the_definitions_of_a_mapping() {
    let reader = ConfigReader::new();
    assert_eq!(
        reader.load("a:\n  value: 1\nb:\n  variable: a\n"),
        Ok(block(vec![
            ("a", ValueDefinition::Value(RawValue::Integer(1))),
            ("b", ValueDefinition::Variable("a".to_owned())),
        ]))
    );
    assert_eq!(reader.load("~"), Err(ConfigReadError::MissingLoadSource));
    assert_eq!(
        reader.load("- 1\n- 2\n"),
        Err(ConfigReadError::InvalidTypeAtLoadSource { yaml_source: "- 1\n- 2\n".to_owned() })
    );
    assert_eq!(
        reader.load("a:\n  foo: 1\n"),
        Err(ConfigReadError::InvalidVarDefinitionBlock {
            block: "Load Source".to_owned(),
            source: Box::new(ConfigReadError::InvalidValueDefinition {
                key: "a".to_owned(),
                source: Box::new(ValueDefinitionError::UnknownValueType {
                    yaml_source: "---\nfoo: 1".to_owned()
                }),
            }),
        })
    );
    assert!(matches!(reader.load("a: [1"), Err(ConfigReadError::InvalidYaml { .. })));
}

#[test]
fn import_gives_scalars_and_nested_mappings() {
    let importer = YamlImporter::new();
    assert_eq!(
        importer.read("name: Bob\nage: 7\nratio: 0.50\nok: true\nhome:\n  town: X\n"),
        Ok(block(vec![
            ("name", text("Bob")),
            ("age", ValueDefinition::Value(RawValue::Integer(7))),
            ("ratio", ValueDefinition::Value(RawValue::Float("0.50".to_owned()))),
            ("ok", ValueDefinition::Value(RawValue::Boolean(true))),
            ("home", ValueDefinition::Object(block(vec![("town", text("X"))]))),
        ]))
    );
}

#[test]
fn import_refuses_lists_aliases_and_nulls() {
    let importer = YamlImporter::new();
    let refused = |kind: &str| Err(YamlImportReadError::InvalidType { value_type: kind.to_owned() });
    assert_eq!(importer.read("a:\n  - 1\n"), refused("Array"));
    assert_eq!(importer.read("a: ~\n"), refused("Null"));
    assert_eq!(importer.read("home:\n  a: ~\n"), refused("Null"));
    assert_eq!(importer.read("- 1\n"), refused("Array"));
    assert_eq!(importer.read("5"), refused("Integer"));
    assert_eq!(importer.read(""), refused("BadValue"));
    assert_eq!(importer.read("1: a\n"), refused("Integer"));
    assert_eq!(
        importer.convert_hash(&vec![(key("a"), YamlNode::Alias(1))]),
        refused("Alias")
    );
    assert_eq!(
        importer.convert_hash(&vec![(key("a"), YamlNode::BadValue)]),
        refused("BadValue")
    );
    assert!(matches!(importer.read("a: [1"), Err(YamlImportReadError::YamlError { .. })));
}
