use glitter::config::model::{
    RawValue, TemplateDefinition, TemplateValue, ValueDefinition, VariableDefinitionBlock,
};

fn text(value: &str) -> ValueDefinition {
    ValueDefinition::Value(RawValue::String(value.to_owned()))
}

#[test]
fn scalars_are_shown_as_their_text() {
    assert_eq!(RawValue::Boolean(true).to_string(), "true");
    assert_eq!(RawValue::Boolean(false).to_string(), "false");
    assert_eq!(RawValue::Integer(-42).to_string(), "-42");
    assert_eq!(RawValue::Float("1.50".to_owned()).to_string(), "1.50");
    assert_eq!(RawValue::Float("1e3".to_owned()).to_string(), "1e3");
    assert_eq!(RawValue::String("0010".to_owned()).to_string(), "0010");
}

#[test]
fn a_block_finds_what_was_inserted() {
    let mut block = VariableDefinitionBlock::new();
    assert!(!block.contains_key(&"a".to_owned()));
    assert_eq!(block.get(&"a".to_owned()), None);
    block.insert("a".to_owned(), text("one"));
    block.insert("b".to_owned(), text("two"));
    assert!(block.contains_key(&"a".to_owned()));
    assert_eq!(block.get(&"a".to_owned()), Some(&text("one")));
    assert_eq!(block.get(&"b".to_owned()), Some(&text("two")));
    assert_eq!(block.get(&"c".to_owned()), None);
}

#[test]
fn inserting_a_name_again_replaces_its_definition() {
    let mut block = VariableDefinitionBlock::new();
    block.insert("a".to_owned(), text("one"));
    block.insert("b".to_owned(), text("two"));
    block.insert("a".to_owned(), text("three"));
    assert_eq!(block.get(&"a".to_owned()), Some(&text("three")));
    assert_eq!(block.get(&"b".to_owned()), Some(&text("two")));
    assert_eq!(block.entries.len(), 2);
}

#[test]
fn a_clone_of_a_definition_is_equal_to_it() {
    let mut inner = VariableDefinitionBlock::new();
    inner.insert("x".to_owned(), ValueDefinition::Variable("y.z".to_owned()));
    let definition = ValueDefinition::Object(inner);
    assert_eq!(definition.clone(), definition);
}

#[test]
fn a_simple_template_has_a_body_only() {
    let template = TemplateDefinition::simple_template("*{a}".to_owned());
    assert_eq!(template.header, None);
    assert_eq!(template.body, TemplateValue::RawValue("*{a}".to_owned()));
    assert_eq!(template.footer, None);
}
