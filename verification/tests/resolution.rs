use glitter::config::model::{
    ExecuteStatement, GlitterConfig, LoadStatement, RawValue, RenderStatement, TemplateDefinition,
    ValueDefinition, VariableDefinitionBlock,
};
use glitter::processing::context::ProcessingContext;
use glitter::processing::journal::{Answer, Journal, Request};
use glitter::processing::processor::{GlitterProcessor, RequestSource, RESOLUTION_DEPTH};
use glitter::processing::var_store::{ProcessingInstruction, StoredVariable, VariableStore};
use glitter::processing::ValuePath;
use glitter::rendering::var_rendering::{
    RenderableExecutionResult, RenderableQuote, RenderableRawValue, RenderableVariable,
};
use glitter::rendering::ValueRenderError;
use std::rc::Rc;

fn block(entries: Vec<(&str, ValueDefinition)>) -> VariableDefinitionBlock {
    let mut block = VariableDefinitionBlock::new();
    for (name, definition) in entries {
        block.insert(name.to_owned(), definition);
    }
    block
}

fn text(value: &str) -> ValueDefinition {
    ValueDefinition::Value(RawValue::String(value.to_owned()))
}

fn integer(value: i64) -> ValueDefinition {
    ValueDefinition::Value(RawValue::Integer(value))
}

fn alias(path: &str) -> ValueDefinition {
    ValueDefinition::Variable(path.to_owned())
}

fn path(text: &str) -> ValuePath {
    ValuePath::from(&text.to_owned())
}

fn names(parts: Vec<&str>) -> ValuePath {
    ValuePath(parts.into_iter().map(|part| part.to_owned()).collect())
}

fn scalar(value: RawValue) -> RenderableVariable {
    RenderableVariable::RawValue(RenderableRawValue { value })
}

fn processor(
    global: VariableDefinitionBlock,
    local: VariableDefinitionBlock,
    injection: Vec<VariableDefinitionBlock>,
) -> GlitterProcessor {
    GlitterProcessor::new(
        "doc.yaml".to_owned(),
        "/base".to_owned(),
        GlitterConfig {
            global,
            local,
            injection,
            template: TemplateDefinition::simple_template("".to_owned()),
        },
    )
}

fn resolve(
    processor: &GlitterProcessor,
    wanted: &str,
    source: RequestSource,
    answers: Vec<Answer>,
) -> (Result<RenderableVariable, ValueRenderError>, Journal) {
    let mut journal = Journal { answers, position: 0, pending: None };
    let value = processor.resolve_var(path(wanted), source, &mut journal, RESOLUTION_DEPTH);
    (value, journal)
}

fn missing(trail: Vec<&str>) -> ValueRenderError {
    ValueRenderError::FailedResolvingVariable {
        var_resolution_path: trail.into_iter().map(|part| part.to_owned()).collect(),
    }
}

fn failed(trail: Vec<&str>, source: ValueRenderError) -> ValueRenderError {
    ValueRenderError::FailedProcessingVariable {
        var_resolution_path: trail.into_iter().map(|part| part.to_owned()).collect(),
        source: Box::new(source),
    }
}

#[test]
fn a_path_is_its_names_between_the_dots() {
    assert_eq!(path("a.b.c"), names(vec!["a", "b", "c"]));
    assert_eq!(path("a"), names(vec!["a"]));
    assert_eq!(path(""), names(vec![""]));
    assert_eq!(path("a.b.c").render(), "a.b.c");
    assert_eq!(names(vec![]).render(), "");
    assert!(names(vec![]).is_empty());
    assert!(!path("").is_empty());
    assert_eq!(path("a.b").index(1), "b");
}

#[test]
fn a_path_gives_up_its_first_name_and_takes_another_path() {
    let mut first = path("a.b.c");
    first.drop_first();
    assert_eq!(first, path("b.c"));
    let mut second = path("x.y");
    first.append(&mut second);
    assert_eq!(first, path("b.c.x.y"));
    assert!(second.is_empty());
}

#[test]
fn a_definition_yields_what_it_stands_for() {
    let mut rest = path("x.y");
    assert_eq!(
        StoredVariable::from(&text("v"), &mut rest),
        StoredVariable::Value(RawValue::String("v".to_owned()))
    );
    assert_eq!(rest, path("x.y"));

    let mut rest = path("x.y");
    assert_eq!(
        StoredVariable::from(&alias("b.c"), &mut rest),
        StoredVariable::LocalReference(path("b.c.x.y"))
    );
    assert!(rest.is_empty());

    let mut rest = path("x");
    assert_eq!(
        StoredVariable::from(&ValueDefinition::Quote("f.txt".to_owned()), &mut rest),
        StoredVariable::Instruction(ProcessingInstruction::Quote("f.txt".to_owned()), path("x"))
    );
    let mut rest = path("x");
    assert_eq!(
        StoredVariable::from(&ValueDefinition::Import("f.yaml".to_owned()), &mut rest),
        StoredVariable::Instruction(ProcessingInstruction::Import("f.yaml".to_owned()), path("x"))
    );
    let parameter = block(vec![("p", integer(1))]);
    let mut rest = names(vec![]);
    assert_eq!(
        StoredVariable::from(
            &ValueDefinition::Load(LoadStatement {
                file: "l.yaml".to_owned(),
                parameter: parameter.clone()
            }),
            &mut rest
        ),
        StoredVariable::Instruction(
            ProcessingInstruction::Load("l.yaml".to_owned(), parameter.clone()),
            names(vec![])
        )
    );
    assert_eq!(
        StoredVariable::from(
            &ValueDefinition::Render(RenderStatement {
                file: "r.yaml".to_owned(),
                parameter: parameter.clone()
            }),
            &mut rest
        ),
        StoredVariable::Instruction(
            ProcessingInstruction::Render("r.yaml".to_owned(), parameter),
            names(vec![])
        )
    );
    assert_eq!(
        StoredVariable::from(
            &ValueDefinition::Execute(ExecuteStatement {
                executable: "tool".to_owned(),
                arguments: vec![integer(1)]
            }),
            &mut rest
        ),
        StoredVariable::Instruction(
            ProcessingInstruction::Execute("tool".to_owned(), vec![integer(1)]),
            names(vec![])
        )
    );
}

#[test]
fn an_object_is_searched_for_the_rest_of_the_path() {
    let object = ValueDefinition::Object(block(vec![(
        "b",
        ValueDefinition::Object(block(vec![("c", integer(5))])),
    )]));
    let mut rest = path("b.c");
    assert_eq!(StoredVariable::from(&object, &mut rest), StoredVariable::Value(RawValue::Integer(5)));
    assert!(rest.is_empty());
    let mut rest = path("b.x");
    assert_eq!(StoredVariable::from(&object, &mut rest), StoredVariable::Missing);
    assert_eq!(rest, path("x"));
    let mut rest = names(vec![]);
    assert_eq!(StoredVariable::from(&object, &mut rest), StoredVariable::Missing);
    let mut rest = path("b");
    assert_eq!(StoredVariable::from(&object, &mut rest), StoredVariable::Missing);
}

#[test]
fn an_alias_inside_an_object_takes_the_rest_of_the_path_along() {
    let definitions = block(vec![(
        "a",
        ValueDefinition::Object(block(vec![("inner", alias("target.deep"))])),
    )]);
    let mut wanted = path("a.inner.x.y");
    assert_eq!(
        StoredVariable::out_of_block(&definitions, &mut wanted),
        StoredVariable::LocalReference(path("target.deep.x.y"))
    );
}

#[test]
fn a_block_finds_nothing_under_the_empty_path_or_an_unknown_name() {
    let definitions = block(vec![("a", integer(1))]);
    let mut wanted = names(vec![]);
    assert_eq!(StoredVariable::out_of_block(&definitions, &mut wanted), StoredVariable::Missing);
    let mut wanted = path("b");
    assert_eq!(StoredVariable::out_of_block(&definitions, &mut wanted), StoredVariable::Missing);
    assert_eq!(wanted, path("b"));
}

#[test]
fn a_store_knows_its_definitions_and_with_a_source_its_parameters() {
    let source = Rc::new(ProcessingContext::local_standalone(
        "/src".to_owned(),
        VariableDefinitionBlock::new(),
    ));
    let plain = VariableStore::from(block(vec![("a", integer(1))]));
    assert!(plain.contains(&"a".to_owned()));
    assert!(!plain.contains(&"p".to_owned()));
    let with = VariableStore::with_context(
        block(vec![("a", integer(1))]),
        block(vec![("p", integer(2))]),
        source,
    );
    assert!(with.contains(&"a".to_owned()));
    assert!(with.contains(&"p".to_owned()));
    assert!(!with.contains(&"q".to_owned()));
    let ignored = VariableStore {
        inner_store: VariableDefinitionBlock::new(),
        parameter: block(vec![("p", integer(2))]),
        source_context: None,
    };
    assert!(!ignored.contains(&"p".to_owned()));
    let mut wanted = path("p");
    assert_eq!(ignored.resolve(&mut wanted), StoredVariable::Missing);
}

#[test]
fn an_alias_among_the_parameters_belongs_to_the_source_context() {
    let source = Rc::new(ProcessingContext::local_standalone(
        "/src".to_owned(),
        block(vec![("name", text("Ann"))]),
    ));
    let store = VariableStore::with_context(
        block(vec![("own", alias("elsewhere"))]),
        block(vec![("p", alias("name")), ("n", integer(3)), ("own", integer(9))]),
        Rc::clone(&source),
    );
    let mut wanted = path("p.rest");
    assert_eq!(
        store.resolve(&mut wanted),
        StoredVariable::DistantReference(path("name.rest"), Rc::clone(&source))
    );
    let mut wanted = path("n");
    assert_eq!(store.resolve(&mut wanted), StoredVariable::Value(RawValue::Integer(3)));
    let mut wanted = path("own");
    assert_eq!(store.resolve(&mut wanted), StoredVariable::LocalReference(path("elsewhere")));
}

#[test]
fn the_parameters_are_searched_with_what_the_definitions_left_of_the_path() {
    let source = Rc::new(ProcessingContext::local_standalone(
        "/src".to_owned(),
        VariableDefinitionBlock::new(),
    ));
    let store = VariableStore::with_context(
        block(vec![("a", ValueDefinition::Object(block(vec![("b", integer(1))])))]),
        block(vec![("c", integer(7)), ("a", integer(8))]),
        source,
    );
    let mut wanted = path("a.c");
    assert_eq!(store.resolve(&mut wanted), StoredVariable::Value(RawValue::Integer(7)));
}

#[test]
fn insert_adds_to_the_definitions_of_a_store() {
    let store = VariableStore::from(block(vec![("a", integer(1))]))
        .insert("b", integer(2))
        .insert("a", integer(3));
    let mut wanted = path("a");
    assert_eq!(store.resolve(&mut wanted), StoredVariable::Value(RawValue::Integer(3)));
    let mut wanted = path("b");
    assert_eq!(store.resolve(&mut wanted), StoredVariable::Value(RawValue::Integer(2)));
}

#[test]
fn every_injection_row_defines_its_number_and_the_document() {
    let context = ProcessingContext::initial(
        "doc.yaml".to_owned(),
        "/base".to_owned(),
        VariableDefinitionBlock::new(),
        vec![block(vec![("a", integer(1))]), block(vec![("$iteration", integer(99))])],
        TemplateDefinition::simple_template("".to_owned()),
    );
    assert_eq!(context.injection.len(), 2);
    let find = |row: usize, name: &str| {
        let mut wanted = path(name);
        context.injection[row].resolve(&mut wanted)
    };
    assert_eq!(find(0, "$iteration"), StoredVariable::Value(RawValue::Integer(1)));
    assert_eq!(find(1, "$iteration"), StoredVariable::Value(RawValue::Integer(2)));
    assert_eq!(find(0, "$filename"), StoredVariable::Value(RawValue::String("doc.yaml".to_owned())));
    assert_eq!(find(1, "$directory"), StoredVariable::Value(RawValue::String("/base".to_owned())));
    assert_eq!(find(0, "a"), StoredVariable::Value(RawValue::Integer(1)));
    assert_eq!(find(1, "a"), StoredVariable::Missing);
}

#[test]
fn a_file_name_is_joined_to_the_directory_of_the_context() {
    let context = ProcessingContext::local_standalone("/base/dir".to_owned(), VariableDefinitionBlock::new());
    assert_eq!(context.resolve_filename("a.txt"), "/base/dir/a.txt");
    assert_eq!(context.resolve_filename("sub/a.txt"), "/base/dir/sub/a.txt");
    assert_eq!(context.resolve_filename("/abs/a.txt"), "/abs/a.txt");
    let here = ProcessingContext::local_standalone("".to_owned(), VariableDefinitionBlock::new());
    assert_eq!(here.resolve_filename("a.txt"), "a.txt");
}

#[test]
fn the_parent_directory_of_a_file() {
    assert_eq!(GlitterProcessor::extract_parent_directory("/base/dir/a.txt"), Ok("/base/dir".to_owned()));
    assert_eq!(GlitterProcessor::extract_parent_directory("a.txt"), Ok("".to_owned()));
    assert_eq!(
        GlitterProcessor::extract_parent_directory("/"),
        Err(ValueRenderError::FailedAccessingFilesystem)
    );
    assert_eq!(
        GlitterProcessor::extract_parent_directory(""),
        Err(ValueRenderError::FailedAccessingFilesystem)
    );
}

#[test]
fn the_scopes_of_each_request_source() {
    let engine = processor(
        block(vec![("g", integer(1))]),
        block(vec![("l", integer(2))]),
        vec![block(vec![("r", integer(10))]), block(vec![("r", integer(11))]), block(vec![])],
    );
    let rows = GlitterProcessor::storages_for(&engine.global, &engine.root, &RequestSource::Template(1));
    assert_eq!(rows.len(), 2);
    assert!(std::ptr::eq(rows[0].0, &engine.root.injection[1]));
    assert!(std::ptr::eq(rows[1].0, &engine.root.injection[0]));
    assert_eq!(rows[0].1, RequestSource::Injection);
    assert_eq!(rows[1].1, RequestSource::Injection);
    let all = GlitterProcessor::storages_for(&engine.global, &engine.root, &RequestSource::Template(7));
    assert_eq!(all.len(), 3);
    assert!(std::ptr::eq(all[0].0, &engine.root.injection[2]));
    for source in [RequestSource::Injection, RequestSource::Local] {
        let found = GlitterProcessor::storages_for(&engine.global, &engine.root, &source);
        assert_eq!(found.len(), 2);
        assert!(std::ptr::eq(found[0].0, &engine.root.local));
        assert_eq!(found[0].1, RequestSource::Local);
        assert!(std::ptr::eq(found[1].0, &engine.global.local));
        assert_eq!(found[1].1, RequestSource::Global);
    }
    let global = GlitterProcessor::storages_for(&engine.global, &engine.root, &RequestSource::Global);
    assert_eq!(global.len(), 1);
    assert!(std::ptr::eq(global[0].0, &engine.global.local));
    assert_eq!(global[0].1, RequestSource::Global);
    let calling = GlitterProcessor::storages_for(&engine.global, &engine.root, &RequestSource::CallingContext);
    assert_eq!(calling.len(), 1);
    assert!(std::ptr::eq(calling[0].0, &engine.root.local));
    assert_eq!(calling[0].1, RequestSource::Local);
}

#[test]
fn a_lookup_asks_the_first_scope_that_knows_the_first_name() {
    let first = VariableStore::from(block(vec![("a", ValueDefinition::Object(block(vec![])))]));
    let second = VariableStore::from(block(vec![
        ("a", ValueDefinition::Object(block(vec![("b", integer(1))]))),
        ("c", integer(2)),
    ]));
    let scopes = vec![(&first, RequestSource::Local), (&second, RequestSource::Global)];
    let mut wanted = path("a.b");
    assert_eq!(
        GlitterProcessor::read_variable(&scopes, &mut wanted),
        (StoredVariable::Missing, RequestSource::Local)
    );
    let mut wanted = path("c");
    assert_eq!(
        GlitterProcessor::read_variable(&scopes, &mut wanted),
        (StoredVariable::Value(RawValue::Integer(2)), RequestSource::Global)
    );
    let mut wanted = path("d");
    assert_eq!(
        GlitterProcessor::read_variable(&scopes, &mut wanted),
        (StoredVariable::Missing, RequestSource::Global)
    );
    let mut wanted = names(vec![]);
    assert_eq!(
        GlitterProcessor::read_variable(&scopes, &mut wanted),
        (StoredVariable::Missing, RequestSource::Global)
    );
}

#[test]
fn an_alias_to_a_nested_value_resolves_to_it() {
    let engine = processor(
        block(vec![]),
        block(vec![
            ("a", alias("b.c")),
            ("b", ValueDefinition::Object(block(vec![("c", integer(5))]))),
        ]),
        vec![],
    );
    let (value, journal) = resolve(&engine, "a", RequestSource::Local, vec![]);
    assert_eq!(value, Ok(scalar(RawValue::Integer(5))));
    assert_eq!(journal.pending, None);
    let mut asked = Journal::new();
    assert_eq!(value.unwrap().calculate(&mut asked), Ok(RawValue::Integer(5)));
}

#[test]
fn a_chain_of_aliases_resolves_to_the_value_at_its_end() {
    let engine = processor(
        block(vec![]),
        block(vec![("a", alias("b")), ("b", alias("c")), ("c", text("end"))]),
        vec![],
    );
    for start in ["a", "b", "c"] {
        let (value, _) = resolve(&engine, start, RequestSource::Local, vec![]);
        assert_eq!(value, Ok(scalar(RawValue::String("end".to_owned()))));
    }
}

#[test]
fn a_long_chain_of_aliases_resolves_too() {
    let mut entries: Vec<(String, ValueDefinition)> = Vec::new();
    for i in 0..100 {
        entries.push((format!("v{}", i), alias(&format!("v{}", i + 1))));
    }
    entries.push(("v100".to_owned(), text("end")));
    let engine = processor(
        block(vec![]),
        VariableDefinitionBlock { entries },
        vec![],
    );
    let (value, _) = resolve(&engine, "v0", RequestSource::Local, vec![]);
    assert_eq!(value, Ok(scalar(RawValue::String("end".to_owned()))));
}

#[test]
fn an_alias_to_an_object_is_drilled_into_by_the_rest_of_the_path() {
    let engine = processor(
        block(vec![]),
        block(vec![
            ("a", alias("b")),
            ("b", ValueDefinition::Object(block(vec![("x", text("deep"))]))),
        ]),
        vec![],
    );
    let (value, _) = resolve(&engine, "a.x", RequestSource::Local, vec![]);
    assert_eq!(value, Ok(scalar(RawValue::String("deep".to_owned()))));
}

#[test]
fn a_local_definition_hides_the_global_one() {
    let engine = processor(
        block(vec![("k", text("global")), ("only", text("g"))]),
        block(vec![("k", text("local"))]),
        vec![block(vec![("k", alias("k")), ("direct", text("row"))])],
    );
    let found = |source: RequestSource| resolve(&engine, "k", source, vec![]).0;
    assert_eq!(found(RequestSource::Local), Ok(scalar(RawValue::String("local".to_owned()))));
    assert_eq!(found(RequestSource::Injection), Ok(scalar(RawValue::String("local".to_owned()))));
    assert_eq!(found(RequestSource::CallingContext), Ok(scalar(RawValue::String("local".to_owned()))));
    assert_eq!(found(RequestSource::Template(0)), Ok(scalar(RawValue::String("local".to_owned()))));
    assert_eq!(found(RequestSource::Global), Ok(scalar(RawValue::String("global".to_owned()))));
    let (value, _) = resolve(&engine, "only", RequestSource::Local, vec![]);
    assert_eq!(value, Ok(scalar(RawValue::String("g".to_owned()))));
    let (value, _) = resolve(&engine, "only", RequestSource::CallingContext, vec![]);
    assert_eq!(value, Err(missing(vec!["only"])));
}

#[test]
fn a_global_alias_does_not_see_local_definitions() {
    let engine = processor(
        block(vec![("g", alias("target")), ("target", text("global"))]),
        block(vec![("target", text("local"))]),
        vec![],
    );
    let (value, _) = resolve(&engine, "g", RequestSource::Local, vec![]);
    assert_eq!(value, Ok(scalar(RawValue::String("global".to_owned()))));
}

#[test]
fn the_template_sees_its_row_and_the_rows_before_it() {
    let engine = processor(
        block(vec![]),
        block(vec![("local_only", text("l"))]),
        vec![
            block(vec![("first", text("r0")), ("both", text("b0"))]),
            block(vec![("second", text("r1")), ("both", text("b1"))]),
            block(vec![("third", text("r2"))]),
        ],
    );
    let found = |name: &str, row: usize| resolve(&engine, name, RequestSource::Template(row), vec![]).0;
    assert_eq!(found("first", 0), Ok(scalar(RawValue::String("r0".to_owned()))));
    assert_eq!(found("first", 2), Ok(scalar(RawValue::String("r0".to_owned()))));
    assert_eq!(found("both", 0), Ok(scalar(RawValue::String("b0".to_owned()))));
    assert_eq!(found("both", 1), Ok(scalar(RawValue::String("b1".to_owned()))));
    assert_eq!(found("both", 2), Ok(scalar(RawValue::String("b1".to_owned()))));
    assert_eq!(found("second", 0), Err(missing(vec!["second"])));
    assert_eq!(found("third", 1), Err(missing(vec!["third"])));
    assert_eq!(found("third", 2), Ok(scalar(RawValue::String("r2".to_owned()))));
    assert_eq!(found("$iteration", 1), Ok(scalar(RawValue::Integer(2))));
    assert_eq!(found("local_only", 0), Err(missing(vec!["local_only"])));
}

#[test]
fn a_missing_variable_fails_with_the_trail_of_paths() {
    let engine = processor(
        block(vec![]),
        block(vec![("a", alias("b.x")), ("b", alias("c"))]),
        vec![],
    );
    let (value, _) = resolve(&engine, "nothing", RequestSource::Local, vec![]);
    assert_eq!(value, Err(missing(vec!["nothing"])));
    let (value, _) = resolve(&engine, "a", RequestSource::Local, vec![]);
    assert_eq!(value, Err(missing(vec!["a", "b.x", "c.x"])));
    let (value, _) = resolve(&engine, "", RequestSource::Local, vec![]);
    assert_eq!(value, Err(missing(vec![""])));
}

#[test]
fn aliases_in_a_circle_end_at_the_limit_of_depth() {
    let engine = processor(block(vec![]), block(vec![("a", alias("b")), ("b", alias("a"))]), vec![]);
    let (value, _) = resolve(&engine, "a", RequestSource::Local, vec![]);
    assert_eq!(value, Err(ValueRenderError::DepthExceeded));
    let mut journal = Journal::new();
    assert_eq!(
        engine.resolve_var(path("a"), RequestSource::Local, &mut journal, 0),
        Err(ValueRenderError::DepthExceeded)
    );
}

#[test]
fn a_quote_resolves_without_reading_the_file() {
    let engine = processor(
        block(vec![]),
        block(vec![("q", ValueDefinition::Quote("a.txt".to_owned()))]),
        vec![],
    );
    let (value, journal) = resolve(&engine, "q", RequestSource::Local, vec![]);
    assert_eq!(
        value,
        Ok(RenderableVariable::Quote(RenderableQuote {
            file: "a.txt".to_owned(),
            context: Rc::clone(&engine.root),
        }))
    );
    assert_eq!(journal.pending, None);
    assert_eq!(journal.position, 0);
}

#[test]
fn an_import_asks_for_its_file_and_goes_on_in_it() {
    let engine = processor(
        block(vec![]),
        block(vec![("i", ValueDefinition::Import("data/people.yaml".to_owned()))]),
        vec![],
    );
    let (value, journal) = resolve(&engine, "i.bob.age", RequestSource::Local, vec![]);
    assert_eq!(value, Err(failed(vec!["i.bob.age"], ValueRenderError::Suspended)));
    assert_eq!(
        journal.pending,
        Some(Request::ReadFile { path: "/base/data/people.yaml".to_owned() })
    );
    let (value, journal) = resolve(
        &engine,
        "i.bob.age",
        RequestSource::Local,
        vec![Answer::Data(b"bob:\n  age: 7\n".to_vec())],
    );
    assert_eq!(value, Ok(scalar(RawValue::Integer(7))));
    assert_eq!(journal.position, 1);
    let (value, _) = resolve(
        &engine,
        "i.ann",
        RequestSource::Local,
        vec![Answer::Data(b"bob:\n  age: 7\n".to_vec())],
    );
    assert_eq!(value, Err(missing(vec!["i.ann", "ann"])));
}

#[test]
fn an_import_that_cannot_be_read_or_understood_fails() {
    let engine = processor(
        block(vec![]),
        block(vec![("i", ValueDefinition::Import("d.yaml".to_owned()))]),
        vec![],
    );
    let (value, _) = resolve(
        &engine,
        "i.x",
        RequestSource::Local,
        vec![Answer::Failure("No such file".to_owned())],
    );
    assert_eq!(
        value,
        Err(failed(
            vec!["i.x"],
            ValueRenderError::FailedReadingText {
                input_file: "/base/d.yaml".to_owned(),
                reason: "No such file".to_owned(),
            }
        ))
    );
    let (value, _) = resolve(&engine, "i.x", RequestSource::Local, vec![Answer::Data(vec![0xff, 0xfe])]);
    assert_eq!(
        value,
        Err(failed(
            vec!["i.x"],
            ValueRenderError::FailedReadingText {
                input_file: "/base/d.yaml".to_owned(),
                reason: "stream did not contain valid UTF-8".to_owned(),
            }
        ))
    );
    let (value, _) = resolve(&engine, "i.x", RequestSource::Local, vec![Answer::Data(b"x: [1]".to_vec())]);
    assert_eq!(
        value,
        Err(failed(
            vec!["i.x"],
            ValueRenderError::ImportCommandFailed {
                input_file: "/base/d.yaml".to_owned(),
                source: Box::new(glitter::config::yaml_import::YamlImportReadError::InvalidType {
                    value_type: "Array".to_owned()
                })
            }
        ))
    );
}

#[test]
fn a_load_binds_its_parameters_to_the_context_that_loads() {
    let engine = processor(
        block(vec![]),
        block(vec![
            ("name", text("Ann")),
            (
                "part",
                ValueDefinition::Load(LoadStatement {
                    file: "parts/part.yaml".to_owned(),
                    parameter: block(vec![("who", alias("name")), ("fixed", integer(3))]),
                }),
            ),
        ]),
        vec![],
    );
    let file = "greeting:\n  variable: who\nnumber:\n  variable: fixed\nname:\n  value: Inner\nown:\n  variable: name\n";
    let answers = || vec![Answer::Data(file.as_bytes().to_vec())];
    let (value, journal) = resolve(&engine, "part.greeting", RequestSource::Local, vec![]);
    assert_eq!(value, Err(failed(vec!["part.greeting"], ValueRenderError::Suspended)));
    assert_eq!(
        journal.pending,
        Some(Request::ReadFile { path: "/base/parts/part.yaml".to_owned() })
    );
    let (value, _) = resolve(&engine, "part.greeting", RequestSource::Local, answers());
    assert_eq!(value, Ok(scalar(RawValue::String("Ann".to_owned()))));
    let (value, _) = resolve(&engine, "part.number", RequestSource::Local, answers());
    assert_eq!(value, Ok(scalar(RawValue::Integer(3))));
    let (value, _) = resolve(&engine, "part.own", RequestSource::Local, answers());
    assert_eq!(value, Ok(scalar(RawValue::String("Inner".to_owned()))));
    let (value, _) = resolve(&engine, "part", RequestSource::Local, answers());
    assert_eq!(value, Err(missing(vec!["part", ""])));
}

#[test]
fn a_load_that_holds_no_definitions_fails() {
    let engine = processor(
        block(vec![]),
        block(vec![(
            "part",
            ValueDefinition::Load(LoadStatement {
                file: "part.yaml".to_owned(),
                parameter: block(vec![]),
            }),
        )]),
        vec![],
    );
    let (value, _) = resolve(&engine, "part.x", RequestSource::Local, vec![Answer::Data(b"~".to_vec())]);
    assert_eq!(
        value,
        Err(failed(
            vec!["part.x"],
            ValueRenderError::LoadCommandFailed {
                input_file: "/base/part.yaml".to_owned(),
                source: Box::new(glitter::config::reader::ConfigReadError::MissingLoadSource)
            }
        ))
    );
}

#[test]
fn files_named_from_a_global_definition_are_relative_to_the_global_directory() {
    let engine = processor(
        block(vec![("g", ValueDefinition::Import("g.yaml".to_owned()))]),
        block(vec![(
            "sub",
            ValueDefinition::Load(LoadStatement {
                file: "deep/part.yaml".to_owned(),
                parameter: block(vec![]),
            }),
        )]),
        vec![],
    );
    let part = "inner:\n  import: inner.yaml\nup:\n  variable: g.x\n";
    let (_, journal) = resolve(
        &engine,
        "sub.inner.x",
        RequestSource::Local,
        vec![Answer::Data(part.as_bytes().to_vec())],
    );
    assert_eq!(
        journal.pending,
        Some(Request::ReadFile { path: "/base/deep/inner.yaml".to_owned() })
    );
    let (_, journal) = resolve(
        &engine,
        "sub.up",
        RequestSource::Local,
        vec![Answer::Data(part.as_bytes().to_vec())],
    );
    assert_eq!(journal.pending, Some(Request::ReadFile { path: "/base/g.yaml".to_owned() }));
}

#[test]
fn quotes_and_commands_of_the_global_scope_stay_in_the_global_directory() {
    let engine = processor(
        block(vec![
            ("logo", ValueDefinition::Quote("logo.txt".to_owned())),
            (
                "tool",
                ValueDefinition::Execute(ExecuteStatement {
                    executable: "bin/tool".to_owned(),
                    arguments: vec![],
                }),
            ),
        ]),
        block(vec![(
            "sub",
            ValueDefinition::Load(LoadStatement {
                file: "deep/part.yaml".to_owned(),
                parameter: block(vec![]),
            }),
        )]),
        vec![],
    );
    let part = "logo_up:\n  variable: logo\ntool_up:\n  variable: tool\nown:\n  quote: own.txt\nrun:\n  execute: run.sh\n";
    let pending = |wanted: &str| {
        let (value, mut journal) = resolve(
            &engine,
            wanted,
            RequestSource::Local,
            vec![Answer::Data(part.as_bytes().to_vec())],
        );
        assert_eq!(value.unwrap().calculate(&mut journal), Err(ValueRenderError::Suspended));
        journal.pending
    };
    assert_eq!(pending("sub.logo_up"), Some(Request::ReadFile { path: "/base/logo.txt".to_owned() }));
    assert_eq!(pending("sub.own"), Some(Request::ReadFile { path: "/base/deep/own.txt".to_owned() }));
    assert_eq!(
        pending("sub.tool_up"),
        Some(Request::Execute { program: "/base/bin/tool".to_owned(), arguments: vec![] })
    );
    assert_eq!(
        pending("sub.run"),
        Some(Request::Execute { program: "/base/deep/run.sh".to_owned(), arguments: vec![] })
    );
}

#[test]
fn the_arguments_of_a_command_are_evaluated_when_it_is_resolved() {
    let engine = processor(
        block(vec![]),
        block(vec![
            ("n", integer(5)),
            (
                "e",
                ValueDefinition::Execute(ExecuteStatement {
                    executable: "bin/tool".to_owned(),
                    arguments: vec![
                        alias("n"),
                        text("x"),
                        ValueDefinition::Value(RawValue::Float("1.50".to_owned())),
                        ValueDefinition::Value(RawValue::Boolean(true)),
                    ],
                }),
            ),
        ]),
        vec![],
    );
    let (value, journal) = resolve(&engine, "e", RequestSource::Local, vec![]);
    let execution = RenderableVariable::ExecutionResult(RenderableExecutionResult {
        executable: "bin/tool".to_owned(),
        arguments: vec![
            RawValue::Integer(5),
            RawValue::String("x".to_owned()),
            RawValue::Float("1.50".to_owned()),
            RawValue::Boolean(true),
        ],
        context: Rc::clone(&engine.root),
    });
    assert_eq!(value, Ok(execution));
    assert_eq!(journal.pending, None);
    let mut journal = Journal::new();
    assert_eq!(value.as_ref().unwrap().calculate(&mut journal), Err(ValueRenderError::Suspended));
    assert_eq!(
        journal.pending,
        Some(Request::Execute {
            program: "/base/bin/tool".to_owned(),
            arguments: vec!["5".to_owned(), "x".to_owned(), "1.50".to_owned(), "true".to_owned()],
        })
    );
    journal.record(Answer::Data(b"done\n".to_vec()));
    assert_eq!(
        value.as_ref().unwrap().calculate(&mut journal),
        Ok(RawValue::String("done\n".to_owned()))
    );
}

#[test]
fn a_command_as_an_argument_runs_before_the_outer_command() {
    let inner = ValueDefinition::Execute(ExecuteStatement {
        executable: "inner".to_owned(),
        arguments: vec![integer(1)],
    });
    let engine = processor(
        block(vec![]),
        block(vec![(
            "e",
            ValueDefinition::Execute(ExecuteStatement {
                executable: "outer".to_owned(),
                arguments: vec![inner, ValueDefinition::Quote("q.txt".to_owned())],
            }),
        )]),
        vec![],
    );
    let (value, journal) = resolve(&engine, "e", RequestSource::Local, vec![]);
    assert_eq!(value, Err(failed(vec!["e"], ValueRenderError::Suspended)));
    assert_eq!(
        journal.pending,
        Some(Request::Execute { program: "/base/inner".to_owned(), arguments: vec!["1".to_owned()] })
    );
    let (_, journal) = resolve(&engine, "e", RequestSource::Local, vec![Answer::Data(b"in".to_vec())]);
    assert_eq!(journal.pending, Some(Request::ReadFile { path: "/base/q.txt".to_owned() }));
    let (value, journal) = resolve(
        &engine,
        "e",
        RequestSource::Local,
        vec![Answer::Data(b"in".to_vec()), Answer::Data(b"quoted".to_vec())],
    );
    assert_eq!(
        value,
        Ok(RenderableVariable::ExecutionResult(RenderableExecutionResult {
            executable: "outer".to_owned(),
            arguments: vec![RawValue::String("in".to_owned()), RawValue::String("quoted".to_owned())],
            context: Rc::clone(&engine.root),
        }))
    );
    assert_eq!(journal.pending, None);
    assert_eq!(journal.position, 2);
}

#[test]
fn an_argument_that_fails_fails_the_command() {
    let engine = processor(
        block(vec![]),
        block(vec![(
            "e",
            ValueDefinition::Execute(ExecuteStatement {
                executable: "tool".to_owned(),
                arguments: vec![integer(1), alias("nothing"), alias("nothing_else")],
            }),
        )]),
        vec![],
    );
    let (value, _) = resolve(&engine, "e", RequestSource::Local, vec![]);
    assert_eq!(value, Err(failed(vec!["e"], missing(vec!["nothing"]))));
    let object = processor(
        block(vec![]),
        block(vec![(
            "e",
            ValueDefinition::Execute(ExecuteStatement {
                executable: "tool".to_owned(),
                arguments: vec![integer(1), ValueDefinition::Object(block(vec![]))],
            }),
        )]),
        vec![],
    );
    let (value, _) = resolve(&object, "e", RequestSource::Local, vec![]);
    assert_eq!(value, Err(failed(vec!["e"], missing(vec!["[1]"]))));
}

#[test]
fn arguments_after_one_that_fails_are_evaluated_too() {
    let engine = processor(
        block(vec![]),
        block(vec![(
            "e",
            ValueDefinition::Execute(ExecuteStatement {
                executable: "tool".to_owned(),
                arguments: vec![
                    alias("nothing"),
                    ValueDefinition::Execute(ExecuteStatement {
                        executable: "late".to_owned(),
                        arguments: vec![],
                    }),
                ],
            }),
        )]),
        vec![],
    );
    let (value, journal) = resolve(&engine, "e", RequestSource::Local, vec![]);
    assert_eq!(value, Err(failed(vec!["e"], missing(vec!["nothing"]))));
    assert_eq!(
        journal.pending,
        Some(Request::Execute { program: "/base/late".to_owned(), arguments: vec![] })
    );
    let (value, journal) = resolve(&engine, "e", RequestSource::Local, vec![Answer::Data(vec![])]);
    assert_eq!(value, Err(failed(vec!["e"], missing(vec!["nothing"]))));
    assert_eq!(journal.pending, None);
    assert_eq!(journal.position, 1);
}

#[test]
fn a_document_as_an_argument_cannot_be_reduced_to_a_scalar() {
    let engine = processor(
        block(vec![]),
        block(vec![(
            "e",
            ValueDefinition::Execute(ExecuteStatement {
                executable: "tool".to_owned(),
                arguments: vec![ValueDefinition::Render(RenderStatement {
                    file: "sub.yaml".to_owned(),
                    parameter: block(vec![]),
                })],
            }),
        )]),
        vec![],
    );
    let (_, journal) = resolve(&engine, "e", RequestSource::Local, vec![]);
    assert_eq!(journal.pending, Some(Request::ReadFile { path: "/base/sub.yaml".to_owned() }));
    let (value, journal) = resolve(
        &engine,
        "e",
        RequestSource::Local,
        vec![Answer::Data(b"injection: []\ntemplate: x\n".to_vec())],
    );
    assert_eq!(value, Err(failed(vec!["e"], ValueRenderError::InvalidCalculateCall)));
    assert_eq!(journal.pending, None);
}

#[test]
fn the_output_of_a_command_has_to_be_text() {
    let engine = processor(block(vec![]), block(vec![]), vec![]);
    let execution = RenderableVariable::ExecutionResult(RenderableExecutionResult {
        executable: "tool".to_owned(),
        arguments: vec![],
        context: Rc::clone(&engine.root),
    });
    let mut journal = Journal { answers: vec![Answer::Data(vec![0x66, 0xff])], position: 0, pending: None };
    assert_eq!(execution.calculate(&mut journal), Err(ValueRenderError::ExecuteResultInvalid));
    let mut journal = Journal {
        answers: vec![Answer::Failure("not found".to_owned())],
        position: 0,
        pending: None,
    };
    assert_eq!(
        execution.calculate(&mut journal),
        Err(ValueRenderError::ExecuteCommandFailed { reason: "not found".to_owned() })
    );
    let mut journal = Journal {
        answers: vec![Answer::Data("gr\u{fc}n".as_bytes().to_vec())],
        position: 0,
        pending: None,
    };
    assert_eq!(execution.calculate(&mut journal), Ok(RawValue::String("gr\u{fc}n".to_owned())));
}

#[test]
fn a_quote_reduces_to_the_whole_text_of_its_file() {
    let engine = processor(block(vec![]), block(vec![]), vec![]);
    let quote = RenderableVariable::Quote(RenderableQuote {
        file: "a.txt".to_owned(),
        context: Rc::clone(&engine.root),
    });
    let mut journal = Journal {
        answers: vec![Answer::Data(b"one\r\ntwo".to_vec())],
        position: 0,
        pending: None,
    };
    assert_eq!(quote.calculate(&mut journal), Ok(RawValue::String("one\r\ntwo".to_owned())));
    let mut journal = Journal { answers: vec![Answer::Failure("gone".to_owned())], position: 0, pending: None };
    assert_eq!(
        quote.calculate(&mut journal),
        Err(ValueRenderError::FailedReadingText {
            input_file: "/base/a.txt".to_owned(),
            reason: "gone".to_owned()
        })
    );
}

#[test]
fn the_journal_gives_its_answers_in_order() {
    let mut journal = Journal::new();
    let ask = |journal: &mut Journal, path: &str| journal.ask(Request::ReadFile { path: path.to_owned() });
    assert!(matches!(ask(&mut journal, "a"), Err(glitter::processing::journal::Interruption::Suspended)));
    assert_eq!(journal.pending(), &Some(Request::ReadFile { path: "a".to_owned() }));
    assert!(matches!(ask(&mut journal, "b"), Err(glitter::processing::journal::Interruption::Suspended)));
    assert_eq!(journal.pending(), &Some(Request::ReadFile { path: "a".to_owned() }));
    journal.record(Answer::Data(vec![1]));
    journal.record(Answer::Failure("no".to_owned()));
    assert_eq!(journal.pending(), &None);
    assert_eq!(ask(&mut journal, "a"), Ok(vec![1]));
    assert_eq!(
        ask(&mut journal, "b"),
        Err(glitter::processing::journal::Interruption::Failed("no".to_owned()))
    );
    assert!(matches!(ask(&mut journal, "c"), Err(glitter::processing::journal::Interruption::Suspended)));
    assert_eq!(journal.pending(), &Some(Request::ReadFile { path: "c".to_owned() }));
    assert_eq!(journal.position, 2);
}
