use glitter::config::reader::ConfigReadError;
use glitter::processing::journal::{Answer, Journal, Request};
use glitter::rendering::{TemplateRenderError, ValueRenderError};
use glitter::{process, GlitterError};

fn run(input: &str, answers: Vec<Answer>) -> (Result<(), GlitterError>, String, Journal) {
    let mut journal = Journal { answers, position: 0, pending: None };
    let mut output = String::new();
    let outcome = process(input, "doc.yaml".to_owned(), "/base".to_owned(), &mut journal, &mut output);
    (outcome, output, journal)
}

fn answer(request: &Request) -> Answer {
    match request {
        Request::ReadFile { path } if path == "/base/people.yaml" => {
            Answer::Data(b"ann:\n  town: Bonn\n".to_vec())
        }
        Request::ReadFile { path } if path == "/base/motto.txt" => Answer::Data(b"carpe\ndiem".to_vec()),
        Request::ReadFile { path } => Answer::Failure(format!("no file {}", path)),
        Request::Execute { program, arguments } => {
            Answer::Data(format!("{}({})", program, arguments.join(",")).into_bytes())
        }
    }
}

fn run_to_the_end(input: &str) -> (Result<(), GlitterError>, String, usize) {
    let mut journal = Journal::new();
    loop {
        let mut output = String::new();
        let outcome = process(input, "doc.yaml".to_owned(), "/base".to_owned(), &mut journal, &mut output);
        match journal.pending() {
            Some(request) => {
                let given = answer(request);
                journal.record(given);
            }
            None => return (outcome, output, journal.answers.len()),
        }
    }
}

#[test]
fn a_greeting_from_the_local_scope_by_way_of_the_row() {
    let document = "
global: {}
local:
  greeting:
    value: hi
injection:
  - greeting:
      variable: greeting
template: '*{greeting}'
";
    let (outcome, output, journal) = run(document, vec![]);
    assert_eq!(outcome, Ok(()));
    assert_eq!(output.as_bytes(), b"hi\n");
    assert_eq!(journal, Journal::new());
}

#[test]
fn a_greeting_in_the_row_is_rendered() {
    let document = "
global: {}
local: {}
injection:
  - greeting:
      value: hi
template: '*{greeting}'
";
    let (outcome, output, _) = run(document, vec![]);
    assert_eq!(outcome, Ok(()));
    assert_eq!(output.as_bytes(), b"hi\n");
}

#[test]
fn the_template_does_not_see_the_local_scope_directly() {
    let document = "
global: {}
local:
  greeting:
    value: hi
injection:
  - {}
template: '*{greeting}'
";
    let (outcome, output, _) = run(document, vec![]);
    assert_eq!(
        outcome,
        Err(GlitterError::RenderingFailed {
            source: TemplateRenderError::ValueRenderingFailed {
                source: Box::new(ValueRenderError::FailedResolvingVariable {
                    var_resolution_path: vec!["greeting".to_owned()]
                })
            }
        })
    );
    assert_eq!(output, "");
}

#[test]
fn an_alias_to_a_nested_integer_renders_its_digits() {
    let document = "
local:
  a:
    variable: b.c
  b:
    children:
      c:
        value: 5
injection:
  - a:
      variable: a
template: '*{a}'
";
    let (outcome, output, _) = run(document, vec![]);
    assert_eq!(outcome, Ok(()));
    assert_eq!(output, "5\n");
}

#[test]
fn what_is_no_document_is_refused() {
    let (outcome, output, journal) = run("template: x\n", vec![]);
    assert_eq!(
        outcome,
        Err(GlitterError::InvalidConfig { source: ConfigReadError::InvalidTypeAtInjection })
    );
    assert_eq!(output, "");
    assert_eq!(journal, Journal::new());
    let (outcome, _, _) = run("a: [", vec![]);
    assert!(matches!(
        outcome,
        Err(GlitterError::InvalidConfig { source: ConfigReadError::InvalidYaml { .. } })
    ));
}

#[test]
fn output_is_added_to_what_was_there() {
    let mut journal = Journal::new();
    let mut output = "before|".to_owned();
    let outcome = process(
        "injection: [{}, {}]\ntemplate: 'row *{$iteration} of *{$filename} in *{$directory}'\n",
        "doc.yaml".to_owned(),
        "/base".to_owned(),
        &mut journal,
        &mut output,
    );
    assert_eq!(outcome, Ok(()));
    assert_eq!(output, "before|row 1 of doc.yaml in /base\nrow 2 of doc.yaml in /base\n");
}

#[test]
fn a_run_is_repeated_until_the_outside_has_answered_everything() {
    let document = "
global:
  people:
    import: people.yaml
local:
  motto:
    quote: motto.txt
  shout:
    execute: bin/shout
    arguments:
      - variable: people.ann.town
      - value: 2
injection:
  - town:
      variable: people.ann.town
    motto:
      variable: motto
    shout:
      variable: shout
  - town:
      value: Ulm
    motto:
      variable: motto
    shout:
      variable: shout
template:
  header:
    value: \"towns:\\n\"
  body:
    value: '*{$iteration} *{town} *{shout}
*> motto'
";
    let (outcome, output, answers) = run_to_the_end(document);
    assert_eq!(outcome, Ok(()));
    assert_eq!(
        output,
        "towns:\n1 Bonn /base/bin/shout(Bonn,2) carpe\ndiem\n\n2 Ulm /base/bin/shout(Bonn,2) carpe\ndiem\n\n"
    );
    assert_eq!(answers, 7);
}

#[test]
fn a_file_that_is_missing_ends_the_run_with_what_was_written() {
    let document = "
local:
  q:
    quote: nothing.txt
injection:
  - q:
      variable: q
template: 'a *{q} b'
";
    let (outcome, output, _) = run_to_the_end(document);
    assert_eq!(
        outcome,
        Err(GlitterError::RenderingFailed {
            source: TemplateRenderError::ValueRenderingFailed {
                source: Box::new(ValueRenderError::FailedReadingText {
                    input_file: "/base/nothing.txt".to_owned(),
                    reason: "no file /base/nothing.txt".to_owned(),
                })
            }
        })
    );
    assert_eq!(output, "a ");
}
