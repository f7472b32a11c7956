use crate::config::model::{
    BlockView, DefinitionView, RawValue, ScalarView, TemplateDefinition, TemplateView,
    ValueDefinition, VariableDefinitionBlock,
};
use crate::processing::var_store::{stores_upto, stores_upto_places, StoreView, VariableStore};
use crate::text::optional_text;
use std::path::Path;
use std::rc::Rc;
use vstd::prelude::*;

verus! {

/// What `Path::join` of std makes of a directory and a file name, both given
/// as text, on the platform that the library is built for.
pub uninterp spec fn joined_path(directory: Seq<char>, file: Seq<char>) -> Seq<char>;

/// Joins `file` to `directory` with `Path::join` of std, which yields `file`
/// alone where it is absolute and the two with a separator between them
/// otherwise. The contract names the result.
#[verifier::external_body]
pub(crate) fn join_path(directory: &str, file: &str) -> (joined: String)
    ensures
        joined@ == joined_path(directory@, file@),
{
    Path::new(directory).join(file).to_string_lossy().into_owned()
}

/// What `Path::parent` of std makes of a file name given as text, on the
/// platform that the library is built for.
pub uninterp spec fn path_parent(path: Seq<char>) -> Option<Seq<char>>;

/// What `Path::file_name` of std makes of a file name given as text, on the
/// platform that the library is built for.
pub uninterp spec fn path_file_name(path: Seq<char>) -> Option<Seq<char>>;

/// The directory of `path`, by `Path::parent` of std: the path without its
/// last part, or nothing where the path ends in a root or is empty. The
/// contract names the result.
#[verifier::external_body]
pub(crate) fn parent_of(path: &str) -> (parent: Option<String>)
    ensures
        optional_text(parent) == path_parent(path@),
{
    Path::new(path).parent().map(|parent| parent.to_string_lossy().into_owned())
}

/// The last part of `path`, by `Path::file_name` of std, or nothing where
/// the path ends in `..` or has no part. The contract names the result.
#[verifier::external_body]
pub(crate) fn file_name_of(path: &str) -> (name: Option<String>)
    ensures
        optional_text(name) == path_file_name(path@),
{
    Path::new(path).file_name().map(|name| name.to_string_lossy().into_owned())
}

/// Another handle to the shared value, by `Rc::clone` of std. The contract
/// claims that the new handle leads to the same value.
#[verifier::external_body]
pub(crate) fn share<T>(shared: &Rc<T>) -> (handle: Rc<T>)
    ensures
        handle == *shared,
{
    Rc::clone(shared)
}

/// A scope of resolution: the directory that file names are relative to, the
/// local definitions, the injection rows, and the template, if it has one.
#[derive(Debug, PartialEq, Eq)]
pub struct ProcessingContext {
    pub directory: String,
    pub local: VariableStore,
    pub injection: Vec<VariableStore>,
    pub template: Option<TemplateDefinition>,
}

/// What a `ProcessingContext` stands for.
pub struct ContextView {
    pub directory: Seq<char>,
    pub local: StoreView,
    pub injection: Seq<StoreView>,
    pub template: Option<TemplateView>,
}

/// What the stores of `rows` stand for.
pub open spec fn stores_view(rows: Seq<VariableStore>) -> Seq<StoreView> {
    Seq::new(
        rows.len(),
        |i: int|
            if 0 <= i < rows.len() {
                rows[i].view()
            } else {
                arbitrary()
            },
    )
}

/// What an optional template stands for.
pub open spec fn template_view(template: Option<TemplateDefinition>) -> Option<TemplateView> {
    match template {
        Some(definition) => Some(definition@),
        None => None,
    }
}

impl View for ProcessingContext {
    type V = ContextView;

    open spec fn view(&self) -> ContextView
        decreases self,
    {
        ContextView {
            directory: self.directory@,
            local: self.local.view(),
            injection: stores_upto(self.injection@, self.injection@.len()),
            template: template_view(self.template),
        }
    }
}

/// The number of the row at `index`, counted from one; the largest `i64`
/// where that would not fit.
pub open spec fn row_number(index: int) -> i64 {
    if index < i64::MAX {
        (index + 1) as i64
    } else {
        i64::MAX
    }
}

/// The definitions of an injection row: its own, and the number of the row,
/// the name of the document and its directory under the names `$iteration`,
/// `$filename` and `$directory`.
pub open spec fn row_definitions(
    row: BlockView,
    index: int,
    filename: Seq<char>,
    directory: Seq<char>,
) -> BlockView {
    row.insert(
        "$iteration"@,
        DefinitionView::Value(ScalarView::Integer(row_number(index))),
    ).insert("$filename"@, DefinitionView::Value(ScalarView::Text(filename))).insert(
        "$directory"@,
        DefinitionView::Value(ScalarView::Text(directory)),
    )
}

/// The stores of the injection rows of a document.
pub open spec fn injection_stores(
    rows: Seq<BlockView>,
    filename: Seq<char>,
    directory: Seq<char>,
) -> Seq<StoreView> {
    Seq::new(
        rows.len(),
        |i: int|
            StoreView {
                inner: row_definitions(rows[i], i, filename, directory),
                parameter: Map::empty(),
                source: None,
            },
    )
}

/// The injection rows of a context are what its stores stand for.
pub proof fn injection_view(context: &ProcessingContext)
    ensures
        context@.injection == stores_view(context.injection@),
{
    stores_upto_places(context.injection@, context.injection@.len());
    assert(context@.injection =~= stores_view(context.injection@));
}

impl ProcessingContext {
    /// The context of a document of its own.
    pub fn initial(
        filename: String,
        directory: String,
        local_source: VariableDefinitionBlock,
        injection_source: Vec<VariableDefinitionBlock>,
        template_source: TemplateDefinition,
    ) -> (context: Self)
        ensures
            context@ == (ContextView {
                directory: directory@,
                local: StoreView { inner: local_source@, parameter: Map::empty(), source: None },
                injection: injection_stores(
                    crate::config::model::rows_view(injection_source@),
                    filename@,
                    directory@,
                ),
                template: Some(template_source@),
            }),
    {
        let injection = Self::build_injection_store(injection_source, &filename, &directory);
        let context = ProcessingContext {
            directory,
            local: VariableStore::from(local_source),
            injection,
            template: Some(template_source),
        };
        proof {
            injection_view(&context);
        }
        context
    }

    /// The stores of the injection rows, each with the three names that every
    /// row defines.
    pub fn build_injection_store(
        injection_source: Vec<VariableDefinitionBlock>,
        filename: &String,
        directory: &String,
    ) -> (stores: Vec<VariableStore>)
        ensures
            stores_view(stores@) == injection_stores(
                crate::config::model::rows_view(injection_source@),
                filename@,
                directory@,
            ),
    {
        let ghost rows = crate::config::model::rows_view(injection_source@);
        let mut stores: Vec<VariableStore> = Vec::new();
        let mut i: usize = 0;
        while i < injection_source.len()
            invariant
                i <= injection_source.len(),
                stores.len() == i,
                rows == crate::config::model::rows_view(injection_source@),
                forall|j: int|
                    0 <= j < i ==> (#[trigger] stores@[j])@ == injection_stores(
                        rows,
                        filename@,
                        directory@,
                    )[j],
            decreases injection_source.len() - i,
        {
            let number: i64 = if (i as u64) < (i64::MAX as u64) {
                (i + 1) as i64
            } else {
                i64::MAX
            };
            let store = VariableStore::from(injection_source[i].clone()).insert(
                "$iteration",
                ValueDefinition::Value(RawValue::Integer(number)),
            ).insert("$filename", ValueDefinition::Value(RawValue::String(filename.clone()))).insert(
                "$directory",
                ValueDefinition::Value(RawValue::String(directory.clone())),
            );
            stores.push(store);
            i += 1;
        }
        assert(stores_view(stores@) =~= injection_stores(rows, filename@, directory@));
        stores
    }

    /// The context of a document that is rendered from within another: its
    /// local store holds the parameters, which belong to `source_context`.
    pub fn subcontext(
        filename: String,
        directory: String,
        local_source: VariableDefinitionBlock,
        injection_source: Vec<VariableDefinitionBlock>,
        template_source: TemplateDefinition,
        parameter_source: VariableDefinitionBlock,
        source_context: Rc<ProcessingContext>,
    ) -> (context: Self)
        ensures
            context@ == (ContextView {
                directory: directory@,
                local: StoreView {
                    inner: local_source@,
                    parameter: parameter_source@,
                    source: Some(Box::new((*source_context)@)),
                },
                injection: injection_stores(
                    crate::config::model::rows_view(injection_source@),
                    filename@,
                    directory@,
                ),
                template: Some(template_source@),
            }),
    {
        let injection = Self::build_injection_store(injection_source, &filename, &directory);
        let context = ProcessingContext {
            directory,
            local: VariableStore::with_context(local_source, parameter_source, source_context),
            injection,
            template: Some(template_source),
        };
        proof {
            injection_view(&context);
        }
        context
    }

    /// A context of local definitions alone.
    pub fn local_standalone(directory: String, local_source: VariableDefinitionBlock) -> (context:
        Self)
        ensures
            context@ == (ContextView {
                directory: directory@,
                local: StoreView { inner: local_source@, parameter: Map::empty(), source: None },
                injection: Seq::empty(),
                template: None,
            }),
    {
        let context = ProcessingContext {
            directory,
            local: VariableStore::from(local_source),
            injection: Vec::new(),
            template: None,
        };
        proof {
            injection_view(&context);
        }
        assert(stores_view(context.injection@) =~= Seq::empty());
        context
    }

    /// A context of local definitions with parameters that belong to
    /// `source_context`.
    pub fn local_subcontext(
        directory: String,
        local_source: VariableDefinitionBlock,
        parameter_source: VariableDefinitionBlock,
        source_context: Rc<ProcessingContext>,
    ) -> (context: Self)
        ensures
            context@ == (ContextView {
                directory: directory@,
                local: StoreView {
                    inner: local_source@,
                    parameter: parameter_source@,
                    source: Some(Box::new((*source_context)@)),
                },
                injection: Seq::empty(),
                template: None,
            }),
    {
        let context = ProcessingContext {
            directory,
            local: VariableStore::with_context(local_source, parameter_source, source_context),
            injection: Vec::new(),
            template: None,
        };
        proof {
            injection_view(&context);
        }
        assert(stores_view(context.injection@) =~= Seq::empty());
        context
    }

    /// The file name `filename` as seen from the directory of this context.
    pub fn resolve_filename(&self, filename: &str) -> (full: String)
        ensures
            full@ == joined_path(self@.directory, filename@),
    {
        join_path(self.directory.as_str(), filename)
    }
}

} // verus!
