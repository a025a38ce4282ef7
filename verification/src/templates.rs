//! Template rendering: a set of compiled templates, held by `tera`, and the
//! data table that every page can draw on.
//!
//! A page is rendered in three steps. The library says what to render
//! ([`TemplateEngine::render_content`], [`TemplateEngine::render_page`]), its
//! caller has `tera` render it, and the library turns what `tera` returned
//! into the result ([`render_outcome`]).

use vstd::prelude::*;
use crate::content::ContentFile;
use crate::context::{context_of, render_context, template_name, template_of};
use crate::data::{load, table_of, DataFile};
use crate::datum::{mapping_view, Datum, DatumView};
use crate::error::TemplateError;
use crate::filters::{filtered, lemma_filter_names_differ, name_of, FilterKind};
use crate::json::{datum_to_json, json_form, json_to_datum, json_view};
use crate::text::{joined, owned};

verus! {

/// `tera::Tera`, a set of compiled templates with their filters. The library
/// sees no part of it: [`template_names`] and [`filter_names`] name what it
/// holds.
#[verifier::external_type_specification]
#[verifier::external_body]
pub struct ExTera(tera::Tera);

/// `tera::Error`, of which the library reads only the message.
#[verifier::external_type_specification]
#[verifier::external_body]
pub struct ExTeraError(tera::Error);

/// The names of the templates that a `tera::Tera` holds.
pub uninterp spec fn template_names(engine: tera::Tera) -> Set<Seq<char>>;

/// The names of the filters that a `tera::Tera` holds.
pub uninterp spec fn filter_names(engine: tera::Tera) -> Set<Seq<char>>;

/// The filters of the library that a `tera::Tera` holds: for each name under
/// which [`install_filter`] entered one, and which no other filter has taken
/// since, the kind of that filter.
pub uninterp spec fn installed_kinds(engine: tera::Tera) -> Map<Seq<char>, FilterKind>;

/// No filter of the library under any name.
pub open spec fn no_kinds() -> Map<Seq<char>, FilterKind> {
    Map::empty()
}

/// Calls `Tera::default`, which makes an engine with `tera`'s own filters,
/// tests and functions, without any template and without a filter of the
/// library.
#[verifier::external_body]
fn empty_engine() -> (engine: tera::Tera)
    ensures
        template_names(engine) == Set::<Seq<char>>::empty(),
        installed_kinds(engine) == no_kinds(),
{
    tera::Tera::default()
}

/// Calls `Tera::register_filter` with a closure that applies the library's
/// filter of the given kind to the value and the arguments that `tera` hands
/// it. The filter is entered under `name`, in place of any filter that had
/// the name; every other filter and the templates stay as they are.
#[verifier::external_body]
fn install_filter(engine: &mut tera::Tera, name: &str, kind: FilterKind)
    ensures
        template_names(*final(engine)) == template_names(*old(engine)),
        filter_names(*final(engine)) == filter_names(*old(engine)).insert(name@),
        installed_kinds(*final(engine)) == installed_kinds(*old(engine)).insert(name@, kind),
{
    engine.register_filter(
        name,
        move |value: &serde_json::Value, args: &std::collections::HashMap<String, serde_json::Value>|
            {
                let args = args.iter().map(|(k, v)| (k.clone(), json_to_datum(v))).collect();
                Ok(datum_to_json(&kind.apply(&json_to_datum(value), &args)))
            },
    );
}

/// The message of a `tera::Error`, as its `Display` gives it.
#[verifier::external_body]
fn engine_error_text(error: &tera::Error) -> String {
    error.to_string()
}

/// One rendering, ready for the engine: the name of the template, and the
/// context as the JSON document that `tera::Context::from_value` takes.
///
/// The library builds the request and reads the outcome; the call of
/// `tera::Tera::render` between the two is its caller's.
pub struct RenderRequest {
    pub template_name: String,
    pub context: serde_json::Value,
}

/// What stands before the engine's diagnostic in the message of a
/// `TemplateError::Render`.
pub open spec fn render_error_prefix() -> Seq<char> {
    "Template rendering error: "@
}

/// The result of a rendering, from what the engine returned: its text, or
/// its diagnostic in a `TemplateError::Render`.
pub fn render_outcome(outcome: Result<String, String>) -> (r: Result<String, TemplateError>)
    ensures
        match outcome {
            Ok(text) => r == Ok::<String, TemplateError>(text),
            Err(diagnostic) => r matches Err(TemplateError::Render { message }) && message@
                == render_error_prefix() + diagnostic@,
        },
{
    match outcome {
        Ok(text) => Ok(text),
        Err(diagnostic) => Err(
            TemplateError::Render {
                message: joined("Template rendering error: ", diagnostic.as_str()),
            },
        ),
    }
}

/// `names` with the names of the three filters of the library.
pub open spec fn with_library_filters(names: Set<Seq<char>>) -> Set<Seq<char>> {
    names.insert(name_of(FilterKind::Escape)).insert(name_of(FilterKind::RelativeUrl)).insert(
        name_of(FilterKind::AbsoluteUrl),
    )
}

/// `kinds` with the three filters of the library, each under its own name.
pub open spec fn with_library_kinds(kinds: Map<Seq<char>, FilterKind>) -> Map<
    Seq<char>,
    FilterKind,
> {
    kinds.insert(name_of(FilterKind::Escape), FilterKind::Escape).insert(
        name_of(FilterKind::RelativeUrl),
        FilterKind::RelativeUrl,
    ).insert(name_of(FilterKind::AbsoluteUrl), FilterKind::AbsoluteUrl)
}

/// A set of templates with the library's filters, and the data table.
pub struct TemplateEngine {
    tera: tera::Tera,
    data: Vec<(String, Datum)>,
    warning: Option<String>,
}

impl TemplateEngine {
    /// The data table.
    pub closed spec fn data_view(&self) -> Map<Seq<char>, DatumView> {
        mapping_view(self.data@)
    }

    /// The names of the templates that the engine holds.
    pub closed spec fn templates(&self) -> Set<Seq<char>> {
        template_names(self.tera)
    }

    /// The names of the filters that the engine holds.
    pub closed spec fn filters(&self) -> Set<Seq<char>> {
        filter_names(self.tera)
    }

    /// The filters of the library that the engine holds, by name.
    pub closed spec fn kinds(&self) -> Map<Seq<char>, FilterKind> {
        installed_kinds(self.tera)
    }

    /// What the engine's filter `name` makes of a value, where the name
    /// holds a filter of the library.
    pub open spec fn filter_result(
        &self,
        name: Seq<char>,
        value: DatumView,
        args: Map<Seq<char>, DatumView>,
    ) -> DatumView {
        filtered(self.kinds()[name], value, args)
    }

    /// Whether the templates could not be loaded.
    pub closed spec fn degraded(&self) -> bool {
        self.warning is Some
    }

    /// Builds the engine from the outcome of loading the templates and from
    /// the files of the data directory.
    ///
    /// Templates that could not be loaded are no error: the engine then
    /// holds no template, and keeps the diagnostic as a warning. A data file
    /// that its parser refuses is one. The engine gets the three filters of
    /// the library, each under its own name, and no other filter is added
    /// or replaced.
    pub fn new(templates: Result<tera::Tera, tera::Error>, data_files: &Vec<DataFile>) -> (r:
        Result<TemplateEngine, TemplateError>)
        ensures
            match r {
                Ok(engine) => {
                    &&& table_of(data_files@) == Ok::<Map<Seq<char>, DatumView>, Seq<char>>(
                        engine.data_view(),
                    )
                    &&& engine.templates() == (match templates {
                        Ok(loaded) => template_names(loaded),
                        Err(_) => Set::<Seq<char>>::empty(),
                    })
                    &&& engine.degraded() == (templates is Err)
                    &&& forall|kind: FilterKind|
                        engine.kinds().contains_key(#[trigger] name_of(kind))
                            && engine.kinds()[name_of(kind)] == kind
                    &&& forall|kind: FilterKind| #[trigger] engine.filters().contains(name_of(kind))
                    &&& templates matches Ok(loaded) ==> engine.filters() == with_library_filters(
                        filter_names(loaded),
                    ) && engine.kinds() == with_library_kinds(installed_kinds(loaded))
                    &&& templates is Err ==> engine.kinds() == with_library_kinds(no_kinds())
                },
                Err(TemplateError::DataLoad { path, message }) => table_of(data_files@) == Err::<
                    Map<Seq<char>, DatumView>,
                    Seq<char>,
                >(path@),
                Err(_) => false,
            },
    {
        let (mut tera, warning) = match templates {
            Ok(loaded) => (loaded, None),
            Err(e) => (empty_engine(), Some(engine_error_text(&e))),
        };
        let data = match TemplateEngine::load_data_files(data_files) {
            Ok(data) => data,
            Err(e) => {
                return Err(e);
            },
        };
        proof {
            lemma_filter_names_differ();
        }
        install_filter(&mut tera, FilterKind::Escape.name(), FilterKind::Escape);
        install_filter(&mut tera, FilterKind::RelativeUrl.name(), FilterKind::RelativeUrl);
        install_filter(&mut tera, FilterKind::AbsoluteUrl.name(), FilterKind::AbsoluteUrl);
        Ok(TemplateEngine { tera, data, warning })
    }

    /// Builds the data table from the files of the data directory.
    pub fn load_data_files(data_files: &Vec<DataFile>) -> (r: Result<
        Vec<(String, Datum)>,
        TemplateError,
    >)
        ensures
            match r {
                Ok(table) => table_of(data_files@) == Ok::<Map<Seq<char>, DatumView>, Seq<char>>(
                    mapping_view(table@),
                ),
                Err(TemplateError::DataLoad { path, message }) => table_of(data_files@) == Err::<
                    Map<Seq<char>, DatumView>,
                    Seq<char>,
                >(path@),
                Err(_) => false,
            },
    {
        load(data_files)
    }

    /// The data table.
    pub fn data(&self) -> (r: &Vec<(String, Datum)>)
        ensures
            mapping_view(r@) == self.data_view(),
    {
        &self.data
    }

    /// The engine's diagnostic, where the templates could not be loaded.
    pub fn load_warning(&self) -> (r: Option<&String>)
        ensures
            r is Some == self.degraded(),
    {
        self.warning.as_ref()
    }

    /// The engine itself, for the call that renders a request.
    pub fn tera(&self) -> (r: &tera::Tera)
        ensures
            template_names(*r) == self.templates(),
            filter_names(*r) == self.filters(),
            installed_kinds(*r) == self.kinds(),
    {
        &self.tera
    }

    /// What to render for `document`: the template that its layout names,
    /// and the context that `render_context` builds for it from the site
    /// configuration and the data table.
    pub fn render_content(&self, document: &ContentFile, site_config: &Datum) -> (r: RenderRequest)
        ensures
            r.template_name@ == template_of(document.front_matter@),
            json_view(r.context) == json_form(
                DatumView::Mapping(context_of(document@, site_config@, self.data_view())),
            ),
    {
        let context = render_context(document, site_config, &self.data);
        let name = template_name(&document.front_matter);
        self.render_page(name.as_str(), &context)
    }

    /// What to render for the template `template_name` in a context that the
    /// caller assembled.
    pub fn render_page(&self, template_name: &str, context: &Datum) -> (r: RenderRequest)
        ensures
            r.template_name@ == template_name@,
            json_view(r.context) == json_form(context@),
    {
        RenderRequest { template_name: owned(template_name), context: datum_to_json(context) }
    }
}

} // verus!
