use sitegen::content::ContentFile;
use sitegen::data::DataFile;
use sitegen::datum::Datum;
use sitegen::error::TemplateError;
use sitegen::templates::{render_outcome, RenderRequest, TemplateEngine};

fn engine_with(templates: &[(&str, &str)], data: &[(&str, &str)]) -> TemplateEngine {
    let mut tera = tera::Tera::default();
    for (name, source) in templates {
        tera.add_raw_template(name, source).unwrap();
    }
    let files: Vec<DataFile> = data
        .iter()
        .map(|(path, text)| DataFile { path: path.to_string(), text: text.to_string() })
        .collect();
    TemplateEngine::new(Ok(tera), &files).unwrap()
}

fn run(engine: &TemplateEngine, request: RenderRequest) -> Result<String, TemplateError> {
    let outcome = tera::Context::from_value(request.context)
        .and_then(|context| engine.tera().render(&request.template_name, &context))
        .map_err(|e| e.to_string());
    render_outcome(outcome)
}

fn render_content(engine: &TemplateEngine, file: &ContentFile, site: &Datum) -> Result<String, TemplateError> {
    run(engine, engine.render_content(file, site))
}

fn render_page(engine: &TemplateEngine, name: &str, context: &Datum) -> Result<String, TemplateError> {
    run(engine, engine.render_page(name, context))
}

fn site() -> Datum {
    Datum::Mapping(vec![("name".to_string(), Datum::Text("My Site".to_string()))])
}

fn about() -> ContentFile {
    ContentFile::from_path("/site/_pages/about.md", "/site", "---\ntitle: About\n---\n# Hi").unwrap()
}

#[test]
fn renders_through_default_template() {
    let engine = engine_with(
        &[("default.html", "{{ page.title }}|{{ site.name }}|{{ lang }}|{{ content | safe }}|{{ language_urls.en }}")],
        &[],
    );
    let html = render_content(&engine, &about(), &site()).unwrap();
    assert_eq!(html, "About|My Site|en|<h1>Hi</h1>\n|&#x2F;about&#x2F;");
}

#[test]
fn layout_selects_template() {
    let engine = engine_with(&[("post.html", "post:{{ page.title }}"), ("default.html", "default")], &[]);
    let file =
        ContentFile::from_path("/site/a.md", "/site", "---\ntitle: A\nlayout: post\n---\nx").unwrap();
    assert_eq!(render_content(&engine, &file, &site()).unwrap(), "post:A");
}

#[test]
fn missing_template_is_render_error() {
    let engine = engine_with(&[], &[]);
    match render_content(&engine, &about(), &site()) {
        Err(TemplateError::Render { message }) => {
            assert_eq!(message, "Template rendering error: Template 'default.html' not found");
        }
        other => panic!("unexpected: {:?}", other),
    }
}

#[test]
fn translations_populate_t() {
    let engine = engine_with(
        &[("default.html", "{% if t %}{{ t.hello }}{% else %}none{% endif %}")],
        &[("_data/translations.yml", "en:\n  hello: Hello\nfr:\n  hello: Bonjour\n")],
    );
    assert_eq!(render_content(&engine, &about(), &site()).unwrap(), "Hello");
    let bare = engine_with(&[("default.html", "{% if t %}{{ t.hello }}{% else %}none{% endif %}")], &[]);
    assert_eq!(render_content(&bare, &about(), &site()).unwrap(), "none");
}

#[test]
fn filters_are_registered() {
    let engine = engine_with(
        &[("t.txt", "{{ a | escape }} {{ \"/foo\" | relative_url(base_url=\"/blog\") }} {{ \"foo\" | relative_url(base_url=\"/blog\") }} {{ \"/x\" | absolute_url(site_url=\"https://e.org\") }} {{ n | escape }} {{ f | relative_url(base_url=\"/b\") }}")],
        &[],
    );
    let context = Datum::Mapping(vec![
        ("a".to_string(), Datum::Text("<b>x</b>".to_string())),
        ("n".to_string(), Datum::Integer(7)),
        ("f".to_string(), Datum::Decimal("1.5".to_string())),
    ]);
    assert_eq!(
        render_page(&engine, "t.txt", &context).unwrap(),
        "&lt;b&gt;x&lt;/b&gt; /blog/foo foo https://e.org/x 7 1.5"
    );
}

#[test]
fn last_entry_of_a_key_reaches_the_template() {
    let engine = engine_with(
        &[("t.txt", "{{ a }} {{ m.k }} {{ data.nav }}")],
        &[("d/nav.yml", "1"), ("d/nav.json", "2")],
    );
    let context = Datum::Mapping(vec![
        ("a".to_string(), Datum::Integer(1)),
        (
            "m".to_string(),
            Datum::Mapping(vec![
                ("k".to_string(), Datum::Text("first".to_string())),
                ("k".to_string(), Datum::Text("last".to_string())),
            ]),
        ),
        ("a".to_string(), Datum::Integer(2)),
        ("data".to_string(), Datum::Mapping(engine.data().clone())),
    ]);
    assert_eq!(engine.data().len(), 2);
    assert_eq!(render_page(&engine, "t.txt", &context).unwrap(), "2 last 2");
    let file = about();
    let with_data = engine_with(&[("default.html", "{{ data.nav }}")], &[("d/nav.yml", "1"), ("d/nav.json", "2")]);
    assert_eq!(render_content(&with_data, &file, &site()).unwrap(), "2");
}

#[test]
fn context_that_is_no_mapping_is_refused() {
    let engine = engine_with(&[("t.txt", "x")], &[]);
    for context in [Datum::Null, Datum::Integer(1), Datum::Sequence(Vec::new()), Datum::Text("x".to_string()), Datum::Decimal("1.5".to_string())] {
        match render_page(&engine, "t.txt", &context) {
            Err(TemplateError::Render { message }) => {
                assert!(message.starts_with("Template rendering error: "))
            }
            other => panic!("unexpected: {:?}", other),
        }
    }
    assert_eq!(render_page(&engine, "t.txt", &Datum::Mapping(Vec::new())).unwrap(), "x");
}

#[test]
fn only_the_three_filters_are_replaced() {
    let engine = engine_with(
        &[("t.txt", "{{ \"ab\" | upper }} {{ \"<i>\" | safe }} {{ \"<i>\" | escape }} {{ n | absolute_url(site_url=\"s\") }} {{ l | relative_url(base_url=\"/b\") | length }}")],
        &[],
    );
    let context = Datum::Mapping(vec![
        ("n".to_string(), Datum::Integer(7)),
        ("l".to_string(), Datum::Sequence(vec![Datum::Text("/x".to_string())])),
    ]);
    assert_eq!(render_page(&engine, "t.txt", &context).unwrap(), "AB <i> &lt;i&gt; 7 1");
}

#[test]
fn request_names_template_and_context() {
    let engine = engine_with(&[], &[("d/n.json", "{\"x\": 1.5}")]);
    let request = engine.render_content(&about(), &site());
    assert_eq!(request.template_name, "default.html");
    assert_eq!(request.context["page"]["title"], "About");
    assert_eq!(request.context["page"]["layout"], serde_json::Value::Null);
    assert_eq!(request.context["content"], "<h1>Hi</h1>\n");
    assert_eq!(request.context["site"]["name"], "My Site");
    assert_eq!(request.context["lang"], "en");
    assert_eq!(request.context["language_urls"]["en"], "/about/");
    assert_eq!(request.context["data"]["n"]["x"].to_string(), "1.5");
    assert!(request.context.get("t").is_none());
    let page = engine.render_page(
        "list.html",
        &Datum::Mapping(vec![
            ("n".to_string(), Datum::Decimal("2.50".to_string())),
            ("bad".to_string(), Datum::Decimal("NaN".to_string())),
            ("word".to_string(), Datum::Decimal("true".to_string())),
            ("i".to_string(), Datum::Decimal("7".to_string())),
        ]),
    );
    assert_eq!(page.template_name, "list.html");
    assert_eq!(page.context["n"].to_string(), "2.5");
    assert_eq!(page.context["bad"], serde_json::Value::Null);
    assert_eq!(page.context["word"], serde_json::Value::Null);
    assert_eq!(page.context["i"], 7);
}

#[test]
fn data_files_by_format() {
    let engine = engine_with(
        &[("t.txt", "{{ data.nav.items | length }} {{ data.conf.price }} {{ data.conf.big }}")],
        &[
            ("_data/nav.yaml", "items:\n  - a\n  - b\n"),
            ("_data/conf.json", "{\"price\": 9.99, \"big\": 18446744073709551615}"),
            ("_data/readme.txt", ": not : yaml ["),
        ],
    );
    let context = Datum::Mapping(vec![(
        "data".to_string(),
        Datum::Mapping(sitegen::datum::duplicate_entries(engine.data())),
    )]);
    assert_eq!(render_page(&engine, "t.txt", &context).unwrap(), "2 9.99 18446744073709551615");
    assert!(sitegen::datum::lookup(engine.data(), "readme").is_none());
}

#[test]
fn malformed_data_file_is_fatal() {
    let files = vec![
        DataFile { path: "_data/ok.yml".to_string(), text: "a: 1".to_string() },
        DataFile { path: "_data/bad.json".to_string(), text: "{".to_string() },
    ];
    match TemplateEngine::new(Ok(tera::Tera::default()), &files) {
        Err(TemplateError::DataLoad { path, .. }) => assert_eq!(path, "_data/bad.json"),
        _ => panic!("expected a data load error"),
    }
}

#[test]
fn template_load_failure_degrades() {
    let failure = tera::Tera::default().render("missing", &tera::Context::new()).unwrap_err();
    let engine = TemplateEngine::new(Err(failure), &Vec::new()).unwrap();
    assert!(engine.load_warning().is_some());
    assert!(render_content(&engine, &about(), &site()).is_err());
}
