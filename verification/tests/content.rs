use sitegen::content::ContentFile;
use sitegen::datum::Datum;
use sitegen::decimal::truncate;
use sitegen::error::ContentError;
use sitegen::source::has_front_matter;

fn extra<'a>(file: &'a ContentFile, key: &str) -> Option<&'a Datum> {
    sitegen::datum::lookup(&file.front_matter.extra, key)
}

#[test]
fn about_page_scenario() {
    let file =
        ContentFile::from_path("/site/_pages/about.md", "/site", "---\ntitle: About\n---\n# Hi")
            .unwrap();
    assert_eq!(file.collection.as_deref(), Some("pages"));
    assert_eq!(file.language, "en");
    assert_eq!(file.front_matter.title.as_deref(), Some("About"));
    assert!(file.html_content.contains("<h1>Hi</h1>"));
    assert_eq!(file.content, "# Hi");
    assert_eq!(file.relative_path, "_pages/about.md");
    assert_eq!(file.get_file_path(), "about/index.html");
    assert_eq!(file.get_output_path(""), "/about/");
}

#[test]
fn floats_in_front_matter_are_narrowed() {
    let text = "---\nweight: 3.7\nneg: -2.5\nbig: 1.5e17\ntags:\n  - 1.25\n  - x\nnested:\n  ratio: 0.5\n---\nbody\n";
    let file = ContentFile::from_path("/site/a.md", "/site", text).unwrap();
    assert!(matches!(extra(&file, "weight"), Some(Datum::Integer(3))));
    assert!(matches!(extra(&file, "neg"), Some(Datum::Integer(-2))));
    assert!(matches!(extra(&file, "big"), Some(Datum::Integer(150000000000000000))));
    match extra(&file, "tags") {
        Some(Datum::Sequence(items)) => {
            assert!(matches!(items[0], Datum::Integer(1)));
            assert!(matches!(&items[1], Datum::Text(s) if s == "x"));
        }
        other => panic!("unexpected tags: {:?}", other),
    }
    match extra(&file, "nested") {
        Some(Datum::Mapping(entries)) => {
            assert!(matches!(sitegen::datum::lookup(entries, "ratio"), Some(Datum::Integer(0))));
        }
        other => panic!("unexpected nested: {:?}", other),
    }
}

#[test]
fn truncate_examples() {
    assert_eq!(truncate("3.7"), 3);
    assert_eq!(truncate("-3.7"), -3);
    assert_eq!(truncate("-0.0"), 0);
    assert_eq!(truncate("1e3"), 1000);
    assert_eq!(truncate("1.5e-7"), 0);
    assert_eq!(truncate("1.2345E+2"), 123);
    assert_eq!(truncate("1e400"), i64::MAX);
    assert_eq!(truncate("-1e400"), i64::MIN);
    assert_eq!(truncate("18446744073709551615"), i64::MAX);
    assert_eq!(truncate("9223372036854775807"), i64::MAX);
    assert_eq!(truncate("-9223372036854775808"), i64::MIN);
    assert_eq!(truncate("-9223372036854775807"), -9223372036854775807);
    assert_eq!(truncate("0e99999999999999999999999999999999999999"), 0);
    assert_eq!(truncate("1e-99999999999999999999999999999999999999"), 0);
    assert_eq!(truncate("1e99999999999999999999999999999999999999"), i64::MAX);
    assert_eq!(truncate("1.152921504606847e18"), 1152921504606847000);
    assert_eq!(truncate("123456789.987654321"), 123456789);
    assert_eq!(truncate("0.000001e6"), 1);
    assert_eq!(truncate("-"), 0);
    assert_eq!(truncate("+1"), 0);
    assert_eq!(truncate("1e"), 0);
    assert_eq!(truncate("1e+"), 0);
    assert_eq!(truncate(".5"), 0);
    assert_eq!(truncate("1.5x"), 0);
    assert_eq!(truncate("abc"), 0);
    assert_eq!(truncate("1."), 0);
    assert_eq!(truncate(""), 0);
}

#[test]
fn block_detection() {
    assert!(has_front_matter("---\ntitle: x\n---\nbody"));
    assert!(has_front_matter("--- \r\ntitle: x\r\n---\r\nbody"));
    assert!(has_front_matter("---\n---"));
    assert!(!has_front_matter("---\ntitle: x\nbody"));
    assert!(!has_front_matter("title: x\n---\nbody"));
    assert!(!has_front_matter("---"));
    assert!(!has_front_matter(""));
    assert!(!has_front_matter("----\nx\n---\n"));
}

#[test]
fn path_outside_root_is_refused() {
    let r = ContentFile::from_path("/other/a.md", "/site", "hello");
    assert_eq!(r.err(), Some(ContentError::Path));
}
