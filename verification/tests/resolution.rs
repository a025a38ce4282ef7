use sitegen::content::ContentFile;
use sitegen::datum::{lookup, Datum};
use sitegen::error::ContentError;
use sitegen::markdown::{to_html, MarkdownFeatures};
use sitegen::paths::{file_for_stem, publication_stem, url_for_stem};

fn resolve(text: &str) -> ContentFile {
    ContentFile::from_path("/site/post.md", "/site", text).unwrap()
}

#[test]
fn text_fields_round_trip() {
    let file = resolve("---\ntitle: \"A: b\"\nlayout: post\nlang: fr\nauthor: me\n---\nbody");
    assert_eq!(file.front_matter.title.as_deref(), Some("A: b"));
    assert_eq!(file.front_matter.layout.as_deref(), Some("post"));
    assert_eq!(file.front_matter.lang.as_deref(), Some("fr"));
    assert!(lookup(&file.front_matter.extra, "title").is_none());
    assert!(lookup(&file.front_matter.extra, "layout").is_none());
    assert!(lookup(&file.front_matter.extra, "lang").is_none());
    assert!(matches!(lookup(&file.front_matter.extra, "author"), Some(Datum::Text(s)) if s == "me"));
    assert_eq!(file.language, "en");
}

#[test]
fn reserved_keys_of_another_type_are_dropped() {
    let file = resolve("---\ntitle: 42\nlayout:\n  - a\nlang: true\nkeep: 1\n---\nbody");
    assert!(file.front_matter.title.is_none());
    assert!(file.front_matter.layout.is_none());
    assert!(file.front_matter.lang.is_none());
    assert_eq!(file.front_matter.extra.len(), 1);
    assert!(matches!(lookup(&file.front_matter.extra, "keep"), Some(Datum::Integer(1))));
}

#[test]
fn extra_values_keep_their_shape() {
    let file = resolve("---\nflag: true\nnone: ~\ncount: -3\nlist: [1, two]\nmap:\n  a:\n    b: c\n---\nx");
    let extra = &file.front_matter.extra;
    assert!(matches!(lookup(extra, "flag"), Some(Datum::Bool(true))));
    assert!(matches!(lookup(extra, "none"), Some(Datum::Null)));
    assert!(matches!(lookup(extra, "count"), Some(Datum::Integer(-3))));
    match lookup(extra, "list") {
        Some(Datum::Sequence(items)) => {
            assert_eq!(items.len(), 2);
            assert!(matches!(items[0], Datum::Integer(1)));
            assert!(matches!(&items[1], Datum::Text(s) if s == "two"));
        }
        other => panic!("unexpected: {:?}", other),
    }
    match lookup(extra, "map") {
        Some(Datum::Mapping(outer)) => match lookup(outer, "a") {
            Some(Datum::Mapping(inner)) => {
                assert!(matches!(lookup(inner, "b"), Some(Datum::Text(s)) if s == "c"))
            }
            other => panic!("unexpected: {:?}", other),
        },
        other => panic!("unexpected: {:?}", other),
    }
}

#[test]
fn no_block_keeps_the_text_verbatim() {
    for text in ["hi", "", "# Title\n\ntext\n", "a\r\nb\r\n", "\n\nlead", "---", "---\nnever closed\n", "x\n---\ny\n---\n"] {
        let file = resolve(text);
        assert_eq!(file.content, text);
        assert!(file.front_matter.title.is_none());
        assert!(file.front_matter.layout.is_none());
        assert!(file.front_matter.lang.is_none());
        assert!(file.front_matter.extra.is_empty());
    }
}

#[test]
fn block_with_carriage_returns() {
    let file = resolve("--- \r\ntitle: Home\r\n---\t\r\nbody\r\nmore");
    assert_eq!(file.front_matter.title.as_deref(), Some("Home"));
    assert_eq!(file.content, "body\nmore");
}

#[test]
fn empty_block_is_removed() {
    let file = resolve("---\n---\nbody");
    assert_eq!(file.content, "body");
    assert!(file.front_matter.extra.is_empty());
    assert!(file.front_matter.title.is_none());
}

#[test]
fn malformed_block_is_a_parse_error() {
    for text in ["---\ntitle: [unclosed\n---\nx", "---\na: 1\na: 2\n---\nx", "---\n{ a: 1\n---\nx"] {
        let r = ContentFile::from_path("/site/post.md", "/site", text);
        assert_eq!(r.err(), Some(ContentError::Parse), "{:?}", text);
    }
}

#[test]
fn block_that_is_no_mapping_is_empty_front_matter() {
    for text in ["---\n- a\n- b\n---\nx", "---\njust a scalar\n---\nx", "---\n42\n---\nx"] {
        let file = resolve(text);
        assert_eq!(file.content, "x");
        assert!(file.front_matter.title.is_none());
        assert!(file.front_matter.layout.is_none());
        assert!(file.front_matter.lang.is_none());
        assert!(file.front_matter.extra.is_empty());
    }
    let between_rules = resolve("---\nA paragraph between two rules.\n---\nrest\n");
    assert!(between_rules.front_matter.extra.is_empty());
    assert_eq!(between_rules.content, "rest");
}

#[test]
fn well_formed_block_without_data_is_empty() {
    for text in ["---\n# nothing yet\n---\nx", "---\n~\n---\nx", "---\nnull\n---\nx", "---\n   \n---\nx"] {
        let file = resolve(text);
        assert_eq!(file.content, "x");
        assert!(file.front_matter.title.is_none());
        assert!(file.front_matter.extra.is_empty());
    }
}

#[test]
fn floats_narrow_as_a_cast_does() {
    let text = "---\na: 4611686018427387904.0\nb: 1e999\nc: -1e999\nd: .inf\ne: .nan\nf: inf\ng: NaN\nh: 9007199254740993.0\ni: -0.9\nj: 1.7976931348623157e308\nk: 5e-324\nl: -9223372036854775808.0\n---\nx";
    let parsed = gray_matter::Matter::<gray_matter::engine::YAML>::new().parse(text);
    let data = match parsed.data {
        Some(gray_matter::Pod::Hash(map)) => map,
        other => panic!("unexpected: {:?}", other),
    };
    let file = resolve(text);
    assert_eq!(file.front_matter.extra.len(), data.len());
    let mut floats = 0;
    for (key, pod) in &data {
        match (pod, lookup(&file.front_matter.extra, key)) {
            (gray_matter::Pod::Float(f), Some(Datum::Integer(n))) => {
                floats += 1;
                assert_eq!(*n, *f as i64, "{}", key);
            }
            (gray_matter::Pod::String(s), Some(Datum::Text(t))) => assert_eq!(s, t),
            (gray_matter::Pod::Integer(i), Some(Datum::Integer(n))) => assert_eq!(i, n),
            other => panic!("unexpected for {}: {:?}", key, other),
        }
    }
    assert!(floats >= 8);
    assert!(matches!(lookup(&file.front_matter.extra, "a"), Some(Datum::Integer(4611686018427387904))));
    assert!(matches!(lookup(&file.front_matter.extra, "b"), Some(Datum::Integer(i64::MAX))));
    assert!(matches!(lookup(&file.front_matter.extra, "c"), Some(Datum::Integer(i64::MIN))));
}

#[test]
fn parse_error_comes_before_path_error() {
    let r = ContentFile::from_path("/other/post.md", "/site", "---\ntitle: [unclosed\n---\nx");
    assert_eq!(r.err(), Some(ContentError::Parse));
    let r = ContentFile::from_path("/other/post.md", "/site", "---\n- a\n---\nx");
    assert_eq!(r.err(), Some(ContentError::Path));
    assert_eq!(ContentError::Parse.message(), "front matter is not well-formed YAML");
    assert_eq!(ContentError::Path.message(), "content file is not under the source root");
}

#[test]
fn conversion_is_deterministic() {
    let body = "# T\n\n~~gone~~ and [^1]\n\n[^1]: note\n\n| a | b |\n|---|---|\n| 1 | 2 |\n\n- [x] done\n";
    assert_eq!(to_html(body), to_html(body));
    assert_eq!(resolve(body).html_content, resolve(body).html_content);
    assert_eq!(resolve(body).html_content, to_html(body));
}

#[test]
fn standard_extensions_are_on() {
    assert_eq!(to_html("~~gone~~"), "<p><del>gone</del></p>\n");
    assert!(to_html("| a |\n|---|\n| 1 |\n").contains("<table>"));
    assert!(to_html("- [x] done\n").contains("type=\"checkbox\""));
    assert!(to_html("x[^1]\n\n[^1]: note\n").contains("footnote-definition"));
    assert_eq!(to_html("\"q\" -- x"), "<p>&quot;q&quot; -- x</p>\n");
    assert_eq!(to_html("# Title {#id}"), "<h1>Title {#id}</h1>\n");
    let standard = MarkdownFeatures::standard();
    assert!(standard.strikethrough && standard.footnotes && standard.tables && standard.tasklists);
}

#[test]
fn malformed_markdown_degrades() {
    assert_eq!(to_html("**open"), "<p>**open</p>\n");
    assert_eq!(to_html(""), "");
}

#[test]
fn pretty_urls() {
    assert_eq!(url_for_stem("index"), "/");
    assert_eq!(file_for_stem("index"), "index.html");
    assert_eq!(url_for_stem("about"), "/about/");
    assert_eq!(file_for_stem("about"), "about/index.html");
    let index = ContentFile::from_path("/site/index.md", "/site", "home").unwrap();
    assert_eq!(index.get_output_path("https://example.org"), "/");
    assert_eq!(index.get_file_path(), "index.html");
    let urls = index.get_language_urls();
    assert_eq!(urls, vec![("en".to_string(), "/".to_string())]);
    let about = ContentFile::from_path("/site/_pages/about.md", "/site", "x").unwrap();
    assert_eq!(about.get_language_urls(), vec![("en".to_string(), "/about/".to_string())]);
}

#[test]
fn stems_and_prefixes() {
    assert_eq!(publication_stem("/site/notes.v2.md"), "notes.v2");
    assert_eq!(publication_stem("/site/.hidden"), ".hidden");
    assert_eq!(publication_stem("/"), "index");
    assert_eq!(publication_stem(".."), "index");
    let under = |path: &str, root: &str| {
        ContentFile::from_path(path, root, "x").map(|file| file.relative_path)
    };
    assert_eq!(under("/site/a/b.md", "/site").unwrap(), "a/b.md");
    assert_eq!(under("/site/a/b.md", "/site/").unwrap(), "a/b.md");
    assert_eq!(under("/sitemap/b.md", "/site").err(), Some(ContentError::Path));
    assert_eq!(under("/site", "/site").unwrap(), "");
}

#[test]
fn collection_by_location() {
    let (collection, language) = ContentFile::extract_collection_and_language("_pages/about.md");
    assert_eq!(collection.as_deref(), Some("pages"));
    assert_eq!(language, "en");
    let (collection, _) = ContentFile::extract_collection_and_language("_pagesx/about.md");
    assert_eq!(collection.as_deref(), Some("pages"));
    let (collection, language) = ContentFile::extract_collection_and_language("posts/_pages/a.md");
    assert_eq!(collection, None);
    assert_eq!(language, "en");
    let (collection, _) = ContentFile::extract_collection_and_language("");
    assert_eq!(collection, None);
}
