use cargo_spdx::format::{parse_format, Format, FormatError};
use cargo_spdx::ident::{file_id, package_id, sanitize};
use cargo_spdx::listing::{descriptor_listing_path, executable_listing_path, listing_entries};
use cargo_spdx::output::{sbom_path, OutputError, OutputManager};

#[test]
fn sanitize_replaces_illegal_characters() {
    assert_eq!(sanitize("src/main.rs"), "src-main.rs");
    assert_eq!(sanitize("a_b c+d"), "a-b-c-d");
    assert_eq!(sanitize(""), "");
}

#[test]
fn sanitize_is_idempotent() {
    for s in ["SPDXRef-File-foo-0.1.0-src-main.rs", "weird/päth_name", "x y"] {
        let once = sanitize(s);
        assert_eq!(sanitize(&once), once);
    }
    assert_eq!(sanitize("Already-legal.1"), "Already-legal.1");
}

#[test]
fn identifiers() {
    assert_eq!(package_id("serde", "1.0.0"), "SPDXRef-serde-1.0.0");
    assert_eq!(file_id(Some("foo"), Some("0.1.0"), "src/lib.rs"), "SPDXRef-File-foo-0.1.0-src-lib.rs");
    assert_eq!(file_id(None, None, "foo.exe"), "SPDXRef-File-foo.exe");
    assert_eq!(file_id(Some("foo"), None, "a b"), "SPDXRef-File-foo-a-b");
}

#[test]
fn listing_without_matching_line_is_empty() {
    let text = "/t/other: /src/a.rs\n/t/another: /src/b.rs\n";
    assert!(listing_entries(text, "/t/foo").is_empty());
    assert!(listing_entries("", "/t/foo").is_empty());
}

#[test]
fn listing_uses_first_matching_line() {
    let text = "/t/foo.rmeta: a.rs  b.rs\t c.rs\r\n/t/foo.rmeta: d.rs\n";
    assert_eq!(listing_entries(text, "/t/foo.rmeta"), vec!["a.rs", "b.rs", "c.rs"]);
    assert_eq!(listing_entries("/t/foo.rmeta: x.rs", "/t/foo.rmeta"), vec!["x.rs"]);
}

#[test]
fn listing_paths() {
    assert_eq!(executable_listing_path("target/debug/foo"), "target/debug/foo.d");
    assert_eq!(executable_listing_path("target/debug/foo.exe"), "target/debug/foo.d");
    assert_eq!(descriptor_listing_path("target/debug/deps/libbar-123.rmeta"), "target/debug/deps/bar-123.d");
    assert_eq!(descriptor_listing_path("libx.rmeta"), "x.d");
}

#[test]
fn formats() {
    assert_eq!(Format::parse("kv"), Ok(Format::KeyValue));
    assert_eq!(Format::parse("Key-Value"), Ok(Format::KeyValue));
    assert_eq!(Format::parse("JSON"), Ok(Format::Json));
    assert_eq!(Format::parse("yaml"), Ok(Format::Yaml));
    assert_eq!(Format::parse("rdf"), Ok(Format::Rdf));
    assert_eq!(Format::parse("xml"), Err(FormatError::Unknown("xml".to_string())));
    assert_eq!(parse_format("rdf"), Err(FormatError::NotImplemented(Format::Rdf)));
    assert_eq!(parse_format("json"), Ok(Format::Json));
    assert_eq!(Format::Json.extension(), ".spdx.json");
    assert_eq!(Format::KeyValue.extension(), ".spdx");
    assert_eq!(Format::Yaml.name(), "YAML");
    assert_eq!(Format::default(), Format::KeyValue);
    assert_eq!("json".parse::<Format>(), Ok(Format::Json));
}

#[test]
fn output_paths() {
    assert_eq!(sbom_path("target/debug/foo", Format::Json), "target/debug/foo.spdx.json");
    let m = OutputManager::new("out/foo.spdx", false, Format::KeyValue);
    assert_eq!(m.output_file_name(), "foo.spdx");
    assert_eq!(m.check_target(false, false), Ok(()));
    assert_eq!(m.check_target(false, true), Err(OutputError::AlreadyExists));
    assert_eq!(m.check_target(true, false), Err(OutputError::IsDirectory));
    let forced = OutputManager::new("foo.spdx", true, Format::Rdf);
    assert_eq!(forced.check_target(false, true), Err(OutputError::NotImplemented(Format::Rdf)));
    let root = OutputManager::new("/", true, Format::Json);
    assert_eq!(root.output_file_name(), "");
    assert_eq!(root.check_target(false, false), Err(OutputError::MissingFileName));
}
