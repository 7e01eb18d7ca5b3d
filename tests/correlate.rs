use cargo_spdx::checksum::checksums;
use cargo_spdx::correlate::{ArtifactEvent, BuildCorrelation, CorrelationError};
use cargo_spdx::document::{
    builder, get_creation_info, Algorithm, Created, FileType, PackageInfo, RelationshipType,
};
use cargo_spdx::events::parse_event;
use cargo_spdx::listing::listing_entries;

fn info(name: &str, version: &str, from_registry: bool) -> PackageInfo {
    PackageInfo {
        name: name.to_string(),
        version: version.to_string(),
        homepage: None,
        from_registry,
        root: format!("/work/{}", name),
    }
}

fn event(id: &str, executable: Option<&str>, filenames: &[&str]) -> ArtifactEvent {
    ArtifactEvent {
        package_id: id.to_string(),
        executable: executable.map(|e| e.to_string()),
        filenames: filenames.iter().map(|f| f.to_string()).collect(),
    }
}

#[test]
fn package_recorded_once_for_many_events() {
    let mut c = BuildCorrelation::new();
    let ev = event("foo 0.1.0 (path+file:///work/foo)", None, &["/t/libfoo-1.rmeta"]);
    for _ in 0..3 {
        c.record_artifact(&ev, &info("foo", "0.1.0", false));
    }
    assert_eq!(c.packages().len(), 1);
    assert_eq!(c.packages()[0].1.spdxid, "SPDXRef-foo-0.1.0");
    assert!(c.packages()[0].1.external_refs.is_none());
    c.record_artifact(&event("bar 1.0.0", None, &[]), &info("bar", "1.0.0", true));
    assert_eq!(c.packages().len(), 2);
    let purl = c.packages()[1].1.external_refs.as_ref().unwrap();
    assert_eq!(purl.reference_locator, "pkg:cargo/bar@1.0.0");
    assert_eq!(purl.reference_type, "purl");
}

#[test]
fn package_identifiers_are_sanitized() {
    let mut c = BuildCorrelation::new();
    c.record_artifact(&event("x", None, &[]), &info("cargo_metadata", "0.14.2+build", true));
    assert_eq!(c.packages()[0].1.spdxid, "SPDXRef-cargo-metadata-0.14.2-build");
    assert_eq!(c.packages()[0].1.name, "cargo_metadata");
}

#[test]
fn executables_are_recorded_with_their_package() {
    let mut c = BuildCorrelation::new();
    c.record_artifact(&event("foo", Some("/t/debug/foo"), &["/t/debug/foo"]), &info("foo", "0.1.0", false));
    c.record_artifact(&event("foo", Some("/t/debug/foo2"), &["/t/debug/foo2"]), &info("foo", "0.1.0", false));
    assert_eq!(
        c.binaries(),
        &vec![
            ("/t/debug/foo".to_string(), "foo".to_string()),
            ("/t/debug/foo2".to_string(), "foo".to_string())
        ]
    );
}

#[test]
fn listing_requests_for_descriptor_and_executable() {
    let ev = event(
        "foo",
        Some("/t/debug/foo"),
        &["/t/debug/deps/libfoo-abc.rlib", "/t/debug/deps/libfoo-abc.rmeta"],
    );
    let reqs = BuildCorrelation::listing_requests(&ev);
    assert_eq!(reqs.len(), 2);
    assert_eq!(reqs[0].listing_path, "/t/debug/deps/foo-abc.d");
    assert_eq!(reqs[0].key, "/t/debug/deps/libfoo-abc.rmeta");
    assert_eq!(reqs[1].listing_path, "/t/debug/foo.d");
    assert_eq!(reqs[1].key, "/t/debug/foo");
    let none = BuildCorrelation::listing_requests(&event("foo", None, &["/t/a.rlib"]));
    assert!(none.is_empty());
}

#[test]
fn unreadable_listed_file_fails_the_run() {
    let mut c = BuildCorrelation::new();
    c.record_artifact(&event("foo", None, &[]), &info("foo", "0.1.0", false));
    let paths = vec!["/work/foo/src/lib.rs".to_string(), "/work/foo/src/gone.rs".to_string()];
    let contents = vec![Some(b"fn a() {}".to_vec()), None];
    let r = c.add_sources("foo", "/work/foo", &paths, &contents);
    assert_eq!(r, Err(CorrelationError::Unreadable("/work/foo/src/gone.rs".to_string())));
    assert!(c.files().is_empty());
    assert!(c.relationships().is_empty());
}

#[test]
fn sources_of_unknown_package_are_refused() {
    let mut c = BuildCorrelation::new();
    let r = c.add_sources("nope", "/work", &vec![], &vec![]);
    assert_eq!(r, Err(CorrelationError::UnknownPackage));
}

#[test]
fn single_package_binary_document() {
    let mut c = BuildCorrelation::new();
    let id = "foo 0.1.0 (path+file:///work/foo)";
    let ev = event(id, Some("/work/foo/target/debug/foo"), &["/work/foo/target/debug/foo"]);
    c.record_artifact(&ev, &info("foo", "0.1.0", false));
    let reqs = BuildCorrelation::listing_requests(&ev);
    assert_eq!(reqs.len(), 1);
    let listing = "/work/foo/target/debug/foo: /work/foo/src/main.rs /work/foo/src/util.rs\n\n/work/foo/src/main.rs:\n";
    let paths = listing_entries(listing, &reqs[0].key);
    assert_eq!(paths, vec!["/work/foo/src/main.rs".to_string(), "/work/foo/src/util.rs".to_string()]);
    let contents = vec![Some(b"fn main() {}".to_vec()), Some(b"pub fn f() {}".to_vec())];
    c.add_sources(id, "/work/foo", &paths, &contents).unwrap();
    assert_eq!(c.files()[0].file_name, "src/main.rs");
    assert_eq!(c.files()[0].spdxid, "SPDXRef-File-foo-0.1.0-src-main.rs");
    assert_eq!(c.files()[1].spdxid, "SPDXRef-File-foo-0.1.0-src-util.rs");

    let base = builder(
        "https://example.com/foo",
        "foo.spdx",
        get_creation_info(None, Created { unix_seconds: 0 }),
    )
    .unwrap();
    let doc = c.document_for(0, b"\x7fELF", base).unwrap();
    assert_eq!(doc.packages.len(), 1);
    assert_eq!(doc.files.len(), 3);
    let kinds: Vec<RelationshipType> = doc.relationships.iter().map(|r| r.relationship_type).collect();
    assert_eq!(
        kinds,
        vec![
            RelationshipType::Contains,
            RelationshipType::Contains,
            RelationshipType::GeneratedFrom,
            RelationshipType::DependsOn
        ]
    );
    let bin = &doc.files[2];
    assert_eq!(bin.spdxid, "SPDXRef-File-foo");
    assert_eq!(bin.file_name, "foo");
    assert_eq!(bin.file_types, vec![FileType::Binary]);
    assert_eq!(doc.relationships[0].spdx_element_id, "SPDXRef-foo-0.1.0");
    assert_eq!(doc.relationships[0].related_spdx_element, "SPDXRef-File-foo-0.1.0-src-main.rs");
    assert_eq!(doc.relationships[2].spdx_element_id, "SPDXRef-File-foo");
    assert_eq!(doc.relationships[2].related_spdx_element, "SPDXRef-foo-0.1.0");
    assert_eq!(doc.relationships[3].related_spdx_element, "SPDXRef-foo-0.1.0");
    assert_eq!(doc.document_name.0, "foo.spdx");
    assert_eq!(doc.document_namespace, "https://example.com/foo");
}

#[test]
fn every_binary_depends_on_every_package() {
    let mut c = BuildCorrelation::new();
    c.record_artifact(&event("dep", None, &[]), &info("dep", "1.2.3", true));
    c.record_artifact(&event("a", Some("/t/a"), &[]), &info("a", "0.1.0", false));
    c.record_artifact(&event("b", Some("/t/b"), &[]), &info("b", "0.1.0", false));
    for i in 0..2 {
        let base = builder("https://example.com/x", "x", get_creation_info(None, Created { unix_seconds: 0 })).unwrap();
        let doc = c.document_for(i, b"", base).unwrap();
        let generated = doc.relationships.iter().filter(|r| r.relationship_type == RelationshipType::GeneratedFrom).count();
        let depends = doc.relationships.iter().filter(|r| r.relationship_type == RelationshipType::DependsOn).count();
        assert_eq!(generated, 1);
        assert_eq!(depends, 3);
        assert_eq!(doc.files.len(), 1);
    }
    let base = builder("https://example.com/x", "x", get_creation_info(None, Created { unix_seconds: 0 })).unwrap();
    assert_eq!(c.document_for(2, b"", base).unwrap_err(), CorrelationError::NoSuchBinary);
}

#[test]
fn binary_document_checksums() {
    let mut c = BuildCorrelation::new();
    c.record_artifact(&event("a", Some("/t/a"), &[]), &info("a", "0.1.0", false));
    let base = builder("https://example.com/x", "x", get_creation_info(None, Created { unix_seconds: 0 })).unwrap();
    let doc = c.document_for(0, b"abc", base).unwrap();
    let sums = &doc.files[0].checksums;
    assert_eq!(sums[0].algorithm, Algorithm::Sha1);
    assert_eq!(sums[0].checksum_value, "a9993e364706816aba3e25717850c26c9cd0d89d");
    assert_eq!(sums[1].algorithm, Algorithm::Sha256);
    assert_eq!(
        sums[1].checksum_value,
        "ba7816bf8f01cfea414140de5dae2223b00361a396177a9cb410ff61f20015ad"
    );
}

#[test]
fn checksums_are_deterministic() {
    let a = checksums(b"hello world");
    let b = checksums(b"hello world");
    assert_eq!(a.len(), 2);
    for i in 0..2 {
        assert_eq!(a[i].algorithm, b[i].algorithm);
        assert_eq!(a[i].checksum_value, b[i].checksum_value);
    }
    let empty = checksums(b"");
    assert_eq!(empty[0].checksum_value, "da39a3ee5e6b4b0d3255bfef95601890afd80709");
    assert_eq!(
        empty[1].checksum_value,
        "e3b0c44298fc1c149afbf4c8996fb92427ae41e4649b934ca495991b7852b855"
    );
}

#[test]
fn invalid_namespace_is_refused() {
    let r = builder("not a url", "x", get_creation_info(None, Created { unix_seconds: 0 }));
    assert!(r.is_err());
}

#[test]
fn artifact_lines_are_decoded_and_others_skipped() {
    let line = r#"{"reason":"compiler-artifact","package_id":"foo 0.1.0 (path+file:///work/foo)","manifest_path":"/work/foo/Cargo.toml","target":{"kind":["bin"],"crate_types":["bin"],"name":"foo","src_path":"/work/foo/src/main.rs","edition":"2021","doc":true,"doctest":false,"test":true},"profile":{"opt_level":"0","debuginfo":2,"debug_assertions":true,"overflow_checks":true,"test":false},"features":[],"filenames":["/work/foo/target/debug/foo"],"executable":"/work/foo/target/debug/foo","fresh":false}"#;
    let ev = parse_event(line).unwrap();
    assert_eq!(ev.package_id, "foo 0.1.0 (path+file:///work/foo)");
    assert_eq!(ev.executable, Some("/work/foo/target/debug/foo".to_string()));
    assert_eq!(ev.filenames, vec!["/work/foo/target/debug/foo".to_string()]);
    assert!(parse_event(r#"{"reason":"build-finished","success":true}"#).is_none());
    assert!(parse_event("Compiling foo").is_none());
}

#[test]
fn namespace_is_the_normalized_url() {
    let doc = builder(
        "HTTPS://Example.COM",
        "x",
        get_creation_info(None, Created { unix_seconds: 0 }),
    )
    .unwrap();
    assert_eq!(doc.document_namespace, "https://example.com/");
}
