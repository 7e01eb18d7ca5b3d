use cargo_spdx::document::{
    builder, get_creation_info, Created, Creator, DocumentComment, LicenseListVersion, User,
};
use cargo_spdx::key_value::key_value_text;

#[test]
fn header_in_key_value_form() {
    let user = User { name: "Ada".to_string(), email: Some("ada@example.com".to_string()) };
    let mut info = get_creation_info(Some(user), Created { unix_seconds: 1646136000 });
    info.license_list_version = Some(LicenseListVersion { major: 3, minor: 17 });
    info.creators.push(Creator::Organization { name: "ACME".to_string(), email: None });
    let mut doc = builder("https://example.com/sbom", "foo.spdx", info).unwrap();
    doc.document_comment = Some(DocumentComment("built in CI".to_string()));
    let text = key_value_text(&doc, "T");
    assert_eq!(
        text,
        "SPDXVersion: SPDX-2.2\n\
         DataLicense: CC0-1.0\n\
         SPDXID: SPDXRef-DOCUMENT\n\
         DocumentName: foo.spdx\n\
         DocumentNamespace: https://example.com/sbom\n\
         LicenseListVersion: 3.17\n\
         Creator: Person: Ada (ada@example.com)\n\
         Creator: Tool: cargo-spdx 0.1.0\n\
         Creator: Organization: ACME\n\
         Created: T\n\
         DocumentComment: built in CI\n"
    );
}

#[test]
fn creation_time_is_written_in_utc() {
    let doc = builder(
        "https://example.com/x",
        "x.spdx",
        get_creation_info(None, Created { unix_seconds: 1646136000 }),
    )
    .unwrap();
    let text = cargo_spdx::key_value::write(&doc).unwrap();
    assert!(text.contains("Created: 2022-03-01T12:00:00Z\n"));
    assert!(text.contains("Creator: Tool: cargo-spdx 0.1.0\n"));
    assert!(!text.contains("Person"));
    assert_eq!(Created { unix_seconds: 0 }.text(), Some("1970-01-01T00:00:00Z".to_string()));
}

#[test]
fn creators() {
    match Creator::tool("t 1") {
        Creator::Tool { name } => assert_eq!(name, "t 1"),
        _ => panic!("not a tool"),
    }
    match Creator::person("P".to_string(), None) {
        Creator::Person { name, email } => {
            assert_eq!(name, "P");
            assert_eq!(email, None);
        }
        _ => panic!("not a person"),
    }
}
