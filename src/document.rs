//! The records of an SPDX document that this library fills in: packages,
//! files, relationships and the document itself.

use crate::ident::{file_id, file_id_of, is_legal_id, opt_view, package_id, package_id_of};
use crate::text::{chars_of, string_of};
use vstd::prelude::*;

verus! {

/// `NOASSERTION`: the value of every licensing and copyright field, since
/// this library never infers licensing.
pub open spec fn no_assertion() -> Seq<char> {
    seq!['N', 'O', 'A', 'S', 'S', 'E', 'R', 'T', 'I', 'O', 'N']
}

fn no_assertion_string() -> (r: String)
    ensures
        r@ == no_assertion(),
{
    let v = vec!['N', 'O', 'A', 'S', 'S', 'E', 'R', 'T', 'I', 'O', 'N'];
    assert(v@ =~= no_assertion());
    string_of(&v)
}

/// A checksum algorithm.
#[derive(Clone, Copy, Debug, PartialEq, Eq, Structural)]
pub enum Algorithm {
    Md2,
    Md4,
    Md5,
    Md6,
    Sha1,
    Sha224,
    Sha256,
    Sha384,
    Sha512,
}

/// The category of a file.
#[derive(Clone, Copy, Debug, PartialEq, Eq, Structural)]
pub enum FileType {
    Application,
    Archive,
    Audio,
    Binary,
    Documentation,
    Image,
    Other,
    Source,
    Spdx,
    Text,
    Video,
}

/// The category of an external reference.
#[derive(Clone, Copy, Debug, PartialEq, Eq, Structural)]
pub enum ReferenceCategory {
    Other,
    PackageManager,
    Security,
}

/// The kind of an annotation.
#[derive(Clone, Copy, Debug, PartialEq, Eq, Structural)]
pub enum AnnotationType {
    Other,
    Review,
}

/// The type of a relationship between two SPDX elements.
#[derive(Clone, Copy, Debug, PartialEq, Eq, Structural)]
pub enum RelationshipType {
    AncestorOf,
    BuildDependencyOf,
    BuildToolOf,
    ContainedBy,
    Contains,
    CopyOf,
    DataFileOf,
    DependencyManifestOf,
    DependencyOf,
    DependsOn,
    DescendantOf,
    DescribedBy,
    Describes,
    DevDependencyOf,
    DevToolOf,
    DistributionArtifact,
    DocumentationOf,
    DynamicLink,
    ExampleOf,
    ExpandedFromArchive,
    FileAdded,
    FileDeleted,
    FileModified,
    GeneratedFrom,
    Generates,
    HasPrerequisite,
    MetafileOf,
    OptionalComponentOf,
    OptionalDependencyOf,
    Other,
    PackageOf,
    PatchApplied,
    PatchFor,
    PrerequisiteFor,
    ProvidedDependencyOf,
    RuntimeDependencyOf,
    StaticLink,
    TestCaseOf,
    TestDependencyOf,
    TestOf,
    TestToolOf,
    VariantOf,
}

/// One checksum of a file.
#[derive(Debug)]
pub struct FileChecksum {
    pub algorithm: Algorithm,
    /// The digest, in lower-case hexadecimal.
    pub checksum_value: String,
}

impl Clone for FileChecksum {
    fn clone(&self) -> (r: Self)
        ensures
            r == *self,
    {
        FileChecksum { algorithm: self.algorithm, checksum_value: self.checksum_value.clone() }
    }
}

/// A reference from a package to an outside system.
#[derive(Debug)]
pub struct ExternalRef {
    pub comment: Option<String>,
    pub reference_category: ReferenceCategory,
    pub reference_locator: String,
    pub reference_type: String,
}

impl Clone for ExternalRef {
    fn clone(&self) -> (r: Self)
        ensures
            r == *self,
    {
        ExternalRef {
            comment: self.comment.clone(),
            reference_category: self.reference_category,
            reference_locator: self.reference_locator.clone(),
            reference_type: self.reference_type.clone(),
        }
    }
}

/// A package of the build.
#[derive(Debug)]
pub struct Package {
    pub name: String,
    pub spdxid: String,
    pub version_info: Option<String>,
    pub download_location: String,
    pub homepage: Option<String>,
    pub license_concluded: String,
    pub license_declared: String,
    pub copyright_text: String,
    /// The package-manager reference, for a package from a registry.
    pub external_refs: Option<ExternalRef>,
}

impl Clone for Package {
    fn clone(&self) -> (r: Self)
        ensures
            r == *self,
    {
        Package {
            name: self.name.clone(),
            spdxid: self.spdxid.clone(),
            version_info: self.version_info.clone(),
            download_location: self.download_location.clone(),
            homepage: self.homepage.clone(),
            license_concluded: self.license_concluded.clone(),
            license_declared: self.license_declared.clone(),
            copyright_text: self.copyright_text.clone(),
            external_refs: self.external_refs.clone(),
        }
    }
}

/// A directed, typed edge between two SPDX elements.
#[derive(Debug)]
pub struct Relationship {
    pub comment: Option<String>,
    pub related_spdx_element: String,
    pub relationship_type: RelationshipType,
    pub spdx_element_id: String,
}

impl Clone for Relationship {
    fn clone(&self) -> (r: Self)
        ensures
            r == *self,
    {
        Relationship {
            comment: self.comment.clone(),
            related_spdx_element: self.related_spdx_element.clone(),
            relationship_type: self.relationship_type,
            spdx_element_id: self.spdx_element_id.clone(),
        }
    }
}

impl Relationship {
    /// The relationship `from` --`kind`--> `to`, without a comment.
    pub fn new(from: &String, kind: RelationshipType, to: &String) -> (r: Relationship)
        ensures
            rel(r, from@, kind, to@),
    {
        Relationship {
            comment: None,
            related_spdx_element: to.clone(),
            relationship_type: kind,
            spdx_element_id: from.clone(),
        }
    }
}

/// Whether `r` is the relationship `from` --`kind`--> `to`, without a comment.
pub open spec fn rel(r: Relationship, from: Seq<char>, kind: RelationshipType, to: Seq<char>) -> bool {
    &&& r.comment is None
    &&& r.spdx_element_id@ == from
    &&& r.relationship_type == kind
    &&& r.related_spdx_element@ == to
}

/// What this library reads of a package from the dependency-graph resolver.
#[derive(Debug)]
pub struct PackageInfo {
    pub name: String,
    pub version: String,
    pub homepage: Option<String>,
    /// Whether the package was fetched from a remote registry.
    pub from_registry: bool,
    /// The directory that holds the package's manifest.
    pub root: String,
}

impl Clone for PackageInfo {
    fn clone(&self) -> (r: Self)
        ensures
            r == *self,
    {
        PackageInfo {
            name: self.name.clone(),
            version: self.version.clone(),
            homepage: self.homepage.clone(),
            from_registry: self.from_registry,
            root: self.root.clone(),
        }
    }
}

/// `pkg:cargo/<name>@<version>`.
pub open spec fn purl_of(name: Seq<char>, version: Seq<char>) -> Seq<char> {
    seq!['p', 'k', 'g', ':', 'c', 'a', 'r', 'g', 'o', '/'] + name + seq!['@'] + version
}

/// Whether `p` is the package record of `info`.
pub open spec fn is_record_of(p: Package, info: PackageInfo) -> bool {
    &&& p.name == info.name
    &&& p.spdxid@ == package_id_of(info.name@, info.version@)
    &&& p.version_info == Some(info.version)
    &&& p.download_location@ == no_assertion()
    &&& p.homepage == info.homepage
    &&& p.license_concluded@ == no_assertion()
    &&& p.license_declared@ == no_assertion()
    &&& p.copyright_text@ == no_assertion()
    &&& if info.from_registry {
        &&& p.external_refs is Some
        &&& p.external_refs->0.comment is None
        &&& p.external_refs->0.reference_category == ReferenceCategory::PackageManager
        &&& p.external_refs->0.reference_type@ == seq!['p', 'u', 'r', 'l']
        &&& p.external_refs->0.reference_locator@ == purl_of(info.name@, info.version@)
    } else {
        p.external_refs is None
    }
}

impl Package {
    /// The package record of `info`: its identifier, version, homepage and,
    /// for a package from a registry, its package-manager reference.
    pub fn from_info(info: &PackageInfo) -> (r: Package)
        ensures
            is_record_of(r, *info),
            is_legal_id(r.spdxid@),
    {
        let external_refs = if info.from_registry {
            let mut v = vec!['p', 'k', 'g', ':', 'c', 'a', 'r', 'g', 'o', '/'];
            let n = chars_of(info.name.as_str());
            let ver = chars_of(info.version.as_str());
            let mut i: usize = 0;
            while i < n.len()
                invariant
                    i <= n.len(),
                    v@ == seq!['p', 'k', 'g', ':', 'c', 'a', 'r', 'g', 'o', '/'] + n@.subrange(
                        0,
                        i as int,
                    ),
                decreases n.len() - i,
            {
                v.push(n[i]);
                assert(v@ =~= seq!['p', 'k', 'g', ':', 'c', 'a', 'r', 'g', 'o', '/']
                    + n@.subrange(0, i as int + 1));
                i = i + 1;
            }
            v.push('@');
            let mut j: usize = 0;
            while j < ver.len()
                invariant
                    j <= ver.len(),
                    i == n.len(),
                    v@ == seq!['p', 'k', 'g', ':', 'c', 'a', 'r', 'g', 'o', '/'] + n@.subrange(
                        0,
                        i as int,
                    ) + seq!['@'] + ver@.subrange(0, j as int),
                decreases ver.len() - j,
            {
                v.push(ver[j]);
                assert(v@ =~= seq!['p', 'k', 'g', ':', 'c', 'a', 'r', 'g', 'o', '/']
                    + n@.subrange(0, i as int) + seq!['@'] + ver@.subrange(0, j as int + 1));
                j = j + 1;
            }
            assert(n@.subrange(0, i as int) =~= n@);
            assert(ver@.subrange(0, j as int) =~= ver@);
            let purl = vec!['p', 'u', 'r', 'l'];
            assert(purl@ =~= seq!['p', 'u', 'r', 'l']);
            Some(
                ExternalRef {
                    comment: None,
                    reference_category: ReferenceCategory::PackageManager,
                    reference_locator: string_of(&v),
                    reference_type: string_of(&purl),
                },
            )
        } else {
            None
        };
        Package {
            name: info.name.clone(),
            spdxid: package_id(info.name.as_str(), info.version.as_str()),
            version_info: Some(info.version.clone()),
            download_location: no_assertion_string(),
            homepage: info.homepage.clone(),
            license_concluded: no_assertion_string(),
            license_declared: no_assertion_string(),
            copyright_text: no_assertion_string(),
            external_refs,
        }
    }
}

/// A source file or a produced binary.
#[derive(Debug)]
pub struct File {
    pub spdxid: String,
    /// The path relative to the owning root: the package root for a source
    /// file, the parent directory for a binary.
    pub file_name: String,
    pub file_types: Vec<FileType>,
    pub checksums: Vec<FileChecksum>,
    pub license_concluded: String,
    pub copyright_text: String,
}

/// The mathematical value of a `File`.
pub struct FileView {
    pub spdxid: Seq<char>,
    pub file_name: Seq<char>,
    pub file_types: Seq<FileType>,
    pub checksums: Seq<FileChecksum>,
    pub license_concluded: Seq<char>,
    pub copyright_text: Seq<char>,
}

impl View for File {
    type V = FileView;

    open spec fn view(&self) -> FileView {
        FileView {
            spdxid: self.spdxid@,
            file_name: self.file_name@,
            file_types: self.file_types@,
            checksums: self.checksums@,
            license_concluded: self.license_concluded@,
            copyright_text: self.copyright_text@,
        }
    }
}

impl Clone for File {
    fn clone(&self) -> (r: Self)
        ensures
            r@ == self@,
    {
        let file_types = self.file_types.clone();
        let checksums = self.checksums.clone();
        assert(file_types@ =~= self.file_types@);
        assert(checksums@ =~= self.checksums@);
        File {
            spdxid: self.spdxid.clone(),
            file_name: self.file_name.clone(),
            file_types,
            checksums,
            license_concluded: self.license_concluded.clone(),
            copyright_text: self.copyright_text.clone(),
        }
    }
}

/// Whether `f` is the file record with identifier `id`, name `name`, of
/// category `kind` and with the checksums `sums`.
pub open spec fn is_file_record(
    f: FileView,
    id: Seq<char>,
    name: Seq<char>,
    kind: FileType,
    sums: Seq<FileChecksum>,
) -> bool {
    &&& f.spdxid == id
    &&& f.file_name == name
    &&& f.file_types == seq![kind]
    &&& f.checksums == sums
    &&& f.license_concluded == no_assertion()
    &&& f.copyright_text == no_assertion()
}

impl File {
    /// The record of a file named `name`, with identifier `id`.
    pub fn record(id: String, name: String, kind: FileType, checksums: Vec<FileChecksum>) -> (r:
        File)
        ensures
            is_file_record(r@, id@, name@, kind, checksums@),
    {
        let file_types = vec![kind];
        assert(file_types@ =~= seq![kind]);
        File {
            spdxid: id,
            file_name: name,
            file_types,
            checksums,
            license_concluded: no_assertion_string(),
            copyright_text: no_assertion_string(),
        }
    }

    /// The record of the source file at `relative` (to its package's root) of
    /// the package `name` at `version`, where those are known.
    pub fn source(
        relative: String,
        package_name: Option<&str>,
        package_version: Option<&str>,
        checksums: Vec<FileChecksum>,
    ) -> (r: File)
        ensures
            is_file_record(
                r@,
                file_id_of(opt_view(package_name), opt_view(package_version), relative@),
                relative@,
                FileType::Source,
                checksums@,
            ),
            is_legal_id(r.spdxid@),
    {
        let id = file_id(package_name, package_version, relative.as_str());
        File::record(id, relative, FileType::Source, checksums)
    }

    /// The record of a binary whose file name is `name`; its identifier is
    /// scoped by nothing but that name.
    pub fn binary(name: String, checksums: Vec<FileChecksum>) -> (r: File)
        ensures
            is_file_record(r@, file_id_of(None, None, name@), name@, FileType::Binary, checksums@),
            is_legal_id(r.spdxid@),
    {
        let id = file_id(None, None, name.as_str());
        File::record(id, name, FileType::Binary, checksums)
    }
}

/// The version of the SPDX standard a document follows.
#[derive(Clone, Copy, Debug, PartialEq, Eq, Structural)]
pub struct SpdxVersion {
    pub major: u32,
    pub minor: u32,
}

impl SpdxVersion {
    /// The version this library writes: SPDX 2.2.
    pub fn current() -> (r: SpdxVersion)
        ensures
            r.major == 2 && r.minor == 2,
    {
        SpdxVersion { major: 2, minor: 2 }
    }
}

/// The license of the document itself, `CC0-1.0`: it has only one value.
#[derive(Clone, Copy, Debug, PartialEq, Eq, Structural)]
pub struct DataLicense;

/// The identifier of the document itself, `SPDXRef-DOCUMENT`: it has only
/// one value.
#[derive(Clone, Copy, Debug, PartialEq, Eq, Structural)]
pub struct SpdxIdentifier;

/// The name of the document (the name of the file it is written to).
#[derive(Debug)]
pub struct DocumentName(pub String);

/// An ID string made of letters, digits, `.`, `-` and `+`.
#[derive(Debug)]
pub struct IdString(pub String);

/// A checksum of an external document.
#[derive(Debug)]
pub struct Checksum(pub String);

/// A version of the SPDX license list.
#[derive(Clone, Copy, Debug, PartialEq, Eq, Structural)]
pub struct LicenseListVersion {
    pub major: u32,
    pub minor: u32,
}

/// A free-form comment on the creators of a document.
#[derive(Debug)]
pub struct CreatorComment(pub String);

/// A free-form comment on a document.
#[derive(Debug)]
pub struct DocumentComment(pub String);

/// A user, as the version-control configuration names them.
#[derive(Debug)]
pub struct User {
    pub name: String,
    /// The user's e-mail address, where one is configured.
    pub email: Option<String>,
}

/// Who or what created a document.
#[derive(Debug)]
pub enum Creator {
    Person { name: String, email: Option<String> },
    Organization { name: String, email: Option<String> },
    Tool { name: String },
}

impl Creator {
    /// A person named `name`, with an e-mail address where one is given.
    pub fn person(name: String, email: Option<String>) -> (r: Creator)
        ensures
            r == (Creator::Person { name, email }),
    {
        Creator::Person { name, email }
    }

    /// A tool named `s`.
    pub fn tool(s: &str) -> (r: Creator)
        ensures
            r is Tool && r->Tool_name@ == s@,
    {
        Creator::Tool { name: String::from_str(s) }
    }
}

/// When a document was created, in whole seconds since the Unix epoch (UTC).
#[derive(Clone, Copy, Debug, PartialEq, Eq, Structural)]
pub struct Created {
    pub unix_seconds: i64,
}

/// When, by whom and with what a document was created.
#[derive(Debug)]
pub struct CreationInfo {
    pub comment: Option<String>,
    pub created: Created,
    pub creators: Vec<Creator>,
    pub license_list_version: Option<LicenseListVersion>,
}

/// The name and version of this tool, as it names itself among a document's
/// creators.
pub open spec fn tool_name() -> Seq<char> {
    seq!['c', 'a', 'r', 'g', 'o', '-', 's', 'p', 'd', 'x', ' ', '0', '.', '1', '.', '0']
}

/// The creation record of a document created at `created`: the user, where
/// one is known, as a person, then this tool.
pub fn get_creation_info(user: Option<User>, created: Created) -> (r: CreationInfo)
    ensures
        r.comment is None,
        r.created == created,
        r.license_list_version is None,
        r.creators@.len() == (if user is Some { 2int } else { 1 }),
        user is Some ==> r.creators@[0] == (Creator::Person {
            name: user->0.name,
            email: user->0.email,
        }),
        r.creators@.last() is Tool && r.creators@.last()->Tool_name@ == tool_name(),
{
    let mut creators: Vec<Creator> = Vec::new();
    match user {
        Some(u) => {
            creators.push(Creator::person(u.name, u.email));
        },
        None => {},
    }
    let t = vec!['c', 'a', 'r', 'g', 'o', '-', 's', 'p', 'd', 'x', ' ', '0', '.', '1', '.', '0'];
    assert(t@ =~= tool_name());
    let name = string_of(&t);
    creators.push(Creator::Tool { name });
    CreationInfo { comment: None, created, creators, license_list_version: None }
}

/// An SPDX document.
#[derive(Debug)]
pub struct Document {
    pub spdx_version: SpdxVersion,
    pub data_license: DataLicense,
    pub spdx_identifier: SpdxIdentifier,
    pub document_name: DocumentName,
    /// The namespace URL, unique to this document.
    pub document_namespace: String,
    pub document_comment: Option<DocumentComment>,
    pub creation_info: CreationInfo,
    pub packages: Vec<Package>,
    pub files: Vec<File>,
    pub relationships: Vec<Relationship>,
}

/// Why a document could not be started.
#[derive(Debug, Clone, PartialEq, Eq, Structural)]
pub enum DocumentError {
    /// The namespace is not a URL.
    InvalidNamespace,
}

/// The URL that `url` parses as, written out, or none where it is not a URL.
pub uninterp spec fn parsed_url_of(url: Seq<char>) -> Option<Seq<char>>;

/// Relies on `url::Url::parse` and the URL's serialisation: the URL that
/// `s` parses as, written out, or none where `s` is not a URL.
#[verifier::external_body]
fn parse_url(s: &str) -> (r: Option<String>)
    ensures
        match r {
            None => parsed_url_of(s@) is None,
            Some(u) => parsed_url_of(s@) == Some(u@),
        },
{
    url::Url::parse(s).ok().map(String::from)
}

/// A document named `output_file_name`, under the namespace `host_url` (which
/// must parse as a URL), created as `creation_info` says, that lists no
/// package, file or relationship yet.
pub fn builder(host_url: &str, output_file_name: &str, creation_info: CreationInfo) -> (r: Result<
    Document,
    DocumentError,
>)
    ensures
        parsed_url_of(host_url@) is None <==> r is Err,
        r is Err ==> r->Err_0 == DocumentError::InvalidNamespace,
        r is Ok ==> {
            let d = r->Ok_0;
            &&& d.spdx_version == SpdxVersion { major: 2, minor: 2 }
            &&& d.document_name.0@ == output_file_name@
            &&& Some(d.document_namespace@) == parsed_url_of(host_url@)
            &&& d.document_comment is None
            &&& d.creation_info == creation_info
            &&& d.packages@.len() == 0
            &&& d.files@.len() == 0
            &&& d.relationships@.len() == 0
        },
{
    match parse_url(host_url) {
        None => Err(DocumentError::InvalidNamespace),
        Some(namespace) => Ok(
            Document {
                spdx_version: SpdxVersion::current(),
                data_license: DataLicense,
                spdx_identifier: SpdxIdentifier,
                document_name: DocumentName(String::from_str(output_file_name)),
                document_namespace: namespace,
                document_comment: None,
                creation_info,
                packages: Vec::new(),
                files: Vec::new(),
                relationships: Vec::new(),
            },
        ),
    }
}

} // verus!
