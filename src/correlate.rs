//! The event correlator: from the build driver's artifact events, the
//! packages of the build, the binaries it produced, and the source files of
//! each compiled unit.

use crate::checksum::{are_checksums_of, checksums};
use crate::document::{
    is_file_record, is_record_of, rel, Document, File, FileType, FileView, Package, PackageInfo,
    Relationship, RelationshipType,
};
use crate::ident::{file_id_of, is_legal_id, opt_view};
use crate::listing::{descriptor_listing, executable_listing, descriptor_listing_path, executable_listing_path, views};
use crate::paths::{file_name, file_name_of, opt_string_view, relative_path, relative_path_of};
use crate::text::{chars_of, ends_with, has_suffix, same_chars};
use vstd::prelude::*;

verus! {

/// An artifact-produced event of the build driver, reduced to what the
/// correlator reads.
#[derive(Debug)]
pub struct ArtifactEvent {
    /// The identifier of the package that the artifact belongs to.
    pub package_id: String,
    /// The executable produced, if any.
    pub executable: Option<String>,
    /// All files produced for the artifact.
    pub filenames: Vec<String>,
}

/// A listing file to read, and the key of the entry to take from it.
#[derive(Debug)]
pub struct ListingRequest {
    pub listing_path: String,
    pub key: String,
}

/// The packages, binaries, files and relationships gathered during one
/// build.
#[derive(Debug)]
pub struct BuildCorrelation {
    packages: Vec<(String, Package)>,
    binaries: Vec<(String, String)>,
    files: Vec<File>,
    relationships: Vec<Relationship>,
}

/// Why a correlation step failed.
#[derive(Debug, Clone, PartialEq, Eq)]
pub enum CorrelationError {
    /// The package is not one that the correlation has recorded.
    UnknownPackage,
    /// A listed file could not be read; it holds the file's path.
    Unreadable(String),
    /// A listed file has no path relative to its package's root.
    OutsideRoot(String),
    /// A binary's path has no file name.
    NoFileName(String),
    /// No binary at that position.
    NoSuchBinary,
}

/// The views of file records.
pub open spec fn file_views(fs: Seq<File>) -> Seq<FileView> {
    fs.map_values(|f: File| f@)
}

/// Whether some entry of `ps` has the key `id`.
pub open spec fn has_key(ps: Seq<(String, Package)>, id: Seq<char>) -> bool {
    exists|i: int| 0 <= i < ps.len() && (#[trigger] ps[i]).0@ == id
}

/// Whether exactly one entry of `ps` has the key `id`.
pub open spec fn has_one_record(ps: Seq<(String, Package)>, id: Seq<char>) -> bool {
    exists|i: int|
        0 <= i < ps.len() && (#[trigger] ps[i]).0@ == id && forall|j: int|
            0 <= j < ps.len() && (#[trigger] ps[j]).0@ == id ==> j == i
}

/// Whether no two entries of `ps` share a key.
pub open spec fn keys_unique(ps: Seq<(String, Package)>) -> bool {
    forall|i: int, j: int|
        0 <= i < ps.len() && 0 <= j < ps.len() && i != j ==> (#[trigger] ps[i]).0@
            != (#[trigger] ps[j]).0@
}

/// The compiled-unit descriptor among the files of an artifact: the first
/// that ends in `.rmeta`.
pub open spec fn rmeta() -> Seq<char> {
    seq!['.', 'r', 'm', 'e', 't', 'a']
}

/// The index of the first of `names` that ends in `.rmeta`, or `names.len()`.
pub open spec fn descriptor_index(names: Seq<Seq<char>>) -> int
    decreases names.len(),
{
    if names.len() == 0 {
        0
    } else if has_suffix(names[0], rmeta()) {
        0
    } else {
        1 + descriptor_index(names.drop_first())
    }
}

impl BuildCorrelation {
    /// The package map, in the order the packages were first seen.
    pub closed spec fn package_entries(&self) -> Seq<(String, Package)> {
        self.packages@
    }

    /// The binaries found, each with the identifier of its package.
    pub closed spec fn binary_entries(&self) -> Seq<(String, String)> {
        self.binaries@
    }

    /// The source files found.
    pub closed spec fn file_entries(&self) -> Seq<File> {
        self.files@
    }

    /// The relationships found.
    pub closed spec fn relationship_entries(&self) -> Seq<Relationship> {
        self.relationships@
    }

    /// Package identifiers are unique; every binary's package is in the map;
    /// every relationship is a package containing a recorded file; every
    /// SPDX identifier is legal.
    pub open spec fn wf(&self) -> bool {
        &&& keys_unique(self.package_entries())
        &&& forall|p: int|
            0 <= p < self.package_entries().len() ==> is_legal_id(
                (#[trigger] self.package_entries()[p]).1.spdxid@,
            )
        &&& forall|f: int|
            0 <= f < self.file_entries().len() ==> is_legal_id(
                (#[trigger] self.file_entries()[f]).spdxid@,
            )
        &&& forall|b: int|
            0 <= b < self.binary_entries().len() ==> has_key(
                self.package_entries(),
                (#[trigger] self.binary_entries()[b]).1@,
            )
        &&& forall|k: int|
            0 <= k < self.relationship_entries().len() ==> self.contains_recorded(
                #[trigger] self.relationship_entries()[k],
            )
    }

    /// Whether `r` is a package of the map containing a recorded file.
    pub open spec fn contains_recorded(&self, r: Relationship) -> bool {
        &&& r.relationship_type == RelationshipType::Contains
        &&& r.comment is None
        &&& exists|f: int|
            0 <= f < self.file_entries().len() && (#[trigger] self.file_entries()[f]).spdxid@
                == r.related_spdx_element@
        &&& exists|p: int|
            0 <= p < self.package_entries().len() && (
            #[trigger] self.package_entries()[p]).1.spdxid@ == r.spdx_element_id@
    }

    /// An empty correlation.
    pub fn new() -> (r: BuildCorrelation)
        ensures
            r.wf(),
            r.package_entries().len() == 0,
            r.binary_entries().len() == 0,
            r.file_entries().len() == 0,
            r.relationship_entries().len() == 0,
    {
        BuildCorrelation {
            packages: Vec::new(),
            binaries: Vec::new(),
            files: Vec::new(),
            relationships: Vec::new(),
        }
    }

    /// The package map, in the order the packages were first seen.
    pub fn packages(&self) -> (r: &Vec<(String, Package)>)
        ensures
            r@ == self.package_entries(),
    {
        &self.packages
    }

    /// The binaries found, each with the identifier of its package.
    pub fn binaries(&self) -> (r: &Vec<(String, String)>)
        ensures
            r@ == self.binary_entries(),
    {
        &self.binaries
    }

    /// The source files found.
    pub fn files(&self) -> (r: &Vec<File>)
        ensures
            r@ == self.file_entries(),
    {
        &self.files
    }

    /// The relationships found.
    pub fn relationships(&self) -> (r: &Vec<Relationship>)
        ensures
            r@ == self.relationship_entries(),
    {
        &self.relationships
    }

    /// Where the package `id` stands in the map.
    pub fn find_package(&self, id: &str) -> (r: Option<usize>)
        ensures
            match r {
                None => !has_key(self.package_entries(), id@),
                Some(i) => i < self.package_entries().len() && self.package_entries()[i as int].0@
                    == id@,
            },
    {
        let key = chars_of(id);
        let mut i: usize = 0;
        while i < self.packages.len()
            invariant
                i <= self.packages.len(),
                key@ == id@,
                forall|j: int| 0 <= j < i ==> (#[trigger] self.packages@[j]).0@ != id@,
            decreases self.packages.len() - i,
        {
            let k = chars_of(self.packages[i].0.as_str());
            if same_chars(&k, &key) {
                return Some(i);
            }
            i = i + 1;
        }
        None
    }

    /// Records the package `id` (described by `info`) unless it is already
    /// in the map: a package is recorded once, however many events name it.
    pub fn record_package(&mut self, id: &str, info: &PackageInfo)
        requires
            old(self).wf(),
        ensures
            final(self).wf(),
            has_one_record(final(self).package_entries(), id@),
            has_key(old(self).package_entries(), id@) ==> final(self).package_entries()
                == old(self).package_entries(),
            !has_key(old(self).package_entries(), id@) ==> {
                &&& final(self).package_entries().len() == old(self).package_entries().len() + 1
                &&& final(self).package_entries().subrange(
                    0,
                    old(self).package_entries().len() as int,
                ) == old(self).package_entries()
                &&& final(self).package_entries().last().0@ == id@
                &&& is_record_of(final(self).package_entries().last().1, *info)
            },
            final(self).binary_entries() == old(self).binary_entries(),
            final(self).file_entries() == old(self).file_entries(),
            final(self).relationship_entries() == old(self).relationship_entries(),
    {
        match self.find_package(id) {
            Some(i) => {
                assert(has_key(self.packages@, id@)) by {
                    assert(self.packages@[i as int].0@ == id@);
                }
            },
            None => {
                let ghost before = self.packages@;
                let key = String::from_str(id);
                self.packages.push((key, Package::from_info(info)));
                assert(self.packages@.subrange(0, before.len() as int) =~= before);
                assert(self.packages@[before.len() as int].0@ == id@);
                assert forall|q: int| 0 <= q < self.package_entries().len() implies is_legal_id(
                    (#[trigger] self.package_entries()[q]).1.spdxid@,
                ) by {
                    if q < before.len() {
                        assert(self.packages@[q] == before[q]);
                        assert(before[q] == old(self).package_entries()[q]);
                    }
                }
                assert forall|q: int| 0 <= q < self.file_entries().len() implies is_legal_id(
                    (#[trigger] self.file_entries()[q]).spdxid@,
                ) by {
                    assert(self.file_entries()[q] == old(self).file_entries()[q]);
                }
                assert forall|b: int| 0 <= b < self.binary_entries().len() implies has_key(
                    self.package_entries(),
                    (#[trigger] self.binary_entries()[b]).1@,
                ) by {
                    assert(has_key(old(self).package_entries(), old(self).binary_entries()[b].1@));
                    let p = choose|p: int| 0 <= p < before.len() && (#[trigger] before[p]).0@ == self.binaries@[b].1@;
                    assert(self.packages@[p] == before[p]);
                }
                assert forall|k: int| 0 <= k < self.relationship_entries().len() implies self.contains_recorded(
                    #[trigger] self.relationship_entries()[k],
                ) by {
                    assert(old(self).contains_recorded(old(self).relationship_entries()[k]));
                    let r = self.relationships@[k];
                    let p = choose|p: int| 0 <= p < before.len() && (#[trigger] before[p]).1.spdxid@ == r.spdx_element_id@;
                    assert(self.packages@[p] == before[p]);
                    let f = choose|f: int| 0 <= f < self.files@.len() && (#[trigger] self.files@[f]).spdxid@ == r.related_spdx_element@;
                    assert(self.file_entries()[f] == self.files@[f]);
                }
                assert forall|i: int, j: int|
                    0 <= i < self.packages@.len() && 0 <= j < self.packages@.len() && i != j implies (#[trigger] self.packages@[i]).0@
                        != (#[trigger] self.packages@[j]).0@ by {
                    if i < before.len() && j < before.len() {
                        assert(self.packages@[i] == before[i]);
                        assert(self.packages@[j] == before[j]);
                    } else if i < before.len() {
                        assert(self.packages@[i] == before[i]);
                    } else if j < before.len() {
                        assert(self.packages@[j] == before[j]);
                    }
                }
            },
        }
        let ghost ps = self.packages@;
        assert(has_key(ps, id@));
        assert(has_one_record(ps, id@)) by {
            let i = choose|i: int| 0 <= i < ps.len() && (#[trigger] ps[i]).0@ == id@;
            assert(forall|j: int| 0 <= j < ps.len() && (#[trigger] ps[j]).0@ == id@ ==> j == i);
        }
    }
}

/// Whether `f` is the record of the source file at `relative` (to the root
/// of `p`), whose content is `content`.
pub open spec fn is_source_record(f: File, p: Package, relative: Seq<char>, content: Seq<u8>) -> bool {
    &&& is_file_record(
        f@,
        file_id_of(Some(p.name@), opt_string_view(p.version_info), relative),
        relative,
        FileType::Source,
        f.checksums@,
    )
    &&& are_checksums_of(f.checksums@, content)
}

/// Whether the `i`-th listed file cannot be recorded: it could not be read,
/// or it has no path relative to `root`.
pub open spec fn source_fails(
    paths: Seq<String>,
    contents: Seq<Option<Vec<u8>>>,
    root: Seq<char>,
    i: int,
) -> bool {
    contents[i] is None || relative_path_of(paths[i]@, root) is None
}

/// The error for the `i`-th listed file, which cannot be recorded.
pub open spec fn source_error(
    paths: Seq<String>,
    contents: Seq<Option<Vec<u8>>>,
    i: int,
) -> CorrelationError {
    if contents[i] is None {
        CorrelationError::Unreadable(paths[i])
    } else {
        CorrelationError::OutsideRoot(paths[i])
    }
}

/// The index of the first of `names` that ends in `.rmeta`, or
/// `names.len()`.
fn descriptor_position(names: &Vec<String>) -> (r: usize)
    ensures
        r == descriptor_index(views(names@)),
        r <= names.len(),
{
    let ghost all = views(names@);
    let suffix = vec!['.', 'r', 'm', 'e', 't', 'a'];
    assert(suffix@ =~= rmeta());
    let mut i: usize = 0;
    assert(all.subrange(0, all.len() as int) =~= all);
    while i < names.len()
        invariant
            i <= names.len(),
            all == views(names@),
            suffix@ == rmeta(),
            descriptor_index(all) == i + descriptor_index(all.subrange(i as int, all.len() as int)),
        decreases names.len() - i,
    {
        let name = chars_of(names[i].as_str());
        let ghost rest = all.subrange(i as int, all.len() as int);
        assert(rest[0] == all[i as int]);
        assert(rest.drop_first() =~= all.subrange(i as int + 1, all.len() as int));
        if ends_with(&name, &suffix) {
            return i;
        }
        i = i + 1;
    }
    assert(all.subrange(i as int, all.len() as int).len() == 0);
    i
}

impl BuildCorrelation {
    /// Once a package is in the map of a well-formed correlation, the map
    /// holds exactly one record for it.
    pub proof fn lemma_recorded_once(&self, id: Seq<char>)
        requires
            self.wf(),
            has_key(self.package_entries(), id),
        ensures
            has_one_record(self.package_entries(), id),
    {
        let ps = self.package_entries();
        let i = choose|i: int| 0 <= i < ps.len() && (#[trigger] ps[i]).0@ == id;
        assert(forall|j: int| 0 <= j < ps.len() && (#[trigger] ps[j]).0@ == id ==> j == i);
    }

    /// Records the artifact `event`: its package (described by `info`) if
    /// it is new, and its executable, if any, with that package.
    pub fn record_artifact(&mut self, event: &ArtifactEvent, info: &PackageInfo)
        requires
            old(self).wf(),
        ensures
            final(self).wf(),
            has_one_record(final(self).package_entries(), event.package_id@),
            has_key(old(self).package_entries(), event.package_id@) ==> final(self).package_entries() == old(self).package_entries(),
            !has_key(old(self).package_entries(), event.package_id@) ==> {
                &&& final(self).package_entries().len() == old(self).package_entries().len() + 1
                &&& final(self).package_entries().subrange(
                    0,
                    old(self).package_entries().len() as int,
                ) == old(self).package_entries()
                &&& final(self).package_entries().last().0@ == event.package_id@
                &&& is_record_of(final(self).package_entries().last().1, *info)
            },
            match event.executable {
                None => final(self).binary_entries() == old(self).binary_entries(),
                Some(exe) => {
                    &&& final(self).binary_entries().len() == old(self).binary_entries().len() + 1
                    &&& final(self).binary_entries().subrange(
                        0,
                        old(self).binary_entries().len() as int,
                    ) == old(self).binary_entries()
                    &&& final(self).binary_entries().last().0@ == exe@
                    &&& final(self).binary_entries().last().1@ == event.package_id@
                },
            },
            final(self).file_entries() == old(self).file_entries(),
            final(self).relationship_entries() == old(self).relationship_entries(),
    {
        self.record_package(event.package_id.as_str(), info);
        match &event.executable {
            None => {},
            Some(exe) => {
                let ghost before = self.binaries@;
                let ghost ps = self.packages@;
                let ghost mid = *self;
                self.binaries.push((exe.clone(), event.package_id.clone()));
                assert(self.binaries@.subrange(0, before.len() as int) =~= before);
                assert(has_key(ps, event.package_id@)) by {
                    let i = choose|i: int|
                        0 <= i < ps.len() && (#[trigger] ps[i]).0@ == event.package_id@ && forall|j: int|
                            0 <= j < ps.len() && (#[trigger] ps[j]).0@ == event.package_id@ ==> j == i;
                    assert(ps[i].0@ == event.package_id@);
                }
                assert forall|b: int| 0 <= b < self.binary_entries().len() implies has_key(
                    self.package_entries(),
                    (#[trigger] self.binary_entries()[b]).1@,
                ) by {
                    if b < before.len() {
                        assert(self.binaries@[b] == before[b]);
                    } else {
                        assert(self.binaries@[b].1@ == event.package_id@);
                    }
                }
                assert forall|k: int| 0 <= k < self.relationship_entries().len() implies self.contains_recorded(
                    #[trigger] self.relationship_entries()[k],
                ) by {
                    assert(mid.contains_recorded(mid.relationship_entries()[k]));
                    let r = self.relationships@[k];
                    let p = choose|p: int| 0 <= p < mid.package_entries().len() && (#[trigger] mid.package_entries()[p]).1.spdxid@ == r.spdx_element_id@;
                    assert(self.package_entries()[p] == mid.package_entries()[p]);
                    let f = choose|f: int| 0 <= f < mid.file_entries().len() && (#[trigger] mid.file_entries()[f]).spdxid@ == r.related_spdx_element@;
                    assert(self.file_entries()[f] == mid.file_entries()[f]);
                }
            },
        }
    }

    /// The listing files to read for the artifact `event`, each with the key
    /// of its entry: first the compiled unit's, keyed by its descriptor (the
    /// first produced file that ends in `.rmeta`), then the executable's,
    /// keyed by the executable's path.
    pub fn listing_requests(event: &ArtifactEvent) -> (r: Vec<ListingRequest>)
        ensures
            ({
                let names = views(event.filenames@);
                let d = descriptor_index(names);
                let has_d = d < names.len();
                &&& r@.len() == (if has_d { 1int } else { 0 }) + (if event.executable is Some {
                    1int
                } else {
                    0
                })
                &&& has_d ==> r@[0].key@ == names[d] && r@[0].listing_path@ == descriptor_listing(
                    names[d],
                )
                &&& event.executable is Some ==> r@.last().key@ == event.executable->0@
                    && r@.last().listing_path@ == executable_listing(event.executable->0@)
            }),
    {
        let mut out: Vec<ListingRequest> = Vec::new();
        let d = descriptor_position(&event.filenames);
        if d < event.filenames.len() {
            let path = &event.filenames[d];
            out.push(ListingRequest {
                listing_path: descriptor_listing_path(path.as_str()),
                key: path.clone(),
            });
        }
        match &event.executable {
            None => {},
            Some(exe) => {
                out.push(ListingRequest {
                    listing_path: executable_listing_path(exe.as_str()),
                    key: exe.clone(),
                });
            },
        }
        out
    }

    /// Records the source files that a listing names for the package
    /// `package_id`: for each path, in order, a file record (named relative
    /// to `root`, with the checksums of its content) and a relationship from
    /// the package containing it. `contents[i]` is the content of
    /// `paths[i]`, or none where it could not be read. Fails, changing
    /// nothing, where the package is unknown or a file cannot be recorded.
    pub fn add_sources(
        &mut self,
        package_id: &str,
        root: &str,
        paths: &Vec<String>,
        contents: &Vec<Option<Vec<u8>>>,
    ) -> (r: Result<(), CorrelationError>)
        requires
            old(self).wf(),
            paths.len() == contents.len(),
        ensures
            final(self).wf(),
            final(self).package_entries() == old(self).package_entries(),
            final(self).binary_entries() == old(self).binary_entries(),
            !has_key(old(self).package_entries(), package_id@) ==> r == Err::<
                (),
                CorrelationError,
            >(CorrelationError::UnknownPackage),
            has_key(old(self).package_entries(), package_id@) ==> match r {
                Ok(_) => {
                    let p = choose|p: int|
                        0 <= p < old(self).package_entries().len() && (#[trigger] old(self).package_entries()[p]).0@ == package_id@;
                    let pkg = old(self).package_entries()[p].1;
                    let n = old(self).file_entries().len();
                    let m = old(self).relationship_entries().len();
                    &&& forall|i: int| 0 <= i < paths.len() ==> !source_fails(paths@, contents@, root@, i)
                    &&& final(self).file_entries().len() == n + paths.len()
                    &&& final(self).file_entries().subrange(0, n as int) == old(self).file_entries()
                    &&& final(self).relationship_entries().len() == m + paths.len()
                    &&& final(self).relationship_entries().subrange(0, m as int) == old(self).relationship_entries()
                    &&& forall|i: int|
                        0 <= i < paths.len() ==> {
                            &&& is_source_record(
                                #[trigger] final(self).file_entries()[n + i],
                                pkg,
                                relative_path_of(paths@[i]@, root@)->0,
                                contents@[i]->0@,
                            )
                            &&& rel(
                                final(self).relationship_entries()[m + i],
                                pkg.spdxid@,
                                RelationshipType::Contains,
                                final(self).file_entries()[n + i].spdxid@,
                            )
                        }
                },
                Err(e) => {
                    &&& final(self).file_entries() == old(self).file_entries()
                    &&& final(self).relationship_entries() == old(self).relationship_entries()
                    &&& exists|i: int|
                        0 <= i < paths.len() && source_fails(paths@, contents@, root@, i) && (
                        forall|j: int|
                            0 <= j < i ==> !#[trigger] source_fails(paths@, contents@, root@, j))
                            && e == source_error(paths@, contents@, i)
                },
            },
    {
        let p = match self.find_package(package_id) {
            None => return Err(CorrelationError::UnknownPackage),
            Some(p) => p,
        };
        proof {
            assert(has_key(self.package_entries(), package_id@));
            let q = choose|q: int|
                0 <= q < self.package_entries().len() && (#[trigger] self.package_entries()[q]).0@
                    == package_id@;
            assert(q == p);
        }
        let mut relatives: Vec<String> = Vec::new();
        let mut i: usize = 0;
        while i < paths.len()
            invariant
                i <= paths.len() == contents.len(),
                self.wf(),
                *self == *old(self),
                p < self.packages@.len(),
                self.packages@[p as int].0@ == package_id@,
                has_key(old(self).package_entries(), package_id@),
                relatives@.len() == i,
                forall|j: int| 0 <= j < i ==> !#[trigger] source_fails(paths@, contents@, root@, j),
                forall|j: int|
                    0 <= j < i ==> relative_path_of(paths@[j]@, root@) == Some(
                        (#[trigger] relatives@[j])@,
                    ),
            decreases paths.len() - i,
        {
            if contents[i].is_none() {
                let e = CorrelationError::Unreadable(paths[i].clone());
                assert(source_fails(paths@, contents@, root@, i as int));
                assert(e == source_error(paths@, contents@, i as int));
                return Err(e);
            }
            match relative_path(paths[i].as_str(), root) {
                None => {
                    let e = CorrelationError::OutsideRoot(paths[i].clone());
                    assert(source_fails(paths@, contents@, root@, i as int));
                    assert(e == source_error(paths@, contents@, i as int));
                    return Err(e);
                },
                Some(rp) => {
                    relatives.push(rp);
                },
            }
            i = i + 1;
        }
        let ghost old_files = self.files@;
        let ghost old_rels = self.relationships@;
        let ghost pkg = self.packages@[p as int].1;
        let name = self.packages[p].1.name.as_str();
        let version: Option<&str> = match &self.packages[p].1.version_info {
            Some(v) => Some(v.as_str()),
            None => None,
        };
        let mut k: usize = 0;
        while k < paths.len()
            invariant
                k <= paths.len() == contents.len() == relatives.len(),
                p < self.packages@.len(),
                self.packages@[p as int].0@ == package_id@,
                has_key(old(self).package_entries(), package_id@),
                self.packages@ == old(self).packages@,
                self.binaries@ == old(self).binaries@,
                pkg == self.packages@[p as int].1,
                name@ == pkg.name@,
                opt_view(version) == opt_string_view(pkg.version_info),
                forall|j: int| 0 <= j < paths.len() ==> !#[trigger] source_fails(paths@, contents@, root@, j),
                forall|j: int|
                    0 <= j < paths.len() ==> relative_path_of(paths@[j]@, root@) == Some(
                        (#[trigger] relatives@[j])@,
                    ),
                self.files@.len() == old_files.len() + k,
                self.files@.subrange(0, old_files.len() as int) == old_files,
                self.relationships@.len() == old_rels.len() + k,
                self.relationships@.subrange(0, old_rels.len() as int) == old_rels,
                old_files == old(self).files@,
                old_rels == old(self).relationships@,
                forall|j: int|
                    0 <= j < k ==> {
                        &&& is_source_record(
                            #[trigger] self.files@[old_files.len() + j],
                            pkg,
                            relatives@[j]@,
                            contents@[j]->0@,
                        )
                        &&& rel(
                            self.relationships@[old_rels.len() + j],
                            pkg.spdxid@,
                            RelationshipType::Contains,
                            self.files@[old_files.len() + j].spdxid@,
                        )
                    },
                self.wf(),
            decreases paths.len() - k,
        {
            assert(!source_fails(paths@, contents@, root@, k as int));
            let content: &Vec<u8> = match &contents[k] {
                Some(c) => c,
                None => {
                    return Err(CorrelationError::UnknownPackage);
                },
            };
            let sums = checksums(content.as_slice());
            let file = File::source(relatives[k].clone(), Some(name), version, sums);
            let r = Relationship::new(&self.packages[p].1.spdxid, RelationshipType::Contains, &file.spdxid);
            let ghost fb = self.files@;
            let ghost rb = self.relationships@;
            let ghost mid = *self;
            self.files.push(file);
            self.relationships.push(r);
            assert(self.package_entries() == mid.package_entries());
            assert(self.binary_entries() == mid.binary_entries());
            assert forall|q: int| 0 <= q < self.file_entries().len() implies is_legal_id(
                (#[trigger] self.file_entries()[q]).spdxid@,
            ) by {
                if q < fb.len() {
                    assert(self.file_entries()[q] == mid.file_entries()[q]);
                } else {
                    assert(self.file_entries()[q] == self.files@[q]);
                }
            }
            assert(self.files@.subrange(0, old_files.len() as int) =~= old_files) by {
                assert(fb.subrange(0, old_files.len() as int) == old_files);
            }
            assert(self.relationships@.subrange(0, old_rels.len() as int) =~= old_rels) by {
                assert(rb.subrange(0, old_rels.len() as int) == old_rels);
            }
            assert forall|j: int| 0 <= j < k + 1 implies {
                &&& is_source_record(
                    #[trigger] self.files@[old_files.len() + j],
                    pkg,
                    relatives@[j]@,
                    contents@[j]->0@,
                )
                &&& rel(
                    self.relationships@[old_rels.len() + j],
                    pkg.spdxid@,
                    RelationshipType::Contains,
                    self.files@[old_files.len() + j].spdxid@,
                )
            } by {
                if j < k {
                    assert(self.files@[old_files.len() + j] == fb[old_files.len() + j]);
                    assert(self.relationships@[old_rels.len() + j] == rb[old_rels.len() + j]);
                }
            }
            assert forall|q: int| 0 <= q < self.relationship_entries().len() implies self.contains_recorded(
                #[trigger] self.relationship_entries()[q],
            ) by {
                let rq = self.relationships@[q];
                if q < rb.len() {
                    assert(rq == rb[q]);
                    assert(mid.contains_recorded(mid.relationship_entries()[q]));
                    let f = choose|f: int| 0 <= f < mid.file_entries().len() && (#[trigger] mid.file_entries()[f]).spdxid@ == rq.related_spdx_element@;
                    assert(self.files@[f] == fb[f]);
                    assert(self.file_entries()[f] == mid.file_entries()[f]);
                    let pp = choose|pp: int| 0 <= pp < mid.package_entries().len() && (#[trigger] mid.package_entries()[pp]).1.spdxid@ == rq.spdx_element_id@;
                    assert(self.package_entries()[pp] == mid.package_entries()[pp]);
                } else {
                    assert(self.file_entries()[fb.len() as int] == self.files@[fb.len() as int]);
                    assert(self.package_entries()[p as int] == self.packages@[p as int]);
                }
            }
            k = k + 1;
        }
        proof {
            let q = choose|q: int|
                0 <= q < old(self).package_entries().len() && (#[trigger] old(self).package_entries()[q]).0@
                    == package_id@;
            assert(q == p);
        }
        Ok(())
    }
}

/// How many of `rels` are of type `kind`.
pub open spec fn count_kind(rels: Seq<Relationship>, kind: RelationshipType) -> nat
    decreases rels.len(),
{
    if rels.len() == 0 {
        0
    } else {
        count_kind(rels.drop_last(), kind) + if rels.last().relationship_type == kind {
            1nat
        } else {
            0nat
        }
    }
}

proof fn lemma_count_split(rels: Seq<Relationship>, kind: RelationshipType, n: int)
    requires
        0 <= n <= rels.len(),
    ensures
        count_kind(rels, kind) == count_kind(rels.subrange(0, n), kind) + count_kind(
            rels.subrange(n, rels.len() as int),
            kind,
        ),
    decreases rels.len(),
{
    if n < rels.len() {
        lemma_count_split(rels.drop_last(), kind, n);
        assert(rels.drop_last().subrange(0, n) =~= rels.subrange(0, n));
        let tail = rels.subrange(n, rels.len() as int);
        assert(tail.drop_last() =~= rels.drop_last().subrange(n, rels.len() - 1));
    } else {
        assert(rels.subrange(0, n) =~= rels);
    }
}

proof fn lemma_count_uniform(rels: Seq<Relationship>, kind: RelationshipType, t: RelationshipType)
    requires
        forall|i: int| 0 <= i < rels.len() ==> (#[trigger] rels[i]).relationship_type == t,
    ensures
        count_kind(rels, kind) == if t == kind {
            rels.len()
        } else {
            0
        },
    decreases rels.len(),
{
    if rels.len() > 0 {
        lemma_count_uniform(rels.drop_last(), kind, t);
    }
}

/// The package records of the entries of a package map, in order.
pub open spec fn records_of(ps: Seq<(String, Package)>) -> Seq<Package> {
    ps.map_values(|e: (String, Package)| e.1)
}

impl BuildCorrelation {
    /// Where the package of the `b`-th binary stands in the package map.
    pub open spec fn owner_index(&self, b: int) -> int {
        choose|p: int|
            0 <= p < self.package_entries().len() && (#[trigger] self.package_entries()[p]).0@
                == self.binary_entries()[b].1@
    }

    /// Whether `doc` is the document of the `b`-th binary, whose content is
    /// `content`, made from `base`: the correlation's packages; its files
    /// and then the binary's own record; its relationships, then the binary
    /// generated from its package, then the binary depending on every
    /// package of the map, in order.
    pub open spec fn is_binary_document(
        &self,
        b: int,
        content: Seq<u8>,
        base: Document,
        doc: Document,
    ) -> bool {
        let ps = self.package_entries();
        let n = self.file_entries().len();
        let m = self.relationship_entries().len();
        let name = file_name_of(self.binary_entries()[b].0@)->0;
        let id = file_id_of(None, None, name);
        &&& doc.spdx_version == base.spdx_version
        &&& doc.document_name == base.document_name
        &&& doc.document_namespace == base.document_namespace
        &&& doc.document_comment == base.document_comment
        &&& doc.creation_info == base.creation_info
        &&& doc.packages@ == records_of(ps)
        &&& file_views(doc.files@) == file_views(self.file_entries()).push(doc.files@[n as int]@)
        &&& is_file_record(doc.files@[n as int]@, id, name, FileType::Binary, doc.files@[n as int].checksums@)
        &&& are_checksums_of(doc.files@[n as int].checksums@, content)
        &&& doc.relationships@.len() == m + 1 + ps.len()
        &&& doc.relationships@.subrange(0, m as int) == self.relationship_entries()
        &&& rel(
            doc.relationships@[m as int],
            id,
            RelationshipType::GeneratedFrom,
            ps[self.owner_index(b)].1.spdxid@,
        )
        &&& forall|i: int|
            0 <= i < ps.len() ==> rel(
                #[trigger] doc.relationships@[m + 1 + i],
                id,
                RelationshipType::DependsOn,
                ps[i].1.spdxid@,
            )
    }

    /// The document of the `b`-th binary, whose content is `content`, made
    /// from `base` (its name, namespace and creation record). Fails where
    /// there is no such binary or its path has no file name.
    pub fn document_for(&self, b: usize, content: &[u8], base: Document) -> (r: Result<
        Document,
        CorrelationError,
    >)
        requires
            self.wf(),
        ensures
            b >= self.binary_entries().len() ==> r == Err::<Document, CorrelationError>(
                CorrelationError::NoSuchBinary,
            ),
            b < self.binary_entries().len() ==> match r {
                Ok(doc) => file_name_of(self.binary_entries()[b as int].0@) is Some
                    && self.is_binary_document(b as int, content@, base, doc),
                Err(e) => file_name_of(self.binary_entries()[b as int].0@) is None && e
                    == CorrelationError::NoFileName(self.binary_entries()[b as int].0),
            },
    {
        if b >= self.binaries.len() {
            return Err(CorrelationError::NoSuchBinary);
        }
        let path = &self.binaries[b].0;
        let name = match file_name(path.as_str()) {
            None => return Err(CorrelationError::NoFileName(path.clone())),
            Some(n) => n,
        };
        let p = match self.find_package(self.binaries[b].1.as_str()) {
            None => {
                assert(has_key(self.package_entries(), self.binary_entries()[b as int].1@));
                return Err(CorrelationError::UnknownPackage);
            },
            Some(p) => p,
        };
        let ghost ps = self.packages@;
        assert(p == self.owner_index(b as int)) by {
            let q = self.owner_index(b as int);
            assert(has_key(self.package_entries(), self.binary_entries()[b as int].1@));
            assert(ps[q].0@ == ps[p as int].0@);
        }
        let binary = File::binary(name, checksums(content));
        let mut files = self.files.clone();
        assert(file_views(files@) =~= file_views(self.files@)) by {
            assert forall|i: int| 0 <= i < files@.len() implies #[trigger] files@[i]@ == self.files@[i]@ by {
                assert(cloned::<File>(self.files@[i], files@[i]));
            }
        }
        let ghost fb = files@;
        let nb = files.len();
        files.push(binary);
        assert(file_views(files@) =~= file_views(self.files@).push(files@[fb.len() as int]@));
        let mut relationships = self.relationships.clone();
        assert(relationships@ =~= self.relationships@);
        relationships.push(
            Relationship::new(&files[nb].spdxid, RelationshipType::GeneratedFrom, &self.packages[p].1.spdxid),
        );
        let mut packages: Vec<Package> = Vec::new();
        let ghost m: int = self.relationships@.len() as int;
        let mut i: usize = 0;
        while i < self.packages.len()
            invariant
                i <= self.packages.len(),
                ps == self.packages@,
                fb.len() < files@.len(),
                nb == fb.len(),
                m == self.relationships@.len(),
                self.wf(),
                b < self.binaries@.len(),
                p == self.owner_index(b as int),
                file_views(files@) == file_views(self.files@).push(files@[nb as int]@),
                is_file_record(
                    files@[nb as int]@,
                    file_id_of(None, None, file_name_of(self.binary_entries()[b as int].0@)->0),
                    file_name_of(self.binary_entries()[b as int].0@)->0,
                    FileType::Binary,
                    files@[nb as int].checksums@,
                ),
                are_checksums_of(files@[nb as int].checksums@, content@),
                rel(
                    relationships@[m],
                    files@[nb as int].spdxid@,
                    RelationshipType::GeneratedFrom,
                    ps[p as int].1.spdxid@,
                ),
                packages@ == records_of(ps).subrange(0, i as int),
                relationships@.len() == m + 1 + i,
                relationships@.subrange(0, m + 1) == self.relationships@.push(relationships@[m as int]),
                forall|j: int|
                    0 <= j < i ==> rel(
                        #[trigger] relationships@[m + 1 + j],
                        files@[fb.len() as int].spdxid@,
                        RelationshipType::DependsOn,
                        ps[j].1.spdxid@,
                    ),
            decreases self.packages.len() - i,
        {
            let ghost rb = relationships@;
            packages.push(self.packages[i].1.clone());
            relationships.push(
                Relationship::new(&files[nb].spdxid, RelationshipType::DependsOn, &self.packages[i].1.spdxid),
            );
            assert(packages@ =~= records_of(ps).subrange(0, i as int + 1));
            assert(relationships@.subrange(0, m + 1) =~= rb.subrange(0, m + 1));
            assert forall|j: int| 0 <= j < i + 1 implies rel(
                #[trigger] relationships@[m + 1 + j],
                files@[fb.len() as int].spdxid@,
                RelationshipType::DependsOn,
                ps[j].1.spdxid@,
            ) by {
                if j < i {
                    assert(relationships@[m + 1 + j] == rb[m + 1 + j]);
                }
            }
            i = i + 1;
        }
        assert(packages@ =~= records_of(ps));
        assert(relationships@.subrange(0, m as int) =~= self.relationships@) by {
            assert(relationships@.subrange(0, m as int) =~= relationships@.subrange(0, m + 1).subrange(0, m as int));
        }
        assert(relationships@[m as int] == relationships@.subrange(0, m + 1)[m as int]);
        Ok(
            Document {
                spdx_version: base.spdx_version,
                data_license: base.data_license,
                spdx_identifier: base.spdx_identifier,
                document_name: base.document_name,
                document_namespace: base.document_namespace,
                document_comment: base.document_comment,
                creation_info: base.creation_info,
                packages,
                files,
                relationships,
            },
        )
    }

    /// In the document of any binary of a well-formed correlation, exactly
    /// one relationship says what the binary was generated from, and one
    /// says that it depends on each package of the build.
    pub proof fn lemma_binary_document_counts(
        &self,
        b: int,
        content: Seq<u8>,
        base: Document,
        doc: Document,
    )
        requires
            self.wf(),
            0 <= b < self.binary_entries().len(),
            self.is_binary_document(b, content, base, doc),
        ensures
            count_kind(doc.relationships@, RelationshipType::GeneratedFrom) == 1,
            count_kind(doc.relationships@, RelationshipType::DependsOn)
                == self.package_entries().len(),
    {
        let rels = doc.relationships@;
        let m = self.relationship_entries().len() as int;
        let np = self.package_entries().len() as int;
        let head = rels.subrange(0, m);
        let mid = rels.subrange(m, m + 1);
        let tail = rels.subrange(m + 1, rels.len() as int);
        assert forall|i: int| 0 <= i < head.len() implies (#[trigger] head[i]).relationship_type
            == RelationshipType::Contains by {
            assert(self.contains_recorded(self.relationship_entries()[i]));
        }
        assert forall|i: int| 0 <= i < tail.len() implies (#[trigger] tail[i]).relationship_type
            == RelationshipType::DependsOn by {
            assert(tail[i] == rels[m + 1 + i]);
        }
        assert forall|i: int| 0 <= i < mid.len() implies (#[trigger] mid[i]).relationship_type
            == RelationshipType::GeneratedFrom by {
            assert(mid[i] == rels[m]);
        }
        lemma_count_split(rels, RelationshipType::GeneratedFrom, m);
        lemma_count_split(rels.subrange(m, rels.len() as int), RelationshipType::GeneratedFrom, 1);
        lemma_count_split(rels, RelationshipType::DependsOn, m);
        lemma_count_split(rels.subrange(m, rels.len() as int), RelationshipType::DependsOn, 1);
        assert(rels.subrange(m, rels.len() as int).subrange(0, 1) =~= mid);
        assert(rels.subrange(m, rels.len() as int).subrange(1, rels.len() - m) =~= tail);
        lemma_count_uniform(head, RelationshipType::GeneratedFrom, RelationshipType::Contains);
        lemma_count_uniform(head, RelationshipType::DependsOn, RelationshipType::Contains);
        lemma_count_uniform(mid, RelationshipType::GeneratedFrom, RelationshipType::GeneratedFrom);
        lemma_count_uniform(mid, RelationshipType::DependsOn, RelationshipType::GeneratedFrom);
        lemma_count_uniform(tail, RelationshipType::GeneratedFrom, RelationshipType::DependsOn);
        lemma_count_uniform(tail, RelationshipType::DependsOn, RelationshipType::DependsOn);
    }
}

} // verus!
