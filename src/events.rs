//! Decoding the build driver's line-oriented event stream.

use crate::correlate::ArtifactEvent;
use crate::listing::views;
use crate::paths::opt_string_view;
use vstd::prelude::*;

verus! {

/// What the line `line` decodes to as an artifact event: the package
/// identifier, the executable and the produced files; none where the line is
/// not an artifact event.
pub uninterp spec fn artifact_fields_of(line: Seq<char>) -> Option<
    (Seq<char>, Option<Seq<char>>, Seq<Seq<char>>),
>;

/// The fields of an artifact event.
pub open spec fn event_fields(e: ArtifactEvent) -> (Seq<char>, Option<Seq<char>>, Seq<Seq<char>>) {
    (e.package_id@, opt_string_view(e.executable), views(e.filenames@))
}

/// The view of a decoded line.
pub open spec fn decoded(r: Option<ArtifactEvent>) -> Option<
    (Seq<char>, Option<Seq<char>>, Seq<Seq<char>>),
> {
    match r {
        Some(e) => Some(event_fields(e)),
        None => None,
    }
}

/// Relies on `serde_json::from_str` into `cargo_metadata::Artifact`: the
/// line as an artifact event, or none where it is not one.
#[verifier::external_body]
fn decode_artifact(line: &str) -> (r: Option<ArtifactEvent>)
    ensures
        decoded(r) == artifact_fields_of(line@),
{
    serde_json::from_str::<cargo_metadata::Artifact>(line).ok().map(|a| ArtifactEvent {
        package_id: a.package_id.repr,
        executable: a.executable.map(|p| p.into_string()),
        filenames: a.filenames.into_iter().map(|p| p.into_string()).collect(),
    })
}

/// The artifact event on the line `line`, or none where the line holds
/// something else: the driver's informational lines are skipped.
pub fn parse_event(line: &str) -> (r: Option<ArtifactEvent>)
    ensures
        decoded(r) == artifact_fields_of(line@),
{
    decode_artifact(line)
}

} // verus!
