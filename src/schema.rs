//! The remaining records of the SPDX 2.2 document schema: annotations,
//! snippets, reviews and extracted licensing information. This library
//! fills none of them in; they complete the vocabulary of a document.

use crate::document::{Algorithm, AnnotationType};
use vstd::prelude::*;

verus! {

/// An annotation on a file.
#[derive(Clone, Debug)]
pub struct FileAnnotation {
    pub annotation_date: String,
    pub annotation_type: AnnotationType,
    pub annotator: String,
    pub comment: String,
}

/// A license found in the files analysed that is not on the SPDX list.
#[derive(Clone, Debug)]
pub struct HasExtractedLicensingInfo {
    pub comment: Option<String>,
    pub cross_refs: Option<Vec<CrossRef>>,
    pub extracted_text: String,
    pub license_id: String,
    pub name: Option<String>,
    pub see_alsos: Option<Vec<String>>,
}

/// A cross reference of an extracted license.
#[derive(Clone, Debug)]
pub struct CrossRef {
    pub is_live: Option<bool>,
    pub is_valid: Option<bool>,
    pub is_way_back_link: Option<bool>,
    pub cross_ref_match: Option<String>,
    pub order: Option<i64>,
    pub timestamp: Option<String>,
    pub url: String,
}

/// An annotation on a package.
#[derive(Clone, Debug)]
pub struct PackageAnnotation {
    pub annotation_date: String,
    pub annotation_type: AnnotationType,
    pub annotator: String,
    pub comment: String,
}

/// A checksum of a package.
#[derive(Clone, Debug)]
pub struct PackageChecksum {
    pub algorithm: Algorithm,
    pub checksum_value: String,
}

/// The verification code of a package's files.
#[derive(Clone, Debug)]
pub struct PackageVerificationCode {
    pub package_verification_code_excluded_files: Option<Vec<String>>,
    pub package_verification_code_value: String,
}

/// A review of a document.
#[derive(Clone, Debug)]
pub struct Reviewed {
    pub comment: Option<String>,
    pub review_date: String,
    pub reviewer: Option<String>,
}

/// A part of a file with licensing of its own.
#[derive(Clone, Debug)]
pub struct Snippet {
    pub annotations: Option<Vec<SnippetAnnotation>>,
    pub attribution_texts: Option<Vec<String>>,
    pub comment: Option<String>,
    pub copyright_text: String,
    pub license_comments: Option<String>,
    pub license_concluded: String,
    pub license_info_in_snippets: Option<Vec<String>>,
    pub name: String,
    pub ranges: Option<Vec<Range>>,
    pub snippet_from_file: String,
    pub spdxid: String,
}

/// An annotation on a snippet.
#[derive(Clone, Debug)]
pub struct SnippetAnnotation {
    pub annotation_date: String,
    pub annotation_type: AnnotationType,
    pub annotator: String,
    pub comment: String,
}

/// The extent of a snippet in its file.
#[derive(Clone, Debug)]
pub struct Range {
    pub end_pointer: EndPointer,
    pub start_pointer: StartPointer,
}

/// Where a snippet ends.
#[derive(Clone, Debug)]
pub struct EndPointer {
    pub line_number: Option<i64>,
    pub offset: Option<i64>,
    pub reference: String,
}

/// Where a snippet starts.
#[derive(Clone, Debug)]
pub struct StartPointer {
    pub line_number: Option<i64>,
    pub offset: Option<i64>,
    pub reference: String,
}

} // verus!
