//! The formats a document can be written in.

use crate::text::{chars_of, same_chars};
use vstd::prelude::*;

verus! {

/// The output format of a document.
#[derive(Clone, Copy, Debug, PartialEq, Eq, Structural)]
pub enum Format {
    /// Key-value text.
    KeyValue,
    Json,
    Yaml,
    Rdf,
}

/// Why a format name was refused.
#[derive(Debug, Clone, PartialEq, Eq)]
pub enum FormatError {
    /// No format has this name; it holds the name.
    Unknown(String),
    /// The format exists but cannot be written yet.
    NotImplemented(Format),
}

/// The file extension of `f`.
pub open spec fn extension_of(f: Format) -> Seq<char> {
    match f {
        Format::KeyValue => seq!['.', 's', 'p', 'd', 'x'],
        Format::Json => seq!['.', 's', 'p', 'd', 'x', '.', 'j', 's', 'o', 'n'],
        Format::Yaml => seq!['.', 's', 'p', 'd', 'x', '.', 'y', 'a', 'm', 'l'],
        Format::Rdf => seq!['.', 's', 'p', 'd', 'x', '.', 'r', 'd', 'f'],
    }
}

/// The format that `s` names: `kv` or `Key-Value`, `json` or `JSON`, `yaml`
/// or `YAML`, `rdf` or `RDF`.
pub open spec fn format_named(s: Seq<char>) -> Option<Format> {
    if s == seq!['k', 'v'] || s == seq!['K', 'e', 'y', '-', 'V', 'a', 'l', 'u', 'e'] {
        Some(Format::KeyValue)
    } else if s == seq!['j', 's', 'o', 'n'] || s == seq!['J', 'S', 'O', 'N'] {
        Some(Format::Json)
    } else if s == seq!['y', 'a', 'm', 'l'] || s == seq!['Y', 'A', 'M', 'L'] {
        Some(Format::Yaml)
    } else if s == seq!['r', 'd', 'f'] || s == seq!['R', 'D', 'F'] {
        Some(Format::Rdf)
    } else {
        None
    }
}

/// The display name of `f`.
pub open spec fn name_of(f: Format) -> Seq<char> {
    match f {
        Format::KeyValue => seq!['K', 'e', 'y', '-', 'V', 'a', 'l', 'u', 'e'],
        Format::Json => seq!['J', 'S', 'O', 'N'],
        Format::Yaml => seq!['Y', 'A', 'M', 'L'],
        Format::Rdf => seq!['R', 'D', 'F'],
    }
}

impl Format {
    /// The file extension of documents in this format.
    pub fn extension(&self) -> (r: String)
        ensures
            r@ == extension_of(*self),
    {
        let v = match self {
            Format::KeyValue => vec!['.', 's', 'p', 'd', 'x'],
            Format::Json => vec!['.', 's', 'p', 'd', 'x', '.', 'j', 's', 'o', 'n'],
            Format::Yaml => vec!['.', 's', 'p', 'd', 'x', '.', 'y', 'a', 'm', 'l'],
            Format::Rdf => vec!['.', 's', 'p', 'd', 'x', '.', 'r', 'd', 'f'],
        };
        assert(v@ =~= extension_of(*self));
        crate::text::string_of(&v)
    }

    /// The display name of this format.
    pub fn name(&self) -> (r: String)
        ensures
            r@ == name_of(*self),
    {
        let v = match self {
            Format::KeyValue => vec!['K', 'e', 'y', '-', 'V', 'a', 'l', 'u', 'e'],
            Format::Json => vec!['J', 'S', 'O', 'N'],
            Format::Yaml => vec!['Y', 'A', 'M', 'L'],
            Format::Rdf => vec!['R', 'D', 'F'],
        };
        assert(v@ =~= name_of(*self));
        crate::text::string_of(&v)
    }

    /// The format that `s` names.
    pub fn parse(s: &str) -> (r: Result<Format, FormatError>)
        ensures
            match format_named(s@) {
                Some(f) => r == Ok::<Format, FormatError>(f),
                None => r is Err && r->Err_0 is Unknown && r->Err_0->Unknown_0@ == s@,
            },
    {
        let c = chars_of(s);
        let w_kv = vec!['k', 'v'];
        assert(w_kv@ =~= seq!['k', 'v']);
        let w_key_value = vec!['K', 'e', 'y', '-', 'V', 'a', 'l', 'u', 'e'];
        assert(w_key_value@ =~= seq!['K', 'e', 'y', '-', 'V', 'a', 'l', 'u', 'e']);
        let w_json = vec!['j', 's', 'o', 'n'];
        assert(w_json@ =~= seq!['j', 's', 'o', 'n']);
        let w_json_upper = vec!['J', 'S', 'O', 'N'];
        assert(w_json_upper@ =~= seq!['J', 'S', 'O', 'N']);
        let w_yaml = vec!['y', 'a', 'm', 'l'];
        assert(w_yaml@ =~= seq!['y', 'a', 'm', 'l']);
        let w_yaml_upper = vec!['Y', 'A', 'M', 'L'];
        assert(w_yaml_upper@ =~= seq!['Y', 'A', 'M', 'L']);
        let w_rdf = vec!['r', 'd', 'f'];
        assert(w_rdf@ =~= seq!['r', 'd', 'f']);
        let w_rdf_upper = vec!['R', 'D', 'F'];
        assert(w_rdf_upper@ =~= seq!['R', 'D', 'F']);
        if same_chars(&c, &w_kv) || same_chars(&c, &w_key_value) {
            Ok(Format::KeyValue)
        } else if same_chars(&c, &w_json) || same_chars(&c, &w_json_upper) {
            Ok(Format::Json)
        } else if same_chars(&c, &w_yaml) || same_chars(&c, &w_yaml_upper) {
            Ok(Format::Yaml)
        } else if same_chars(&c, &w_rdf) || same_chars(&c, &w_rdf_upper) {
            Ok(Format::Rdf)
        } else {
            Err(FormatError::Unknown(String::from_str(s)))
        }
    }
}

/// The format that `input` names, where it is one that can be written.
pub fn parse_format(input: &str) -> (r: Result<Format, FormatError>)
    ensures
        match format_named(input@) {
            Some(Format::Rdf) => r == Err::<Format, FormatError>(
                FormatError::NotImplemented(Format::Rdf),
            ),
            Some(f) => r == Ok::<Format, FormatError>(f),
            None => r is Err && r->Err_0 is Unknown && r->Err_0->Unknown_0@ == input@,
        },
{
    let format = Format::parse(input)?;
    match format {
        Format::KeyValue | Format::Json | Format::Yaml => Ok(format),
        Format::Rdf => Err(FormatError::NotImplemented(Format::Rdf)),
    }
}

impl Default for Format {
    fn default() -> (r: Format)
        ensures
            r == Format::KeyValue,
    {
        Format::KeyValue
    }
}

impl core::str::FromStr for Format {
    type Err = FormatError;

    fn from_str(s: &str) -> Result<Format, FormatError> {
        Format::parse(s)
    }
}

} // verus!
