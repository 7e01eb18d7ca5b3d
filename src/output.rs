//! Where a document is written, and whether it may be.

use crate::format::{extension_of, Format};
use crate::paths::{file_name, file_name_of};
use crate::text::{chars_of, string_of};
use vstd::prelude::*;

verus! {

/// Where and how a document is written.
#[derive(Debug)]
pub struct OutputManager {
    /// The path written to.
    pub to: String,
    pub format: Format,
    /// Whether an existing file may be replaced.
    pub force: bool,
}

/// Why a document may not be written.
#[derive(Clone, Copy, Debug, PartialEq, Eq, Structural)]
pub enum OutputError {
    /// The output path has no file name.
    MissingFileName,
    /// The output path is a directory.
    IsDirectory,
    /// The output file exists and replacing it was not asked for.
    AlreadyExists,
    /// The format cannot be written yet.
    NotImplemented(Format),
}

impl OutputManager {
    /// A manager that writes to `path` in `format`, replacing an existing
    /// file only where `force` is set.
    pub fn new(path: &str, force: bool, format: Format) -> (r: OutputManager)
        ensures
            r.to@ == path@,
            r.force == force,
            r.format == format,
    {
        OutputManager { to: String::from_str(path), format, force }
    }

    /// The name of the output file: the last component of its path, or the
    /// empty string where the path has none.
    pub fn output_file_name(&self) -> (r: String)
        ensures
            r@ == match file_name_of(self.to@) {
                Some(n) => n,
                None => Seq::empty(),
            },
    {
        match file_name(self.to.as_str()) {
            Some(n) => n,
            None => String::new(),
        }
    }

    /// Whether the document may be written, given what the file system says
    /// of the output path: whether it is a directory and whether it exists.
    pub fn check_target(&self, is_dir: bool, exists: bool) -> (r: Result<(), OutputError>)
        ensures
            file_name_of(self.to@) is None ==> r == Err::<(), OutputError>(
                OutputError::MissingFileName,
            ),
            file_name_of(self.to@) is Some && is_dir ==> r == Err::<(), OutputError>(
                OutputError::IsDirectory,
            ),
            file_name_of(self.to@) is Some && !is_dir && !self.force && exists ==> r == Err::<
                (),
                OutputError,
            >(OutputError::AlreadyExists),
            file_name_of(self.to@) is Some && !is_dir && (self.force || !exists) ==> r == if self.format
                == Format::Rdf {
                Err::<(), OutputError>(OutputError::NotImplemented(Format::Rdf))
            } else {
                Ok::<(), OutputError>(())
            },
    {
        if file_name(self.to.as_str()).is_none() {
            return Err(OutputError::MissingFileName);
        }
        if is_dir {
            return Err(OutputError::IsDirectory);
        }
        if !self.force && exists {
            return Err(OutputError::AlreadyExists);
        }
        match self.format {
            Format::Rdf => Err(OutputError::NotImplemented(Format::Rdf)),
            _ => Ok(()),
        }
    }
}

/// Where the document of the binary at `binary` is written: beside it, its
/// path followed by the format's extension.
pub fn sbom_path(binary: &str, format: Format) -> (r: String)
    ensures
        r@ == binary@ + extension_of(format),
{
    let mut v = chars_of(binary);
    let ext = chars_of(format.extension().as_str());
    let mut i: usize = 0;
    while i < ext.len()
        invariant
            i <= ext.len(),
            ext@ == extension_of(format),
            v@ == binary@ + ext@.subrange(0, i as int),
        decreases ext.len() - i,
    {
        v.push(ext[i]);
        assert(v@ =~= binary@ + ext@.subrange(0, i as int + 1));
        i = i + 1;
    }
    assert(ext@.subrange(0, i as int) =~= ext@);
    string_of(&v)
}

} // verus!
