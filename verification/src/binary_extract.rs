//! Choosing how to unpack an archive from the name of its file.
//!
//! Unpacking itself reads and writes files and is left to the caller; what is
//! decided here is which kind of archive a path names, and what to report
//! when it names none.

use vstd::prelude::*;
use vstd::string::StringExecFns;

verus! {

/// The kinds of archive that can be unpacked.
#[derive(Debug, Clone, Copy, PartialEq, Eq)]
pub enum ArchiveFormat {
    /// A zip archive.
    Zip,
    /// A tar archive compressed with gzip.
    TarGz,
}

/// Why a path names no archive that can be unpacked.
#[derive(Debug, PartialEq, Eq)]
pub enum ExtractError {
    /// The path has an extension, given here, that stands for no known kind.
    UnsupportedFileType(String),
    /// The path, given here, has no extension.
    NoExtension(String),
}

/// The mathematical value of an [`ExtractError`].
pub ghost enum ExtractErrorView {
    UnsupportedFileType(Seq<char>),
    NoExtension(Seq<char>),
}

impl DeepView for ExtractError {
    type V = ExtractErrorView;

    open spec fn deep_view(&self) -> ExtractErrorView {
        match self {
            ExtractError::UnsupportedFileType(extension) => ExtractErrorView::UnsupportedFileType(
                extension@,
            ),
            ExtractError::NoExtension(path) => ExtractErrorView::NoExtension(path@),
        }
    }
}

/// The words of an error, as they are shown to a user.
pub open spec fn error_message(error: ExtractErrorView) -> Seq<char> {
    match error {
        ExtractErrorView::UnsupportedFileType(extension) => "Unsupported file type: "@ + extension,
        ExtractErrorView::NoExtension(path) => "No extension for the given path: "@ + path,
    }
}

impl ExtractError {
    /// The words of the error, as they are shown to a user.
    pub fn message(&self) -> (words: String)
        ensures
            words@ == error_message(self.deep_view()),
    {
        match self {
            ExtractError::UnsupportedFileType(extension) => {
                String::from_str("Unsupported file type: ").concat(extension.as_str())
            },
            ExtractError::NoExtension(path) => {
                String::from_str("No extension for the given path: ").concat(path.as_str())
            },
        }
    }
}

/// The kind of archive that a path with the given extension names.
///
/// `zip` names a zip archive; `gz`, `tgz` and `tar` each name a tar archive
/// compressed with gzip; any other extension is unsupported; and a path
/// without extension names none.
pub open spec fn archive_format_for(path: Seq<char>, extension: Option<Seq<char>>) -> Result<
    ArchiveFormat,
    ExtractErrorView,
> {
    match extension {
        Some(extension) => if extension == "zip"@ {
            Ok(ArchiveFormat::Zip)
        } else if extension == "gz"@ || extension == "tgz"@ || extension == "tar"@ {
            Ok(ArchiveFormat::TarGz)
        } else {
            Err(ExtractErrorView::UnsupportedFileType(extension))
        },
        None => Err(ExtractErrorView::NoExtension(path)),
    }
}

/// Whether an executable result is the given mathematical one.
pub open spec fn is_outcome(
    result: Result<ArchiveFormat, ExtractError>,
    outcome: Result<ArchiveFormat, ExtractErrorView>,
) -> bool {
    match result {
        Ok(format) => outcome == Ok::<ArchiveFormat, ExtractErrorView>(format),
        Err(error) => outcome == Err::<ArchiveFormat, ExtractErrorView>(error.deep_view()),
    }
}

/// Decides the kind of archive from a path and the extension that was found
/// in it.
pub fn archive_format_of(path: &str, extension: Option<String>) -> (result: Result<
    ArchiveFormat,
    ExtractError,
>)
    ensures
        is_outcome(result, archive_format_for(path@, extension.deep_view())),
{
    match extension {
        Some(extension) => {
            if extension == String::from_str("zip") {
                return Ok(ArchiveFormat::Zip);
            }
            if extension == String::from_str("gz") || extension == String::from_str("tgz")
                || extension == String::from_str("tar") {
                return Ok(ArchiveFormat::TarGz);
            }
            Err(ExtractError::UnsupportedFileType(extension))
        },
        None => Err(ExtractError::NoExtension(String::from_str(path))),
    }
}

/// The extension that `std::path::Path::extension` finds in a path: what
/// follows the last `.` of the path's file name, if the file name has one
/// that is not its first character.
pub uninterp spec fn extension_in(path: Seq<char>) -> Option<Seq<char>>;

/// The extension of a path.
///
/// Calls `std::path::Path::extension`, which reads nothing but the path. The
/// contract names what it finds, and claims of it what the documentation says
/// of every path: an extension is what follows the last `.` of the file name,
/// so it holds no `.` itself, and a path without any `.` has none.
#[verifier::external_body]
fn path_extension(path: &str) -> (extension: Option<String>)
    ensures
        extension.deep_view() == extension_in(path@),
        extension matches Some(found) ==> !found@.contains('.'),
        !path@.contains('.') ==> extension is None,
{
    match std::path::Path::new(path).extension() {
        Some(extension) => Some(extension.to_string_lossy().into_owned()),
        None => None,
    }
}

/// Whether `extension` can be the extension of `path`: it holds no `.`, and
/// there is none where the path holds no `.`.
pub open spec fn may_be_extension(path: Seq<char>, extension: Option<Seq<char>>) -> bool {
    &&& extension matches Some(found) ==> !found.contains('.')
    &&& !path.contains('.') ==> extension is None
}

/// Decides the kind of archive that a path names: what
/// [`archive_format_for`] gives for the path and the extension found in it.
/// That extension holds no `.`, and a path without any `.` has none, so such
/// a path is reported as having no extension.
pub fn archive_format(path: &str) -> (result: Result<ArchiveFormat, ExtractError>)
    ensures
        is_outcome(result, archive_format_for(path@, extension_in(path@))),
        may_be_extension(path@, extension_in(path@)),
{
    let extension = path_extension(path);
    archive_format_of(path, extension)
}

/// A request to unpack the archive at `from` into the directory `to`.
#[derive(Debug, PartialEq, Eq)]
pub struct Extract {
    pub from: String,
    pub to: String,
}

impl Extract {
    /// A request to unpack `from` into `to`.
    pub fn new(from: String, to: String) -> (request: Extract)
        ensures
            request.from@ == from@,
            request.to@ == to@,
    {
        Extract { from, to }
    }

    /// The kind of archive that the request's source names.
    pub fn format(&self) -> (result: Result<ArchiveFormat, ExtractError>)
        ensures
            is_outcome(result, archive_format_for(self.from@, extension_in(self.from@))),
            may_be_extension(self.from@, extension_in(self.from@)),
    {
        archive_format(self.from.as_str())
    }
}

} // verus!
