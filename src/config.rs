use vstd::prelude::*;

verus! {

/// How the generated tree is laid out on disk.
#[derive(Clone, Copy, Debug, PartialEq, Eq, Structural)]
pub enum ClientFormat {
    /// One file holding the whole tree flattened.
    File,
    /// A directory tree with one aggregator file per directory.
    Folder,
}

/// A layout that does not fit the shape of the configured output path.
#[derive(Clone, Copy, Debug, PartialEq, Eq, Structural)]
pub enum LayoutError {
    /// The folder layout was asked for with an output path that has an extension.
    FolderNeedsDirectory,
    /// The file layout was asked for with an output path that has no extension.
    FileNeedsFile,
}

impl LayoutError {
    /// The message with which generation stops on this error.
    pub fn message(&self) -> (r: &'static str)
        ensures
            *self == LayoutError::FolderNeedsDirectory ==> r@
                == "The output path must be a directory when using the folder format."@,
            *self == LayoutError::FileNeedsFile ==> r@
                == "The output path must be a file when using the file format."@,
    {
        match self {
            LayoutError::FolderNeedsDirectory => {
                "The output path must be a directory when using the folder format."
            },
            LayoutError::FileNeedsFile => {
                "The output path must be a file when using the file format."
            },
        }
    }
}

/// Whether the last component of a path has an extension, as std's `Path::extension` reads it.
pub uninterp spec fn has_extension_of(path: Seq<char>) -> bool;

/// Relies on std::path::Path::extension: whether the output path has an extension. A path
/// without any `.` has none.
#[verifier::external_body]
pub(crate) fn path_has_extension(path: &str) -> (r: bool)
    ensures
        r == has_extension_of(path@),
        !path@.contains('.') ==> !r,
{
    std::path::Path::new(path).extension().is_some()
}

/// The outcome of checking a layout against whether the output path has an extension.
pub open spec fn layout_check(format: ClientFormat, has_extension: bool) -> Result<(), LayoutError> {
    match format {
        ClientFormat::Folder => if has_extension {
            Err(LayoutError::FolderNeedsDirectory)
        } else {
            Ok(())
        },
        ClientFormat::File => if has_extension {
            Ok(())
        } else {
            Err(LayoutError::FileNeedsFile)
        },
    }
}

/// The folder layout needs an output path without an extension, the file layout one with.
pub fn check_layout(format: ClientFormat, has_extension: bool) -> (r: Result<(), LayoutError>)
    ensures
        r == layout_check(format, has_extension),
{
    match format {
        ClientFormat::Folder => if has_extension {
            Err(LayoutError::FolderNeedsDirectory)
        } else {
            Ok(())
        },
        ClientFormat::File => if has_extension {
            Ok(())
        } else {
            Err(LayoutError::FileNeedsFile)
        },
    }
}

/// Checks the layout against the configured output path.
pub fn check_output_path(format: ClientFormat, output: &str) -> (r: Result<(), LayoutError>)
    ensures
        r == layout_check(format, has_extension_of(output@)),
{
    let has_extension = path_has_extension(output);
    check_layout(format, has_extension)
}

} // verus!
