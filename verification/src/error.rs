use vstd::prelude::*;

verus! {

/// The error taxonomy of the library.
///
/// Payloads that the original sources of a failure carry (an I/O failure, a
/// file name that is not valid text) are held as plain strings, so that every
/// error value is fully visible to the verifier.
#[derive(Debug, Clone, PartialEq, Eq)]
pub enum MdmgError {
    ApplicationError,
    TempalteRenderError { reason: String },
    ReadPendingScaffoldError { file_name: String },
    IoError(String),
    FileNameConvertError(String),
    TemplateIsNotFound(String),
    ParentDirectoryIsNotFound(String),
    FailedRemoveParentDirectory(String),
    FailedDeleteFile(String),
    GeneratedFileIsNotFound(String),
}

impl MdmgError {
    /// The human-readable message of this error.
    pub open spec fn message_spec(&self) -> Seq<char> {
        match self {
            MdmgError::ApplicationError => "ApplicationError"@,
            MdmgError::TempalteRenderError { reason: _ } => "this template is invalid syntax"@,
            MdmgError::ReadPendingScaffoldError { file_name: _ } => "pending scaffold exists"@,
            MdmgError::IoError(_) => "io error"@,
            MdmgError::FileNameConvertError(_) => "file name convert error"@,
            MdmgError::TemplateIsNotFound(name) => "template("@ + name@ + ") is not found"@,
            MdmgError::ParentDirectoryIsNotFound(path) => "file path ("@ + path@
                + ")'s parent path is not found"@,
            MdmgError::FailedRemoveParentDirectory(path) => "failed remove parent directory. path: "@
                + path@,
            MdmgError::FailedDeleteFile(path) => "failed remove file. path: "@ + path@,
            MdmgError::GeneratedFileIsNotFound(file) => "file("@ + file@ + ") is not found"@,
        }
    }

    /// Renders the error as a readable message.
    pub fn message(&self) -> (r: String)
        ensures
            r@ == self.message_spec(),
    {
        match self {
            MdmgError::ApplicationError => String::from_str("ApplicationError"),
            MdmgError::TempalteRenderError { reason: _ } => String::from_str(
                "this template is invalid syntax",
            ),
            MdmgError::ReadPendingScaffoldError { file_name: _ } => String::from_str(
                "pending scaffold exists",
            ),
            MdmgError::IoError(_) => String::from_str("io error"),
            MdmgError::FileNameConvertError(_) => String::from_str("file name convert error"),
            MdmgError::TemplateIsNotFound(name) => String::from_str("template(").concat(
                name.as_str(),
            ).concat(") is not found"),
            MdmgError::ParentDirectoryIsNotFound(path) => String::from_str("file path (").concat(
                path.as_str(),
            ).concat(")'s parent path is not found"),
            MdmgError::FailedRemoveParentDirectory(path) => String::from_str(
                "failed remove parent directory. path: ",
            ).concat(path.as_str()),
            MdmgError::FailedDeleteFile(path) => String::from_str("failed remove file. path: ")
                .concat(path.as_str()),
            MdmgError::GeneratedFileIsNotFound(file) => String::from_str("file(").concat(
                file.as_str(),
            ).concat(") is not found"),
        }
    }
}

} // verus!
