use vstd::prelude::*;

verus! {

/// Failure kinds of the directory-state and copy subsystem.
///
/// Every core operation reports its failure through one of these; none of the
/// verified operations panics on an expected failure condition.
#[derive(Debug, PartialEq)]
pub enum DirError {
    /// The target of a navigation is missing or is not a directory.
    InvalidDirectory { path: String },
    /// The navigation would leave the managed base root.
    OutsideBase { path: String },
    /// `..` was requested while already at the base root.
    AlreadyAtBase,
    /// A path that was required to exist does not.
    PathNotFound { path: String },
    /// A file named for verification was not found; carries the requested
    /// name and the directory that was searched.
    FileNotFound { file: String, current: String },
    /// The path exists but is not a regular file.
    NotAFile { path: String },
    /// The operating system refused a read, write, copy or working-directory
    /// change; carries its report.
    IoFailure { message: String },
    /// No persisted base path is configured.
    ConfigMissing,
}

impl DirError {
    /// The text of [`Self::message`], one line naming the offending path and
    /// the nature of the failure.
    pub open spec fn message_view(&self) -> Seq<char> {
        match self {
            DirError::InvalidDirectory { path } => "Invalid directory path: "@ + path@,
            DirError::OutsideBase { path } => "Cannot navigate outside the base directory: "@
                + path@,
            DirError::AlreadyAtBase => "Already at the base directory"@,
            DirError::PathNotFound { path } => "Path does not exist: "@ + path@,
            DirError::FileNotFound { file, current } => "File '"@ + file@
                + "' not found in current directory: "@ + current@,
            DirError::NotAFile { path } => "Path '"@ + path@ + "' exists but is not a file"@,
            DirError::IoFailure { message } => "IO Error: "@ + message@,
            DirError::ConfigMissing => "No base directory configured"@,
        }
    }

    /// A human-readable description of the failure.
    pub fn message(&self) -> (r: String)
        ensures
            r@ == self.message_view(),
    {
        match self {
            DirError::InvalidDirectory { path } => {
                let r = String::from_str("Invalid directory path: ").concat(path.as_str());
                assert(r@ == self.message_view());
                r
            },
            DirError::OutsideBase { path } => {
                let r = String::from_str("Cannot navigate outside the base directory: ").concat(
                    path.as_str(),
                );
                assert(r@ == self.message_view());
                r
            },
            DirError::AlreadyAtBase => String::from_str("Already at the base directory"),
            DirError::PathNotFound { path } => {
                let r = String::from_str("Path does not exist: ").concat(path.as_str());
                assert(r@ == self.message_view());
                r
            },
            DirError::FileNotFound { file, current } => {
                let r = String::from_str("File '").concat(file.as_str()).concat(
                    "' not found in current directory: ",
                ).concat(current.as_str());
                assert(r@ == self.message_view());
                r
            },
            DirError::NotAFile { path } => {
                let r = String::from_str("Path '").concat(path.as_str()).concat(
                    "' exists but is not a file",
                );
                assert(r@ == self.message_view());
                r
            },
            DirError::IoFailure { message } => {
                let r = String::from_str("IO Error: ").concat(message.as_str());
                assert(r@ == self.message_view());
                r
            },
            DirError::ConfigMissing => String::from_str("No base directory configured"),
        }
    }
}

} // verus!
