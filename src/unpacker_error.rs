use vstd::prelude::*;

verus! {

/// Context carried by every error of this library.
#[derive(Debug, Clone)]
pub struct ErrorInformation {
    /// The underlying cause, where one is known (the words of an I/O error).
    pub message: Option<String>,
    /// The file or directory the failure concerns.
    pub src_file: String,
    /// The line of `src_file` the failure concerns, or 0 when it concerns the file as a whole.
    pub line_no: u32,
}

impl ErrorInformation {
    pub fn new(message: Option<String>, src_file: &str, line_no: u32) -> (r: Self)
        ensures
            r.message == message,
            r.src_file@ == src_file@,
            r.line_no == line_no,
    {
        ErrorInformation { message, src_file: src_file.to_owned(), line_no }
    }
}

/// The ways unpacking a package can fail. Each variant names the kind of
/// failure; its `ErrorInformation` names the path concerned and the cause.
#[derive(Debug, Clone)]
pub enum UnityPackageReaderError {
    /// The package file cannot be opened or read.
    PackageNotFound(ErrorInformation),
    /// The package cannot be decompressed, its archive cannot be unpacked or listed.
    CorruptPackage(ErrorInformation),
    /// A staging entry lacks a readable `pathname`, or one of its files cannot be moved.
    CorruptEntry(ErrorInformation),
    /// The staging directory cannot be created or listed.
    StagingDirectoryUnavailable(ErrorInformation),
    /// The destination directory of an asset cannot be created, or has no parent.
    TargetDirectoryUnavailable(ErrorInformation),
    /// The `asset.meta` member of a staging entry cannot be read.
    MetadataUnreadable(ErrorInformation),
    /// A staging entry's name is no identifier, or a path lacks a needed component.
    InvalidPath(ErrorInformation),
    /// A default location needs the working directory, which cannot be determined.
    WorkingDirectoryResolutionFailed(ErrorInformation),
    /// Removing the staging directory after a complete extraction failed.
    StagingCleanupFailed(ErrorInformation),
    /// An extraction was requested or continued in a state that does not allow it.
    InvalidState(ErrorInformation),
}

/// The kind of an error, without its context.
#[derive(PartialEq, Eq, Structural, Clone, Copy, Debug)]
pub enum ErrorKind {
    PackageNotFound,
    CorruptPackage,
    CorruptEntry,
    StagingDirectoryUnavailable,
    TargetDirectoryUnavailable,
    MetadataUnreadable,
    InvalidPath,
    WorkingDirectoryResolutionFailed,
    StagingCleanupFailed,
    InvalidState,
}

impl UnityPackageReaderError {
    pub open spec fn spec_kind(&self) -> ErrorKind {
        match self {
            UnityPackageReaderError::PackageNotFound(_) => ErrorKind::PackageNotFound,
            UnityPackageReaderError::CorruptPackage(_) => ErrorKind::CorruptPackage,
            UnityPackageReaderError::CorruptEntry(_) => ErrorKind::CorruptEntry,
            UnityPackageReaderError::StagingDirectoryUnavailable(_) => ErrorKind::StagingDirectoryUnavailable,
            UnityPackageReaderError::TargetDirectoryUnavailable(_) => ErrorKind::TargetDirectoryUnavailable,
            UnityPackageReaderError::MetadataUnreadable(_) => ErrorKind::MetadataUnreadable,
            UnityPackageReaderError::InvalidPath(_) => ErrorKind::InvalidPath,
            UnityPackageReaderError::WorkingDirectoryResolutionFailed(_) => ErrorKind::WorkingDirectoryResolutionFailed,
            UnityPackageReaderError::StagingCleanupFailed(_) => ErrorKind::StagingCleanupFailed,
            UnityPackageReaderError::InvalidState(_) => ErrorKind::InvalidState,
        }
    }

    /// The kind of this error.
    pub fn kind(&self) -> (r: ErrorKind)
        ensures
            r == self.spec_kind(),
    {
        match self {
            UnityPackageReaderError::PackageNotFound(_) => ErrorKind::PackageNotFound,
            UnityPackageReaderError::CorruptPackage(_) => ErrorKind::CorruptPackage,
            UnityPackageReaderError::CorruptEntry(_) => ErrorKind::CorruptEntry,
            UnityPackageReaderError::StagingDirectoryUnavailable(_) => ErrorKind::StagingDirectoryUnavailable,
            UnityPackageReaderError::TargetDirectoryUnavailable(_) => ErrorKind::TargetDirectoryUnavailable,
            UnityPackageReaderError::MetadataUnreadable(_) => ErrorKind::MetadataUnreadable,
            UnityPackageReaderError::InvalidPath(_) => ErrorKind::InvalidPath,
            UnityPackageReaderError::WorkingDirectoryResolutionFailed(_) => ErrorKind::WorkingDirectoryResolutionFailed,
            UnityPackageReaderError::StagingCleanupFailed(_) => ErrorKind::StagingCleanupFailed,
            UnityPackageReaderError::InvalidState(_) => ErrorKind::InvalidState,
        }
    }

    /// The context of this error, whatever its kind.
    pub fn information(&self) -> (r: &ErrorInformation)
        ensures
            r == self.spec_information(),
    {
        match self {
            UnityPackageReaderError::PackageNotFound(e) => e,
            UnityPackageReaderError::CorruptPackage(e) => e,
            UnityPackageReaderError::CorruptEntry(e) => e,
            UnityPackageReaderError::StagingDirectoryUnavailable(e) => e,
            UnityPackageReaderError::TargetDirectoryUnavailable(e) => e,
            UnityPackageReaderError::MetadataUnreadable(e) => e,
            UnityPackageReaderError::InvalidPath(e) => e,
            UnityPackageReaderError::WorkingDirectoryResolutionFailed(e) => e,
            UnityPackageReaderError::StagingCleanupFailed(e) => e,
            UnityPackageReaderError::InvalidState(e) => e,
        }
    }

    pub open spec fn spec_information(&self) -> &ErrorInformation {
        match self {
            UnityPackageReaderError::PackageNotFound(e) => e,
            UnityPackageReaderError::CorruptPackage(e) => e,
            UnityPackageReaderError::CorruptEntry(e) => e,
            UnityPackageReaderError::StagingDirectoryUnavailable(e) => e,
            UnityPackageReaderError::TargetDirectoryUnavailable(e) => e,
            UnityPackageReaderError::MetadataUnreadable(e) => e,
            UnityPackageReaderError::InvalidPath(e) => e,
            UnityPackageReaderError::WorkingDirectoryResolutionFailed(e) => e,
            UnityPackageReaderError::StagingCleanupFailed(e) => e,
            UnityPackageReaderError::InvalidState(e) => e,
        }
    }
}

} // verus!
