use vstd::prelude::*;

verus! {

/// Failures while locating or persisting the catalog document.
#[derive(Debug, Clone, PartialEq, Eq)]
pub enum ConfigError {
    DirectoryCreationError(String, String),
    NoConfigDirectory,
    ManifestReadError { path: String, source_error: String },
    ManifestWriteError { path: String, source_error: String },
    ManifestParseError { path: String, source_error: String },
    ManifestSerializeError { source_error: String },
}

/// Every failure a command can report. Paths are carried as text and
/// underlying I/O failures as their messages.
#[derive(Debug, Clone, PartialEq, Eq)]
pub enum AppError {
    Config(ConfigError),
    Io(String),
    ReadDir { source_path: String, source_error: String },
    FileCopy { from: String, to: String, source_error: String },
    FileRemove { path: String, source_error: String },
    SourceFileDoesNotExist(String),
    SourcePathIsNotAFile(String),
    TemplateNameInvalid(String, String),
    TemplateAlreadyExists(String),
    TemplatesDirNotFound(String),
    TemplateNotFound(String),
    TemplateFileMissing { name: String, path: String },
    DestinationFileExists(String),
    DestinationIsDirectory { action: String, dest: String },
    ConfirmationNeededInQuietMode { action: String, template_name: String },
    EditorFailed { path: String, source: String },
    Unexpected(String),
}

} // verus!
