use vstd::prelude::*;
use crate::error::AppError;

verus! {

/// How template content is merged into an existing destination file.
#[derive(Debug, Clone, Copy, PartialEq, Eq, Structural)]
pub enum WriteStrategy {
    /// Replace the whole file.
    Overwrite,
    /// Write the template after the existing bytes.
    Append,
    /// Write the template, a newline, then the existing bytes.
    Prepend,
    /// Refuse to touch an existing file.
    CreateOnly,
}

/// What is found at the destination path before anything is written.
#[derive(Debug, Clone, Copy, PartialEq, Eq, Structural)]
pub enum DestinationKind {
    Missing,
    Directory,
    File,
}

/// The write to perform; each variant carries the template content.
#[derive(Debug, Clone, PartialEq, Eq)]
pub enum WriteAction {
    /// Create the file, and any missing parent directories, holding the content.
    Create(String),
    /// Replace the file's content.
    Replace(String),
    /// Add the content after the file's bytes.
    Append(String),
    /// Put the content, then a newline, before the file's bytes.
    Prepend(String),
}

/// The strategy chosen from the four flags: an explicit merge flag wins
/// (overwrite, then append, then prepend); `force` alone means overwrite.
pub open spec fn strategy_of(overwrite: bool, append: bool, prepend: bool, force: bool) -> WriteStrategy {
    if overwrite {
        WriteStrategy::Overwrite
    } else if append {
        WriteStrategy::Append
    } else if prepend {
        WriteStrategy::Prepend
    } else if force {
        WriteStrategy::Overwrite
    } else {
        WriteStrategy::CreateOnly
    }
}

/// The file's content after `action` is carried out on a file that held `existing`
/// (a missing file counts as empty).
pub open spec fn content_after(action: WriteAction, existing: Seq<char>) -> Seq<char> {
    match action {
        WriteAction::Create(t) => t@,
        WriteAction::Replace(t) => t@,
        WriteAction::Append(t) => existing + t@,
        WriteAction::Prepend(t) => t@ + seq!['\n'] + existing,
    }
}

/// The action `plan_write` chooses for an existing regular file.
pub open spec fn file_action(strategy: WriteStrategy, template: String) -> Option<WriteAction> {
    match strategy {
        WriteStrategy::Overwrite => Some(WriteAction::Replace(template)),
        WriteStrategy::Append => Some(WriteAction::Append(template)),
        WriteStrategy::Prepend => Some(WriteAction::Prepend(template)),
        WriteStrategy::CreateOnly => None,
    }
}

/// `e` reports that the destination `dest` is a directory.
pub open spec fn refuses_directory(e: AppError, dest: Seq<char>) -> bool {
    match e {
        AppError::DestinationIsDirectory { dest: d, .. } => d@ == dest,
        _ => false,
    }
}

/// `e` reports that the destination file `dest` exists and no strategy allows writing it.
pub open spec fn refuses_existing(e: AppError, dest: Seq<char>) -> bool {
    match e {
        AppError::DestinationFileExists(d) => d@ == dest,
        _ => false,
    }
}

/// Resolves the four flags into one strategy.
pub fn resolve_strategy(overwrite: bool, append: bool, prepend: bool, force: bool) -> (r:
    WriteStrategy)
    ensures
        r == strategy_of(overwrite, append, prepend, force),
{
    if overwrite {
        WriteStrategy::Overwrite
    } else if append {
        WriteStrategy::Append
    } else if prepend {
        WriteStrategy::Prepend
    } else if force {
        WriteStrategy::Overwrite
    } else {
        WriteStrategy::CreateOnly
    }
}

/// Decides how `template` is written to the destination `dest`.
/// A missing destination is created whatever the strategy; a directory is
/// refused; an existing file is merged by the strategy, and left alone with
/// `DestinationFileExists` under `CreateOnly`.
pub fn plan_write(template: String, dest: &str, kind: DestinationKind, strategy: WriteStrategy) -> (r:
    Result<WriteAction, AppError>)
    ensures
        kind == DestinationKind::Missing ==> r == Ok::<WriteAction, AppError>(
            WriteAction::Create(template),
        ),
        kind == DestinationKind::Directory ==> r is Err && refuses_directory(r->Err_0, dest@),
        kind == DestinationKind::File && strategy != WriteStrategy::CreateOnly ==> r == Ok::<
            WriteAction,
            AppError,
        >(file_action(strategy, template)->Some_0),
        kind == DestinationKind::File && strategy == WriteStrategy::CreateOnly ==> r is Err
            && refuses_existing(r->Err_0, dest@),
{
    match kind {
        DestinationKind::Missing => Ok(WriteAction::Create(template)),
        DestinationKind::Directory => Err(
            AppError::DestinationIsDirectory {
                action: "apply template".to_owned(),
                dest: dest.to_owned(),
            },
        ),
        DestinationKind::File => match strategy {
            WriteStrategy::Overwrite => Ok(WriteAction::Replace(template)),
            WriteStrategy::Append => Ok(WriteAction::Append(template)),
            WriteStrategy::Prepend => Ok(WriteAction::Prepend(template)),
            WriteStrategy::CreateOnly => Err(AppError::DestinationFileExists(dest.to_owned())),
        },
    }
}

/// The full content the destination holds once `action` is carried out on a
/// file that held `existing`.
pub fn resulting_content(action: &WriteAction, existing: &str) -> (r: String)
    ensures
        r@ == content_after(*action, existing@),
{
    match action {
        WriteAction::Create(t) => t.clone(),
        WriteAction::Replace(t) => t.clone(),
        WriteAction::Append(t) => {
            let mut r = existing.to_owned();
            r.append(t.as_str());
            r
        },
        WriteAction::Prepend(t) => {
            let mut r = t.clone();
            r.append("\n");
            r.append(existing);
            proof {
                reveal_strlit("\n");
            }
            r
        },
    }
}

} // verus!
