use vstd::prelude::*;
use crate::cli::AddArgs;
use crate::error::AppError;
use crate::locator::is_not_found;
use crate::manifest::Manifest;
use crate::naming::{
    extension_of,
    has_separator,
    is_blank,
    is_invalid_name,
    lower_of,
    lowercase,
    source_extension,
    storage_filename,
    storage_name_of,
    trim,
    trim_of,
    validate_template_name,
};

verus! {

/// What `add` stores once its checks pass.
#[derive(Debug, Clone, PartialEq, Eq)]
pub struct AddPlan {
    /// File name for the copied bytes inside the templates directory.
    pub filename: String,
    /// Lower-cased extension of the source file.
    pub extension: String,
    /// The file of the entry being replaced, where it differs from `filename`;
    /// it is deleted so that no stale copy stays behind.
    pub stale_filename: Option<String>,
}

/// `e` reports that the template `name` exists already.
pub open spec fn is_already_exists(e: AppError, name: Seq<char>) -> bool {
    match e {
        AppError::TemplateAlreadyExists(n) => n@ == name,
        _ => false,
    }
}

/// `e` reports that the source path `p` does not exist.
pub open spec fn is_source_missing(e: AppError, p: Seq<char>) -> bool {
    match e {
        AppError::SourceFileDoesNotExist(s) => s@ == p,
        _ => false,
    }
}

/// `e` reports that the source path `p` is not a regular file.
pub open spec fn is_source_not_file(e: AppError, p: Seq<char>) -> bool {
    match e {
        AppError::SourcePathIsNotAFile(s) => s@ == p,
        _ => false,
    }
}

/// `add` refuses `name` because it is taken and `force` is off.
pub open spec fn add_conflicts(
    m: Map<Seq<char>, crate::manifest::TemplateEntry>,
    name: Seq<char>,
    force: bool,
) -> bool {
    m.contains_key(name) && !force
}

/// Checks an `add` request against the source file's state and the catalog,
/// and works out where the copy goes. The checks run in this order: the
/// source exists, it is a regular file, the name holds no separator and is not
/// blank, and the name is free unless `force` is on.
pub fn plan_add(
    manifest: &Manifest,
    args: &AddArgs,
    source_exists: bool,
    source_is_file: bool,
    force: bool,
) -> (r: Result<AddPlan, AppError>)
    requires
        manifest.wf(),
    ensures
        !source_exists ==> r is Err && is_source_missing(r->Err_0, args.source_file_path@),
        source_exists && !source_is_file ==> r is Err && is_source_not_file(
            r->Err_0,
            args.source_file_path@,
        ),
        source_exists && source_is_file && (has_separator(args.name@) || is_blank(args.name@))
            ==> r is Err && is_invalid_name(r->Err_0, args.name@),
        source_exists && source_is_file && !has_separator(args.name@) && !is_blank(args.name@)
            && add_conflicts(manifest@, args.name@, force) ==> r is Err && is_already_exists(
            r->Err_0,
            args.name@,
        ),
        source_exists && source_is_file && !has_separator(args.name@) && !is_blank(args.name@)
            && !add_conflicts(manifest@, args.name@, force) ==> r is Ok,
        r matches Ok(plan) ==> {
            let ext = lower_of(extension_of(args.source_file_path@));
            let fname = storage_name_of(args.name@, ext);
            &&& plan.extension@ == ext
            &&& plan.filename@ == fname
            &&& match plan.stale_filename {
                Some(old) => manifest@.contains_key(args.name@) && old@
                    == manifest@[args.name@].filename_in_storage@ && old@ != fname,
                None => !manifest@.contains_key(args.name@)
                    || manifest@[args.name@].filename_in_storage@ == fname,
            }
        },
{
    if !source_exists {
        return Err(AppError::SourceFileDoesNotExist(args.source_file_path.clone()));
    }
    if !source_is_file {
        return Err(AppError::SourcePathIsNotAFile(args.source_file_path.clone()));
    }
    match validate_template_name(args.name.as_str()) {
        Ok(_) => {},
        Err(e) => {
            return Err(e);
        },
    }
    let existing = manifest.get_template(args.name.as_str());
    if existing.is_some() && !force {
        return Err(AppError::TemplateAlreadyExists(args.name.clone()));
    }
    let extension = source_extension(args.source_file_path.as_str());
    let filename = storage_filename(args.name.as_str(), extension.as_str());
    let stale_filename = match existing {
        Some(entry) => {
            if entry.filename_in_storage == filename {
                None
            } else {
                Some(entry.filename_in_storage.clone())
            }
        },
        None => None,
    };
    Ok(AddPlan { filename, extension, stale_filename })
}

/// The last check of `add`: a file already stored under the planned name
/// blocks the copy unless `force` is on.
pub fn check_add_target(name: &str, target_exists: bool, force: bool) -> (r: Result<(), AppError>)
    ensures
        match r {
            Ok(_) => !target_exists || force,
            Err(e) => target_exists && !force && is_already_exists(e, name@),
        },
{
    if target_exists && !force {
        Err(AppError::TemplateAlreadyExists(name.to_owned()))
    } else {
        Ok(())
    }
}

/// The next step of `remove` once the template is known to exist.
#[derive(Debug, Clone, PartialEq, Eq)]
pub enum RemovalStep {
    /// Delete the stored file with this name and the catalog entry.
    Proceed(String),
    /// Ask the user first; the stored file has this name.
    Ask(String),
}

/// `e` reports that removing `name` needs a confirmation that quiet mode cannot ask for.
pub open spec fn is_confirmation_needed(e: AppError, name: Seq<char>) -> bool {
    match e {
        AppError::ConfirmationNeededInQuietMode { template_name: n, .. } => n@ == name,
        _ => false,
    }
}

/// Decides how `remove` goes on: an unknown name fails with `TemplateNotFound`;
/// with `force` the removal proceeds; otherwise the user is asked, except in
/// quiet mode, where the command fails rather than proceed or cancel silently.
pub fn plan_remove(manifest: &Manifest, name: &str, force: bool, quiet: bool) -> (r: Result<
    RemovalStep,
    AppError,
>)
    requires
        manifest.wf(),
    ensures
        !manifest@.contains_key(name@) ==> r is Err && is_not_found(r->Err_0, name@),
        manifest@.contains_key(name@) && force ==> (r matches Ok(RemovalStep::Proceed(f)) && f@
            == manifest@[name@].filename_in_storage@),
        manifest@.contains_key(name@) && !force && !quiet ==> (r matches Ok(RemovalStep::Ask(f))
            && f@ == manifest@[name@].filename_in_storage@),
        manifest@.contains_key(name@) && !force && quiet ==> r is Err && is_confirmation_needed(
            r->Err_0,
            name@,
        ),
{
    let entry = match manifest.get_template(name) {
        Some(e) => e,
        None => {
            return Err(AppError::TemplateNotFound(name.to_owned()));
        },
    };
    let filename = entry.filename_in_storage.clone();
    if force {
        Ok(RemovalStep::Proceed(filename))
    } else if !quiet {
        Ok(RemovalStep::Ask(filename))
    } else {
        Err(
            AppError::ConfirmationNeededInQuietMode {
                action: "remove".to_owned(),
                template_name: name.to_owned(),
            },
        )
    }
}

/// Whether a typed answer confirms a removal: once trimmed and lower-cased it is `y`.
pub fn answer_confirms(answer: &str) -> (r: bool)
    ensures
        r == (lower_of(trim_of(answer@)) == seq!['y']),
{
    let t = trim(answer);
    let l = lowercase(t);
    proof {
        reveal_strlit("y");
    }
    let y = "y".to_owned();
    assert(y@ =~= seq!['y']);
    l == y
}

/// Whether `show` ends its output with an extra newline: only when writing to
/// a terminal and the content does not end with one already.
pub fn needs_trailing_newline(to_terminal: bool, content: &str) -> (r: bool)
    ensures
        r == (to_terminal && !(content@.len() > 0 && content@.last() == '\n')),
{
    if !to_terminal {
        return false;
    }
    let n = content.unicode_len();
    if n == 0 {
        return true;
    }
    content.get_char(n - 1) != '\n'
}

/// Whether a catalog document holds nothing but white space, which counts as an empty catalog.
pub fn is_blank_document(content: &str) -> (r: bool)
    ensures
        r == is_blank(content@),
{
    trim(content).unicode_len() == 0
}

} // verus!
