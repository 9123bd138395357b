use vstd::prelude::*;
use crate::error::AppError;
use crate::manifest::Manifest;
use crate::naming::{file_stem, join_path, joined_of, stem_of};

verus! {

/// `e` reports that no template is named `name`.
pub open spec fn is_not_found(e: AppError, name: Seq<char>) -> bool {
    match e {
        AppError::TemplateNotFound(n) => n@ == name,
        _ => false,
    }
}

/// `e` reports that the catalog names `name` but its file is missing at `path`.
pub open spec fn is_file_missing(e: AppError, name: Seq<char>, path: Seq<char>) -> bool {
    match e {
        AppError::TemplateFileMissing { name: n, path: p } => n@ == name && p@ == path,
        _ => false,
    }
}

/// Where the catalog says the bytes of template `name` are stored.
pub open spec fn stored_path_of(
    m: Map<Seq<char>, crate::manifest::TemplateEntry>,
    templates_dir: Seq<char>,
    name: Seq<char>,
) -> Seq<char> {
    joined_of(templates_dir, m[name].filename_in_storage@)
}

/// Resolves `name` through the catalog to the path of its stored file inside
/// `templates_dir`; fails with `TemplateNotFound` when the catalog lacks it.
pub fn resolve_template_path(manifest: &Manifest, templates_dir: &str, name: &str) -> (r: Result<
    String,
    AppError,
>)
    requires
        manifest.wf(),
    ensures
        match r {
            Ok(p) => manifest@.contains_key(name@) && p@ == stored_path_of(
                manifest@,
                templates_dir@,
                name@,
            ),
            Err(e) => !manifest@.contains_key(name@) && is_not_found(e, name@),
        },
{
    match manifest.get_template(name) {
        Some(entry) => Ok(join_path(templates_dir, entry.filename_in_storage.as_str())),
        None => Err(AppError::TemplateNotFound(name.to_owned())),
    }
}

/// Reports catalog/storage drift: the catalog names `name`, stored at `path`,
/// and `file_exists` says whether that file is there.
pub fn check_template_file(name: &str, path: &str, file_exists: bool) -> (r: Result<(), AppError>)
    ensures
        match r {
            Ok(_) => file_exists,
            Err(e) => !file_exists && is_file_missing(e, name@, path@),
        },
{
    if file_exists {
        Ok(())
    } else {
        Err(AppError::TemplateFileMissing { name: name.to_owned(), path: path.to_owned() })
    }
}

/// Index of the first file name in `file_names` whose stem is `name`.
pub open spec fn first_stem_match(file_names: Seq<String>, name: Seq<char>, i: int) -> bool {
    0 <= i < file_names.len() && stem_of(file_names[i]@) == name && forall|j: int|
        0 <= j < i ==> stem_of(#[trigger] file_names[j]@) != name
}

/// Resolution for directories kept without a catalog: scans the regular
/// files of `templates_dir`, whose names are `file_names` in the order the
/// directory listed them, and returns the path of the first one whose stem
/// is `template_name`. Which file wins when two share a stem depends on that
/// order.
pub fn find_template_path(templates_dir: &str, file_names: &Vec<String>, template_name: &str) -> (r:
    Result<String, AppError>)
    ensures
        match r {
            Ok(p) => exists|i: int|
                first_stem_match(file_names@, template_name@, i) && p@ == joined_of(
                    templates_dir@,
                    #[trigger] file_names@[i]@,
                ),
            Err(e) => is_not_found(e, template_name@) && forall|j: int|
                0 <= j < file_names@.len() ==> stem_of(#[trigger] file_names@[j]@)
                    != template_name@,
        },
{
    let mut i: usize = 0;
    while i < file_names.len()
        invariant
            i <= file_names@.len(),
            forall|j: int| 0 <= j < i ==> stem_of(#[trigger] file_names@[j]@) != template_name@,
        decreases file_names@.len() - i,
    {
        let stem = file_stem(file_names[i].as_str());
        if stem == template_name.to_owned() {
            let p = join_path(templates_dir, file_names[i].as_str());
            assert(first_stem_match(file_names@, template_name@, i as int));
            return Ok(p);
        }
        i = i + 1;
    }
    Err(AppError::TemplateNotFound(template_name.to_owned()))
}

} // verus!
