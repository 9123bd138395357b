use vstd::prelude::*;
use crate::error::AppError;

verus! {

/// The lower-case form of a string, as `str::to_lowercase` computes it.
pub uninterp spec fn lower_of(s: Seq<char>) -> Seq<char>;

/// A string without its leading and trailing white space, as `str::trim` computes it.
pub uninterp spec fn trim_of(s: Seq<char>) -> Seq<char>;

/// The extension of a path's final component, as `Path::extension` finds it;
/// empty where there is none.
pub uninterp spec fn extension_of(path: Seq<char>) -> Seq<char>;

/// A directory path extended by one more component, as `PathBuf::push` builds it.
pub uninterp spec fn joined_of(dir: Seq<char>, file: Seq<char>) -> Seq<char>;

/// Relies on `str::to_lowercase`: the result depends on the characters alone,
/// and the empty string stays empty.
#[verifier::external_body]
pub(crate) fn lowercase(s: &str) -> (r: String)
    ensures
        r@ == lower_of(s@),
        s@.len() == 0 ==> r@.len() == 0,
{
    s.to_lowercase()
}

/// Relies on `str::trim`: the result depends on the characters alone.
#[verifier::external_body]
pub(crate) fn trim(s: &str) -> (r: &str)
    ensures
        r@ == trim_of(s@),
{
    s.trim()
}

/// Relies on `Path::extension`: the text after the last dot of the final
/// component, or empty where there is none. The path is text, so the
/// extension converts to text without loss.
#[verifier::external_body]
pub(crate) fn path_extension(path: &str) -> (r: String)
    ensures
        r@ == extension_of(path@),
{
    match std::path::Path::new(path).extension() {
        Some(e) => e.to_string_lossy().into_owned(),
        None => String::new(),
    }
}

/// Relies on `PathBuf::push`: `dir` followed by the component `file`. Both
/// arguments are text, so the joined path is text as well.
#[verifier::external_body]
pub(crate) fn join_path(dir: &str, file: &str) -> (r: String)
    ensures
        r@ == joined_of(dir@, file@),
{
    let mut p = std::path::PathBuf::from(dir);
    p.push(file);
    p.to_string_lossy().into_owned()
}

/// A character that separates path components on some platform.
pub open spec fn is_separator(c: char) -> bool {
    c == '/' || c == '\\'
}

/// `s` holds a path separator.
pub open spec fn has_separator(s: Seq<char>) -> bool {
    exists|i: int| 0 <= i < s.len() && is_separator(s[i])
}

/// `s` is empty or made of white space only.
pub open spec fn is_blank(s: Seq<char>) -> bool {
    trim_of(s).len() == 0
}

/// The file name under which a template's bytes are stored: its name, then
/// a dot and the extension where there is one.
pub open spec fn storage_name_of(name: Seq<char>, extension: Seq<char>) -> Seq<char> {
    if extension.len() == 0 {
        name
    } else {
        name + seq!['.'] + extension
    }
}

/// The file stem of a plain file name: everything before its last dot, unless
/// that dot is the first character or there is none.
pub open spec fn stem_of(file_name: Seq<char>) -> Seq<char> {
    if exists|i: int| 0 < i < file_name.len() && file_name[i] == '.' {
        let i = choose|i: int|
            0 < i < file_name.len() && file_name[i] == '.' && forall|j: int|
                i < j < file_name.len() ==> file_name[j] != '.';
        file_name.take(i)
    } else {
        file_name
    }
}

/// `e` rejects the template name `name`.
pub open spec fn is_invalid_name(e: AppError, name: Seq<char>) -> bool {
    match e {
        AppError::TemplateNameInvalid(n, _) => n@ == name,
        _ => false,
    }
}

/// Whether `name` holds a path separator.
pub fn contains_separator(name: &str) -> (r: bool)
    ensures
        r == has_separator(name@),
{
    let n = name.unicode_len();
    let mut i: usize = 0;
    while i < n
        invariant
            n == name@.len(),
            i <= n,
            forall|j: int| 0 <= j < i ==> !is_separator(#[trigger] name@[j]),
        decreases n - i,
    {
        let c = name.get_char(i);
        if c == '/' || c == '\\' {
            return true;
        }
        i = i + 1;
    }
    false
}

/// Checks a template name: it may hold no path separator and may not be blank.
/// The separator rule is checked first.
pub fn validate_template_name(name: &str) -> (r: Result<(), AppError>)
    ensures
        match r {
            Ok(_) => !has_separator(name@) && !is_blank(name@),
            Err(e) => (has_separator(name@) || is_blank(name@)) && is_invalid_name(e, name@),
        },
{
    if contains_separator(name) {
        return Err(
            AppError::TemplateNameInvalid(
                name.to_owned(),
                "Name cannot contain path separators".to_owned(),
            ),
        );
    }
    let t = trim(name);
    if t.unicode_len() == 0 {
        return Err(
            AppError::TemplateNameInvalid(name.to_owned(), "Name cannot be empty".to_owned()),
        );
    }
    Ok(())
}

/// The lower-cased extension of a source path, as it is recorded for a template.
pub fn source_extension(source_path: &str) -> (r: String)
    ensures
        r@ == lower_of(extension_of(source_path@)),
{
    let ext = path_extension(source_path);
    lowercase(ext.as_str())
}

/// The stored file name for `name` with the (already lower-cased) `extension`.
pub fn storage_filename(name: &str, extension: &str) -> (r: String)
    ensures
        r@ == storage_name_of(name@, extension@),
{
    let mut r = name.to_owned();
    if extension.unicode_len() > 0 {
        r.append(".");
        r.append(extension);
        proof {
            reveal_strlit(".");
        }
    }
    r
}

/// The file stem of a plain file name (one without separators).
pub fn file_stem(file_name: &str) -> (r: String)
    ensures
        r@ == stem_of(file_name@),
{
    let n = file_name.unicode_len();
    let mut i: usize = n;
    while i > 1
        invariant
            n == file_name@.len(),
            i <= n,
            forall|j: int| i <= j < n ==> file_name@[j] != '.',
        decreases i,
    {
        if file_name.get_char(i - 1) == '.' {
            let k: usize = i - 1;
            assert(0 < k < n && file_name@[k as int] == '.' && forall|j: int|
                k < j < n ==> file_name@[j] != '.');
            proof {
                let c = choose|c: int|
                    0 < c < n && file_name@[c] == '.' && forall|j: int|
                        c < j < n ==> file_name@[j] != '.';
                assert(c == k as int) by {
                    if c < k {
                        assert(file_name@[k as int] != '.');
                    } else if c > k {
                        assert(file_name@[c] != '.');
                    }
                }
            }
            return file_name.substring_char(0, k).to_owned();
        }
        i = i - 1;
    }
    assert(!exists|j: int| 0 < j < n && file_name@[j] == '.');
    file_name.to_owned()
}

} // verus!
