use tempo::cli::AddArgs;
use tempo::commands::{
    answer_confirms, check_add_target, is_blank_document, needs_trailing_newline, plan_add,
    plan_remove, AddPlan, RemovalStep,
};
use tempo::error::AppError;
use tempo::locator::{check_template_file, resolve_template_path};
use tempo::manifest::{lex_le_exec, Manifest, TemplateEntry};

fn entry(file: &str, ext: &str, at: i64) -> TemplateEntry {
    TemplateEntry::new_at(file.to_string(), ext.to_string(), at)
}

fn add_args(name: &str, src: &str) -> AddArgs {
    AddArgs { name: name.to_string(), source_file_path: src.to_string() }
}

#[test]
fn new_entry_has_no_metadata() {
    let e = entry("a.rs", "rs", 7);
    assert_eq!(e.filename_in_storage, "a.rs");
    assert_eq!(e.source_extension, "rs");
    assert_eq!(e.created_at, 7);
    assert_eq!(e.updated_at, 7);
    assert!(e.description.is_none() && e.original_source_path.is_none() && e.language.is_none());
    assert!(e.tags.is_empty());
    let now = TemplateEntry::new("b".to_string(), String::new());
    assert_eq!(now.created_at, now.updated_at);
}

#[test]
fn add_then_lookup_and_resolve() {
    let mut m = Manifest::new();
    assert!(m.is_empty());
    m.add_template_at("hello".to_string(), entry("hello.rs", "rs", 100), 100);
    assert!(!m.is_empty());
    let e = m.get_template("hello").unwrap();
    assert_eq!(e.filename_in_storage, "hello.rs");
    assert_eq!(resolve_template_path(&m, "/store", "hello").unwrap(), "/store/hello.rs");
    assert_eq!(
        resolve_template_path(&m, "/store", "other"),
        Err(AppError::TemplateNotFound("other".to_string()))
    );
}

#[test]
fn replacing_keeps_creation_time() {
    let mut m = Manifest::new();
    m.add_template_at("t".to_string(), entry("t.txt", "txt", 100), 100);
    m.add_template_at("t".to_string(), entry("t.md", "md", 500), 500);
    let e = m.get_template("t").unwrap();
    assert_eq!(e.filename_in_storage, "t.md");
    assert_eq!(e.created_at, 100);
    assert_eq!(e.updated_at, 500);
    assert_eq!(m.sorted_names(), vec!["t".to_string()]);
}

#[test]
fn remove_then_not_found() {
    let mut m = Manifest::new();
    m.add_template_at("a".to_string(), entry("a.rs", "rs", 1), 1);
    m.add_template_at("b".to_string(), entry("b", "", 2), 2);
    let removed = m.remove_template("a").unwrap();
    assert_eq!(removed.filename_in_storage, "a.rs");
    assert!(m.get_template("a").is_none());
    assert!(m.remove_template("a").is_none());
    assert_eq!(
        resolve_template_path(&m, "/s", "a"),
        Err(AppError::TemplateNotFound("a".to_string()))
    );
    assert!(m.get_template("b").is_some());
}

#[test]
fn touch_bumps_updated_at_only() {
    let mut m = Manifest::new();
    m.add_template_at("a".to_string(), entry("a.rs", "rs", 1), 1);
    assert!(m.touch_template("a", 9));
    let e = m.get_template("a").unwrap();
    assert_eq!((e.created_at, e.updated_at), (1, 9));
    assert_eq!(e.filename_in_storage, "a.rs");
    assert!(!m.touch_template("zzz", 9));
}

#[test]
fn names_are_sorted_case_insensitively() {
    let mut m = Manifest::new();
    for n in ["gamma_tpl", "beta", "Alpha", "delta"] {
        m.add_template_at(n.to_string(), entry(n, "", 1), 1);
    }
    assert_eq!(m.sorted_names(), vec!["Alpha", "beta", "delta", "gamma_tpl"]);
    assert!(Manifest::new().sorted_names().is_empty());
}

#[test]
fn lexicographic_comparison() {
    assert!(lex_le_exec("abc", "abd"));
    assert!(lex_le_exec("ab", "abc"));
    assert!(lex_le_exec("abc", "abc"));
    assert!(!lex_le_exec("b", "abc"));
    assert!(lex_le_exec("", ""));
}

#[test]
fn entries_round_trip() {
    let mut m = Manifest::new();
    m.add_template_at("x".to_string(), entry("x.rs", "rs", 3), 3);
    m.add_template_at("y".to_string(), entry("y", "", 4), 4);
    let entries = m.into_entries();
    assert_eq!(entries.len(), 2);
    let m2 = Manifest::from_entries(entries);
    assert_eq!(m2.sorted_names(), vec!["x", "y"]);
    assert_eq!(m2.get_template("x").unwrap().created_at, 3);
    let again = Manifest::from_entries(m2.into_entries());
    assert_eq!(again.get_template("y").unwrap().filename_in_storage, "y");
    // a later pair with the same name wins
    let dup = vec![
        ("d".to_string(), entry("d.a", "a", 1)),
        ("d".to_string(), entry("d.b", "b", 2)),
    ];
    let m3 = Manifest::from_entries(dup);
    assert_eq!(m3.get_template("d").unwrap().filename_in_storage, "d.b");
    assert_eq!(m3.into_entries().len(), 1);
}

#[test]
fn add_plan_checks_in_order() {
    let m = Manifest::new();
    assert_eq!(
        plan_add(&m, &add_args("a/b", "src.rs"), false, false, false),
        Err(AppError::SourceFileDoesNotExist("src.rs".to_string()))
    );
    assert_eq!(
        plan_add(&m, &add_args("a/b", "dir"), true, false, false),
        Err(AppError::SourcePathIsNotAFile("dir".to_string()))
    );
    assert!(matches!(
        plan_add(&m, &add_args("a/b", "src.rs"), true, true, false),
        Err(AppError::TemplateNameInvalid(_, _))
    ));
    assert!(matches!(
        plan_add(&m, &add_args("   ", "src.rs"), true, true, false),
        Err(AppError::TemplateNameInvalid(_, _))
    ));
    let plan = plan_add(&m, &add_args("main", "proj/Main.RS"), true, true, false).unwrap();
    assert_eq!(
        plan,
        AddPlan { filename: "main.rs".to_string(), extension: "rs".to_string(), stale_filename: None }
    );
}

#[test]
fn add_existing_needs_force() {
    let mut m = Manifest::new();
    m.add_template_at("t".to_string(), entry("t.txt", "txt", 1), 1);
    assert_eq!(
        plan_add(&m, &add_args("t", "new.md"), true, true, false),
        Err(AppError::TemplateAlreadyExists("t".to_string()))
    );
    let plan = plan_add(&m, &add_args("t", "new.md"), true, true, true).unwrap();
    assert_eq!(plan.filename, "t.md");
    assert_eq!(plan.stale_filename, Some("t.txt".to_string()));
    let same = plan_add(&m, &add_args("t", "other.TXT"), true, true, true).unwrap();
    assert_eq!(same.filename, "t.txt");
    assert_eq!(same.stale_filename, None);
    // the catalog itself is untouched by planning
    assert_eq!(m.get_template("t").unwrap().filename_in_storage, "t.txt");
}

#[test]
fn add_target_check() {
    assert_eq!(
        check_add_target("t", true, false),
        Err(AppError::TemplateAlreadyExists("t".to_string()))
    );
    assert!(check_add_target("t", true, true).is_ok());
    assert!(check_add_target("t", false, false).is_ok());
}

#[test]
fn removal_steps() {
    let mut m = Manifest::new();
    m.add_template_at("t".to_string(), entry("t.txt", "txt", 1), 1);
    assert_eq!(
        plan_remove(&m, "nope", true, false),
        Err(AppError::TemplateNotFound("nope".to_string()))
    );
    assert_eq!(plan_remove(&m, "t", true, true), Ok(RemovalStep::Proceed("t.txt".to_string())));
    assert_eq!(plan_remove(&m, "t", false, false), Ok(RemovalStep::Ask("t.txt".to_string())));
    assert!(matches!(
        plan_remove(&m, "t", false, true),
        Err(AppError::ConfirmationNeededInQuietMode { template_name, .. }) if template_name == "t"
    ));
}

#[test]
fn confirmation_answers() {
    assert!(answer_confirms("y"));
    assert!(answer_confirms("  Y \n"));
    assert!(!answer_confirms("yes"));
    assert!(!answer_confirms("n"));
    assert!(!answer_confirms(""));
}

#[test]
fn missing_stored_file_is_reported() {
    assert!(check_template_file("t", "/s/t.rs", true).is_ok());
    assert_eq!(
        check_template_file("t", "/s/t.rs", false),
        Err(AppError::TemplateFileMissing { name: "t".to_string(), path: "/s/t.rs".to_string() })
    );
}

#[test]
fn show_newline_rule() {
    assert!(needs_trailing_newline(true, "abc"));
    assert!(needs_trailing_newline(true, ""));
    assert!(!needs_trailing_newline(true, "abc\n"));
    assert!(!needs_trailing_newline(false, "abc"));
}

#[test]
fn blank_documents() {
    assert!(is_blank_document(""));
    assert!(is_blank_document("  \n\t "));
    assert!(!is_blank_document("[x]\n"));
}
