use tempo::cli::ApplyArgs;
use tempo::error::AppError;
use tempo::strategy::{
    plan_write, resolve_strategy, resulting_content, DestinationKind, WriteAction, WriteStrategy,
};

fn apply(template: &str, kind: DestinationKind, strategy: WriteStrategy, existing: &str) -> Result<String, AppError> {
    let action = plan_write(template.to_string(), "dest.txt", kind, strategy)?;
    Ok(resulting_content(&action, existing))
}

#[test]
fn strategy_precedence() {
    assert_eq!(resolve_strategy(true, false, false, false), WriteStrategy::Overwrite);
    assert_eq!(resolve_strategy(false, true, false, false), WriteStrategy::Append);
    assert_eq!(resolve_strategy(false, false, true, false), WriteStrategy::Prepend);
    assert_eq!(resolve_strategy(false, false, false, true), WriteStrategy::Overwrite);
    assert_eq!(resolve_strategy(false, false, false, false), WriteStrategy::CreateOnly);
    // an explicit merge flag wins over force
    assert_eq!(resolve_strategy(false, true, false, true), WriteStrategy::Append);
    assert_eq!(resolve_strategy(false, false, true, true), WriteStrategy::Prepend);
}

#[test]
fn apply_args_select_strategy() {
    let args = ApplyArgs {
        template_name: "t".to_string(),
        destination_file_path: "d".to_string(),
        overwrite: false,
        append: false,
        prepend: true,
    };
    assert_eq!(args.strategy(true), WriteStrategy::Prepend);
}

#[test]
fn missing_destination_is_created_with_template() {
    for s in [WriteStrategy::Overwrite, WriteStrategy::Append, WriteStrategy::Prepend, WriteStrategy::CreateOnly] {
        let action = plan_write("hello\n".to_string(), "a/b/c.txt", DestinationKind::Missing, s).unwrap();
        assert_eq!(action, WriteAction::Create("hello\n".to_string()));
        assert_eq!(resulting_content(&action, ""), "hello\n");
    }
}

#[test]
fn overwrite_replaces_content() {
    let r = apply("NEW", DestinationKind::File, WriteStrategy::Overwrite, "ORIGINAL").unwrap();
    assert_eq!(r, "NEW");
}

#[test]
fn force_alone_overwrites() {
    let s = resolve_strategy(false, false, false, true);
    let r = apply("NEW", DestinationKind::File, s, "ORIGINAL").unwrap();
    assert_eq!(r, "NEW");
}

#[test]
fn append_adds_after_existing() {
    let action = plan_write("B".to_string(), "dest", DestinationKind::File, WriteStrategy::Append).unwrap();
    assert_eq!(action, WriteAction::Append("B".to_string()));
    assert_eq!(resulting_content(&action, "A\n"), "A\nB");
}

#[test]
fn prepend_puts_template_and_newline_first() {
    assert_eq!(apply("B", DestinationKind::File, WriteStrategy::Prepend, "A").unwrap(), "B\nA");
    // a template that ends with its own newline keeps it before the separator
    assert_eq!(apply("B\n", DestinationKind::File, WriteStrategy::Prepend, "A").unwrap(), "B\n\nA");
}

#[test]
fn existing_file_without_strategy_is_refused() {
    let r = plan_write("B".to_string(), "dest.txt", DestinationKind::File, WriteStrategy::CreateOnly);
    assert_eq!(r, Err(AppError::DestinationFileExists("dest.txt".to_string())));
}

#[test]
fn directory_destination_is_refused() {
    let r = plan_write("B".to_string(), "some/dir", DestinationKind::Directory, WriteStrategy::Overwrite);
    match r {
        Err(AppError::DestinationIsDirectory { dest, .. }) => assert_eq!(dest, "some/dir"),
        other => panic!("unexpected {:?}", other),
    }
}
