use tempo::config::{get_manifest_path, templates_dir_path, APP_NAME, MANIFEST_FILENAME};
use tempo::output::OutputConfig;

#[test]
fn test_app_name_constant() {
    assert_eq!(APP_NAME, "tempo");
}

#[test]
fn manifest_path_is_inside_config_dir() {
    assert_eq!(MANIFEST_FILENAME, "manifest.toml");
    assert_eq!(get_manifest_path("/home/u/.config/tempo"), "/home/u/.config/tempo/manifest.toml");
    assert_eq!(get_manifest_path("/home/u/.config/tempo/"), "/home/u/.config/tempo/manifest.toml");
}

#[test]
fn templates_dir_is_inside_config_dir() {
    assert_eq!(templates_dir_path("/cfg/tempo"), "/cfg/tempo/templates");
}

#[test]
fn quiet_overrides_verbose() {
    let o = OutputConfig::new(true, true);
    assert!(o.quiet);
    assert!(!o.verbose);
    assert!(!o.shows_verbose());
    assert!(!o.shows_info());
    let o = OutputConfig::new(true, false);
    assert!(o.verbose);
    assert!(o.shows_verbose());
    assert!(o.shows_info());
    let o = OutputConfig::new(false, false);
    assert!(!o.shows_verbose());
    assert!(o.shows_info());
}
