use vstd::prelude::*;
use crate::naming::{join_path, joined_of};

verus! {

/// Name of the application, used for its configuration directory.
pub const APP_NAME: &'static str = "tempo";

/// File name of the catalog document inside the configuration directory.
pub const MANIFEST_FILENAME: &'static str = "manifest.toml";

/// Name of the directory, inside the configuration directory, that holds the stored templates.
pub const TEMPLATES_DIR_NAME: &'static str = "templates";

/// Path of the catalog document inside the configuration directory `config_dir`.
pub fn get_manifest_path(config_dir: &str) -> (r: String)
    ensures
        r@ == joined_of(config_dir@, MANIFEST_FILENAME@),
{
    join_path(config_dir, MANIFEST_FILENAME)
}

/// Path of the templates directory inside the configuration directory `config_dir`.
pub fn templates_dir_path(config_dir: &str) -> (r: String)
    ensures
        r@ == joined_of(config_dir@, TEMPLATES_DIR_NAME@),
{
    join_path(config_dir, TEMPLATES_DIR_NAME)
}

} // verus!
