//! Names that are fixed.

use vstd::prelude::*;

verus! {

/// The address under which template repositories are looked up.
pub const GITHUB_URL: &'static str = "https://github.com";

/// The name of a manifest inside a template's directory.
pub const TEMPLATE_FILENAME: &'static str = "template.toml";

/// The name of the global configuration inside the home directory.
pub const GLOBAL_CONFIG_FILENAME: &'static str = ".pi.toml";

/// The name of the directory of global templates inside the home directory.
pub const GLOBAL_TEMPLATE_DIRECTORY: &'static str = ".pi_templates";

} // verus!
