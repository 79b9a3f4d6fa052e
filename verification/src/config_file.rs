//! Where an instance keeps a settings file: its root directory or its `config/` directory.
use vstd::prelude::*;

verus! {

/// The subdirectory of an instance that is searched after the instance root.
pub const CONFIG_DIRECTORY: &'static str = "config";

/// The place an instance settings file is read from.
#[derive(Debug, Clone, Copy, PartialEq, Eq, Structural)]
pub enum ConfigFileLocation {
    /// `<instance>/<file name>`
    InstanceRoot,
    /// `<instance>/config/<file name>`
    ConfigDirectory,
}

/// Picks the settings file to read: the one in the instance root if it is a file, else the
/// one in the `config/` directory if that is a file, else none.
pub fn choose_config_file(in_root_is_file: bool, in_config_dir_is_file: bool) -> (location:
    Option<ConfigFileLocation>)
    ensures
        in_root_is_file ==> location == Some(ConfigFileLocation::InstanceRoot),
        !in_root_is_file && in_config_dir_is_file ==> location == Some(
            ConfigFileLocation::ConfigDirectory,
        ),
        !in_root_is_file && !in_config_dir_is_file ==> location is None,
{
    if in_root_is_file {
        Some(ConfigFileLocation::InstanceRoot)
    } else if in_config_dir_is_file {
        Some(ConfigFileLocation::ConfigDirectory)
    } else {
        None
    }
}

} // verus!
