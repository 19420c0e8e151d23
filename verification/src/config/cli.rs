use vstd::prelude::*;

use crate::config::app::{GeneralConfig, LogLevel, TomlConfig};

verus! {

/// The command-line arguments the engine's caller collects: a URL-or-file
/// source, an optional target path, and the flags that override the file
/// configuration.
#[derive(Debug)]
pub struct CliConfig {
    /// URL, or a file of URLs, one per line.
    pub source: String,
    /// Target filepath; an existing directory is treated as the target
    /// location.
    pub target: Option<String>,
    /// Silent mode.
    pub silent: bool,
    /// Resume a failed or cancelled download. Not supported by the engine;
    /// kept so the caller can refuse it explicitly.
    pub resume: bool,
    /// Use the configuration file at this path.
    pub config: Option<String>,
    /// Overwrite when the destination file already exists.
    pub force: bool,
}

/// Overwriting the set fields of `self` onto a configuration.
pub trait IntoOverwrite<T> {
    /// What the target becomes under the overwrite.
    spec fn overwrite_spec(&self, target: T) -> T;

    /// Overwrite the `target` fields with values from `self`, where they
    /// are set.
    fn into_overwrite(&self, target: &mut T)
        ensures
            *final(target) == self.overwrite_spec(*old(target)),
    ;
}

impl IntoOverwrite<TomlConfig> for CliConfig {
    open spec fn overwrite_spec(&self, target: TomlConfig) -> TomlConfig {
        if self.silent {
            TomlConfig {
                general: GeneralConfig { log_level: LogLevel::Silent, ..target.general },
                ..target
            }
        } else {
            target
        }
    }

    fn into_overwrite(&self, target: &mut TomlConfig) {
        if self.silent {
            target.general.log_level = LogLevel::Silent;
        }
    }
}

} // verus!
