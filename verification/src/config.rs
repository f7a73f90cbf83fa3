//! Plugin configuration.

use vstd::prelude::*;

verus! {

/// The configuration the host hands to the plugin.
///
/// Both fields are carried along; neither takes part in choosing a key.
#[derive(Debug, PartialEq, Eq)]
pub struct Config {
    /// Directory that holds the message files.
    pub messages_dir: String,
    /// Locale to fall back on.
    pub default_locale: String,
}

} // verus!
