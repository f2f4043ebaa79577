//! Selection of the configuration file format from the file extension.
//!
//! The file itself is read and deserialized outside this crate; the choice
//! of parser — and the rejection of unknown extensions — is made here.

use vstd::prelude::*;

use crate::strings::str_eq;

verus! {

/// The file formats the configuration may be written in.
#[derive(PartialEq, Eq, Structural, Clone, Copy, Debug)]
pub enum ConfigFormat {
    Yaml,
    Toml,
    Json,
}

/// Which parser a file extension selects; an unknown extension selects none
/// and is a fatal configuration error.
pub open spec fn format_for_extension(ext: Seq<char>) -> Option<ConfigFormat> {
    if ext == "yml"@ || ext == "yaml"@ {
        Option::Some(ConfigFormat::Yaml)
    } else if ext == "toml"@ {
        Option::Some(ConfigFormat::Toml)
    } else if ext == "json"@ {
        Option::Some(ConfigFormat::Json)
    } else {
        Option::None
    }
}

/// Exec counterpart of `format_for_extension`.
pub fn config_format_from_extension(ext: &str) -> (r: Option<ConfigFormat>)
    ensures
        r == format_for_extension(ext@),
{
    if str_eq(ext, "yml") || str_eq(ext, "yaml") {
        Some(ConfigFormat::Yaml)
    } else if str_eq(ext, "toml") {
        Some(ConfigFormat::Toml)
    } else if str_eq(ext, "json") {
        Some(ConfigFormat::Json)
    } else {
        None
    }
}

} // verus!
