//! The package manifest as plain data: general metadata, the source
//! descriptor, and the build descriptor with its three phase templates.
//! Loading and deserializing the manifest file is a collaborator's job;
//! this module only defines the shape and the documented defaults.
use vstd::prelude::*;

verus! {

/// One package's declarative description.
pub struct Config {
    pub general: ConfigGeneral,
    pub source: ConfigSource,
    pub build: ConfigBuild,
}

/// General metadata; not consulted by the pipeline logic beyond display.
pub struct ConfigGeneral {
    pub name: String,
    pub description: String,
    pub homepage: String,
    pub licences: Vec<String>,
}

/// Where the source archive lives and what its digest must be.
pub struct ConfigSource {
    pub version: String,
    pub url: String,
    pub hash: String,
    pub release: i64,
}

/// The three phase command templates, in execution order.
pub struct ConfigBuild {
    pub setup: String,
    pub build: String,
    pub install: String,
    pub options: ConfigBuildOptions,
}

/// Build options with documented defaults.
pub struct ConfigBuildOptions {
    pub compiler: String,
    pub with_lto: bool,
}

/// Default compiler name used when the manifest omits one.
pub fn _default_clang() -> (r: String)
    ensures
        r@ == "clang"@,
{
    String::from_str("clang")
}

/// Default for options that are enabled when absent (`with_lto`).
pub fn _default_true() -> (r: bool)
    ensures
        r == true,
{
    true
}

/// Default for options that are disabled when absent.
pub fn _default_false() -> (r: bool)
    ensures
        r == false,
{
    false
}

} // verus!
