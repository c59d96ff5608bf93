//! Verified core of a single-package builder: archive-format dispatch from
//! filenames, template substitution for build commands, streaming integrity
//! verification, progress accounting, and fail-fast phase sequencing.
#![allow(unused_imports)]

use vstd::prelude::*;

pub mod bars;
pub mod command;
pub mod downloader;
pub mod errors;
pub mod format;
pub mod hash;
pub mod somebuild_config;
pub mod strutil;
