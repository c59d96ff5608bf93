//! The two indicator styles the pipeline uses: one for the download, one
//! for the three build phases. Only the template text is decided here;
//! rendering through a multiplexed surface is a collaborator's job and
//! has no bearing on correctness.
use vstd::prelude::*;

verus! {

/// Which indicator a template is for.
#[derive(Clone, Copy, PartialEq, Eq, Structural, Debug)]
pub enum ProgressStyle {
    Download,
    Build,
}

/// The template text of a style: byte counts and rate for a download,
/// plain step counts for the build phases.
pub open spec fn spec_style_template(s: ProgressStyle) -> Seq<char> {
    match s {
        ProgressStyle::Download => "{spinner:.green} [{elapsed}] {wide_bar:.cyan/blue} {bytes}/{total_bytes} {bytes_per_sec} {msg} ({eta})"@,
        ProgressStyle::Build => "{spinner:.green} [{elapsed}] {wide_bar:.cyan/blue} {pos}/{len} {msg}"@,
    }
}

impl ProgressStyle {
    /// The indicator template text for this style.
    pub fn value(&self) -> (r: String)
        ensures
            r@ == spec_style_template(*self),
    {
        match self {
            ProgressStyle::Download => String::from_str(
                "{spinner:.green} [{elapsed}] {wide_bar:.cyan/blue} {bytes}/{total_bytes} {bytes_per_sec} {msg} ({eta})",
            ),
            ProgressStyle::Build => String::from_str(
                "{spinner:.green} [{elapsed}] {wide_bar:.cyan/blue} {pos}/{len} {msg}",
            ),
        }
    }
}

} // verus!
