use std::path::PathBuf;
use vstd::prelude::*;

use crate::render::OutputFormat;

verus! {

/// `std::path::PathBuf`, held in `Cli` as given and never read here.
#[verifier::external_type_specification]
#[verifier::external_body]
pub struct ExPathBuf(PathBuf);

/// What a run is asked to do: which profile, which domain, which format.
pub struct Cli {
    /// A profile other than the default one.
    pub profile: Option<String>,
    /// A directory of profiles other than the default one.
    pub profile_dir: Option<PathBuf>,
    /// Keep only cookies of this domain (`<DOMAIN>` and `.<DOMAIN>`).
    pub domain: Option<String>,
    /// How the cookies are written.
    pub output_format: OutputFormat,
}

} // verus!
