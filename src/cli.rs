use crate::package_type::PackageType;
use vstd::prelude::*;

verus! {

/// The options of one bundling run.
#[derive(Debug)]
pub struct Cli {
    /// Bundle the named binary.
    pub bin: Option<String>,
    /// Bundle the named example.
    pub example: Option<String>,
    /// The format to produce.
    pub format: Option<PackageType>,
    /// Bundle a release build.
    pub release: bool,
    /// Bundle a build of the named profile.
    pub profile: Option<String>,
    /// Bundle for this target triple.
    pub target: Option<String>,
    /// The crate features to build with.
    pub features: Option<String>,
    /// Build with all crate features.
    pub all_features: bool,
    /// Build without the default crate features.
    pub no_default_features: bool,
    /// The package to bundle; the workspace's root package where not given.
    pub package: Option<String>,
    /// The directory the run starts from.
    pub dir: String,
}

} // verus!
