use vstd::prelude::*;
use vstd::string::*;

verus! {

/// Why resolving a bundle's configuration failed.
#[derive(Debug, PartialEq, Eq)]
pub enum BundleError {
    /// The profile `debug` was asked for by name.
    ReservedProfile,
    /// The package asked for is not in the workspace.
    PackageNotFound(String),
    /// No package was asked for and the workspace has no root package.
    NoRootPackage,
    /// The main binary is bundled but the package declares no binary target.
    NoBinTarget(String),
    /// A resource pattern matched a directory where directories are not walked.
    IsDirectory(String),
    /// A resource pattern is not a valid glob pattern.
    InvalidPattern(String),
    /// Reading a path that a glob pattern matched failed.
    GlobFailed(String),
    /// Walking a directory failed.
    WalkFailed(String),
    /// A format name that no format has.
    UnsupportedPackageType(String),
}

/// A resolution step that found nothing to apply and went on without it.
#[derive(Debug, PartialEq, Eq)]
pub enum Advisory {
    /// The package's manifest has no bundle section (the package's name).
    NoBundleSection(String),
    /// The bundle section has no override for the format (its short name).
    NoFormatSection(String),
    /// The bundle section has no override for the binary (its name).
    NoBinSection(String),
    /// The bundle section has no override for the example (its name).
    NoExampleSection(String),
}

/// The mathematical form of an `Advisory`.
pub enum AdvisoryView {
    NoBundleSection(Seq<char>),
    NoFormatSection(Seq<char>),
    NoBinSection(Seq<char>),
    NoExampleSection(Seq<char>),
}

impl View for Advisory {
    type V = AdvisoryView;

    open spec fn view(&self) -> AdvisoryView {
        match self {
            Advisory::NoBundleSection(s) => AdvisoryView::NoBundleSection(s@),
            Advisory::NoFormatSection(s) => AdvisoryView::NoFormatSection(s@),
            Advisory::NoBinSection(s) => AdvisoryView::NoBinSection(s@),
            Advisory::NoExampleSection(s) => AdvisoryView::NoExampleSection(s@),
        }
    }
}

/// The advisories of a list, in order.
pub open spec fn advisories_of(v: Seq<Advisory>) -> Seq<AdvisoryView> {
    v.map_values(|a: Advisory| a@)
}

pub(crate) fn concat3(a: &str, b: &str, c: &str) -> (r: String)
    ensures
        r@ == a@ + b@ + c@,
{
    let mut r = String::from_str(a);
    r.append(b);
    r.append(c);
    r
}

impl BundleError {
    /// A sentence that describes the error.
    pub fn message(&self) -> String {
        match self {
            BundleError::ReservedProfile => String::from_str("Profile name `debug` is reserved"),
            BundleError::PackageNotFound(p) => concat3(
                "Package '",
                p.as_str(),
                "' not found in workspace",
            ),
            BundleError::NoRootPackage => String::from_str("No root package found in workspace"),
            BundleError::NoBinTarget(p) => concat3(
                "No `bin` target is found in package '",
                p.as_str(),
                "'",
            ),
            BundleError::IsDirectory(p) => concat3("\"", p.as_str(), "\" is a directory"),
            BundleError::InvalidPattern(m) => concat3("Invalid glob pattern: ", m.as_str(), ""),
            BundleError::GlobFailed(m) => concat3("Glob failed: ", m.as_str(), ""),
            BundleError::WalkFailed(m) => concat3("Walking a directory failed: ", m.as_str(), ""),
            BundleError::UnsupportedPackageType(s) => concat3(
                "Unsupported package type: '",
                s.as_str(),
                "'. Supported types are: deb, ios, msi, wxsmsi, osx, rpm, appimage",
            ),
        }
    }
}

impl Advisory {
    /// A sentence that describes the advisory.
    pub fn message(&self) -> String {
        match self {
            Advisory::NoBundleSection(p) => concat3(
                "No [package.metadata.bundle] section in package \"",
                p.as_str(),
                "\"",
            ),
            Advisory::NoFormatSection(f) => concat3(
                "No [package.metadata.bundle.targets.",
                f.as_str(),
                "] section in Cargo.toml",
            ),
            Advisory::NoBinSection(n) => concat3(
                "No [package.metadata.bundle.bin.",
                n.as_str(),
                "] section in Cargo.toml",
            ),
            Advisory::NoExampleSection(n) => concat3(
                "No [package.metadata.bundle.example.",
                n.as_str(),
                "] section in Cargo.toml",
            ),
        }
    }
}

} // verus!
