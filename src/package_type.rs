use crate::error::BundleError;
use crate::text::str_eq;
use vstd::prelude::*;

verus! {

/// The packaging formats a bundle can be produced in.
#[derive(Clone, Copy, Debug, PartialEq, Eq, Structural)]
pub enum PackageType {
    OsxBundle,
    IosBundle,
    WindowsMsi,
    WxsMsi,
    Deb,
    Rpm,
    AppImage,
}

/// The short name by which a format is written in configuration and on the
/// command line.
pub open spec fn short_name_of(t: PackageType) -> Seq<char> {
    match t {
        PackageType::Deb => "deb"@,
        PackageType::IosBundle => "ios"@,
        PackageType::WindowsMsi => "msi"@,
        PackageType::WxsMsi => "wxsmsi"@,
        PackageType::OsxBundle => "osx"@,
        PackageType::Rpm => "rpm"@,
        PackageType::AppImage => "appimage"@,
    }
}

/// The format whose short name is `name`, if any.
pub open spec fn package_type_named(name: Seq<char>) -> Option<PackageType> {
    if name == "deb"@ {
        Some(PackageType::Deb)
    } else if name == "ios"@ {
        Some(PackageType::IosBundle)
    } else if name == "msi"@ {
        Some(PackageType::WindowsMsi)
    } else if name == "wxsmsi"@ {
        Some(PackageType::WxsMsi)
    } else if name == "osx"@ {
        Some(PackageType::OsxBundle)
    } else if name == "rpm"@ {
        Some(PackageType::Rpm)
    } else if name == "appimage"@ {
        Some(PackageType::AppImage)
    } else {
        None
    }
}

/// The short names of all formats, in the order `PackageType::all` lists them.
pub open spec fn all_short_names() -> Seq<Seq<char>> {
    seq!["deb"@, "ios"@, "msi"@, "wxsmsi"@, "osx"@, "rpm"@, "appimage"@]
}

/// The formats produced by default for a target operating system.
pub open spec fn default_types_for_os(os: Seq<char>) -> Seq<PackageType> {
    if os == "macos"@ {
        seq![PackageType::OsxBundle]
    } else if os == "ios"@ {
        seq![PackageType::IosBundle]
    } else if os == "linux"@ {
        seq![PackageType::Deb, PackageType::AppImage]
    } else if os == "windows"@ {
        seq![PackageType::WindowsMsi]
    } else {
        Seq::empty()
    }
}

impl PackageType {
    pub fn from_short_name(name: &str) -> (r: Option<PackageType>)
        ensures
            r == package_type_named(name@),
    {
        if str_eq(name, "deb") {
            Some(PackageType::Deb)
        } else if str_eq(name, "ios") {
            Some(PackageType::IosBundle)
        } else if str_eq(name, "msi") {
            Some(PackageType::WindowsMsi)
        } else if str_eq(name, "wxsmsi") {
            Some(PackageType::WxsMsi)
        } else if str_eq(name, "osx") {
            Some(PackageType::OsxBundle)
        } else if str_eq(name, "rpm") {
            Some(PackageType::Rpm)
        } else if str_eq(name, "appimage") {
            Some(PackageType::AppImage)
        } else {
            None
        }
    }

    /// The format named `name`, or the error that names the formats there are.
    pub fn parse_short_name(name: &str) -> (r: Result<PackageType, BundleError>)
        ensures
            package_type_named(name@) matches Some(t) ==> r == Ok::<PackageType, BundleError>(t),
            package_type_named(name@) is None ==> (r matches Err(e) && e matches BundleError::UnsupportedPackageType(
                n,
            ) && n@ == name@),
    {
        match PackageType::from_short_name(name) {
            Some(t) => Ok(t),
            None => Err(BundleError::UnsupportedPackageType(name.to_owned())),
        }
    }

    pub fn short_name(&self) -> (r: &'static str)
        ensures
            r@ == short_name_of(*self),
    {
        match *self {
            PackageType::Deb => "deb",
            PackageType::IosBundle => "ios",
            PackageType::WindowsMsi => "msi",
            PackageType::WxsMsi => "wxsmsi",
            PackageType::OsxBundle => "osx",
            PackageType::Rpm => "rpm",
            PackageType::AppImage => "appimage",
        }
    }

    /// The short names of every supported format.
    pub fn all() -> (r: Vec<&'static str>)
        ensures
            r@.map_values(|s: &'static str| s@) == all_short_names(),
    {
        let r = vec!["deb", "ios", "msi", "wxsmsi", "osx", "rpm", "appimage"];
        assert(r@.map_values(|s: &'static str| s@) =~= all_short_names());
        r
    }

    /// The formats to produce when none was asked for, given the operating
    /// system of the target.
    pub fn defaults_for_os(os: &str) -> (r: Vec<PackageType>)
        ensures
            r@ == default_types_for_os(os@),
    {
        if str_eq(os, "macos") {
            vec![PackageType::OsxBundle]
        } else if str_eq(os, "ios") {
            vec![PackageType::IosBundle]
        } else if str_eq(os, "linux") {
            vec![PackageType::Deb, PackageType::AppImage]
        } else if str_eq(os, "windows") {
            vec![PackageType::WindowsMsi]
        } else {
            Vec::new()
        }
    }

    /// Whether the bundled binary of this format carries the `.exe` suffix.
    pub fn uses_exe_suffix(&self) -> (r: bool)
        ensures
            r == (*self == PackageType::WindowsMsi || *self == PackageType::WxsMsi),
    {
        match *self {
            PackageType::WindowsMsi | PackageType::WxsMsi => true,
            _ => false,
        }
    }
}

impl std::str::FromStr for PackageType {
    type Err = BundleError;

    fn from_str(s: &str) -> Result<PackageType, BundleError> {
        PackageType::parse_short_name(s)
    }
}

/// Reading a format's short name back gives the format.
pub proof fn lemma_short_name_round_trip(t: PackageType)
    ensures
        package_type_named(short_name_of(t)) == Some(t),
{
    reveal_strlit("deb");
    reveal_strlit("ios");
    reveal_strlit("msi");
    reveal_strlit("wxsmsi");
    reveal_strlit("osx");
    reveal_strlit("rpm");
    reveal_strlit("appimage");
    assert("deb"@[0] == 'd');
    assert("ios"@[0] == 'i');
    assert("msi"@[0] == 'm');
    assert("wxsmsi"@[0] == 'w');
    assert("osx"@[0] == 'o');
    assert("rpm"@[0] == 'r');
    assert("appimage"@[0] == 'a');
}

/// What is being bundled: the package's main binary, a named binary or a
/// named example.
#[derive(Clone, Debug)]
pub enum BuildArtifact {
    Main,
    Bin(String),
    Example(String),
}

/// The artifact chosen by the two selection options; a binary takes
/// precedence over an example.
pub open spec fn artifact_selected(
    bin: Option<Seq<char>>,
    example: Option<Seq<char>>,
) -> BuildArtifactView {
    match bin {
        Some(b) => BuildArtifactView::Bin(b),
        None => match example {
            Some(e) => BuildArtifactView::Example(e),
            None => BuildArtifactView::Main,
        },
    }
}

/// The mathematical form of a `BuildArtifact`.
pub enum BuildArtifactView {
    Main,
    Bin(Seq<char>),
    Example(Seq<char>),
}

impl View for BuildArtifact {
    type V = BuildArtifactView;

    open spec fn view(&self) -> BuildArtifactView {
        match self {
            BuildArtifact::Main => BuildArtifactView::Main,
            BuildArtifact::Bin(n) => BuildArtifactView::Bin(n@),
            BuildArtifact::Example(n) => BuildArtifactView::Example(n@),
        }
    }
}

impl BuildArtifact {
    /// Chooses the artifact from the `bin` and `example` selections.
    pub fn from_selection(bin: &Option<String>, example: &Option<String>) -> (r: BuildArtifact)
        ensures
            r@ == artifact_selected(bin.deep_view(), example.deep_view()),
    {
        match bin {
            Some(b) => BuildArtifact::Bin(b.clone()),
            None => match example {
                Some(e) => BuildArtifact::Example(e.clone()),
                None => BuildArtifact::Main,
            },
        }
    }
}

} // verus!
