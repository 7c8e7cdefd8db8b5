use crate::error::{advisories_of, Advisory, AdvisoryView, BundleError};
use crate::metadata::{find_entry, layered, BundleSettings, BundleSettingsView, empty_settings};
use crate::package_type::{short_name_of, BuildArtifact, BuildArtifactView, PackageType};
use crate::paths::{join_of, join_path, parent_dir, parent_of};
use crate::text::str_eq;
use vstd::prelude::*;
use vstd::string::*;

verus! {

/// One build target that a package declares: its name and its kinds
/// (`bin`, `lib`, `example`, ...).
#[derive(Debug)]
pub struct PackageTarget {
    pub name: String,
    pub kind: Vec<String>,
}

/// What the bundler reads of a package of the workspace.
#[derive(Debug)]
pub struct PackageInfo {
    pub name: String,
    pub version: String,
    pub authors: Vec<String>,
    pub description: Option<String>,
    pub homepage: Option<String>,
    pub license: Option<String>,
    pub license_file: Option<String>,
    pub targets: Vec<PackageTarget>,
    /// The bundle section of the package's manifest metadata, if it has one.
    pub bundle: Option<BundleSettings>,
}

/// The configuration of a package for a format: the package's bundle
/// section with the format's override laid over it, or the empty layer when
/// the package has no bundle section.
pub open spec fn settings_for_format(bundle: Option<BundleSettings>, format: PackageType) -> BundleSettingsView {
    match bundle {
        None => empty_settings(),
        Some(s) => if s@.targets.contains_key(short_name_of(format)) {
            layered(s@.targets[short_name_of(format)], s@)
        } else {
            s@
        },
    }
}

/// The advisory that resolving a package's configuration for a format gives.
pub open spec fn format_advisories(
    package_name: Seq<char>,
    bundle: Option<BundleSettings>,
    format: PackageType,
) -> Seq<AdvisoryView> {
    match bundle {
        None => seq![AdvisoryView::NoBundleSection(package_name)],
        Some(s) => if s@.targets.contains_key(short_name_of(format)) {
            Seq::empty()
        } else {
            seq![AdvisoryView::NoFormatSection(short_name_of(format))]
        },
    }
}

/// A configuration with the override of the bundled binary or example laid
/// over it; the main binary has no override.
pub open spec fn settings_for_artifact(s: BundleSettingsView, a: BuildArtifactView) -> BundleSettingsView {
    match a {
        BuildArtifactView::Main => s,
        BuildArtifactView::Bin(n) => if s.bin.contains_key(n) {
            layered(s.bin[n], s)
        } else {
            s
        },
        BuildArtifactView::Example(n) => if s.example.contains_key(n) {
            layered(s.example[n], s)
        } else {
            s
        },
    }
}

/// The advisory that laying an artifact's override gives.
pub open spec fn artifact_advisories(s: BundleSettingsView, a: BuildArtifactView) -> Seq<AdvisoryView> {
    match a {
        BuildArtifactView::Main => Seq::empty(),
        BuildArtifactView::Bin(n) => if s.bin.contains_key(n) {
            Seq::empty()
        } else {
            seq![AdvisoryView::NoBinSection(n)]
        },
        BuildArtifactView::Example(n) => if s.example.contains_key(n) {
            Seq::empty()
        } else {
            seq![AdvisoryView::NoExampleSection(n)]
        },
    }
}

/// Resolves the configuration of `package` for `format`, and records an
/// advisory for each layer that was looked for and not found.
pub fn bundle_settings_of_package(
    package: &PackageInfo,
    format: PackageType,
    advisories: &mut Vec<Advisory>,
) -> (r: BundleSettings)
    ensures
        r@ == settings_for_format(package.bundle, format),
        advisories_of(final(advisories)@) == advisories_of(old(advisories)@) + format_advisories(
            package.name@,
            package.bundle,
            format,
        ),
{
    let ghost before = advisories@;
    match &package.bundle {
        Some(bundle) => {
            let settings = bundle.duplicate();
            let key = format.short_name();
            match find_entry(&settings.targets, key) {
                Some(i) => {
                    let over = settings.targets[i].1.copy_fields();
                    let r = over.merge(settings);
                    proof {
                        assert(advisories_of(advisories@) =~= advisories_of(before) + Seq::empty());
                    }
                    r
                },
                None => {
                    advisories.push(Advisory::NoFormatSection(String::from_str(key)));
                    proof {
                        assert(advisories_of(advisories@) =~= advisories_of(before) + seq![
                            AdvisoryView::NoFormatSection(short_name_of(format)),
                        ]);
                    }
                    settings
                },
            }
        },
        None => {
            advisories.push(Advisory::NoBundleSection(package.name.clone()));
            proof {
                assert(advisories_of(advisories@) =~= advisories_of(before) + seq![
                    AdvisoryView::NoBundleSection(package.name@),
                ]);
            }
            BundleSettings::default()
        },
    }
}

/// Lays the override of the bundled binary or example over `opt_map`, and
/// records an advisory where a named artifact has none.
pub fn bundle_settings_with_artifact(
    opt_map: BundleSettings,
    artifact: &BuildArtifact,
    advisories: &mut Vec<Advisory>,
) -> (r: BundleSettings)
    ensures
        r@ == settings_for_artifact(opt_map@, artifact@),
        advisories_of(final(advisories)@) == advisories_of(old(advisories)@) + artifact_advisories(
            opt_map@,
            artifact@,
        ),
{
    let ghost before = advisories@;
    match artifact {
        BuildArtifact::Main => {
            assert(advisories_of(advisories@) =~= advisories_of(before) + Seq::empty());
            opt_map
        },
        BuildArtifact::Bin(name) => {
            match find_entry(&opt_map.bin, name.as_str()) {
                Some(i) => {
                    let over = opt_map.bin[i].1.copy_fields();
                    assert(advisories_of(advisories@) =~= advisories_of(before) + Seq::empty());
                    over.merge(opt_map)
                },
                None => {
                    advisories.push(Advisory::NoBinSection(name.clone()));
                    assert(advisories_of(advisories@) =~= advisories_of(before) + seq![
                        AdvisoryView::NoBinSection(name@),
                    ]);
                    opt_map
                },
            }
        },
        BuildArtifact::Example(name) => {
            match find_entry(&opt_map.example, name.as_str()) {
                Some(i) => {
                    let over = opt_map.example[i].1.copy_fields();
                    assert(advisories_of(advisories@) =~= advisories_of(before) + Seq::empty());
                    over.merge(opt_map)
                },
                None => {
                    advisories.push(Advisory::NoExampleSection(name.clone()));
                    assert(advisories_of(advisories@) =~= advisories_of(before) + seq![
                        AdvisoryView::NoExampleSection(name@),
                    ]);
                    opt_map
                },
            }
        },
    }
}

/// The architecture and operating system of a compilation target.
#[derive(Debug)]
pub struct TargetPlatform {
    pub arch: String,
    pub os: String,
}

/// Whether the directory `d` has a parent: it is neither the empty path nor
/// the root.
pub open spec fn has_parent(d: Seq<char>) -> bool {
    d.len() > 0 && d != seq!['/']
}

/// One step of the search for the workspace directory.
#[derive(Debug, PartialEq, Eq)]
pub enum WorkspaceStep {
    /// Look for a manifest in this directory next.
    Probe(String),
    /// The search is over: this is the workspace directory.
    Found(String),
}

pub enum WorkspaceStepView {
    Probe(Seq<char>),
    Found(Seq<char>),
}

impl View for WorkspaceStep {
    type V = WorkspaceStepView;

    open spec fn view(&self) -> WorkspaceStepView {
        match self {
            WorkspaceStep::Probe(d) => WorkspaceStepView::Probe(d@),
            WorkspaceStep::Found(d) => WorkspaceStepView::Found(d@),
        }
    }
}

/// The step after looking for a manifest in `current`, in a search that
/// started at `start`: stop at a directory that has one, else go up one
/// directory, and past the top return `start`.
pub open spec fn workspace_step(start: Seq<char>, current: Seq<char>, found: bool) -> WorkspaceStepView {
    if found {
        WorkspaceStepView::Found(current)
    } else if has_parent(current) {
        WorkspaceStepView::Probe(parent_of(current))
    } else {
        WorkspaceStepView::Found(start)
    }
}

proof fn lemma_parent_shorter(d: Seq<char>)
    requires
        has_parent(d),
    ensures
        parent_of(d).len() < d.len(),
{
    crate::paths::lemma_last_sep_bounds(d);
    if crate::paths::last_sep(d) == 0 && d.len() == 1 {
        assert(d =~= seq!['/']);
    }
}

/// The directory that a whole search from `current` returns, where
/// `has_manifest` tells, for each directory, whether a manifest loads there.
pub open spec fn workspace_search(
    start: Seq<char>,
    current: Seq<char>,
    has_manifest: spec_fn(Seq<char>) -> bool,
) -> Seq<char>
    decreases current.len(),
{
    match workspace_step(start, current, has_manifest(current)) {
        WorkspaceStepView::Found(d) => d,
        WorkspaceStepView::Probe(next) => if next.len() < current.len() {
            workspace_search(start, next, has_manifest)
        } else {
            start
        },
    }
}

/// Decides the next step of the search for the workspace directory: the
/// nearest directory, from `start` up, in which a manifest loads. `current`
/// is the directory just looked at and `found` whether a manifest loaded
/// there. A `Probe` names a directory shorter than `current`, so the search
/// ends.
pub fn get_workspace_dir(start: &str, current: &str, found: bool) -> (r: WorkspaceStep)
    ensures
        r@ == workspace_step(start@, current@, found),
        r matches WorkspaceStep::Probe(d) ==> d@.len() < current@.len(),
{
    if found {
        return WorkspaceStep::Found(current.to_owned());
    }
    let n = current.unicode_len();
    if n > 0 && !(n == 1 && current.get_char(0) == '/') {
        proof {
            if current@ == seq!['/'] {
                assert(current@[0] == '/');
            }
            lemma_parent_shorter(current@);
        }
        WorkspaceStep::Probe(parent_dir(current))
    } else {
        proof {
            if n == 1 {
                assert(current@ =~= seq!['/']);
            }
        }
        WorkspaceStep::Found(start.to_owned())
    }
}

/// Where no directory from `start` up to the top holds a manifest, the
/// search returns `start` itself rather than failing.
pub proof fn lemma_no_manifest_gives_start(
    start: Seq<char>,
    current: Seq<char>,
    has_manifest: spec_fn(Seq<char>) -> bool,
)
    requires
        forall|d: Seq<char>| !#[trigger] has_manifest(d),
    ensures
        workspace_search(start, current, has_manifest) == start,
    decreases current.len(),
{
    if has_parent(current) {
        lemma_parent_shorter(current);
        lemma_no_manifest_gives_start(start, parent_of(current), has_manifest);
    }
}

/// The search stops at the first directory that holds a manifest, even where
/// a directory farther up holds one too.
pub proof fn lemma_search_stops_at_first(
    start: Seq<char>,
    current: Seq<char>,
    has_manifest: spec_fn(Seq<char>) -> bool,
)
    requires
        has_manifest(current),
    ensures
        workspace_search(start, current, has_manifest) == current,
{
}

/// The profile a bundle is built with: `release` when asked for, else the
/// profile named, else `dev`; the name `debug` is refused.
pub open spec fn profile_chosen(release: bool, profile: Option<Seq<char>>) -> Result<Seq<char>, ()> {
    if release {
        Ok("release"@)
    } else {
        match profile {
            Some(p) => if p == "debug"@ {
                Err(())
            } else {
                Ok(p)
            },
            None => Ok("dev"@),
        }
    }
}

pub fn resolve_profile(release: bool, profile: &Option<String>) -> (r: Result<String, BundleError>)
    ensures
        r matches Ok(p) ==> profile_chosen(release, profile.deep_view()) == Ok::<Seq<char>, ()>(p@),
        r matches Err(e) ==> profile_chosen(release, profile.deep_view()) is Err && e
            == BundleError::ReservedProfile,
        profile_chosen(release, profile.deep_view()) is Ok ==> r is Ok,
{
    if release {
        Ok(String::from_str("release"))
    } else {
        match profile {
            Some(p) => if str_eq(p.as_str(), "debug") {
                Err(BundleError::ReservedProfile)
            } else {
                Ok(p.clone())
            },
            None => Ok(String::from_str("dev")),
        }
    }
}

/// The position of the first package named `name`.
pub open spec fn first_named(packages: Seq<PackageInfo>, name: Seq<char>, i: int) -> bool {
    &&& 0 <= i < packages.len()
    &&& packages[i].name@ == name
    &&& forall|j: int| 0 <= j < i ==> packages[j].name@ != name
}

/// Picks the package to bundle: the one asked for by name, or else the
/// workspace's root package (`root`, a position in `packages`).
pub fn select_package(
    packages: &Vec<PackageInfo>,
    requested: &Option<String>,
    root: Option<usize>,
) -> (r: Result<usize, BundleError>)
    ensures
        match requested {
            Some(n) => match r {
                Ok(i) => first_named(packages@, n@, i as int),
                Err(e) => (e matches BundleError::PackageNotFound(m) && m@ == n@) && forall|j: int|
                    0 <= j < packages@.len() ==> packages@[j].name@ != n@,
            },
            None => match r {
                Ok(i) => root == Some(i) && i < packages@.len(),
                Err(e) => e == BundleError::NoRootPackage && !(root matches Some(i) && i
                    < packages@.len()),
            },
        },
{
    match requested {
        Some(n) => {
            let mut i: usize = 0;
            while i < packages.len()
                invariant
                    *requested == Some(*n),
                    i <= packages@.len(),
                    forall|j: int| 0 <= j < i ==> packages@[j].name@ != n@,
                decreases packages.len() - i,
            {
                if str_eq(packages[i].name.as_str(), n.as_str()) {
                    return Ok(i);
                }
                i = i + 1;
            }
            Err(BundleError::PackageNotFound(n.clone()))
        },
        None => match root {
            Some(i) => if i < packages.len() {
                Ok(i)
            } else {
                Err(BundleError::NoRootPackage)
            },
            None => Err(BundleError::NoRootPackage),
        },
    }
}

/// The string member `key` of the JSON object written in `text`, where the
/// text parses as JSON and the member is a string.
pub uninterp spec fn json_string_member(text: Seq<char>, key: Seq<char>) -> Option<Seq<char>>;

/// Relies on `serde_json::from_str` (to a `serde_json::Value`), then
/// `Value::get` and `Value::as_str`: the result is the string member `key`
/// of the parsed object, and depends on the two texts alone.
#[verifier::external_body]
fn string_member(text: &str, key: &str) -> (r: Option<String>)
    ensures
        r.deep_view() == json_string_member(text@, key@),
{
    let json: serde_json::Value = serde_json::from_str(text).ok()?;
    json.get(key)?.as_str().map(|s| s.to_string())
}

/// The directory of the build output for an artifact: the target directory
/// (the one the build tool reported, else `target` in the workspace), then
/// the target triple where one is given, then the profile's directory
/// (`debug` for `dev`), then `examples` for an example.
pub open spec fn target_dir_of(
    reported: Option<Seq<char>>,
    workspace: Seq<char>,
    triple: Option<Seq<char>>,
    profile: Seq<char>,
    is_example: bool,
) -> Seq<char> {
    let base = match reported {
        Some(d) => d,
        None => join_of(workspace, "target"@),
    };
    let with_triple = match triple {
        Some(t) => join_of(base, t),
        None => base,
    };
    let with_profile = join_of(
        with_triple,
        if profile == "dev"@ {
            "debug"@
        } else {
            profile
        },
    );
    if is_example {
        join_of(with_profile, "examples"@)
    } else {
        with_profile
    }
}

/// The `target_directory` that the build tool's metadata (the text it
/// printed, if it ran) reports.
pub open spec fn reported_target_dir(metadata: Option<Seq<char>>) -> Option<Seq<char>> {
    match metadata {
        Some(m) => json_string_member(m, "target_directory"@),
        None => None,
    }
}

/// Everything about the target of one bundling run.
#[derive(Debug)]
pub struct BundleTargetInfo {
    /// The platform of the target triple, where it could be told.
    pub target_info: Option<TargetPlatform>,
    pub target_triple: Option<String>,
    pub package_type: PackageType,
    pub project_out_directory: String,
    pub profile: String,
    pub package: PackageInfo,
}

impl BundleTargetInfo {
    /// The target of a run: `profile` as `resolve_profile` chooses it and
    /// the package as `select_package` picks it among `packages`, in the
    /// workspace at `workspace_dir`.
    pub fn new(
        release: bool,
        profile: &Option<String>,
        target_triple: Option<String>,
        target_info: Option<TargetPlatform>,
        package_type: PackageType,
        workspace_dir: String,
        packages: Vec<PackageInfo>,
        requested: &Option<String>,
        root: Option<usize>,
    ) -> (r: Result<BundleTargetInfo, BundleError>)
        ensures
            profile_chosen(release, profile.deep_view()) is Err ==> r == Err::<
                BundleTargetInfo,
                BundleError,
            >(BundleError::ReservedProfile),
            r matches Ok(t) ==> profile_chosen(release, profile.deep_view()) == Ok::<Seq<char>, ()>(
                t.profile@,
            ) && t.project_out_directory@ == workspace_dir@ && t.package_type == package_type
                && t.target_triple == target_triple && t.target_info == target_info && exists|
                i: int,
            |
                0 <= i < packages@.len() && t.package == packages@[i] && (match requested {
                    Some(n) => first_named(packages@, n@, i),
                    None => root == Some(i as usize),
                }),
            profile_chosen(release, profile.deep_view()) is Ok ==> (r is Ok <==> match requested {
                Some(n) => exists|j: int| 0 <= j < packages@.len() && packages@[j].name@ == n@,
                None => root matches Some(i) && i < packages@.len(),
            }),
    {
        let profile = match resolve_profile(release, profile) {
            Ok(p) => p,
            Err(e) => return Err(e),
        };
        let index = match select_package(&packages, requested, root) {
            Ok(i) => i,
            Err(e) => return Err(e),
        };
        let mut packages = packages;
        let package = packages.remove(index);
        Ok(BundleTargetInfo {
            target_info,
            target_triple,
            package_type,
            project_out_directory: workspace_dir,
            profile,
            package,
        })
    }

    pub fn get_project_dir(&self) -> (r: &str)
        ensures
            r@ == self.project_out_directory@,
    {
        self.project_out_directory.as_str()
    }

    /// The directory where the compiled artifact is expected; `metadata` is
    /// what the build tool's metadata query printed, if it ran.
    pub fn get_target_dir(&self, build_artifact: &BuildArtifact, metadata: &Option<String>) -> (r:
        String)
        ensures
            r@ == target_dir_of(
                reported_target_dir(metadata.deep_view()),
                self.project_out_directory@,
                self.target_triple.deep_view(),
                self.profile@,
                build_artifact is Example,
            ),
    {
        let reported = match metadata {
            Some(m) => string_member(m.as_str(), "target_directory"),
            None => None,
        };
        let base = match reported {
            Some(d) => d,
            None => join_path(self.project_out_directory.as_str(), "target"),
        };
        let with_triple = match &self.target_triple {
            Some(t) => join_path(base.as_str(), t.as_str()),
            None => base,
        };
        let profile_dir = if str_eq(self.profile.as_str(), "dev") {
            "debug"
        } else {
            self.profile.as_str()
        };
        let with_profile = join_path(with_triple.as_str(), profile_dir);
        match build_artifact {
            BuildArtifact::Example(_) => join_path(with_profile.as_str(), "examples"),
            _ => with_profile,
        }
    }

    /// The bundle configuration for `build_artifact`, and the name of the
    /// binary that is bundled: the first binary target of the package for
    /// the main binary, else the name of the binary or example.
    pub fn get_bundle_settings(&self, build_artifact: &BuildArtifact, advisories: &mut Vec<Advisory>) -> (r:
        Result<(BundleSettings, String), BundleError>)
        ensures
            ({
                let s = settings_for_format(self.package.bundle, self.package_type);
                match r {
                    Ok((settings, name)) => {
                        &&& settings@ == settings_for_artifact(s, build_artifact@)
                        &&& advisories_of(final(advisories)@) == advisories_of(old(advisories)@)
                            + format_advisories(self.package.name@, self.package.bundle, self.package_type)
                            + artifact_advisories(s, build_artifact@)
                        &&& match build_artifact@ {
                            BuildArtifactView::Main => first_bin_target(self.package.targets@, name@),
                            BuildArtifactView::Bin(n) => name@ == n,
                            BuildArtifactView::Example(n) => name@ == n,
                        }
                    },
                    Err(e) => {
                        &&& build_artifact is Main
                        &&& forall|j: int| 0 <= j < self.package.targets@.len() ==> !is_bin_target(
                            self.package.targets@[j],
                        )
                        &&& e matches BundleError::NoBinTarget(p) && p@ == self.package.name@
                    },
                }
            }),
    {
        let settings = bundle_settings_of_package(&self.package, self.package_type, advisories);
        let settings = bundle_settings_with_artifact(settings, build_artifact, advisories);
        proof {
            assert(advisories_of(final(advisories)@) =~= advisories_of(old(advisories)@) + format_advisories(
                self.package.name@,
                self.package.bundle,
                self.package_type,
            ) + artifact_advisories(settings_for_format(self.package.bundle, self.package_type), build_artifact@));
        }
        match build_artifact {
            BuildArtifact::Main => match find_bin_target(&self.package.targets) {
                Some(i) => Ok((settings, self.package.targets[i].name.clone())),
                None => Err(BundleError::NoBinTarget(self.package.name.clone())),
            },
            BuildArtifact::Bin(name) => Ok((settings, name.clone())),
            BuildArtifact::Example(name) => Ok((settings, name.clone())),
        }
    }
}

/// A package without a bundle section resolves, for any format and for its
/// main binary, to the layer that sets nothing (so every setting falls back
/// to its default), with exactly one advisory: the missing section.
pub proof fn lemma_no_section_gives_defaults(package_name: Seq<char>, format: PackageType)
    ensures
        settings_for_artifact(settings_for_format(None, format), BuildArtifactView::Main)
            == empty_settings(),
        format_advisories(package_name, None, format) + artifact_advisories(
            settings_for_format(None, format),
            BuildArtifactView::Main,
        ) == seq![AdvisoryView::NoBundleSection(package_name)],
{
    assert(seq![AdvisoryView::NoBundleSection(package_name)] + Seq::<AdvisoryView>::empty()
        =~= seq![AdvisoryView::NoBundleSection(package_name)]);
}

/// Whether a target is a binary: one of its kinds is `bin`.
pub open spec fn is_bin_target(t: PackageTarget) -> bool {
    exists|k: int| 0 <= k < t.kind@.len() && t.kind@[k]@ == "bin"@
}

/// `name` is the name of the first binary target of `targets`.
pub open spec fn first_bin_target(targets: Seq<PackageTarget>, name: Seq<char>) -> bool {
    exists|i: int|
        0 <= i < targets.len() && is_bin_target(targets[i]) && targets[i].name@ == name && forall|
            j: int,
        |
            0 <= j < i ==> !is_bin_target(targets[j])
}

fn is_bin(t: &PackageTarget) -> (r: bool)
    ensures
        r == is_bin_target(*t),
{
    let mut k: usize = 0;
    while k < t.kind.len()
        invariant
            k <= t.kind@.len(),
            forall|j: int| 0 <= j < k ==> t.kind@[j]@ != "bin"@,
        decreases t.kind.len() - k,
    {
        if str_eq(t.kind[k].as_str(), "bin") {
            return true;
        }
        k = k + 1;
    }
    false
}

/// The position of the first binary target.
fn find_bin_target(targets: &Vec<PackageTarget>) -> (r: Option<usize>)
    ensures
        r matches Some(i) ==> i < targets@.len() && is_bin_target(targets@[i as int]) && forall|
            j: int,
        |
            0 <= j < i ==> !is_bin_target(targets@[j]),
        r is None ==> forall|j: int| 0 <= j < targets@.len() ==> !is_bin_target(targets@[j]),
{
    let mut i: usize = 0;
    while i < targets.len()
        invariant
            i <= targets@.len(),
            forall|j: int| 0 <= j < i ==> !is_bin_target(targets@[j]),
        decreases targets.len() - i,
    {
        if is_bin(&targets[i]) {
            return Some(i);
        }
        i = i + 1;
    }
    None
}

} // verus!
