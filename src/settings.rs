use crate::cli::Cli;
use crate::error::{advisories_of, Advisory, BundleError};
use crate::metadata::{copy_opt_string, copy_strings, BundleSettings};
use crate::package_type::{artifact_selected, BuildArtifact, BuildArtifactView, PackageType};
use crate::paths::{join_of, join_path, resource_destination, resource_destination_of};
use crate::resource_paths::{ExpandPhase, ResourcePaths, ResourcePathsView};
use crate::target_info::{
    artifact_advisories, first_bin_target, format_advisories, is_bin_target, reported_target_dir,
    settings_for_artifact, settings_for_format, target_dir_of, BundleTargetInfo,
};
use crate::text::{join_with, joined};
use vstd::prelude::*;
use vstd::string::*;

verus! {

/// The resolved configuration of one bundle: what is bundled, how it is
/// built, and the merged bundle settings.
#[derive(Debug)]
pub struct Settings {
    pub target: BundleTargetInfo,
    pub features: Option<String>,
    pub build_artifact: BuildArtifact,
    pub all_features: bool,
    pub no_default_features: bool,
    pub bundle_settings: BundleSettings,
    pub binary_name: String,
}

/// `r` holds the text of `s`.
pub open spec fn same_text(r: Option<&str>, s: Option<String>) -> bool {
    match (r, s) {
        (Some(a), Some(b)) => a@ == b@,
        (None, None) => true,
        _ => false,
    }
}

/// The text of `o`, or `d` where it has none.
pub open spec fn text_or(o: Option<Seq<char>>, d: Seq<char>) -> Seq<char> {
    match o {
        Some(s) => s,
        None => d,
    }
}

/// The placement of each file of `sources` for the resource mapping
/// `(pattern, dst)`.
pub open spec fn placements(
    output_base: Seq<char>,
    pattern: Seq<char>,
    dst: Seq<char>,
    sources: Seq<Seq<char>>,
) -> Seq<(Seq<char>, Seq<char>)> {
    sources.map_values(
        |src: Seq<char>| (src, resource_destination_of(output_base, pattern, dst, src)),
    )
}

/// The placements of the files of the first `k` resource mappings, in order;
/// `expanded[i]` holds the files that mapping `i`'s pattern yielded.
pub open spec fn placements_upto(
    output_base: Seq<char>,
    mappings: Seq<(Seq<char>, Seq<char>)>,
    expanded: Seq<Seq<Seq<char>>>,
    k: int,
) -> Seq<(Seq<char>, Seq<char>)>
    decreases k,
{
    if k <= 0 {
        Seq::empty()
    } else {
        placements_upto(output_base, mappings, expanded, k - 1) + placements(
            output_base,
            mappings[k - 1].0,
            mappings[k - 1].1,
            expanded[k - 1],
        )
    }
}

/// The arguments of the build command for a run.
pub open spec fn build_args_of(
    triple: Option<Seq<char>>,
    features: Option<Seq<char>>,
    artifact: BuildArtifactView,
    profile: Seq<char>,
    all_features: bool,
    no_default_features: bool,
) -> Seq<Seq<char>> {
    seq!["build"@] + match triple {
        Some(t) => seq!["--target="@ + t],
        None => Seq::empty(),
    } + match features {
        Some(f) => seq!["--features="@ + f],
        None => Seq::empty(),
    } + match artifact {
        BuildArtifactView::Main => Seq::empty(),
        BuildArtifactView::Bin(n) => seq!["--bin="@ + n],
        BuildArtifactView::Example(n) => seq!["--example="@ + n],
    } + if profile == "dev"@ {
        Seq::empty()
    } else if profile == "release"@ {
        seq!["--release"@]
    } else {
        seq!["--profile"@, profile]
    } + if all_features {
        seq!["--all-features"@]
    } else {
        Seq::empty()
    } + if no_default_features {
        seq!["--no-default-features"@]
    } else {
        Seq::empty()
    }
}

fn prefixed(p: &str, s: &str) -> (r: String)
    ensures
        r@ == p@ + s@,
{
    let mut r = String::from_str(p);
    r.append(s);
    r
}

fn text_of(o: &Option<String>) -> (r: Option<&str>)
    ensures
        same_text(r, *o),
{
    match o {
        Some(s) => Some(s.as_str()),
        None => None,
    }
}

impl Settings {
    /// Resolves the settings of the run that `cli` describes for the target
    /// `bundle_info`: the artifact that the options select, the bundle
    /// settings laid for the format and the artifact, and the binary's name
    /// (the package's name where the artifact's name is empty). Advisories
    /// for layers that were looked for and not found are added to
    /// `advisories`.
    pub fn new(bundle_info: BundleTargetInfo, cli: &Cli, advisories: &mut Vec<Advisory>) -> (r:
        Result<Settings, BundleError>)
        ensures
            ({
                let artifact = artifact_selected(cli.bin.deep_view(), cli.example.deep_view());
                let s = settings_for_format(bundle_info.package.bundle, bundle_info.package_type);
                match r {
                    Ok(settings) => {
                        &&& settings.target == bundle_info
                        &&& settings.build_artifact@ == artifact
                        &&& settings.features.deep_view() == cli.features.deep_view()
                        &&& settings.all_features == cli.all_features
                        &&& settings.no_default_features == cli.no_default_features
                        &&& settings.bundle_settings@ == settings_for_artifact(s, artifact)
                        &&& advisories_of(final(advisories)@) == advisories_of(old(advisories)@)
                            + format_advisories(
                            bundle_info.package.name@,
                            bundle_info.package.bundle,
                            bundle_info.package_type,
                        ) + artifact_advisories(s, artifact)
                        &&& exists|n: Seq<char>|
                            {
                                &&& match artifact {
                                    BuildArtifactView::Main => first_bin_target(
                                        bundle_info.package.targets@,
                                        n,
                                    ),
                                    BuildArtifactView::Bin(b) => n == b,
                                    BuildArtifactView::Example(e) => n == e,
                                }
                                &&& settings.binary_name@ == if n.len() == 0 {
                                    bundle_info.package.name@
                                } else {
                                    n
                                }
                            }
                    },
                    Err(e) => {
                        &&& artifact is Main
                        &&& forall|j: int|
                            0 <= j < bundle_info.package.targets@.len() ==> !is_bin_target(
                                bundle_info.package.targets@[j],
                            )
                        &&& e matches BundleError::NoBinTarget(p) && p@
                            == bundle_info.package.name@
                    },
                }
            }),
    {
        let build_artifact = BuildArtifact::from_selection(&cli.bin, &cli.example);
        let (bundle_settings, bundle_name) = match bundle_info.get_bundle_settings(
            &build_artifact,
            advisories,
        ) {
            Ok(x) => x,
            Err(e) => return Err(e),
        };
        let binary_name = if bundle_name.as_str().is_empty() {
            bundle_info.package.name.clone()
        } else {
            bundle_name
        };
        Ok(Settings {
            target: bundle_info,
            features: copy_opt_string(&cli.features),
            build_artifact,
            all_features: cli.all_features,
            no_default_features: cli.no_default_features,
            bundle_settings,
            binary_name,
        })
    }

    /// The directory where the compiled binary is expected; `metadata` is
    /// what the build tool's metadata query printed, if it ran.
    pub fn get_target_dir(&self, metadata: &Option<String>) -> (r: String)
        ensures
            r@ == target_dir_of(
                reported_target_dir(metadata.deep_view()),
                self.target.project_out_directory@,
                self.target.target_triple.deep_view(),
                self.target.profile@,
                self.build_artifact is Example,
            ),
    {
        self.target.get_target_dir(&self.build_artifact, metadata)
    }

    /// The architecture of the binary: the target's where it is known, else
    /// `host_arch`, the architecture of the machine the run is on.
    pub fn binary_arch(&self, host_arch: &str) -> (r: String)
        ensures
            r@ == match self.target.target_info {
                Some(t) => t.arch@,
                None => host_arch@,
            },
    {
        match &self.target.target_info {
            Some(t) => t.arch.clone(),
            None => host_arch.to_owned(),
        }
    }

    pub fn binary_name(&self) -> (r: String)
        ensures
            r@ == self.binary_name@,
    {
        self.binary_name.clone()
    }

    /// The path of the binary that is bundled: its name in the target
    /// directory, with `.exe` for the Windows installer formats.
    pub fn binary_path(&self, target: PackageType, metadata: &Option<String>) -> (r: String)
        ensures
            r@ == join_of(
                target_dir_of(
                    reported_target_dir(metadata.deep_view()),
                    self.target.project_out_directory@,
                    self.target.target_triple.deep_view(),
                    self.target.profile@,
                    self.build_artifact is Example,
                ),
                if target == PackageType::WindowsMsi || target == PackageType::WxsMsi {
                    self.binary_name@ + ".exe"@
                } else {
                    self.binary_name@
                },
            ),
    {
        let dir = self.get_target_dir(metadata);
        if target.uses_exe_suffix() {
            let mut name = self.binary_name();
            name.append(".exe");
            join_path(dir.as_str(), name.as_str())
        } else {
            join_path(dir.as_str(), self.binary_name.as_str())
        }
    }

    pub fn target_triple(&self) -> (r: Option<&str>)
        ensures
            same_text(r, self.target.target_triple),
    {
        text_of(&self.target.target_triple)
    }

    pub fn features(&self) -> (r: Option<&str>)
        ensures
            same_text(r, self.features),
    {
        text_of(&self.features)
    }

    pub fn build_artifact(&self) -> (r: &BuildArtifact)
        ensures
            r == &self.build_artifact,
    {
        &self.build_artifact
    }

    /// `release`, `dev` or another profile.
    pub fn build_profile(&self) -> (r: &str)
        ensures
            r@ == self.target.profile@,
    {
        self.target.profile.as_str()
    }

    pub fn all_features(&self) -> (r: bool)
        ensures
            r == self.all_features,
    {
        self.all_features
    }

    pub fn no_default_features(&self) -> (r: bool)
        ensures
            r == self.no_default_features,
    {
        self.no_default_features
    }

    /// The bundle's name: the configured one, else the binary's name.
    pub fn bundle_name(&self) -> (r: String)
        ensures
            r@ == if self.bundle_settings.name@.len() == 0 {
                self.binary_name@
            } else {
                self.bundle_settings.name@
            },
    {
        if self.bundle_settings.name.as_str().is_empty() {
            self.binary_name()
        } else {
            self.bundle_settings.name.clone()
        }
    }

    /// The bundle identifier: the configured one, else derived from the
    /// artifact and the package (`name.package` for a binary,
    /// `name.example.package` for an example, empty for the main binary).
    pub fn bundle_identifier(&self) -> (r: String)
        ensures
            r@ == match self.bundle_settings.identifier {
                Some(i) => i@,
                None => match self.build_artifact@ {
                    BuildArtifactView::Main => Seq::empty(),
                    BuildArtifactView::Bin(n) => n + "."@ + self.target.package.name@,
                    BuildArtifactView::Example(n) => n + ".example."@
                        + self.target.package.name@,
                },
            },
    {
        match &self.bundle_settings.identifier {
            Some(i) => i.clone(),
            None => match &self.build_artifact {
                BuildArtifact::Main => String::new(),
                BuildArtifact::Bin(n) => {
                    let mut r = n.clone();
                    r.append(".");
                    r.append(self.target.package.name.as_str());
                    r
                },
                BuildArtifact::Example(n) => {
                    let mut r = n.clone();
                    r.append(".example.");
                    r.append(self.target.package.name.as_str());
                    r
                },
            },
        }
    }

    /// The expansion of the icon patterns; directories are not walked.
    pub fn icon_files(&self) -> (r: ResourcePaths)
        ensures
            r.wf(),
            r@ == (ResourcePathsView {
                patterns: self.bundle_settings.icon.deep_view(),
                next_pattern: 0,
                phase: ExpandPhase::Patterns,
                allow_walk: false,
            }),
    {
        ResourcePaths::new(&self.bundle_settings.icon, false)
    }

    /// Where each resource file is placed under `output_base`: for each
    /// resource mapping `(pattern, dst)` in order, each file that its pattern
    /// yielded, with `expanded[i]` the files of mapping `i` (expanded with
    /// directories walked, and errors left out). Mappings without an entry
    /// in `expanded` place nothing.
    pub fn resources_paths(&self, output_base: &str, expanded: &Vec<Vec<String>>) -> (r: Vec<
        (String, String),
    >)
        ensures
            r.deep_view() == placements_upto(
                output_base@,
                self.bundle_settings.resources_mapping.deep_view(),
                expanded.deep_view(),
                if expanded@.len() < self.bundle_settings.resources_mapping@.len() {
                    expanded@.len() as int
                } else {
                    self.bundle_settings.resources_mapping@.len() as int
                },
            ),
    {
        let mappings = &self.bundle_settings.resources_mapping;
        let k = if expanded.len() < mappings.len() {
            expanded.len()
        } else {
            mappings.len()
        };
        let mut output: Vec<(String, String)> = Vec::new();
        let mut i: usize = 0;
        while i < k
            invariant
                k <= expanded@.len(),
                k <= mappings@.len(),
                i <= k,
                output.deep_view() == placements_upto(
                    output_base@,
                    mappings.deep_view(),
                    expanded.deep_view(),
                    i as int,
                ),
            decreases k - i,
        {
            let pattern = mappings[i].0.as_str();
            let dst = mappings[i].1.as_str();
            let sources = &expanded[i];
            let ghost before = output.deep_view();
            let mut j: usize = 0;
            while j < sources.len()
                invariant
                    j <= sources@.len(),
                    pattern@ == mappings.deep_view()[i as int].0,
                    dst@ == mappings.deep_view()[i as int].1,
                    sources.deep_view() == expanded.deep_view()[i as int],
                    output.deep_view() == before + placements(
                        output_base@,
                        pattern@,
                        dst@,
                        sources.deep_view().take(j as int),
                    ),
                decreases sources.len() - j,
            {
                let src = sources[j].as_str();
                let dest = resource_destination(output_base, pattern, dst, src);
                let ghost prev = output.deep_view();
                let copy = sources[j].clone();
                output.push((copy, dest));
                assert(output.deep_view() =~= prev.push((sources@[j as int]@, dest@)));
                proof {
                    let sv = sources.deep_view();
                    assert(sv.take(j + 1) =~= sv.take(j as int).push(sources@[j as int]@));
                    assert(placements(output_base@, pattern@, dst@, sv.take(j + 1)) =~= placements(
                        output_base@,
                        pattern@,
                        dst@,
                        sv.take(j as int),
                    ).push((sources@[j as int]@, dest@)));
                    assert(output.deep_view() =~= before + placements(
                        output_base@,
                        pattern@,
                        dst@,
                        sources.deep_view().take(j + 1),
                    ));
                }
                j = j + 1;
            }
            proof {
                assert(sources.deep_view().take(sources@.len() as int) =~= sources.deep_view());
            }
            i = i + 1;
        }
        output
    }

    /// The version of the bundle: the configured one, else the package's.
    pub fn version_string(&self) -> (r: String)
        ensures
            r@ == text_or(self.bundle_settings.version.deep_view(), self.target.package.version@),
    {
        match &self.bundle_settings.version {
            Some(v) => v.clone(),
            None => self.target.package.version.clone(),
        }
    }

    pub fn copyright_string(&self) -> (r: Option<&str>)
        ensures
            same_text(r, self.bundle_settings.copyright),
    {
        text_of(&self.bundle_settings.copyright)
    }

    pub fn author_names(&self) -> (r: &Vec<String>)
        ensures
            r == &self.target.package.authors,
    {
        &self.target.package.authors
    }

    /// The package's authors, separated by `, `; none where it has none.
    pub fn authors_comma_separated(&self) -> (r: Option<String>)
        ensures
            r.deep_view() == if self.target.package.authors@.len() == 0 {
                None
            } else {
                Some(joined(self.target.package.authors.deep_view(), ", "@))
            },
    {
        let names = self.author_names();
        if names.len() == 0 {
            None
        } else {
            Some(join_with(names, ", "))
        }
    }

    /// The package's home page, or the empty string.
    pub fn homepage_url(&self) -> (r: &str)
        ensures
            r@ == text_or(self.target.package.homepage.deep_view(), Seq::empty()),
    {
        proof {
            reveal_strlit("");
        }
        match &self.target.package.homepage {
            Some(h) => h.as_str(),
            None => "",
        }
    }

    pub fn app_category(&self) -> (r: Option<&str>)
        ensures
            same_text(r, self.bundle_settings.category),
    {
        text_of(&self.bundle_settings.category)
    }

    /// The configured short description, else the package's description,
    /// else the empty string.
    pub fn short_description(&self) -> (r: &str)
        ensures
            r@ == text_or(
                self.bundle_settings.short_description.deep_view(),
                text_or(self.target.package.description.deep_view(), Seq::empty()),
            ),
    {
        proof {
            reveal_strlit("");
        }
        match &self.bundle_settings.short_description {
            Some(d) => d.as_str(),
            None => match &self.target.package.description {
                Some(d) => d.as_str(),
                None => "",
            },
        }
    }

    pub fn long_description(&self) -> (r: Option<&str>)
        ensures
            same_text(r, self.bundle_settings.long_description),
    {
        text_of(&self.bundle_settings.long_description)
    }

    /// The path of the package's license file, in the workspace, where the
    /// package names one.
    pub fn license_file_path(&self) -> (r: Option<String>)
        ensures
            r.deep_view() == match self.target.package.license_file {
                Some(f) => Some(join_of(self.target.project_out_directory@, f@)),
                None => None,
            },
    {
        match &self.target.package.license_file {
            Some(f) => Some(join_path(self.target.project_out_directory.as_str(), f.as_str())),
            None => None,
        }
    }

    /// The license text: the content of the license file where the package
    /// names one and it was read (`file_content`), else the package's
    /// license expression.
    pub fn license_content(&self, file_content: Option<String>) -> (r: Option<String>)
        ensures
            r.deep_view() == if self.target.package.license_file is Some && file_content is Some {
                file_content.deep_view()
            } else {
                self.target.package.license.deep_view()
            },
    {
        match (&self.target.package.license_file, file_content) {
            (Some(_), Some(content)) => Some(content),
            _ => copy_opt_string(&self.target.package.license),
        }
    }

    pub fn debian_dependencies(&self) -> (r: &Vec<String>)
        ensures
            r == &self.bundle_settings.deb_depends,
    {
        &self.bundle_settings.deb_depends
    }

    pub fn linux_mime_types(&self) -> (r: &Vec<String>)
        ensures
            r == &self.bundle_settings.linux_mime_types,
    {
        &self.bundle_settings.linux_mime_types
    }

    pub fn linux_use_terminal(&self) -> (r: Option<bool>)
        ensures
            r == self.bundle_settings.linux_use_terminal,
    {
        self.bundle_settings.linux_use_terminal
    }

    pub fn linux_exec_args(&self) -> (r: Option<&str>)
        ensures
            same_text(r, self.bundle_settings.linux_exec_args),
    {
        text_of(&self.bundle_settings.linux_exec_args)
    }

    pub fn osx_frameworks(&self) -> (r: &Vec<String>)
        ensures
            r == &self.bundle_settings.osx_frameworks,
    {
        &self.bundle_settings.osx_frameworks
    }

    /// The configured plugins, or none.
    pub fn osx_plugins(&self) -> (r: Vec<String>)
        ensures
            r.deep_view() == match self.bundle_settings.osx_plugins {
                Some(p) => p.deep_view(),
                None => Seq::empty(),
            },
    {
        match &self.bundle_settings.osx_plugins {
            Some(p) => copy_strings(p),
            None => {
                let r: Vec<String> = Vec::new();
                assert(r.deep_view() =~= Seq::empty());
                r
            },
        }
    }

    pub fn osx_minimum_system_version(&self) -> (r: Option<&str>)
        ensures
            same_text(r, self.bundle_settings.osx_minimum_system_version),
    {
        text_of(&self.bundle_settings.osx_minimum_system_version)
    }

    /// The configured URL schemes, or none.
    pub fn osx_url_schemes(&self) -> (r: Vec<String>)
        ensures
            r.deep_view() == match self.bundle_settings.osx_url_schemes {
                Some(p) => p.deep_view(),
                None => Seq::empty(),
            },
    {
        match &self.bundle_settings.osx_url_schemes {
            Some(p) => copy_strings(p),
            None => {
                let r: Vec<String> = Vec::new();
                assert(r.deep_view() =~= Seq::empty());
                r
            },
        }
    }

    /// The expansion of the property-list fragments; directories are not
    /// walked.
    pub fn osx_info_plist_exts(&self) -> (r: ResourcePaths)
        ensures
            r.wf(),
            r@ == (ResourcePathsView {
                patterns: match self.bundle_settings.osx_info_plist_exts {
                    Some(p) => p.deep_view(),
                    None => Seq::empty(),
                },
                next_pattern: 0,
                phase: ExpandPhase::Patterns,
                allow_walk: false,
            }),
    {
        match &self.bundle_settings.osx_info_plist_exts {
            Some(p) => ResourcePaths::new(p, false),
            None => {
                let none: Vec<String> = Vec::new();
                assert(none.deep_view() =~= Seq::empty());
                ResourcePaths::new(&none, false)
            },
        }
    }

    /// The arguments of the command that builds the artifact: the target
    /// triple, the features, the artifact, the profile (none for `dev`,
    /// `--release` for `release`, `--profile NAME` else) and the feature
    /// switches, in that order.
    pub fn build_command_args(&self) -> (r: Vec<String>)
        ensures
            r.deep_view() == build_args_of(
                self.target.target_triple.deep_view(),
                self.features.deep_view(),
                self.build_artifact@,
                self.target.profile@,
                self.all_features,
                self.no_default_features,
            ),
    {
        let mut args: Vec<String> = Vec::new();
        args.push(String::from_str("build"));
        let ghost a0 = args.deep_view();
        match &self.target.target_triple {
            Some(t) => args.push(prefixed("--target=", t.as_str())),
            None => {},
        }
        let ghost a1 = args.deep_view();
        match &self.features {
            Some(f) => args.push(prefixed("--features=", f.as_str())),
            None => {},
        }
        let ghost a2 = args.deep_view();
        match &self.build_artifact {
            BuildArtifact::Main => {},
            BuildArtifact::Bin(n) => args.push(prefixed("--bin=", n.as_str())),
            BuildArtifact::Example(n) => args.push(prefixed("--example=", n.as_str())),
        }
        let ghost a3 = args.deep_view();
        let profile = self.target.profile.as_str();
        if crate::text::str_eq(profile, "dev") {
        } else if crate::text::str_eq(profile, "release") {
            args.push(String::from_str("--release"));
        } else {
            args.push(String::from_str("--profile"));
            args.push(profile.to_owned());
        }
        let ghost a4 = args.deep_view();
        if self.all_features {
            args.push(String::from_str("--all-features"));
        }
        let ghost a5 = args.deep_view();
        if self.no_default_features {
            args.push(String::from_str("--no-default-features"));
        }
        proof {
            let t = self.target.target_triple.deep_view();
            let f = self.features.deep_view();
            assert(a0 =~= seq!["build"@]);
            assert(a1 =~= a0 + match t {
                Some(t) => seq!["--target="@ + t],
                None => Seq::empty(),
            });
            assert(a2 =~= a1 + match f {
                Some(f) => seq!["--features="@ + f],
                None => Seq::empty(),
            });
            assert(a3 =~= a2 + match self.build_artifact@ {
                BuildArtifactView::Main => Seq::empty(),
                BuildArtifactView::Bin(n) => seq!["--bin="@ + n],
                BuildArtifactView::Example(n) => seq!["--example="@ + n],
            });
            assert(a4 =~= a3 + if self.target.profile@ == "dev"@ {
                Seq::empty()
            } else if self.target.profile@ == "release"@ {
                seq!["--release"@]
            } else {
                seq!["--profile"@, self.target.profile@]
            });
            assert(a5 =~= a4 + if self.all_features {
                seq!["--all-features"@]
            } else {
                Seq::empty()
            });
            assert(args.deep_view() =~= a5 + if self.no_default_features {
                seq!["--no-default-features"@]
            } else {
                Seq::empty()
            });
        }
        args
    }
}

} // verus!
