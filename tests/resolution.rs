use cargo_bundler::{
    bundle_settings_of_package, bundle_settings_with_artifact, resolve_profile, select_package,
    Advisory, BuildArtifact, BundleError, BundleSettings, BundleTargetInfo, Cli, PackageInfo,
    PackageTarget, PackageType, Settings, TargetPlatform,
};

fn named(name: &str) -> BundleSettings {
    let mut s = BundleSettings::default();
    s.name = name.to_string();
    s
}

fn package(name: &str, bundle: Option<BundleSettings>) -> PackageInfo {
    PackageInfo {
        name: name.to_string(),
        version: "0.3.1".to_string(),
        authors: vec!["Ann <ann@example.com>".to_string(), "Bo".to_string()],
        description: Some("A package".to_string()),
        homepage: None,
        license: Some("MIT".to_string()),
        license_file: None,
        targets: vec![
            PackageTarget { name: "mylib".to_string(), kind: vec!["lib".to_string()] },
            PackageTarget { name: "mytool".to_string(), kind: vec!["bin".to_string()] },
        ],
        bundle,
    }
}

fn cli() -> Cli {
    Cli {
        bin: None,
        example: None,
        format: None,
        release: false,
        profile: None,
        target: None,
        features: None,
        all_features: false,
        no_default_features: false,
        package: None,
        dir: "/ws".to_string(),
    }
}

fn target_info(pkg: PackageInfo, format: PackageType, release: bool) -> BundleTargetInfo {
    BundleTargetInfo::new(release, &None, None, None, format, "/ws".to_string(), vec![pkg], &None, Some(0))
        .unwrap()
}

fn app_with_deb_override() -> BundleSettings {
    let mut s = named("App");
    s.targets = vec![("deb".to_string(), named("AppDeb"))];
    s
}

#[test]
fn format_override_applies_to_its_format_only() {
    let mut adv = Vec::new();
    let deb = bundle_settings_of_package(
        &package("app", Some(app_with_deb_override())),
        PackageType::Deb,
        &mut adv,
    );
    assert_eq!(deb.name, "AppDeb");
    assert!(adv.is_empty());
    let osx = bundle_settings_of_package(
        &package("app", Some(app_with_deb_override())),
        PackageType::OsxBundle,
        &mut adv,
    );
    assert_eq!(osx.name, "App");
    assert_eq!(adv, vec![Advisory::NoFormatSection("osx".to_string())]);
}

#[test]
fn effective_name_per_format() {
    let mut adv = Vec::new();
    let deb = Settings::new(
        target_info(package("app", Some(app_with_deb_override())), PackageType::Deb, false),
        &cli(),
        &mut adv,
    )
    .unwrap();
    assert_eq!(deb.bundle_name(), "AppDeb");
    let osx = Settings::new(
        target_info(package("app", Some(app_with_deb_override())), PackageType::OsxBundle, false),
        &cli(),
        &mut adv,
    )
    .unwrap();
    assert_eq!(osx.bundle_name(), "App");
}

#[test]
fn missing_bundle_section_gives_defaults_and_one_advisory() {
    let mut adv = Vec::new();
    let settings =
        Settings::new(target_info(package("app", None), PackageType::Deb, false), &cli(), &mut adv)
            .unwrap();
    assert_eq!(adv, vec![Advisory::NoBundleSection("app".to_string())]);
    assert_eq!(settings.binary_name(), "mytool");
    assert_eq!(settings.bundle_name(), "mytool");
    assert_eq!(settings.version_string(), "0.3.1");
    assert_eq!(settings.bundle_identifier(), "");
    assert_eq!(settings.copyright_string(), None);
    assert_eq!(settings.short_description(), "A package");
    assert_eq!(settings.long_description(), None);
    assert!(settings.debian_dependencies().is_empty());
    assert!(settings.osx_plugins().is_empty());
    assert_eq!(settings.linux_use_terminal(), None);
}

#[test]
fn bin_and_example_overrides() {
    let mut base = named("Base");
    base.bin = vec![("foo".to_string(), named("Foo App"))];
    base.example = vec![("baz".to_string(), named("Baz Example"))];
    let mut adv = Vec::new();
    let foo = bundle_settings_with_artifact(base.duplicate(), &BuildArtifact::Bin("foo".to_string()), &mut adv);
    assert_eq!(foo.name, "Foo App");
    let baz = bundle_settings_with_artifact(
        base.duplicate(),
        &BuildArtifact::Example("baz".to_string()),
        &mut adv,
    );
    assert_eq!(baz.name, "Baz Example");
    assert!(adv.is_empty());
    let other = bundle_settings_with_artifact(
        base.duplicate(),
        &BuildArtifact::Example("foo".to_string()),
        &mut adv,
    );
    assert_eq!(other.name, "Base");
    assert_eq!(adv, vec![Advisory::NoExampleSection("foo".to_string())]);
    let main = bundle_settings_with_artifact(base, &BuildArtifact::Main, &mut adv);
    assert_eq!(main.name, "Base");
    assert_eq!(adv.len(), 1);
}

#[test]
fn named_binary_identifier_and_name() {
    let mut c = cli();
    c.bin = Some("helper".to_string());
    let mut adv = Vec::new();
    let settings =
        Settings::new(target_info(package("app", Some(named("App"))), PackageType::Deb, false), &c, &mut adv)
            .unwrap();
    assert_eq!(settings.binary_name(), "helper");
    assert_eq!(settings.bundle_identifier(), "helper.app");
    assert_eq!(adv[adv.len() - 1], Advisory::NoBinSection("helper".to_string()));
    let mut c = cli();
    c.example = Some("demo".to_string());
    let settings =
        Settings::new(target_info(package("app", None), PackageType::Deb, false), &c, &mut adv).unwrap();
    assert_eq!(settings.bundle_identifier(), "demo.example.app");
}

#[test]
fn main_binary_requires_a_bin_target() {
    let mut pkg = package("libonly", None);
    pkg.targets = vec![PackageTarget { name: "libonly".to_string(), kind: vec!["lib".to_string()] }];
    let mut adv = Vec::new();
    let r = Settings::new(target_info(pkg, PackageType::Deb, false), &cli(), &mut adv);
    match r {
        Err(BundleError::NoBinTarget(p)) => assert_eq!(p, "libonly"),
        _ => panic!("expected an error"),
    }
}

#[test]
fn profiles() {
    assert_eq!(resolve_profile(true, &None), Ok("release".to_string()));
    assert_eq!(resolve_profile(false, &None), Ok("dev".to_string()));
    assert_eq!(resolve_profile(false, &Some("bench".to_string())), Ok("bench".to_string()));
    assert_eq!(resolve_profile(false, &Some("debug".to_string())), Err(BundleError::ReservedProfile));
}

#[test]
fn package_selection() {
    let pkgs = vec![package("a", None), package("b", None)];
    assert_eq!(select_package(&pkgs, &Some("b".to_string()), None), Ok(1));
    assert_eq!(
        select_package(&pkgs, &Some("c".to_string()), Some(0)),
        Err(BundleError::PackageNotFound("c".to_string()))
    );
    assert_eq!(select_package(&pkgs, &None, Some(0)), Ok(0));
    assert_eq!(select_package(&pkgs, &None, None), Err(BundleError::NoRootPackage));
    assert_eq!(select_package(&pkgs, &None, Some(5)), Err(BundleError::NoRootPackage));
}

#[test]
fn target_directory_layout() {
    let info = BundleTargetInfo::new(
        false,
        &Some("bench".to_string()),
        Some("aarch64-apple-darwin".to_string()),
        Some(TargetPlatform { arch: "aarch64".to_string(), os: "macos".to_string() }),
        PackageType::OsxBundle,
        "/ws".to_string(),
        vec![package("app", None)],
        &Some("app".to_string()),
        None,
    )
    .unwrap();
    assert_eq!(
        info.get_target_dir(&BuildArtifact::Example("demo".to_string()), &None),
        "/ws/target/aarch64-apple-darwin/bench/examples"
    );
    let metadata = Some("{\"packages\":[],\"target_directory\":\"/cache/tgt\"}".to_string());
    assert_eq!(
        info.get_target_dir(&BuildArtifact::Main, &metadata),
        "/cache/tgt/aarch64-apple-darwin/bench"
    );
    let broken = Some("not json".to_string());
    assert_eq!(
        info.get_target_dir(&BuildArtifact::Main, &broken),
        "/ws/target/aarch64-apple-darwin/bench"
    );
    let dev = target_info(package("app", None), PackageType::WindowsMsi, false);
    assert_eq!(dev.get_target_dir(&BuildArtifact::Main, &None), "/ws/target/debug");
}

#[test]
fn binary_path_and_arch() {
    let mut adv = Vec::new();
    let settings =
        Settings::new(target_info(package("app", None), PackageType::WindowsMsi, true), &cli(), &mut adv)
            .unwrap();
    assert_eq!(settings.binary_path(PackageType::WindowsMsi, &None), "/ws/target/release/mytool.exe");
    assert_eq!(settings.binary_path(PackageType::Deb, &None), "/ws/target/release/mytool");
    assert_eq!(settings.binary_arch("x86_64"), "x86_64");
}

#[test]
fn build_arguments() {
    let mut c = cli();
    c.example = Some("demo".to_string());
    c.features = Some("f1 f2".to_string());
    c.all_features = true;
    let info = BundleTargetInfo::new(
        false,
        &Some("bench".to_string()),
        Some("x86_64-unknown-linux-gnu".to_string()),
        None,
        PackageType::Deb,
        "/ws".to_string(),
        vec![package("app", None)],
        &None,
        Some(0),
    )
    .unwrap();
    let mut adv = Vec::new();
    let settings = Settings::new(info, &c, &mut adv).unwrap();
    assert_eq!(
        settings.build_command_args(),
        vec![
            "build",
            "--target=x86_64-unknown-linux-gnu",
            "--features=f1 f2",
            "--example=demo",
            "--profile",
            "bench",
            "--all-features"
        ]
    );
    let mut adv = Vec::new();
    let release =
        Settings::new(target_info(package("app", None), PackageType::Deb, true), &cli(), &mut adv).unwrap();
    assert_eq!(release.build_command_args(), vec!["build", "--release"]);
}

#[test]
fn package_metadata_getters() {
    let mut adv = Vec::new();
    let mut pkg = package("app", None);
    pkg.license_file = Some("LICENSE".to_string());
    let settings =
        Settings::new(target_info(pkg, PackageType::Deb, false), &cli(), &mut adv).unwrap();
    assert_eq!(
        settings.authors_comma_separated(),
        Some("Ann <ann@example.com>, Bo".to_string())
    );
    assert_eq!(settings.homepage_url(), "");
    assert_eq!(settings.license_file_path(), Some("/ws/LICENSE".to_string()));
    assert_eq!(settings.license_content(Some("text".to_string())), Some("text".to_string()));
    assert_eq!(settings.license_content(None), Some("MIT".to_string()));
}

#[test]
fn resource_placements() {
    let mut bundle = BundleSettings::default();
    bundle.resources_mapping = vec![
        ("build/static/*".to_string(), "assets".to_string()),
        ("data".to_string(), "".to_string()),
    ];
    let mut adv = Vec::new();
    let settings =
        Settings::new(target_info(package("app", Some(bundle)), PackageType::Deb, false), &cli(), &mut adv)
            .unwrap();
    let expanded = vec![
        vec!["build/static/img/a.png".to_string(), "build/static/b.css".to_string()],
        vec!["data/x.txt".to_string()],
    ];
    assert_eq!(
        settings.resources_paths("out", &expanded),
        vec![
            ("build/static/img/a.png".to_string(), "out/assets/img/a.png".to_string()),
            ("build/static/b.css".to_string(), "out/assets/b.css".to_string()),
            ("data/x.txt".to_string(), "out/data/x.txt".to_string()),
        ]
    );
}

#[test]
fn format_names() {
    assert_eq!(PackageType::from_short_name("deb"), Some(PackageType::Deb));
    assert_eq!(PackageType::from_short_name("appimage"), Some(PackageType::AppImage));
    assert_eq!(PackageType::from_short_name("zip"), None);
    assert_eq!(PackageType::WxsMsi.short_name(), "wxsmsi");
    assert_eq!(PackageType::all(), vec!["deb", "ios", "msi", "wxsmsi", "osx", "rpm", "appimage"]);
    for name in PackageType::all() {
        assert_eq!(PackageType::from_short_name(name).unwrap().short_name(), name);
    }
    assert_eq!(PackageType::defaults_for_os("linux"), vec![PackageType::Deb, PackageType::AppImage]);
    assert_eq!(PackageType::defaults_for_os("macos"), vec![PackageType::OsxBundle]);
    assert!(PackageType::defaults_for_os("haiku").is_empty());
}

#[test]
fn messages() {
    assert_eq!(BundleError::ReservedProfile.message(), "Profile name `debug` is reserved");
    assert_eq!(
        Advisory::NoBundleSection("app".to_string()).message(),
        "No [package.metadata.bundle] section in package \"app\""
    );
    assert_eq!(
        BundleError::IsDirectory("assets".to_string()).message(),
        "\"assets\" is a directory"
    );
}

#[test]
fn parsing_format_names() {
    assert_eq!(PackageType::parse_short_name("rpm"), Ok(PackageType::Rpm));
    let err = PackageType::parse_short_name("zip").unwrap_err();
    assert_eq!(err, BundleError::UnsupportedPackageType("zip".to_string()));
    assert_eq!(
        err.message(),
        "Unsupported package type: 'zip'. Supported types are: deb, ios, msi, wxsmsi, osx, rpm, appimage"
    );
    let parsed: PackageType = "ios".parse().unwrap();
    assert_eq!(parsed, PackageType::IosBundle);
}

#[test]
fn artifact_selection() {
    let bin = Some("b".to_string());
    let example = Some("e".to_string());
    assert!(matches!(BuildArtifact::from_selection(&bin, &example), BuildArtifact::Bin(n) if n == "b"));
    assert!(matches!(BuildArtifact::from_selection(&None, &example), BuildArtifact::Example(n) if n == "e"));
    assert!(matches!(BuildArtifact::from_selection(&None, &None), BuildArtifact::Main));
}
