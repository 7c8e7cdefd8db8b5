//! Resolution of the packaging configuration of a Rust application: layered
//! bundle settings, the workspace and build-output locations, and the
//! placement of resource files.

mod cli;
mod error;
mod metadata;
mod package_type;
mod paths;
mod resource_paths;
mod settings;
mod target_info;
mod text;

pub use cli::Cli;
pub use error::{Advisory, BundleError};
pub use metadata::{find_entry, BundleSettings};
pub use package_type::{BuildArtifact, PackageType};
pub use paths::{
    base_dir, file_name, join_path, parent_dir, resource_destination, resource_relpath,
    starts_with, strip_path_prefix,
};
pub use resource_paths::{ExpandPhase, PathEvent, PathRequest, PathStep, ResourcePaths};
pub use settings::Settings;
pub use target_info::{
    bundle_settings_of_package, bundle_settings_with_artifact, get_workspace_dir,
    resolve_profile, select_package, BundleTargetInfo, PackageInfo, PackageTarget,
    TargetPlatform, WorkspaceStep,
};
pub use text::{contains_char, join_with, str_eq};
