//! Core of a package manager that installs prebuilt release assets:
//! the install ledger, registry administration and lookup, release and
//! asset selection, archive classification, install planning and the
//! search-path update.

pub mod archive;
pub mod error;
pub mod installer;
pub mod ledger;
pub mod plan;
pub mod registry;
pub mod search_path;
pub mod select;

pub use error::GripError;
pub use ledger::{InstalledPackage, InstalledPackageView, PackageState};
pub use registry::{
    add_registry, find_package, remove_registry, PackageDefinition, Registry, RegistryIndex,
    RegistryView,
};
pub use select::{
    asset_names, find_asset, find_release, release_tags, select_asset, select_release, AssetRecord,
    ReleaseRecord, DEFAULT_CHOICE,
};
pub use archive::{
    archive_kind, file_extension, file_stem, has_suffix, is_archive, renamed_file_name, ArchiveKind,
};
pub use plan::{install_dir_for, join_path, plan_install, record_install, InstallPlan};
pub use search_path::{add_to_path, join_search_path, split_search_path};
pub use installer::{InstallAction, InstallEvent, InstallStage, Installer};
