use vstd::prelude::*;
use crate::archive::{archive_kind, kind_of, renamed, renamed_file_name, ArchiveKind};
use crate::ledger::{opt_str_view, InstalledPackageView, PackageState};
use crate::registry::PackageDefinition;
use crate::select::ReleaseRecord;

verus! {

/// `part` placed under the directory `base`; an empty base is the current
/// directory.
pub open spec fn joined(base: Seq<char>, part: Seq<char>) -> Seq<char> {
    if base.len() == 0 {
        part
    } else {
        base + seq!['/'] + part
    }
}

pub open spec fn packages_dir_name() -> Seq<char> {
    seq!['p', 'a', 'c', 'k', 'a', 'g', 'e', 's']
}

/// The directory that holds release `tag` of `package`:
/// `<data_dir>/packages/<package>/<tag>`.
pub open spec fn install_dir(data_dir: Seq<char>, package: Seq<char>, tag: Seq<char>) -> Seq<char> {
    joined(joined(joined(data_dir, packages_dir_name()), package), tag)
}

/// Places `part` under the directory `base`.
pub fn join_path(base: &str, part: &str) -> (r: String)
    ensures
        r@ == joined(base@, part@),
{
    if base.unicode_len() == 0 {
        part.to_string()
    } else {
        proof {
            reveal_strlit("/");
        }
        let b = base.to_string();
        let with_sep = b.concat("/");
        with_sep.concat(part)
    }
}

/// The directory that holds release `tag` of `package`.
pub fn install_dir_for(data_dir: &str, package: &str, tag: &str) -> (r: String)
    ensures
        r@ == install_dir(data_dir@, package@, tag@),
{
    proof {
        reveal_strlit("packages");
        assert("packages"@ =~= packages_dir_name());
    }
    let root = join_path(data_dir, "packages");
    let pkg = join_path(root.as_str(), package);
    join_path(pkg.as_str(), tag)
}

/// What an install of one asset does on disk and records in the ledger.
#[derive(Debug)]
pub struct InstallPlan {
    /// Where the asset is downloaded and unpacked.
    pub target_dir: String,
    pub download_url: String,
    /// The name the download is saved under inside `target_dir`.
    pub file_name: String,
    pub kind: ArchiveKind,
    /// For a raw download of a package that names its executable: the new
    /// name of the downloaded file inside `target_dir`.
    pub rename_to: Option<String>,
    pub version: String,
    pub executable_path: Option<String>,
}

/// The name of the entry point inside the install directory, when the
/// package names its executable: a raw download keeps its extension.
pub open spec fn entry_point_name(file_name: Seq<char>, executable_name: Option<Seq<char>>) -> Option<
    Seq<char>,
> {
    match executable_name {
        None => None,
        Some(e) => if kind_of(file_name) == ArchiveKind::Raw {
            Some(renamed(file_name, e))
        } else {
            Some(e)
        },
    }
}

/// The plan for installing asset `asset_index` of `release` of the package
/// `package_name` defined by `def`, under `data_dir`.
pub open spec fn planned(
    plan: InstallPlan,
    data_dir: Seq<char>,
    package_name: Seq<char>,
    def: PackageDefinition,
    release: ReleaseRecord,
    asset_index: int,
) -> bool {
    let asset = release.assets@[asset_index];
    let dir = install_dir(data_dir, package_name, release.tag@);
    &&& plan.target_dir@ == dir
    &&& plan.download_url@ == asset.download_url@
    &&& plan.file_name@ == asset.name@
    &&& plan.kind == kind_of(asset.name@)
    &&& opt_str_view(plan.rename_to) == (if plan.kind == ArchiveKind::Raw {
        entry_point_name(asset.name@, opt_str_view(def.executable_name))
    } else {
        None
    })
    &&& plan.version@ == release.tag@
    &&& opt_str_view(plan.executable_path) == match entry_point_name(
        asset.name@,
        opt_str_view(def.executable_name),
    ) {
        Some(n) => Some(joined(dir, n)),
        None => None,
    }
}

/// Works out where and how the chosen asset is installed and what the ledger
/// will record for it.
pub fn plan_install(
    data_dir: &String,
    package_name: &String,
    def: &PackageDefinition,
    release: &ReleaseRecord,
    asset_index: usize,
) -> (r: InstallPlan)
    requires
        asset_index < release.assets@.len(),
    ensures
        planned(r, data_dir@, package_name@, *def, *release, asset_index as int),
{
    let asset = &release.assets[asset_index];
    let target_dir = install_dir_for(data_dir.as_str(), package_name.as_str(), release.tag.as_str());
    let kind = archive_kind(asset.name.as_str());
    let entry: Option<String> = match &def.executable_name {
        None => None,
        Some(e) => {
            if kind == ArchiveKind::Raw {
                Some(renamed_file_name(asset.name.as_str(), e.as_str()))
            } else {
                Some(e.clone())
            }
        },
    };
    let rename_to: Option<String> = if kind == ArchiveKind::Raw {
        match &entry {
            Some(n) => Some(n.clone()),
            None => None,
        }
    } else {
        None
    };
    let executable_path: Option<String> = match &entry {
        Some(n) => Some(join_path(target_dir.as_str(), n.as_str())),
        None => None,
    };
    InstallPlan {
        target_dir,
        download_url: asset.download_url.clone(),
        file_name: asset.name.clone(),
        kind,
        rename_to,
        version: release.tag.clone(),
        executable_path,
    }
}

/// The ledger entry that a completed plan is recorded as.
pub open spec fn plan_entry(plan: InstallPlan) -> InstalledPackageView {
    InstalledPackageView {
        version: plan.version@,
        install_path: plan.target_dir@,
        executable_path: opt_str_view(plan.executable_path),
    }
}

/// Records a completed install in the ledger, replacing any earlier entry
/// for the package.
pub fn record_install(state: &mut PackageState, package_name: String, plan: &InstallPlan)
    requires
        old(state).wf(),
    ensures
        final(state).wf(),
        final(state)@ == old(state)@.insert(package_name@, plan_entry(*plan)),
{
    let executable_path: Option<String> = match &plan.executable_path {
        Some(p) => Some(p.clone()),
        None => None,
    };
    state.add_package(package_name, plan.version.clone(), plan.target_dir.clone(), executable_path);
}

} // verus!
