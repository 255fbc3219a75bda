use vstd::prelude::*;
use crate::archive::ArchiveKind;
use crate::error::GripError;
use crate::ledger::{InstalledPackageView, PackageState};
use crate::plan::{plan_entry, plan_install, planned, record_install, InstallPlan};
use crate::registry::PackageDefinition;
use crate::select::{asset_names, find_asset, find_release, first_named, first_tagged, has_asset, has_tag, release_tags, ReleaseRecord};

verus! {

/// Where an install stands: each stage waits for the outcome of the outside
/// work that the previous step asked for.
#[derive(Debug, Clone, Copy, PartialEq, Eq, Structural)]
pub enum InstallStage {
    AwaitReleases,
    AwaitReleaseChoice,
    AwaitAssetChoice,
    AwaitDownload,
    AwaitUnpack,
    AwaitPath,
    Finished,
    Failed,
}

/// The outcome of the outside work, handed back to the installer.
#[derive(Debug)]
pub enum InstallEvent {
    /// The releases of the package's repository, newest first.
    Releases(Vec<ReleaseRecord>),
    /// The index the user chose in the list last asked about.
    Picked(usize),
    /// The requested download, unpacking, renaming or path update is done.
    Done,
}

/// The outside work the installer asks for next.
#[derive(Debug)]
pub enum InstallAction {
    FetchReleases { repository: String },
    AskRelease { tags: Vec<String> },
    AskAsset { names: Vec<String> },
    Download { url: String, file_name: String, target_dir: String },
    /// Extract the archive into the directory, then delete it.
    Unpack { kind: ArchiveKind, file_name: String, target_dir: String },
    Rename { target_dir: String, from: String, to: String },
    ExtendPath { dir: String },
    /// The install is recorded in the ledger.
    Finish,
    Abort(GripError),
    /// The event does not fit the stage; nothing changed.
    Ignored,
}

/// The decisions of one install, from the package's definition to the
/// ledger entry.
#[derive(Debug)]
pub struct Installer {
    pub package_name: String,
    pub data_dir: String,
    pub definition: PackageDefinition,
    pub version: Option<String>,
    pub asset: Option<String>,
    pub releases: Vec<ReleaseRecord>,
    pub release_index: usize,
    pub asset_index: usize,
    pub plan: Option<InstallPlan>,
    pub stage: InstallStage,
}

/// What the user asked for stays as it was.
pub open spec fn same_request(s: Installer, t: Installer) -> bool {
    &&& t.package_name == s.package_name
    &&& t.data_dir == s.data_dir
    &&& t.definition == s.definition
    &&& t.version == s.version
    &&& t.asset == s.asset
}

/// The stage is one of those reached after a release was chosen.
pub open spec fn release_chosen(st: InstallStage) -> bool {
    st == InstallStage::AwaitAssetChoice || st == InstallStage::AwaitDownload || st
        == InstallStage::AwaitUnpack || st == InstallStage::AwaitPath || st
        == InstallStage::Finished
}

/// The stage is one of those reached after the install was planned.
pub open spec fn asset_chosen(st: InstallStage) -> bool {
    st == InstallStage::AwaitDownload || st == InstallStage::AwaitUnpack || st
        == InstallStage::AwaitPath || st == InstallStage::Finished
}

/// The recorded choices are consistent with the stage.
pub open spec fn wf_installer(s: Installer) -> bool {
    &&& release_chosen(s.stage) ==> s.release_index < s.releases@.len()
    &&& asset_chosen(s.stage) ==> (s.release_index < s.releases@.len() && s.asset_index
        < s.releases@[s.release_index as int].assets@.len() && (s.plan matches Some(p) && planned(
        p,
        s.data_dir@,
        s.package_name@,
        s.definition,
        s.releases@[s.release_index as int],
        s.asset_index as int,
    )))
}

/// Asset `ai` of the chosen release is planned, and its download asked for.
pub open spec fn download_planned(t: Installer, ai: int, a: InstallAction) -> bool {
    &&& t.stage == InstallStage::AwaitDownload
    &&& t.asset_index == ai
    &&& t.plan matches Some(p) && planned(
        p,
        t.data_dir@,
        t.package_name@,
        t.definition,
        t.releases@[t.release_index as int],
        ai,
    ) && a == InstallAction::Download {
        url: p.download_url,
        file_name: p.file_name,
        target_dir: p.target_dir,
    }
}

/// With a release chosen: the named asset is planned, or its absence
/// aborts; without a name the user is asked among the asset names.
pub open spec fn asset_step(s: Installer, t: Installer, a: InstallAction) -> bool {
    let assets = t.releases@[t.release_index as int].assets@;
    &&& same_request(s, t)
    &&& match s.asset {
        Some(n) => if has_asset(assets, n@) {
            exists|ai: int| first_named(assets, n@, ai) && download_planned(t, ai, a)
        } else {
            t.stage == InstallStage::Failed && a == InstallAction::Abort(GripError::AssetNotFound)
        },
        None => if assets.len() == 0 {
            t.stage == InstallStage::Failed && a == InstallAction::Abort(GripError::AssetNotFound)
        } else {
            t.stage == InstallStage::AwaitAssetChoice && (a matches InstallAction::AskAsset {
                names,
            } && names@.len() == assets.len() && forall|i: int|
                0 <= i < names@.len() ==> names@[i]@ == #[trigger] assets[i].name@)
        },
    }
}

/// The choices made so far stay as they were.
pub open spec fn same_choices(s: Installer, t: Installer) -> bool {
    &&& t.releases == s.releases
    &&& t.release_index == s.release_index
    &&& t.asset_index == s.asset_index
    &&& t.plan == s.plan
}

/// The plan of an install that has reached its download.
pub open spec fn plan_of(s: Installer) -> InstallPlan {
    s.plan->Some_0
}

/// What one step does, by stage and event. An event that the stage does not
/// expect, or a pick outside the list, changes nothing.
pub open spec fn step_spec(s: Installer, ev: InstallEvent, t: Installer, a: InstallAction) -> bool {
    let ignored = t == s && a == InstallAction::Ignored;
    match ev {
        InstallEvent::Releases(rs) => if s.stage == InstallStage::AwaitReleases {
            &&& same_request(s, t)
            &&& t.releases == rs
            &&& if rs@.len() == 0 {
                t.stage == InstallStage::Failed && a == InstallAction::Abort(GripError::NoReleases)
            } else {
                match s.version {
                    Some(v) => if has_tag(rs@, v@) {
                        first_tagged(rs@, v@, t.release_index as int) && asset_step(s, t, a)
                    } else {
                        t.stage == InstallStage::Failed && a == InstallAction::Abort(
                            GripError::VersionNotFound,
                        )
                    },
                    None => t.stage == InstallStage::AwaitReleaseChoice && (a matches InstallAction::AskRelease {
                        tags,
                    } && tags@.len() == rs@.len() && forall|i: int|
                        0 <= i < tags@.len() ==> tags@[i]@ == #[trigger] rs@[i].tag@),
                }
            }
        } else {
            ignored
        },
        InstallEvent::Picked(i) => if s.stage == InstallStage::AwaitReleaseChoice && i
            < s.releases@.len() {
            t.releases == s.releases && t.release_index == i && asset_step(s, t, a)
        } else if s.stage == InstallStage::AwaitAssetChoice && i
            < s.releases@[s.release_index as int].assets@.len() {
            same_request(s, t) && t.releases == s.releases && t.release_index == s.release_index
                && download_planned(t, i as int, a)
        } else {
            ignored
        },
        InstallEvent::Done => if s.stage == InstallStage::AwaitDownload {
            let p = plan_of(s);
            &&& same_request(s, t)
            &&& same_choices(s, t)
            &&& if p.kind != ArchiveKind::Raw {
                t.stage == InstallStage::AwaitUnpack && a == InstallAction::Unpack {
                    kind: p.kind,
                    file_name: p.file_name,
                    target_dir: p.target_dir,
                }
            } else if p.rename_to is Some {
                t.stage == InstallStage::AwaitUnpack && a == InstallAction::Rename {
                    target_dir: p.target_dir,
                    from: p.file_name,
                    to: p.rename_to->Some_0,
                }
            } else {
                t.stage == InstallStage::AwaitPath && a == InstallAction::ExtendPath {
                    dir: p.target_dir,
                }
            }
        } else if s.stage == InstallStage::AwaitUnpack {
            &&& same_request(s, t)
            &&& same_choices(s, t)
            &&& t.stage == InstallStage::AwaitPath
            &&& a == InstallAction::ExtendPath { dir: plan_of(s).target_dir }
        } else if s.stage == InstallStage::AwaitPath {
            &&& same_request(s, t)
            &&& same_choices(s, t)
            &&& t.stage == InstallStage::Finished
            &&& a == InstallAction::Finish
        } else {
            ignored
        },
    }
}

/// The ledger changes only when the last step of an install completes, and
/// then by the entry of its plan.
pub open spec fn ledger_step(
    s: Installer,
    ev: InstallEvent,
    before: Map<Seq<char>, InstalledPackageView>,
    after: Map<Seq<char>, InstalledPackageView>,
) -> bool {
    if s.stage == InstallStage::AwaitPath && ev is Done {
        after == before.insert(s.package_name@, plan_entry(plan_of(s)))
    } else {
        after == before
    }
}

impl Installer {
    /// Starts an install of `package_name`, found with `definition`: the
    /// first work is fetching the releases of its repository.
    pub fn start(
        package_name: String,
        definition: PackageDefinition,
        version: Option<String>,
        asset: Option<String>,
        data_dir: String,
    ) -> (r: (Installer, InstallAction))
        ensures
            wf_installer(r.0),
            r.0.stage == InstallStage::AwaitReleases,
            r.0.package_name == package_name,
            r.0.definition == definition,
            r.0.version == version,
            r.0.asset == asset,
            r.0.data_dir == data_dir,
            r.1 == (InstallAction::FetchReleases { repository: definition.repository }),
    {
        let repository = definition.repository.clone();
        let inst = Installer {
            package_name,
            data_dir,
            definition,
            version,
            asset,
            releases: Vec::new(),
            release_index: 0,
            asset_index: 0,
            plan: None,
            stage: InstallStage::AwaitReleases,
        };
        (inst, InstallAction::FetchReleases { repository })
    }

    fn plan_asset(&mut self, ai: usize) -> (a: InstallAction)
        requires
            old(self).release_index < old(self).releases@.len(),
            ai < old(self).releases@[old(self).release_index as int].assets@.len(),
        ensures
            same_request(*old(self), *final(self)),
            final(self).releases == old(self).releases,
            final(self).release_index == old(self).release_index,
            download_planned(*final(self), ai as int, a),
    {
        let p = plan_install(
            &self.data_dir,
            &self.package_name,
            &self.definition,
            &self.releases[self.release_index],
            ai,
        );
        let a = InstallAction::Download {
            url: p.download_url.clone(),
            file_name: p.file_name.clone(),
            target_dir: p.target_dir.clone(),
        };
        self.asset_index = ai;
        self.plan = Some(p);
        self.stage = InstallStage::AwaitDownload;
        a
    }

    fn choose_asset(&mut self) -> (a: InstallAction)
        requires
            old(self).release_index < old(self).releases@.len(),
        ensures
            asset_step(*old(self), *final(self), a),
            final(self).releases == old(self).releases,
            final(self).release_index == old(self).release_index,
            wf_installer(*final(self)),
    {
        let ri = self.release_index;
        match &self.asset {
            Some(n) => {
                let n = n.clone();
                match find_asset(&self.releases[ri], &n) {
                    Ok(ai) => self.plan_asset(ai),
                    Err(e) => {
                        self.stage = InstallStage::Failed;
                        InstallAction::Abort(e)
                    },
                }
            },
            None => {
                if self.releases[ri].assets.len() == 0 {
                    self.stage = InstallStage::Failed;
                    InstallAction::Abort(GripError::AssetNotFound)
                } else {
                    let names = asset_names(&self.releases[ri]);
                    self.stage = InstallStage::AwaitAssetChoice;
                    InstallAction::AskAsset { names }
                }
            },
        }
    }

    /// Hands the outcome of the last requested work to the installer and
    /// returns the next work to do.
    pub fn step(&mut self, event: InstallEvent, ledger: &mut PackageState) -> (a: InstallAction)
        requires
            wf_installer(*old(self)),
            old(ledger).wf(),
        ensures
            wf_installer(*final(self)),
            final(ledger).wf(),
            step_spec(*old(self), event, *final(self), a),
            ledger_step(*old(self), event, old(ledger)@, final(ledger)@),
    {
        let ghost s0 = *self;
        match event {
            InstallEvent::Releases(rs) => {
                if self.stage != InstallStage::AwaitReleases {
                    return InstallAction::Ignored;
                }
                self.releases = rs;
                if self.releases.len() == 0 {
                    self.stage = InstallStage::Failed;
                    return InstallAction::Abort(GripError::NoReleases);
                }
                match &self.version {
                    Some(v) => {
                        let v = v.clone();
                        match find_release(&self.releases, &v) {
                            Ok(ri) => {
                                self.release_index = ri;
                                self.choose_asset()
                            },
                            Err(e) => {
                                self.stage = InstallStage::Failed;
                                InstallAction::Abort(e)
                            },
                        }
                    },
                    None => {
                        let tags = release_tags(&self.releases);
                        self.stage = InstallStage::AwaitReleaseChoice;
                        InstallAction::AskRelease { tags }
                    },
                }
            },
            InstallEvent::Picked(i) => {
                if self.stage == InstallStage::AwaitReleaseChoice && i < self.releases.len() {
                    self.release_index = i;
                    self.choose_asset()
                } else if self.stage == InstallStage::AwaitAssetChoice
                    && i < self.releases[self.release_index].assets.len() {
                    self.plan_asset(i)
                } else {
                    InstallAction::Ignored
                }
            },
            InstallEvent::Done => {
                if self.stage == InstallStage::AwaitDownload {
                    match &self.plan {
                        Some(p) => {
                            if p.kind != ArchiveKind::Raw {
                                let a = InstallAction::Unpack {
                                    kind: p.kind,
                                    file_name: p.file_name.clone(),
                                    target_dir: p.target_dir.clone(),
                                };
                                self.stage = InstallStage::AwaitUnpack;
                                a
                            } else {
                                match &p.rename_to {
                                    Some(n) => {
                                        let a = InstallAction::Rename {
                                            target_dir: p.target_dir.clone(),
                                            from: p.file_name.clone(),
                                            to: n.clone(),
                                        };
                                        self.stage = InstallStage::AwaitUnpack;
                                        a
                                    },
                                    None => {
                                        let a = InstallAction::ExtendPath { dir: p.target_dir.clone() };
                                        self.stage = InstallStage::AwaitPath;
                                        a
                                    },
                                }
                            }
                        },
                        None => InstallAction::Ignored,
                    }
                } else if self.stage == InstallStage::AwaitUnpack {
                    match &self.plan {
                        Some(p) => {
                            let a = InstallAction::ExtendPath { dir: p.target_dir.clone() };
                            self.stage = InstallStage::AwaitPath;
                            a
                        },
                        None => InstallAction::Ignored,
                    }
                } else if self.stage == InstallStage::AwaitPath {
                    match &self.plan {
                        Some(p) => {
                            record_install(ledger, self.package_name.clone(), p);
                            self.stage = InstallStage::Finished;
                            InstallAction::Finish
                        },
                        None => InstallAction::Ignored,
                    }
                } else {
                    InstallAction::Ignored
                }
            },
        }
    }
}

} // verus!
