use grip::{
    add_registry, add_to_path, archive_kind, asset_names, file_extension, file_stem, find_asset,
    find_package, find_release, has_suffix, install_dir_for, is_archive, join_path,
    join_search_path, plan_install, record_install, release_tags, remove_registry,
    renamed_file_name, select_asset, select_release, split_search_path, ArchiveKind, AssetRecord,
    GripError, PackageDefinition, PackageState, Registry, RegistryIndex, ReleaseRecord,
    DEFAULT_CHOICE,
};

fn s(x: &str) -> String {
    x.to_string()
}

fn asset(name: &str) -> AssetRecord {
    AssetRecord { name: s(name), download_url: format!("https://example.com/dl/{}", name) }
}

fn release(tag: &str, assets: &[&str]) -> ReleaseRecord {
    ReleaseRecord { tag: s(tag), assets: assets.iter().map(|a| asset(a)).collect() }
}

fn def(name: &str, exe: Option<&str>) -> PackageDefinition {
    PackageDefinition {
        name: s(name),
        repository: format!("owner/{}", name),
        executable_name: exe.map(s),
    }
}

fn registry(name: &str, priority: i64) -> Registry {
    Registry { name: s(name), url: format!("https://{}.example.com/index.json", name), priority }
}

#[test]
fn reinstall_keeps_one_entry_with_latest_fields() {
    let mut st = PackageState::new();
    st.add_package(s("foo"), s("1.0"), s("packages/foo/1.0"), None);
    st.add_package(s("foo"), s("2.0"), s("packages/foo/2.0"), Some(s("packages/foo/2.0/foo")));
    let listed = st.list_packages();
    assert_eq!(listed.len(), 1);
    let p = st.get_package(&s("foo")).unwrap();
    assert_eq!(p.version, "2.0");
    assert_eq!(p.install_path, "packages/foo/2.0");
    assert_eq!(p.executable_path.as_deref(), Some("packages/foo/2.0/foo"));
}

#[test]
fn reinstall_same_version_keeps_one_entry() {
    let mut st = PackageState::default();
    st.add_package(s("bar"), s("1.0"), s("a"), None);
    st.add_package(s("baz"), s("3.1"), s("b"), None);
    st.add_package(s("bar"), s("1.0"), s("a"), None);
    assert_eq!(st.list_packages().len(), 2);
}

#[test]
fn remove_and_get_package() {
    let mut st = PackageState::new();
    st.add_package(s("foo"), s("1.0"), s("p"), None);
    assert!(st.get_package(&s("nope")).is_none());
    let removed = st.remove_package(&s("foo")).unwrap();
    assert_eq!(removed.version, "1.0");
    assert!(st.get_package(&s("foo")).is_none());
    assert!(st.remove_package(&s("foo")).is_none());
    assert!(st.list_packages().is_empty());
}

#[test]
fn listing_then_rebuilding_gives_same_ledger() {
    let mut st = PackageState::new();
    st.add_package(s("a"), s("1"), s("pa"), Some(s("pa/a")));
    st.add_package(s("b"), s("2"), s("pb"), None);
    st.add_package(s("c"), s("3"), s("pc"), Some(s("pc/c.exe")));
    let entries: Vec<(String, grip::InstalledPackage)> = st
        .list_packages()
        .into_iter()
        .map(|(n, p)| {
            (
                n.clone(),
                grip::InstalledPackage {
                    version: p.version.clone(),
                    install_path: p.install_path.clone(),
                    executable_path: p.executable_path.clone(),
                },
            )
        })
        .collect();
    let back = PackageState::from_entries(entries);
    let mut got: Vec<(String, String, String, Option<String>)> = back
        .list_packages()
        .into_iter()
        .map(|(n, p)| (n.clone(), p.version.clone(), p.install_path.clone(), p.executable_path.clone()))
        .collect();
    got.sort();
    assert_eq!(
        got,
        vec![
            (s("a"), s("1"), s("pa"), Some(s("pa/a"))),
            (s("b"), s("2"), s("pb"), None),
            (s("c"), s("3"), s("pc"), Some(s("pc/c.exe"))),
        ]
    );
}

#[test]
fn from_entries_last_pair_wins() {
    let e = |v: &str| grip::InstalledPackage { version: s(v), install_path: s("x"), executable_path: None };
    let st = PackageState::from_entries(vec![(s("a"), e("1")), (s("a"), e("2"))]);
    assert_eq!(st.list_packages().len(), 1);
    assert_eq!(st.get_package(&s("a")).unwrap().version, "2");
}

#[test]
fn path_extension_twice_keeps_one_occurrence() {
    let mut entries = vec![s("/usr/bin"), s("/bin")];
    let dir = s("data/packages/foo/1.2.0");
    assert!(add_to_path(&mut entries, &dir));
    assert!(!add_to_path(&mut entries, &dir));
    assert_eq!(entries.iter().filter(|e| **e == dir).count(), 1);
    assert_eq!(entries, vec![s("/usr/bin"), s("/bin"), dir.clone()]);
}

#[test]
fn path_extension_is_noop_when_present() {
    let mut entries = vec![s("/usr/bin"), s("/opt/x")];
    assert!(!add_to_path(&mut entries, &s("/usr/bin")));
    assert_eq!(entries, vec![s("/usr/bin"), s("/opt/x")]);
}

#[test]
fn split_and_join_search_path() {
    assert_eq!(split_search_path("/usr/bin:/bin", ':'), vec![s("/usr/bin"), s("/bin")]);
    assert_eq!(split_search_path("", ':'), vec![s("")]);
    assert_eq!(split_search_path("a::b:", ':'), vec![s("a"), s(""), s("b"), s("")]);
    assert_eq!(join_search_path(&vec![s("/usr/bin"), s("/bin"), s("/x")], ":"), "/usr/bin:/bin:/x");
    assert_eq!(join_search_path(&vec![], ":"), "");
    assert_eq!(join_search_path(&vec![s("only")], ";"), "only");
}

#[test]
fn exact_match_selection_of_versions() {
    let releases = vec![release("v2.0", &["a"]), release("v1.0", &["b"])];
    assert_eq!(select_release(&releases, &Some(s("v1.0")), 0), Ok(1));
    assert_eq!(select_release(&releases, &Some(s("v9.9")), 0), Err(GripError::VersionNotFound));
    let picked = select_release(&releases, &None, DEFAULT_CHOICE).unwrap();
    assert_eq!(releases[picked].tag, "v2.0");
    assert_eq!(release_tags(&releases), vec![s("v2.0"), s("v1.0")]);
}

#[test]
fn no_releases_is_an_error() {
    let releases: Vec<ReleaseRecord> = vec![];
    assert_eq!(select_release(&releases, &None, 0), Err(GripError::NoReleases));
    assert_eq!(find_release(&releases, &s("v1")), Err(GripError::NoReleases));
}

#[test]
fn version_match_is_exact() {
    let releases = vec![release("v1.0.1", &[]), release("v1.0", &[])];
    assert_eq!(find_release(&releases, &s("v1.0")), Ok(1));
    assert_eq!(find_release(&releases, &s("V1.0")), Err(GripError::VersionNotFound));
}

#[test]
fn asset_selection() {
    let r = release("1.2.0", &["foo-linux.tar.gz", "foo-windows.zip"]);
    assert_eq!(find_asset(&r, &s("foo-windows.zip")), Ok(1));
    assert_eq!(select_asset(&r, &None, 1), Ok(1));
    assert_eq!(select_asset(&r, &Some(s("foo-mac.zip")), 0), Err(GripError::AssetNotFound));
    assert_eq!(asset_names(&r), vec![s("foo-linux.tar.gz"), s("foo-windows.zip")]);
}

#[test]
fn registry_protection() {
    let mut regs = vec![registry("default", 0), registry("extra", 1)];
    assert_eq!(remove_registry(&mut regs, &s("default")), Err(GripError::CannotRemoveDefaultRegistry));
    assert_eq!(remove_registry(&mut regs, &s("ghost")), Err(GripError::RegistryNotFound));
    assert_eq!(regs.len(), 2);
    let mut empty: Vec<Registry> = vec![];
    assert_eq!(remove_registry(&mut empty, &s("default")), Err(GripError::CannotRemoveDefaultRegistry));
}

#[test]
fn registry_add_and_remove() {
    let mut regs = vec![registry("default", 0)];
    assert_eq!(add_registry(&mut regs, s("mine"), s("https://m"), None), Ok(()));
    assert_eq!(regs[1].name, "mine");
    assert_eq!(regs[1].priority, 0);
    assert_eq!(add_registry(&mut regs, s("other"), s("https://o"), Some(5)), Ok(()));
    assert_eq!(regs[2].priority, 5);
    assert_eq!(
        add_registry(&mut regs, s("mine"), s("https://again"), Some(1)),
        Err(GripError::RegistryAlreadyExists)
    );
    assert_eq!(regs.len(), 3);
    assert_eq!(remove_registry(&mut regs, &s("mine")), Ok(()));
    let names: Vec<&str> = regs.iter().map(|r| r.name.as_str()).collect();
    assert_eq!(names, vec!["default", "other"]);
}

#[test]
fn lookup_follows_priority_then_order() {
    let ixs = vec![
        RegistryIndex { priority: 5, packages: Some(vec![def("foo", Some("late"))]) },
        RegistryIndex { priority: 1, packages: Some(vec![def("bar", None), def("foo", Some("first"))]) },
        RegistryIndex { priority: 1, packages: Some(vec![def("foo", Some("tie"))]) },
    ];
    let d = find_package(&ixs, &s("foo")).unwrap();
    assert_eq!(d.executable_name.as_deref(), Some("first"));
    assert_eq!(find_package(&ixs, &s("Foo")).unwrap_err(), GripError::PackageNotFound);
}

#[test]
fn lookup_skips_unreachable_registries() {
    let ixs = vec![
        RegistryIndex { priority: 0, packages: None },
        RegistryIndex { priority: 3, packages: Some(vec![def("foo", None)]) },
    ];
    assert_eq!(find_package(&ixs, &s("foo")).unwrap().repository, "owner/foo");
    assert_eq!(find_package(&ixs, &s("zzz")).unwrap_err(), GripError::PackageNotFound);
    let down = vec![RegistryIndex { priority: 0, packages: None }];
    assert_eq!(find_package(&down, &s("foo")).unwrap_err(), GripError::NetworkError);
    let none: Vec<RegistryIndex> = vec![];
    assert_eq!(find_package(&none, &s("foo")).unwrap_err(), GripError::PackageNotFound);
}

#[test]
fn archive_classification() {
    assert_eq!(archive_kind("foo.zip"), ArchiveKind::Zip);
    assert_eq!(archive_kind("foo-linux.tar.gz"), ArchiveKind::TarGz);
    assert_eq!(archive_kind("foo.tgz"), ArchiveKind::Tgz);
    assert_eq!(archive_kind("foo.exe"), ArchiveKind::Raw);
    assert_eq!(archive_kind("foo.gz"), ArchiveKind::Raw);
    assert_eq!(archive_kind("zip"), ArchiveKind::Raw);
    assert!(is_archive("a.tar.gz"));
    assert!(!is_archive("a"));
    assert!(has_suffix("abc", ""));
    assert!(!has_suffix("c", "abc"));
}

#[test]
fn extensions_and_stems() {
    assert_eq!(file_extension("foo.exe"), Some(s("exe")));
    assert_eq!(file_extension("foo.tar.gz"), Some(s("gz")));
    assert_eq!(file_extension("foo"), None);
    assert_eq!(file_extension(".bashrc"), None);
    assert_eq!(file_extension("foo."), Some(s("")));
    assert_eq!(file_stem("foo.exe"), "foo");
    assert_eq!(file_stem(".bashrc"), ".bashrc");
    assert_eq!(renamed_file_name("foo-x86.exe", "foo"), "foo.exe");
    assert_eq!(renamed_file_name("foo-linux", "foo"), "foo");
    assert_eq!(renamed_file_name("tool.bin", "mytool.old"), "mytool.bin");
    assert_eq!(renamed_file_name("tool.", "mytool"), "mytool");
}

#[test]
fn paths_are_joined_under_the_data_directory() {
    assert_eq!(join_path("a", "b"), "a/b");
    assert_eq!(join_path("", "b"), "b");
    assert_eq!(install_dir_for("/data/grip", "foo", "1.2.0"), "/data/grip/packages/foo/1.2.0");
}

#[test]
fn install_tarball_scenario() {
    let d = def("foo", Some("foo"));
    let releases = vec![release("1.2.0", &["foo-linux.tar.gz", "foo-windows.zip"])];
    let ri = select_release(&releases, &Some(s("1.2.0")), 0).unwrap();
    let ai = select_asset(&releases[ri], &Some(s("foo-linux.tar.gz")), 0).unwrap();
    let plan = plan_install(&s(""), &s("foo"), &d, &releases[ri], ai);
    assert_eq!(plan.kind, ArchiveKind::TarGz);
    assert_eq!(plan.file_name, "foo-linux.tar.gz");
    assert_eq!(plan.download_url, "https://example.com/dl/foo-linux.tar.gz");
    assert_eq!(plan.target_dir, "packages/foo/1.2.0");
    assert_eq!(plan.rename_to, None);
    assert_eq!(plan.executable_path.as_deref(), Some("packages/foo/1.2.0/foo"));
    let mut st = PackageState::new();
    record_install(&mut st, s("foo"), &plan);
    let p = st.get_package(&s("foo")).unwrap();
    assert_eq!(p.version, "1.2.0");
    assert_eq!(p.install_path, "packages/foo/1.2.0");
    assert_eq!(p.executable_path.as_deref(), Some("packages/foo/1.2.0/foo"));
    let mut path = vec![s("/usr/bin")];
    assert!(add_to_path(&mut path, &plan.target_dir));
    assert_eq!(path, vec![s("/usr/bin"), s("packages/foo/1.2.0")]);
}

#[test]
fn install_raw_executable_scenario() {
    let d = def("foo", Some("foo"));
    let r = release("1.0", &["foo.exe"]);
    let plan = plan_install(&s("data"), &s("foo"), &d, &r, 0);
    assert_eq!(plan.kind, ArchiveKind::Raw);
    assert_eq!(plan.rename_to.as_deref(), Some("foo.exe"));
    assert_eq!(plan.executable_path.as_deref(), Some("data/packages/foo/1.0/foo.exe"));
    let mut st = PackageState::new();
    record_install(&mut st, s("foo"), &plan);
    assert_eq!(
        st.get_package(&s("foo")).unwrap().executable_path.as_deref(),
        Some("data/packages/foo/1.0/foo.exe")
    );
}

#[test]
fn install_raw_without_executable_name() {
    let d = def("foo", None);
    let r = release("1.0", &["foo-linux"]);
    let plan = plan_install(&s("data"), &s("foo"), &d, &r, 0);
    assert_eq!(plan.rename_to, None);
    assert_eq!(plan.executable_path, None);
}

#[test]
fn missing_asset_scenario_leaves_no_trace() {
    let releases = vec![release("1.2.0", &["foo-linux.tar.gz", "foo-windows.zip"])];
    let st = PackageState::new();
    let path = vec![s("/usr/bin")];
    let ri = select_release(&releases, &Some(s("1.2.0")), 0).unwrap();
    let res = select_asset(&releases[ri], &Some(s("foo-mac.dmg")), 0);
    assert_eq!(res, Err(GripError::AssetNotFound));
    assert!(st.list_packages().is_empty());
    assert_eq!(path, vec![s("/usr/bin")]);
}

#[test]
fn error_messages_are_one_line() {
    for e in [
        GripError::PackageNotFound,
        GripError::NoReleases,
        GripError::VersionNotFound,
        GripError::AssetNotFound,
        GripError::NetworkError,
        GripError::RegistryAlreadyExists,
        GripError::RegistryNotFound,
        GripError::CannotRemoveDefaultRegistry,
    ] {
        assert!(!e.message().is_empty());
        assert!(!e.message().contains('\n'));
    }
    assert_eq!(GripError::AssetNotFound.message(), "asset not found");
}
