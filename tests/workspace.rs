use cargo_ws::{toolchain_name, Cargo, CargoLock, Package, Workspace, WorkspaceFolder};

fn lock_of(pkgs: &[(&str, &str)]) -> CargoLock {
    CargoLock {
        package: Some(
            pkgs.iter()
                .map(|(n, v)| Package {
                    name: n.to_string(),
                    version: v.to_string(),
                })
                .collect(),
        ),
    }
}

fn listing(names: &[&str]) -> Option<Vec<String>> {
    Some(names.iter().map(|s| s.to_string()).collect())
}

#[test]
fn test_from_workspace() {
    let cargo = lock_of(&[("anyhow", "1.0.58"), ("toml", "0.5.9")]);

    let ws = Workspace::from("rustup", "registry", None, &cargo);

    assert!(ws.folders.is_some());
    assert!(ws.settings.is_some());
}

#[test]
fn test_from_workspace_failure() {
    let ws = Workspace::from("", "", None, &CargoLock { package: None });

    let folders = ws.folders;
    assert!(folders.unwrap().is_empty());
    let settings = ws.settings.unwrap();
    assert!(settings.file_excludes.unwrap().is_empty());
    assert!(settings.rust_exclude_dirs.unwrap().is_empty());
}

#[test]
fn unused_cached_packages_are_excluded() {
    let lock = lock_of(&[("a", "1.0"), ("b", "2.0")]);
    let ws = Workspace::from("/std", "/cache", listing(&["a-1.0", "b-2.0", "c-3.0"]), &lock);
    let excludes = ws.settings.unwrap().file_excludes.unwrap();
    assert_eq!(excludes, vec![("c-3.0".to_string(), true)]);
}

#[test]
fn every_entry_excluded_without_packages() {
    let lock = CargoLock { package: None };
    let ws = Workspace::from("/std", "/cache", listing(&["x-1", "y-2"]), &lock);
    let excludes = ws.settings.unwrap().file_excludes.unwrap();
    assert_eq!(
        excludes,
        vec![("x-1".to_string(), true), ("y-2".to_string(), true)]
    );
}

#[test]
fn repeated_entry_excluded_once() {
    let lock = lock_of(&[("a", "1.0")]);
    let ws = Workspace::from("/std", "/cache", listing(&["z-9", "a-1.0", "z-9"]), &lock);
    let excludes = ws.settings.unwrap().file_excludes.unwrap();
    assert_eq!(excludes, vec![("z-9".to_string(), true)]);
}

#[test]
fn same_name_other_version_is_excluded() {
    let lock = lock_of(&[("a", "1.0")]);
    let ws = Workspace::from("/std", "/cache", listing(&["a-1.1", "a-1.0"]), &lock);
    let excludes = ws.settings.unwrap().file_excludes.unwrap();
    assert_eq!(excludes, vec![("a-1.1".to_string(), true)]);
}

#[test]
fn folders_and_exclude_dirs() {
    let lock = lock_of(&[("a", "1.0")]);
    let ws = Workspace::from("/std", "/cache", listing(&[]), &lock);
    let folders = ws.folders.unwrap();
    assert_eq!(
        folders,
        vec![
            WorkspaceFolder {
                name: String::new(),
                path: ".".to_string(),
            },
            WorkspaceFolder {
                name: "Stdlib".to_string(),
                path: "/std".to_string(),
            },
            WorkspaceFolder {
                name: "External Libraries".to_string(),
                path: "/cache".to_string(),
            },
        ]
    );
    let settings = ws.settings.unwrap();
    assert!(settings.file_excludes.unwrap().is_empty());
    assert_eq!(
        settings.rust_exclude_dirs.unwrap(),
        vec!["/cache".to_string(), "/std".to_string()]
    );
}

#[test]
fn root_folder_first() {
    let lock = CargoLock { package: None };
    let ws = Workspace::from("", "", listing(&["q-1"]), &lock);
    let folders = ws.folders.unwrap();
    assert_eq!(folders[0].path, ".");
    assert_eq!(folders[0].name, "");
}

#[test]
fn toolchain_from_rustup_output() {
    assert_eq!(
        toolchain_name("stable-x86_64-unknown-linux-gnu (default)\n"),
        "stable-x86_64-unknown-linux-gnu"
    );
    assert_eq!(toolchain_name("nightly"), "nightly");
    assert_eq!(toolchain_name(" lead"), "lead");
    assert_eq!(toolchain_name(""), "");
}

#[test]
fn toolchain_stops_at_any_whitespace() {
    assert_eq!(toolchain_name("nightly\n"), "nightly");
    assert_eq!(toolchain_name("beta\t(default)"), "beta");
    assert_eq!(toolchain_name("\n\r\n stable\u{a0}x"), "stable");
    assert_eq!(toolchain_name("  \t\n"), "");
}

#[test]
fn file_name_from_package() {
    let cargo = Cargo {
        package: Some(Package {
            name: "demo".to_string(),
            version: "0.1.0".to_string(),
        }),
    };
    assert_eq!(cargo.workspace_file_name(), "demo.code-workspace");
}

#[test]
fn file_name_without_package() {
    let cargo = Cargo { package: None };
    assert_eq!(cargo.workspace_file_name(), "cargo-ws.code-workspace");
}
