use cargo_ws::{Cargo, CargoCfg, CargoLock, Package, ParseError, Source};

const MANIFEST: &str = r#"
[package]
name = "cargo-ws"
version = "0.1.0"
edition = "2021"

[dependencies]
anyhow = "1.0"
toml = "0.5"
"#;

const LOCK: &str = r#"
version = 3

[[package]]
name = "anyhow"
version = "1.0.58"
source = "registry+https://github.com/rust-lang/crates.io-index"
checksum = "bb07d2053ccdbe10e2af2995a2f116c1330396493dc1269f6a91d0ae82e19704"

[[package]]
name = "cargo-ws"
version = "0.1.0"
dependencies = [
 "anyhow",
 "toml",
]

[[package]]
name = "toml"
version = "0.5.9"
source = "registry+https://github.com/rust-lang/crates.io-index"
"#;

#[test]
fn test_from_cargo() {
    let cargo = Cargo::parse(MANIFEST).unwrap();

    assert!(cargo.package.is_some());
}

#[test]
fn test_from_cargo_lock() {
    let cargo = CargoLock::parse(LOCK).unwrap();

    assert!(cargo.package.is_some());
}

#[test]
fn manifest_name_is_the_declared_one() {
    let cargo = Cargo::parse(MANIFEST).unwrap();
    let pkg = cargo.package.unwrap();
    assert_eq!(pkg.name, "cargo-ws");
    assert_eq!(pkg.version, "0.1.0");
}

#[test]
fn manifest_without_package() {
    let cargo = Cargo::parse("[workspace]\nmembers = [\"a\"]\n").unwrap();
    assert!(cargo.package.is_none());
}

#[test]
fn manifest_not_toml() {
    assert_eq!(Cargo::parse("[package\nname = "), Err(ParseError::Syntax));
}

#[test]
fn manifest_package_without_version() {
    assert_eq!(Cargo::parse("[package]\nname = \"x\"\n"), Err(ParseError::Shape));
}

#[test]
fn manifest_package_not_a_table() {
    assert_eq!(Cargo::parse("package = \"x\"\n"), Err(ParseError::Shape));
}

#[test]
fn manifest_name_not_a_string() {
    assert_eq!(
        Cargo::parse("[package]\nname = 3\nversion = \"1.0\"\n"),
        Err(ParseError::Shape)
    );
}

#[test]
fn lock_lists_one_package_per_entry() {
    let lock = CargoLock::parse(LOCK).unwrap();
    let pkgs = lock.package.unwrap();
    assert_eq!(pkgs.len(), 3);
    assert_eq!(pkgs[0].name, "anyhow");
    assert_eq!(pkgs[0].version, "1.0.58");
    assert_eq!(pkgs[2].name, "toml");
    assert_eq!(pkgs[2].version, "0.5.9");
}

#[test]
fn lock_without_packages() {
    let lock = CargoLock::parse("version = 3\n").unwrap();
    assert!(lock.package.is_none());
}

#[test]
fn lock_package_not_an_array() {
    assert_eq!(CargoLock::parse("package = 1\n"), Err(ParseError::Shape));
}

#[test]
fn lock_entry_without_version() {
    assert_eq!(
        CargoLock::parse("[[package]]\nname = \"a\"\n"),
        Err(ParseError::Shape)
    );
}

#[test]
fn lock_not_toml() {
    assert_eq!(CargoLock::parse("[[package]\n"), Err(ParseError::Syntax));
}

#[test]
fn package_dir_name() {
    let p = Package {
        name: "serde_json".to_string(),
        version: "1.0.82".to_string(),
    };
    assert_eq!(p.dir_name(), "serde_json-1.0.82");
}

const MIRROR_CFG: &str = r#"
[source.crates-io]
registry = "https://github.com/rust-lang/crates.io-index"
replace-with = "ustc"

[source.ustc]
registry = "git://mirrors.ustc.edu.cn/crates.io-index"
"#;

#[test]
fn cfg_reads_sources_in_key_order() {
    let cfg = CargoCfg::parse(MIRROR_CFG).unwrap();
    let srcs = cfg.source.unwrap();
    assert_eq!(srcs.len(), 2);
    assert_eq!(srcs[0].0, "crates-io");
    assert_eq!(
        srcs[0].1,
        Source {
            registry: Some("https://github.com/rust-lang/crates.io-index".to_string()),
            replace_with: Some("ustc".to_string()),
        }
    );
    assert_eq!(srcs[1].0, "ustc");
    assert_eq!(srcs[1].1.replace_with, None);
}

#[test]
fn cfg_registry_follows_replacement() {
    let cfg = CargoCfg::parse(MIRROR_CFG).unwrap();
    assert_eq!(
        cfg.registry_url(),
        Some("git://mirrors.ustc.edu.cn/crates.io-index".to_string())
    );
    assert_eq!(cfg.registry(), Some("mirrors.ustc.edu.cn".to_string()));
}

#[test]
fn cfg_registry_without_replacement() {
    let text = "[source.crates-io]\nregistry = \"https://github.com/rust-lang/crates.io-index\"\n";
    let cfg = CargoCfg::parse(text).unwrap();
    assert_eq!(cfg.registry(), Some("github.com".to_string()));
}

#[test]
fn cfg_registry_empty_replacement_uses_own() {
    let text = "[source.crates-io]\nregistry = \"https://index.example.org/x\"\nreplace-with = \"\"\n";
    let cfg = CargoCfg::parse(text).unwrap();
    assert_eq!(cfg.registry(), Some("index.example.org".to_string()));
}

#[test]
fn cfg_registry_missing_replacement() {
    let text = "[source.crates-io]\nreplace-with = \"nowhere\"\n";
    let cfg = CargoCfg::parse(text).unwrap();
    assert_eq!(cfg.registry_url(), None);
    assert_eq!(cfg.registry(), None);
}

#[test]
fn cfg_registry_replacement_without_url() {
    let text = "[source.crates-io]\nreplace-with = \"local\"\n\n[source.local]\ndirectory = \"vendor\"\n";
    let cfg = CargoCfg::parse(text).unwrap();
    assert_eq!(cfg.registry_url(), Some(String::new()));
    assert_eq!(cfg.registry(), None);
}

#[test]
fn cfg_registry_none_without_sources() {
    let cfg = CargoCfg::parse("[net]\nretry = 2\n").unwrap();
    assert!(cfg.source.is_none());
    assert_eq!(cfg.registry(), None);
}

#[test]
fn cfg_registry_none_without_crates_io() {
    let cfg = CargoCfg::parse("[source.other]\nregistry = \"https://a.example/\"\n").unwrap();
    assert_eq!(cfg.registry(), None);
}

#[test]
fn cfg_source_not_a_table() {
    assert_eq!(CargoCfg::parse("source = 1\n"), Err(ParseError::Shape));
    assert_eq!(
        CargoCfg::parse("[source]\ncrates-io = \"x\"\n"),
        Err(ParseError::Shape)
    );
}

#[test]
fn cfg_registry_not_a_string() {
    assert_eq!(
        CargoCfg::parse("[source.crates-io]\nregistry = 5\n"),
        Err(ParseError::Shape)
    );
}

#[test]
fn cfg_not_toml() {
    assert_eq!(CargoCfg::parse("[source"), Err(ParseError::Syntax));
}
